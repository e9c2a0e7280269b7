use vstd::prelude::*;

use crate::error::{is_c_str_of, c_str_text, GetFrameError};
use crate::handle::{Frame, FrameRef};

verus! {

/// Result of a blocking fetch, from what the engine returned: the frame where it gave one,
/// else an error owning the text that the engine wrote at the start of `err_buf`.
pub fn finish_get_frame(frame: Option<FrameRef>, err_buf: &[u8]) -> (r: Result<
    Frame,
    GetFrameError<'static>,
>)
    ensures
        r is Ok <==> frame is Some,
        r matches Ok(f) ==> frame == Some(f.handle_spec()),
        r matches Err(e) ==> is_c_str_of(e.message_spec(), err_buf@) && !e.is_borrowed_spec(),
{
    match frame {
        Some(h) => Ok(Frame::from_ref(h)),
        None => Err(GetFrameError::owned(c_str_text(err_buf))),
    }
}

/// The message of a delivery that carried no frame: the engine's text, or nothing.
pub open spec fn delivered_message(error_msg: Option<&[u8]>) -> Seq<u8> {
    match error_msg {
        Some(m) => m@,
        None => Seq::<u8>::empty(),
    }
}

/// `r` is the result of a delivery of `frame` and `error_msg`: the frame where the engine gave
/// one, else an error that borrows the engine's message.
pub open spec fn is_completion_of<'a>(
    r: Result<Frame, GetFrameError<'a>>,
    frame: Option<FrameRef>,
    error_msg: Option<&'a [u8]>,
) -> bool {
    &&& (r is Ok <==> frame is Some)
    &&& (r matches Ok(f) ==> frame == Some(f.handle_spec()))
    &&& (r matches Err(e) ==> e.is_borrowed_spec() && e.message_spec() == delivered_message(
        error_msg,
    ))
}

/// Result handed to a completion action, from what the engine delivered: the frame where it
/// gave one, else an error borrowing the engine's message (empty where it gave none).
pub fn completion_result<'a>(frame: Option<FrameRef>, error_msg: Option<&'a [u8]>) -> (r: Result<
    Frame,
    GetFrameError<'a>,
>)
    ensures
        is_completion_of(r, frame, error_msg),
{
    match frame {
        Some(h) => Ok(Frame::from_ref(h)),
        None => match error_msg {
            Some(m) => Err(GetFrameError::borrowed(m)),
            None => {
                let empty: &'a [u8] = &[];
                assert(empty@ =~= Seq::<u8>::empty());
                Err(GetFrameError::borrowed(empty))
            },
        },
    }
}

} // verus!
