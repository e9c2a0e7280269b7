use vstd::prelude::*;

verus! {

/// Size of the scratch buffer into which the engine writes the text of a failed fetch.
pub const ERROR_BUF_CAPACITY: usize = 32768;

/// `p` is the text of the NUL-terminated string at the start of `buf`: a prefix of `buf`
/// without a NUL byte, that ends at the first NUL of `buf` or at its end.
pub open spec fn is_c_str_of(p: Seq<u8>, buf: Seq<u8>) -> bool {
    &&& p.len() <= buf.len()
    &&& p == buf.subrange(0, p.len() as int)
    &&& forall|i: int| 0 <= i < p.len() ==> p[i] != 0u8
    &&& (p.len() == buf.len() || buf[p.len() as int] == 0u8)
}

/// Two strings that both are the text at the start of `buf` are the same.
pub proof fn lemma_c_str_unique(p: Seq<u8>, q: Seq<u8>, buf: Seq<u8>)
    requires
        is_c_str_of(p, buf),
        is_c_str_of(q, buf),
    ensures
        p == q,
{
    if p.len() < q.len() {
        assert(q[p.len() as int] == buf[p.len() as int]);
    } else if q.len() < p.len() {
        assert(p[q.len() as int] == buf[q.len() as int]);
    }
    assert(p =~= q);
}

/// A fresh scratch buffer for the engine's error text, filled with NUL bytes.
pub fn new_error_buffer() -> (buf: Vec<u8>)
    ensures
        buf@.len() == ERROR_BUF_CAPACITY,
        forall|i: int| 0 <= i < buf@.len() ==> buf@[i] == 0u8,
{
    let mut buf: Vec<u8> = Vec::with_capacity(ERROR_BUF_CAPACITY);
    while buf.len() < ERROR_BUF_CAPACITY
        invariant
            buf@.len() <= ERROR_BUF_CAPACITY,
            forall|i: int| 0 <= i < buf@.len() ==> buf@[i] == 0u8,
        decreases ERROR_BUF_CAPACITY - buf@.len(),
    {
        buf.push(0u8);
    }
    buf
}

/// Copies out the NUL-terminated text at the start of `buf` (all of `buf` where it holds no NUL).
pub fn c_str_text(buf: &[u8]) -> (r: Vec<u8>)
    ensures
        is_c_str_of(r@, buf@),
{
    let mut r: Vec<u8> = Vec::new();
    let mut i: usize = 0;
    while i < buf.len() && buf[i] != 0u8
        invariant
            i <= buf@.len(),
            r@ == buf@.subrange(0, i as int),
            forall|k: int| 0 <= k < i ==> buf@[k] != 0u8,
        decreases buf@.len() - i,
    {
        r.push(buf[i]);
        i = i + 1;
        assert(r@ =~= buf@.subrange(0, i as int));
    }
    r
}

/// Text of a failed fetch: copied into an owned buffer, or borrowed from the engine for as long
/// as it keeps the text alive.
#[derive(Debug)]
pub enum ErrorText<'a> {
    Owned(Vec<u8>),
    Borrowed(&'a [u8]),
}

/// The error of a frame fetch that the engine could not complete.
#[derive(Debug)]
pub struct GetFrameError<'a> {
    text: ErrorText<'a>,
}

impl<'a> GetFrameError<'a> {
    /// The bytes of the message.
    pub closed spec fn message_spec(&self) -> Seq<u8> {
        match self.text {
            ErrorText::Owned(v) => v@,
            ErrorText::Borrowed(s) => s@,
        }
    }

    /// Whether the message still lives in memory that the engine owns.
    pub closed spec fn is_borrowed_spec(&self) -> bool {
        self.text is Borrowed
    }

    /// An error that owns its message.
    pub fn owned(message: Vec<u8>) -> (e: GetFrameError<'static>)
        ensures
            e.message_spec() == message@,
            !e.is_borrowed_spec(),
    {
        GetFrameError { text: ErrorText::Owned(message) }
    }

    /// An error whose message is borrowed from the engine.
    pub fn borrowed(message: &'a [u8]) -> (e: GetFrameError<'a>)
        ensures
            e.message_spec() == message@,
            e.is_borrowed_spec(),
    {
        GetFrameError { text: ErrorText::Borrowed(message) }
    }

    /// The bytes of the message, without a terminating NUL.
    pub fn message(&self) -> (r: &[u8])
        ensures
            r@ == self.message_spec(),
    {
        match &self.text {
            ErrorText::Owned(v) => v.as_slice(),
            ErrorText::Borrowed(s) => s,
        }
    }

    /// Whether the message still lives in memory that the engine owns.
    pub fn is_borrowed(&self) -> (r: bool)
        ensures
            r == self.is_borrowed_spec(),
    {
        match &self.text {
            ErrorText::Owned(_) => false,
            ErrorText::Borrowed(_) => true,
        }
    }

    /// The same error with its message copied out, so that it outlives the engine's buffer.
    pub fn into_owned(self) -> (e: GetFrameError<'static>)
        ensures
            e.message_spec() == self.message_spec(),
            !e.is_borrowed_spec(),
    {
        match self.text {
            ErrorText::Owned(v) => GetFrameError { text: ErrorText::Owned(v) },
            ErrorText::Borrowed(s) => {
                let mut v: Vec<u8> = Vec::new();
                let mut i: usize = 0;
                while i < s.len()
                    invariant
                        i <= s@.len(),
                        v@ == s@.subrange(0, i as int),
                    decreases s@.len() - i,
                {
                    v.push(s[i]);
                    i = i + 1;
                    assert(v@ =~= s@.subrange(0, i as int));
                }
                assert(v@ =~= s@);
                GetFrameError { text: ErrorText::Owned(v) }
            },
        }
    }
}

} // verus!
