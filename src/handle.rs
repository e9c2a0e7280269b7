use vstd::prelude::*;

verus! {

/// Address of a node reference that the engine handed out.
#[derive(Clone, Copy, PartialEq, Eq, Structural, Debug)]
pub struct NodeRef {
    pub addr: usize,
}

/// Address of a frame reference that the engine handed out.
#[derive(Clone, Copy, PartialEq, Eq, Structural, Debug)]
pub struct FrameRef {
    pub addr: usize,
}

/// A frame produced by the engine; read-only, owning one reference to it.
#[derive(Debug)]
pub struct Frame {
    handle: FrameRef,
}

impl Frame {
    /// The engine reference this frame owns.
    pub closed spec fn handle_spec(&self) -> FrameRef {
        self.handle
    }

    /// Takes ownership of a frame reference received from the engine.
    pub fn from_ref(handle: FrameRef) -> (f: Frame)
        ensures
            f.handle_spec() == handle,
    {
        Frame { handle }
    }

    /// The engine reference this frame owns.
    pub fn handle(&self) -> (r: FrameRef)
        ensures
            r == self.handle_spec(),
    {
        self.handle
    }
}

} // verus!
