use std::collections::HashMap;
use vstd::prelude::*;

use crate::error::GetFrameError;
use crate::fetch::{completion_result, is_completion_of};
use crate::handle::{Frame, FrameRef, NodeRef};
use crate::index::valid_frame_index;

verus! {

broadcast use vstd::std_specs::hash::group_hash_axioms;

/// What the registry knows of one live node handle.
#[derive(Clone, Copy, PartialEq, Eq, Structural, Debug)]
pub struct Holder {
    /// The engine reference the handle owns.
    pub handle: NodeRef,
    /// Whether the handle is held by an outstanding asynchronous request.
    pub in_request: bool,
}

/// A handle to a node of the engine's graph, owning one engine reference.
///
/// Only a `Registry` makes one, with a serial number that no other handle of it carries.
#[derive(Debug)]
pub struct Node {
    handle: NodeRef,
    serial: u64,
}

impl Node {
    pub closed spec fn handle_spec(&self) -> NodeRef {
        self.handle
    }

    pub closed spec fn serial_spec(&self) -> u64 {
        self.serial
    }

    /// The engine reference this handle owns.
    pub fn handle(&self) -> (r: NodeRef)
        ensures
            r == self.handle_spec(),
    {
        self.handle
    }

    /// The serial number the registry gave this handle.
    pub fn serial(&self) -> (r: u64)
        ensures
            r == self.serial_spec(),
    {
        self.serial
    }
}

/// An outstanding asynchronous fetch: the frame number, the one-shot completion action, and the
/// node handle that keeps the node referenced until the request completes.
pub struct Request<C> {
    pub index: usize,
    pub callback: C,
    pub node: Node,
}

/// Bookkeeping for the node handles of one engine, and for the asynchronous requests that are
/// outstanding on it.
///
/// Every live handle stands for one engine reference: the references acquired minus those
/// released always equal the live handles. A handle is released at most once, and one held by
/// an outstanding request is not released at all. Each registered request is delivered at most
/// once, with the frame number it was registered with. A request's token is the serial number
/// of the handle it holds, so no token is ever handed out twice.
pub struct Registry<C> {
    live: HashMap<u64, Holder>,
    requests: HashMap<u64, Request<C>>,
    next_serial: u64,
    acquired: u64,
    released: u64,
}

/// The holder of a handle that is not held by a request.
pub open spec fn free_holder(handle: NodeRef) -> Holder {
    Holder { handle, in_request: false }
}

/// The holder of a handle that an outstanding request holds.
pub open spec fn request_holder(handle: NodeRef) -> Holder {
    Holder { handle, in_request: true }
}

impl<C> Registry<C> {
    /// Live handles, by serial number.
    pub closed spec fn live_spec(&self) -> Map<u64, Holder> {
        self.live@
    }

    /// Outstanding requests, by token.
    pub closed spec fn requests_spec(&self) -> Map<u64, Request<C>> {
        self.requests@
    }

    /// Serial number of the next handle.
    pub closed spec fn next_serial_spec(&self) -> u64 {
        self.next_serial
    }

    /// Engine references taken over so far.
    pub closed spec fn acquired_spec(&self) -> nat {
        self.acquired as nat
    }

    /// Engine references given back so far.
    pub closed spec fn released_spec(&self) -> nat {
        self.released as nat
    }

    /// Whether the request of `token` is registered and not yet delivered.
    pub open spec fn pending_spec(&self, token: u64) -> bool {
        self.requests_spec().contains_key(token)
    }

    /// Whether `node` can be released: it is live and no request holds it.
    pub open spec fn releasable_spec(&self, node: &Node) -> bool {
        &&& self.live_spec().contains_key(node.serial_spec())
        &&& self.live_spec()[node.serial_spec()] == free_holder(node.handle_spec())
    }

    /// Whether one more handle can be made without a counter overflowing.
    pub open spec fn has_room(&self) -> bool {
        &&& self.next_serial_spec() < u64::MAX
        &&& self.acquired_spec() < u64::MAX
    }

    /// `self` is `before` once the request of `token` has been delivered: the request is gone
    /// and its handle is live and free.
    pub open spec fn is_delivery_of(&self, before: &Self, token: u64) -> bool {
        let q = before.requests_spec()[token];
        &&& self.requests_spec() == before.requests_spec().remove(token)
        &&& self.live_spec() == before.live_spec().insert(
            q.node.serial_spec(),
            free_holder(q.node.handle_spec()),
        )
        &&& self.next_serial_spec() == before.next_serial_spec()
        &&& self.acquired_spec() == before.acquired_spec()
        &&& self.released_spec() == before.released_spec()
    }

    /// `self` holds the same handles and requests as `before`.
    pub open spec fn is_same_as(&self, before: &Self) -> bool {
        &&& self.requests_spec() == before.requests_spec()
        &&& self.live_spec() == before.live_spec()
        &&& self.next_serial_spec() == before.next_serial_spec()
        &&& self.acquired_spec() == before.acquired_spec()
        &&& self.released_spec() == before.released_spec()
    }

    /// The registry's invariant.
    pub closed spec fn wf(&self) -> bool {
        &&& self.released <= self.acquired
        &&& self.acquired - self.released == self.live@.len()
        &&& forall|s: u64| #[trigger] self.live@.contains_key(s) ==> s < self.next_serial
        &&& forall|t: u64| #[trigger]
            self.requests@.contains_key(t) ==> {
                let n = self.requests@[t].node;
                &&& n.serial == t
                &&& self.live@.contains_key(t)
                &&& self.live@[t] == request_holder(n.handle)
            }
    }

    /// An empty registry.
    pub fn new() -> (r: Registry<C>)
        ensures
            r.wf(),
            r.live_spec() == Map::<u64, Holder>::empty(),
            r.requests_spec() == Map::<u64, Request<C>>::empty(),
            r.next_serial_spec() == 0,
            r.acquired_spec() == 0,
            r.released_spec() == 0,
    {
        let r = Registry {
            live: HashMap::new(),
            requests: HashMap::new(),
            next_serial: 0,
            acquired: 0,
            released: 0,
        };
        assert(r.live@.len() == 0);
        r
    }

    /// Takes over an engine reference (a node the engine handed out, or a clone it made of
    /// one) and wraps it in a handle with a fresh serial number.
    pub fn acquire(&mut self, handle: NodeRef) -> (node: Node)
        requires
            old(self).wf(),
            old(self).has_room(),
        ensures
            final(self).wf(),
            node.handle_spec() == handle,
            node.serial_spec() == old(self).next_serial_spec(),
            !old(self).live_spec().contains_key(node.serial_spec()),
            final(self).live_spec() == old(self).live_spec().insert(
                node.serial_spec(),
                free_holder(handle),
            ),
            final(self).requests_spec() == old(self).requests_spec(),
            final(self).next_serial_spec() == old(self).next_serial_spec() + 1,
            final(self).acquired_spec() == old(self).acquired_spec() + 1,
            final(self).released_spec() == old(self).released_spec(),
    {
        let serial = self.next_serial;
        assert(!self.live@.contains_key(serial));
        self.live.insert(serial, Holder { handle, in_request: false });
        self.next_serial = serial + 1;
        self.acquired = self.acquired + 1;
        Node { handle, serial }
    }

    /// Gives up a handle. Returns whether its engine reference is to be released: exactly when
    /// the handle is live and no request holds it.
    pub fn release(&mut self, node: Node) -> (r: bool)
        requires
            old(self).wf(),
        ensures
            final(self).wf(),
            r == old(self).releasable_spec(&node),
            r ==> final(self).live_spec() == old(self).live_spec().remove(node.serial_spec()),
            r ==> final(self).released_spec() == old(self).released_spec() + 1,
            !r ==> final(self).live_spec() == old(self).live_spec(),
            !r ==> final(self).released_spec() == old(self).released_spec(),
            final(self).requests_spec() == old(self).requests_spec(),
            final(self).next_serial_spec() == old(self).next_serial_spec(),
            final(self).acquired_spec() == old(self).acquired_spec(),
    {
        let found = match self.live.get(&node.serial) {
            Some(h) => *h == Holder { handle: node.handle, in_request: false },
            None => false,
        };
        if found {
            self.live.remove(&node.serial);
            self.released = self.released + 1;
        }
        found
    }

    /// Registers an asynchronous fetch of frame `index`: takes over `handle`, a clone the engine
    /// made of the node that is asked, for the request to hold, and returns the request's token.
    pub fn register(&mut self, handle: NodeRef, index: usize, callback: C) -> (token: u64)
        requires
            old(self).wf(),
            old(self).has_room(),
            valid_frame_index(index as int),
        ensures
            final(self).wf(),
            token == old(self).next_serial_spec(),
            !old(self).pending_spec(token),
            final(self).requests_spec() == old(self).requests_spec().insert(
                token,
                final(self).requests_spec()[token],
            ),
            ({
                let q = final(self).requests_spec()[token];
                &&& q.index == index
                &&& q.callback == callback
                &&& q.node.handle_spec() == handle
                &&& q.node.serial_spec() == token
            }),
            final(self).live_spec() == old(self).live_spec().insert(token, request_holder(handle)),
            final(self).next_serial_spec() == old(self).next_serial_spec() + 1,
            final(self).acquired_spec() == old(self).acquired_spec() + 1,
            final(self).released_spec() == old(self).released_spec(),
    {
        let serial = self.next_serial;
        assert(!self.live@.contains_key(serial));
        self.live.insert(serial, Holder { handle, in_request: true });
        self.next_serial = serial + 1;
        self.acquired = self.acquired + 1;
        self.requests.insert(serial, Request { index, callback, node: Node { handle, serial } });
        serial
    }

    /// Delivers the request of `token`: hands back its completion action, its frame number and
    /// its node handle, which is then free to be released. `None` where the token names no
    /// outstanding request, so that no request is ever delivered twice.
    pub fn complete(&mut self, token: u64) -> (r: Option<(C, usize, Node)>)
        requires
            old(self).wf(),
        ensures
            final(self).wf(),
            r is Some <==> old(self).pending_spec(token),
            r matches Some(d) ==> {
                let q = old(self).requests_spec()[token];
                &&& d.0 == q.callback
                &&& d.1 == q.index
                &&& d.2 == q.node
                &&& final(self).is_delivery_of(old(self), token)
                &&& final(self).releasable_spec(&d.2)
            },
            r is None ==> final(self).is_same_as(old(self)),
    {
        match self.requests.remove(&token) {
            None => {
                assert(self.requests@ =~= old(self).requests@);
                None
            },
            Some(q) => {
                self.live.insert(q.node.serial, Holder { handle: q.node.handle, in_request: false });
                assert(old(self).live@.contains_key(token));
                assert(self.live@.len() == old(self).live@.len());
                Some((q.callback, q.index, q.node))
            },
        }
    }

    /// Delivers the request of `token` with what the engine handed back for it: its completion
    /// action, the fetch result (the frame, or an error borrowing the engine's message), its
    /// frame number and its node handle, which is then free to be released. `None` where the
    /// token names no outstanding request, so that no request is ever delivered twice.
    pub fn deliver<'a>(
        &mut self,
        token: u64,
        frame: Option<FrameRef>,
        error_msg: Option<&'a [u8]>,
    ) -> (r: Option<(C, Result<Frame, GetFrameError<'a>>, usize, Node)>)
        requires
            old(self).wf(),
        ensures
            final(self).wf(),
            r is Some <==> old(self).pending_spec(token),
            r matches Some(d) ==> {
                let q = old(self).requests_spec()[token];
                &&& d.0 == q.callback
                &&& is_completion_of(d.1, frame, error_msg)
                &&& d.2 == q.index
                &&& d.3 == q.node
                &&& final(self).is_delivery_of(old(self), token)
                &&& final(self).releasable_spec(&d.3)
            },
            r is None ==> final(self).is_same_as(old(self)),
    {
        match self.complete(token) {
            Some((callback, index, node)) => Some(
                (callback, completion_result(frame, error_msg), index, node),
            ),
            None => None,
        }
    }

    /// Whether the request of `token` is registered and not yet delivered.
    pub fn pending(&self, token: u64) -> (r: bool)
        ensures
            r == self.pending_spec(token),
    {
        self.requests.contains_key(&token)
    }

    /// Whether `node` can be released: it is live and no request holds it.
    pub fn releasable(&self, node: &Node) -> (r: bool)
        ensures
            r == self.releasable_spec(node),
    {
        match self.live.get(&node.serial) {
            Some(h) => *h == Holder { handle: node.handle, in_request: false },
            None => false,
        }
    }

    /// Whether one more handle can be made without a counter overflowing.
    pub fn room(&self) -> (r: bool)
        ensures
            r == self.has_room(),
    {
        self.next_serial < u64::MAX && self.acquired < u64::MAX
    }

    /// Number of live handles.
    pub fn live_count(&self) -> (r: usize)
        requires
            self.wf(),
        ensures
            r == self.live_spec().len(),
    {
        self.live.len()
    }

    /// Number of outstanding requests.
    pub fn pending_count(&self) -> (r: usize)
        ensures
            r == self.requests_spec().len(),
    {
        self.requests.len()
    }

    /// Engine references taken over so far.
    pub fn acquired(&self) -> (r: u64)
        ensures
            r == self.acquired_spec(),
    {
        self.acquired
    }

    /// Engine references given back so far.
    pub fn released(&self) -> (r: u64)
        ensures
            r == self.released_spec(),
    {
        self.released
    }
}

/// References stay balanced: in a well-formed registry (which every operation keeps well
/// formed) the engine references acquired, less those released, are exactly the live handles.
pub proof fn lemma_refcount_balance<C>(r: &Registry<C>)
    requires
        r.wf(),
    ensures
        r.released_spec() <= r.acquired_spec(),
        r.acquired_spec() - r.released_spec() == r.live_spec().len(),
{
}

/// A handle is released at most once: once `release` has given up its reference, the same
/// handle is no longer releasable, so a second `release` of it gives up nothing.
pub proof fn lemma_release_at_most_once<C>(before: &Registry<C>, after: &Registry<C>, node: &Node)
    requires
        before.releasable_spec(node),
        after.live_spec() == before.live_spec().remove(node.serial_spec()),
    ensures
        !after.releasable_spec(node),
{
}

/// A request is delivered at most once: once `complete` or `deliver` has delivered the request
/// of `token`, that token is no longer pending, while every other request stays as it was.
pub proof fn lemma_delivered_at_most_once<C>(before: &Registry<C>, after: &Registry<C>, token: u64)
    requires
        before.pending_spec(token),
        after.is_delivery_of(before, token),
    ensures
        !after.pending_spec(token),
        forall|t: u64| t != token ==> (after.pending_spec(t) <==> before.pending_spec(t)),
        forall|t: u64|
            t != token && #[trigger] after.pending_spec(t) ==> after.requests_spec()[t]
                == before.requests_spec()[t],
{
}

/// An outstanding request keeps its node alive on its own: the handle it holds is live and
/// cannot be released, whatever becomes of the caller's handle, until the request is delivered.
pub proof fn lemma_request_keeps_node<C>(r: &Registry<C>, token: u64)
    requires
        r.wf(),
        r.pending_spec(token),
    ensures
        ({
            let n = r.requests_spec()[token].node;
            &&& n.serial_spec() == token
            &&& r.live_spec().contains_key(token)
            &&& r.live_spec()[token] == request_holder(n.handle_spec())
            &&& !r.releasable_spec(&n)
        }),
{
}

/// Dropping the caller's handle does not touch an outstanding request: from a registry in which
/// the request of `token` is outstanding, a release (which leaves the requests as they are)
/// leads to one in which the same request is still outstanding and its handle still live.
pub proof fn lemma_request_survives_release<C>(before: &Registry<C>, after: &Registry<C>, token: u64)
    requires
        before.wf(),
        before.pending_spec(token),
        after.wf(),
        after.requests_spec() == before.requests_spec(),
    ensures
        after.pending_spec(token),
        after.requests_spec()[token] == before.requests_spec()[token],
        after.live_spec().contains_key(token),
{
}

} // verus!
