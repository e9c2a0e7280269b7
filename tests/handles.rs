use std::cell::RefCell;
use std::rc::Rc;

use vsnode::fetch::completion_result;
use vsnode::handle::{Frame, FrameRef, NodeRef};
use vsnode::error::GetFrameError;
use vsnode::node::{Node, Registry};

/// A stand-in for the engine's reference counting: it hands out a fresh address for every
/// reference and counts acquires and releases.
struct CountingEngine {
    next: usize,
    acquires: u64,
    releases: u64,
}

impl CountingEngine {
    fn new() -> Self {
        CountingEngine { next: 0x100, acquires: 0, releases: 0 }
    }

    fn acquire(&mut self) -> NodeRef {
        self.next += 8;
        self.acquires += 1;
        NodeRef { addr: self.next }
    }

    fn release(&mut self, _h: NodeRef) {
        self.releases += 1;
    }
}

fn clone_node<C>(engine: &mut CountingEngine, reg: &mut Registry<C>, _n: &Node) -> Node {
    assert!(reg.room());
    let h = engine.acquire();
    reg.acquire(h)
}

fn drop_node<C>(engine: &mut CountingEngine, reg: &mut Registry<C>, n: Node) {
    let h = n.handle();
    if reg.release(n) {
        engine.release(h);
    }
}

#[test]
fn refcount_balance_over_clones_and_drops() {
    let mut engine = CountingEngine::new();
    let mut reg: Registry<()> = Registry::new();
    let root = engine.acquire();
    let a = reg.acquire(root);
    let mut held = vec![];
    for i in 0..20 {
        let c = clone_node(&mut engine, &mut reg, &a);
        held.push(c);
        if i % 3 == 0 {
            let d = held.remove(0);
            drop_node(&mut engine, &mut reg, d);
        }
        assert_eq!(engine.acquires - engine.releases, reg.live_count() as u64);
        assert_eq!(reg.acquired() - reg.released(), reg.live_count() as u64);
    }
    while let Some(d) = held.pop() {
        drop_node(&mut engine, &mut reg, d);
        assert_eq!(engine.acquires - engine.releases, reg.live_count() as u64);
    }
    drop_node(&mut engine, &mut reg, a);
    assert_eq!(reg.live_count(), 0);
    assert_eq!(engine.acquires, engine.releases);
    assert_eq!(reg.acquired(), 21);
    assert_eq!(reg.released(), 21);
}

#[test]
fn clone_gives_independent_handle() {
    let mut engine = CountingEngine::new();
    let mut reg: Registry<()> = Registry::new();
    let a = reg.acquire(engine.acquire());
    let b = clone_node(&mut engine, &mut reg, &a);
    assert_ne!(a.serial(), b.serial());
    assert_ne!(a.handle(), b.handle());
    drop_node(&mut engine, &mut reg, a);
    assert!(reg.releasable(&b));
    assert_eq!(reg.live_count(), 1);
    drop_node(&mut engine, &mut reg, b);
    assert_eq!(engine.releases, 2);
}

#[test]
fn release_happens_once_under_failed_construction() {
    // A construction that fails after acquiring: the partly built handle is dropped on the
    // error path, and dropped again by a careless second cleanup.
    let mut engine = CountingEngine::new();
    let mut reg: Registry<()> = Registry::new();
    let h = engine.acquire();
    let partial = reg.acquire(h);
    let serial = partial.serial();
    let construction: Result<Node, Node> = Err(partial);
    match construction {
        Ok(n) => drop_node(&mut engine, &mut reg, n),
        Err(n) => drop_node(&mut engine, &mut reg, n),
    }
    assert_eq!(engine.releases, 1);
    assert_eq!(reg.released(), 1);
    assert_eq!(reg.live_count(), 0);
    // A second handle forged from another registry with the same serial is refused.
    let mut other: Registry<()> = Registry::new();
    let forged = other.acquire(h);
    assert_eq!(forged.serial(), serial);
    assert!(!reg.release(forged));
    assert_eq!(reg.released(), 1);
    assert_eq!(engine.acquires, engine.releases);
}

type Completion = Box<dyn for<'a> FnOnce(Result<Frame, GetFrameError<'a>>, usize, Node)>;

#[test]
fn async_single_delivery_in_reverse_order() {
    let mut engine = CountingEngine::new();
    let mut reg: Registry<Completion> = Registry::new();
    let node = reg.acquire(engine.acquire());
    let seen: Rc<RefCell<Vec<(usize, usize)>>> = Rc::new(RefCell::new(Vec::new()));
    let returned: Rc<RefCell<Vec<Node>>> = Rc::new(RefCell::new(Vec::new()));
    let mut tokens = vec![];
    for i in 0..10usize {
        let seen = seen.clone();
        let returned = returned.clone();
        let cb: Completion = Box::new(move |r, n, back| {
            let frame = r.ok().expect("frame expected");
            seen.borrow_mut().push((n, frame.handle().addr));
            returned.borrow_mut().push(back);
        });
        let h = engine.acquire();
        tokens.push(reg.register(h, i, cb));
    }
    assert_eq!(reg.live_count(), 11);
    for t in tokens.iter().rev() {
        assert!(reg.pending(*t));
        let (cb, n, back) = reg.complete(*t).expect("request outstanding");
        assert!(reg.releasable(&back));
        cb(completion_result(Some(FrameRef { addr: 1000 + n }), None), n, back);
        assert!(!reg.pending(*t));
        assert!(reg.complete(*t).is_none());
    }
    let seen = seen.borrow();
    assert_eq!(seen.len(), 10);
    for (k, (n, addr)) in seen.iter().enumerate() {
        assert_eq!(*n, 9 - k);
        assert_eq!(*addr, 1000 + *n);
    }
    let mut back: Vec<Node> = returned.borrow_mut().drain(..).collect();
    while let Some(b) = back.pop() {
        drop_node(&mut engine, &mut reg, b);
    }
    drop_node(&mut engine, &mut reg, node);
    assert_eq!(engine.acquires, engine.releases);
    assert_eq!(reg.live_count(), 0);
}

#[test]
fn async_after_local_drop() {
    let mut engine = CountingEngine::new();
    let mut reg: Registry<Completion> = Registry::new();
    let local = reg.acquire(engine.acquire());
    let delivered: Rc<RefCell<Option<(usize, Node)>>> = Rc::new(RefCell::new(None));
    let d = delivered.clone();
    let cb: Completion = Box::new(move |r, n, back| {
        assert!(r.is_err());
        *d.borrow_mut() = Some((n, back));
    });
    let token = reg.register(engine.acquire(), 5, cb);
    drop_node(&mut engine, &mut reg, local);
    assert_eq!(engine.releases, 1);
    assert_eq!(reg.live_count(), 1);
    assert!(reg.pending(token));
    let (cb, n, back) = reg.complete(token).expect("request outstanding");
    assert!(reg.releasable(&back));
    assert_eq!(n, 5);
    let msg: &[u8] = b"gone";
    cb(completion_result(None, Some(msg)), n, back);
    let (n, back) = delivered.borrow_mut().take().expect("completion ran");
    assert_eq!(n, 5);
    assert!(reg.releasable(&back));
    drop_node(&mut engine, &mut reg, back);
    assert_eq!(reg.live_count(), 0);
    assert_eq!(engine.acquires, engine.releases);
}

#[test]
fn request_node_cannot_be_released_while_outstanding() {
    let mut engine = CountingEngine::new();
    let mut reg: Registry<u32> = Registry::new();
    let token = reg.register(engine.acquire(), 1, 77);
    let mut other: Registry<u32> = Registry::new();
    let forged = other.acquire(NodeRef { addr: 0x108 });
    assert!(!reg.release(forged));
    assert!(reg.pending(token));
    assert_eq!(reg.live_count(), 1);
    let (cb, n, back) = reg.complete(token).unwrap();
    assert_eq!((cb, n), (77, 1));
    assert!(reg.release(back));
    assert_eq!(reg.live_count(), 0);
    assert!(reg.complete(token).is_none());
    assert!(reg.complete(99).is_none());
}

#[test]
fn deliver_pairs_result_with_request() {
    let mut engine = CountingEngine::new();
    let mut reg: Registry<&'static str> = Registry::new();
    let t0 = reg.register(engine.acquire(), 3, "first");
    let t1 = reg.register(engine.acquire(), 4, "second");
    let msg: &[u8] = b"bad frame";
    let (cb, r, n, back) = reg.deliver(t1, None, Some(msg)).expect("outstanding");
    assert_eq!((cb, n), ("second", 4));
    match r {
        Err(e) => {
            assert!(e.is_borrowed());
            assert_eq!(e.message(), b"bad frame");
        }
        Ok(_) => panic!("expected an error"),
    }
    assert!(reg.releasable(&back));
    assert!(reg.deliver(t1, None, None).is_none());
    let (cb, r, n, back0) = reg.deliver(t0, Some(FrameRef { addr: 99 }), None).expect("outstanding");
    assert_eq!((cb, n), ("first", 3));
    assert_eq!(r.unwrap().handle(), FrameRef { addr: 99 });
    assert!(reg.release(back));
    assert!(reg.release(back0));
    assert_eq!(reg.live_count(), 0);
    assert_eq!(reg.acquired(), 2);
    assert_eq!(reg.released(), 2);
}

#[test]
fn pending_count_follows_requests() {
    let mut engine = CountingEngine::new();
    let mut reg: Registry<u8> = Registry::new();
    assert_eq!(reg.pending_count(), 0);
    let a = reg.register(engine.acquire(), 0, 1);
    let b = reg.register(engine.acquire(), 1, 2);
    assert_ne!(a, b);
    assert_eq!(reg.pending_count(), 2);
    let _ = reg.complete(a);
    assert_eq!(reg.pending_count(), 1);
    assert!(reg.pending(b));
    assert!(!reg.pending(a));
}
