//! The reactor's registry: one pending wakeup per descriptor.
//!
//! The registry records which wakeup to deliver when the readiness facility
//! reports a descriptor. A registration is one-shot: delivering it removes
//! it, and a later wait needs a fresh `Reactor::add_event`. The registry is
//! keyed by the descriptor alone, so a second registration for a descriptor
//! replaces the first, whatever the two were interested in.

use crate::error::SysError;
use std::collections::HashMap;
use vstd::prelude::*;

verus! {

broadcast use vstd::std_specs::hash::group_hash_axioms;

/// A file descriptor as the operating system numbers it.
pub type RawFd = i32;

/// The readiness that a registration waits for.
#[derive(Clone, Copy, Debug, PartialEq, Eq, Structural)]
pub enum EpollEventType {
    /// The descriptor can be read, or a connection can be accepted.
    In,
    /// The descriptor can be written.
    Out,
}

/// What the registry holds for a descriptor.
#[derive(Debug, PartialEq, Eq)]
pub struct Registration<W> {
    pub interest: EpollEventType,
    pub waker: W,
}

/// What to do for one descriptor that the readiness facility reported.
#[derive(Debug, PartialEq, Eq)]
pub enum Dispatch<W> {
    /// The descriptor had a registration, which is now removed: stop
    /// watching the descriptor, then deliver the wakeup.
    Wake { fd: RawFd, interest: EpollEventType, waker: W },
    /// Nothing was registered for the descriptor: its registration was
    /// dropped or already delivered. Stop watching the descriptor, report
    /// it, and go on.
    Unregistered { fd: RawFd },
}

/// The registry of pending wakeups, generic in the wakeup handle.
pub struct Reactor<W> {
    wakers: HashMap<RawFd, Registration<W>>,
}

impl<W> View for Reactor<W> {
    type V = Map<RawFd, Registration<W>>;

    closed spec fn view(&self) -> Map<RawFd, Registration<W>> {
        self.wakers@
    }
}

/// The registrations of `wakers` for descriptors that are not in `fds`.
pub open spec fn without<W>(wakers: Map<RawFd, Registration<W>>, fds: Seq<RawFd>) -> Map<
    RawFd,
    Registration<W>,
> {
    Map::new(|fd: RawFd| wakers.contains_key(fd) && !fds.contains(fd), |fd: RawFd| wakers[fd])
}

/// The decision for the `i`-th reported descriptor, when the registry held
/// `wakers` before the first was handled: a registration is delivered the
/// first time its descriptor is reported and is gone after that.
pub open spec fn dispatch_at<W>(
    wakers: Map<RawFd, Registration<W>>,
    ready: Seq<RawFd>,
    i: int,
) -> Dispatch<W> {
    let fd = ready[i];
    if wakers.contains_key(fd) && !ready.take(i).contains(fd) {
        Dispatch::Wake { fd, interest: wakers[fd].interest, waker: wakers[fd].waker }
    } else {
        Dispatch::Unregistered { fd }
    }
}

proof fn lemma_without_step<W>(wakers: Map<RawFd, Registration<W>>, ready: Seq<RawFd>, i: int)
    requires
        0 <= i < ready.len(),
    ensures
        without(wakers, ready.take(i)).remove(ready[i]) == without(wakers, ready.take(i + 1)),
{
    let a = ready.take(i);
    let b = ready.take(i + 1);
    assert forall|fd: RawFd| b.contains(fd) <==> (a.contains(fd) || fd == ready[i]) by {
        if b.contains(fd) {
            let j = choose|j: int| 0 <= j < b.len() && b[j] == fd;
            if j < i {
                assert(a[j] == fd);
            }
        }
        if a.contains(fd) {
            let j = choose|j: int| 0 <= j < a.len() && a[j] == fd;
            assert(b[j] == fd);
        }
        if fd == ready[i] {
            assert(b[i] == fd);
        }
    }
    assert(without(wakers, a).remove(ready[i]) =~= without(wakers, b));
}

impl<W> Reactor<W> {
    /// A registry without registrations.
    pub fn new() -> (reactor: Reactor<W>)
        ensures
            reactor@ == Map::<RawFd, Registration<W>>::empty(),
    {
        Reactor { wakers: HashMap::new() }
    }

    /// Whether a wakeup is pending for `fd`.
    pub fn is_registered(&self, fd: RawFd) -> (b: bool)
        ensures
            b == self@.contains_key(fd),
    {
        self.wakers.contains_key(&fd)
    }

    /// The readiness that the pending wakeup of `fd` waits for, if one is
    /// pending.
    pub fn interest(&self, fd: RawFd) -> (r: Option<EpollEventType>)
        ensures
            r == (if self@.contains_key(fd) {
                Some(self@[fd].interest)
            } else {
                None
            }),
    {
        match self.wakers.get(&fd) {
            Some(registration) => Some(registration.interest),
            None => None,
        }
    }

    /// Records `waker` as the wakeup of `fd`, after the readiness facility
    /// was asked to watch `fd` for `op` and answered `watched`. Where the
    /// facility refused, nothing is recorded and its error is returned.
    /// Otherwise the registration takes the place of any earlier one for
    /// `fd`.
    pub fn add_event(
        &mut self,
        fd: RawFd,
        op: EpollEventType,
        waker: W,
        watched: Result<(), SysError>,
    ) -> (r: Result<(), SysError>)
        ensures
            r == watched,
            final(self)@ == (match watched {
                Ok(()) => old(self)@.insert(fd, Registration { interest: op, waker }),
                Err(_) => old(self)@,
            }),
    {
        if watched.is_ok() {
            self.wakers.insert(fd, Registration { interest: op, waker });
        }
        watched
    }

    /// Removes the registration of `fd` and returns it, if there is one.
    pub fn take_event(&mut self, fd: RawFd) -> (r: Option<Registration<W>>)
        ensures
            final(self)@ == old(self)@.remove(fd),
            r == (if old(self)@.contains_key(fd) {
                Some(old(self)@[fd])
            } else {
                None
            }),
    {
        self.wakers.remove(&fd)
    }
}

/// One round of the reactor's loop: decides, for the descriptors that one
/// wait reported, in their order, which wakeups to deliver. Every reported
/// descriptor loses its registration. A descriptor without one is answered
/// with `Dispatch::Unregistered` and the round goes on.
pub fn reactor_main_loop<W>(reactor: &mut Reactor<W>, ready: &Vec<RawFd>) -> (actions: Vec<
    Dispatch<W>,
>)
    ensures
        actions@.len() == ready@.len(),
        forall|i: int|
            0 <= i < ready@.len() ==> #[trigger] actions@[i] == dispatch_at(
                old(reactor)@,
                ready@,
                i,
            ),
        final(reactor)@ == without(old(reactor)@, ready@),
{
    let ghost start = reactor@;
    let mut actions: Vec<Dispatch<W>> = Vec::new();
    let mut i: usize = 0;
    proof {
        assert(reactor@ =~= without(start, ready@.take(0)));
    }
    while i < ready.len()
        invariant
            start == old(reactor)@,
            0 <= i <= ready@.len(),
            actions@.len() == i,
            reactor@ == without(start, ready@.take(i as int)),
            forall|k: int| 0 <= k < i ==> #[trigger] actions@[k] == dispatch_at(start, ready@, k),
        decreases ready@.len() - i,
    {
        let fd: RawFd = ready[i];
        let action = match reactor.take_event(fd) {
            Some(registration) => Dispatch::Wake {
                fd,
                interest: registration.interest,
                waker: registration.waker,
            },
            None => Dispatch::Unregistered { fd },
        };
        proof {
            lemma_without_step(start, ready@, i as int);
            assert(action == dispatch_at(start, ready@, i as int));
        }
        actions.push(action);
        i = i + 1;
    }
    proof {
        assert(ready@.take(ready@.len() as int) == ready@);
    }
    actions
}

/// Of two registrations for one descriptor, made before the descriptor is
/// reported, only the second stands: the registry is as if the first had
/// never been made, and the report delivers the second wakeup with the
/// second interest.
pub proof fn lemma_second_registration_supersedes<W>(
    wakers: Map<RawFd, Registration<W>>,
    fd: RawFd,
    first: Registration<W>,
    second: Registration<W>,
)
    ensures
        wakers.insert(fd, first).insert(fd, second) == wakers.insert(fd, second),
        dispatch_at(wakers.insert(fd, first).insert(fd, second), seq![fd], 0) == (Dispatch::Wake {
            fd,
            interest: second.interest,
            waker: second.waker,
        }),
{
    assert(wakers.insert(fd, first).insert(fd, second) =~= wakers.insert(fd, second));
    assert(seq![fd].take(0) =~= Seq::<RawFd>::empty());
}

/// A registration is delivered once: after a round, no reported
/// descriptor has a registration, other descriptors keep theirs, and a
/// descriptor that is reported again in the same round finds nothing.
pub proof fn lemma_registration_is_one_shot<W>(
    wakers: Map<RawFd, Registration<W>>,
    ready: Seq<RawFd>,
)
    ensures
        forall|i: int|
            0 <= i < ready.len() ==> !without(wakers, ready).contains_key(#[trigger] ready[i]),
        forall|fd: RawFd|
            !ready.contains(fd) && wakers.contains_key(fd) ==> without(wakers, ready).contains_key(
                fd,
            ) && #[trigger] without(wakers, ready)[fd] == wakers[fd],
        forall|i: int, j: int|
            0 <= i < j < ready.len() && ready[i] == ready[j] ==> #[trigger] dispatch_at(
                wakers,
                ready,
                j,
            ) == (Dispatch::<W>::Unregistered { fd: #[trigger] ready[i] }),
{
    assert forall|i: int, j: int| 0 <= i < j < ready.len() && ready[i] == ready[j] implies
        #[trigger] dispatch_at(wakers, ready, j) == (Dispatch::<W>::Unregistered {
            fd: #[trigger] ready[i],
        }) by {
        assert(ready.take(j)[i] == ready[j]);
    }
}

/// A reported descriptor with a registration, reported for the first time
/// in its round, gets exactly that registration's wakeup.
pub proof fn lemma_first_report_wakes<W>(
    wakers: Map<RawFd, Registration<W>>,
    ready: Seq<RawFd>,
    i: int,
)
    requires
        0 <= i < ready.len(),
        wakers.contains_key(ready[i]),
        forall|j: int| 0 <= j < i ==> ready[j] != ready[i],
    ensures
        dispatch_at(wakers, ready, i) == (Dispatch::Wake {
            fd: ready[i],
            interest: wakers[ready[i]].interest,
            waker: wakers[ready[i]].waker,
        }),
{
    if ready.take(i).contains(ready[i]) {
        let j = choose|j: int| 0 <= j < ready.take(i).len() && ready.take(i)[j] == ready[i];
        assert(ready[j] == ready[i]);
    }
}

} // verus!
