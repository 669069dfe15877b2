//! The cancellation registry: which request ids are in flight, and which of
//! them the caller has cancelled.

use vstd::prelude::*;
use std::collections::HashMap;
use crate::response::{finish, outcome_result, ExecError, RaceOutcome, ResponseResult};

verus! {

/// The state of one in-flight request id.
pub enum Slot<H> {
    /// Sending; `H` is the handle that fires its cancellation signal.
    Live(H),
    /// Cancelled by the caller; its outcome will be `ExecError::Cancelled`.
    Cancelled,
}

#[derive(Clone, Copy, Debug, PartialEq, Eq, Structural)]
pub enum RegisterError {
    /// The id already has a live entry.
    DuplicateId,
}

#[derive(Clone, Copy, Debug, PartialEq, Eq, Structural)]
pub enum CancelError {
    /// No request with this id is waiting for its response.
    UnknownId,
}

/// Maps each in-flight request id to its cancellation handle. Entries are
/// added when a request starts and removed when it completes, however it ends.
pub struct Registry<H> {
    slots: HashMap<u64, Slot<H>>,
}

impl<H> View for Registry<H> {
    type V = Map<u64, Slot<H>>;

    closed spec fn view(&self) -> Map<u64, Slot<H>> {
        self.slots@
    }
}

/// The registry `m` after the caller cancels `id`, and what the caller gets
/// back: the handle to fire, or `UnknownId` where `id` is not waiting for a
/// response (never registered, already completed, or already cancelled).
pub open spec fn cancel_step<H>(m: Map<u64, Slot<H>>, id: u64) -> (Map<u64, Slot<H>>, Result<H, CancelError>) {
    if m.contains_key(id) && m[id] is Live {
        (m.insert(id, Slot::Cancelled), Ok(m[id]->Live_0))
    } else {
        (m, Err(CancelError::UnknownId))
    }
}

/// Whether a cancellation of `id` has been recorded in `m`.
pub open spec fn cancel_won<H>(m: Map<u64, Slot<H>>, id: u64) -> bool {
    m.contains_key(id) && m[id] is Cancelled
}

/// `r` is the result of completing `id` in registry `m` with race outcome `o`:
/// a recorded cancellation wins over whatever the race produced.
pub open spec fn completion_result<H>(
    m: Map<u64, Slot<H>>,
    id: u64,
    o: RaceOutcome,
    r: Result<ResponseResult, ExecError>,
) -> bool {
    if cancel_won(m, id) {
        r is Err && r->Err_0 is Cancelled
    } else {
        outcome_result(o, r)
    }
}

impl<H> Registry<H> {
    pub fn new() -> (r: Self)
        ensures
            r@ == Map::<u64, Slot<H>>::empty(),
    {
        Registry { slots: HashMap::new() }
    }

    /// Whether `id` has an entry.
    pub fn contains(&self, id: u64) -> (r: bool)
        ensures
            r == self@.contains_key(id),
    {
        self.slots.contains_key(&id)
    }

    /// Records that request `id` is sending, with the handle that cancels it.
    pub fn register(&mut self, id: u64, handle: H) -> (r: Result<(), RegisterError>)
        ensures
            old(self)@.contains_key(id) ==> r == Err::<(), RegisterError>(RegisterError::DuplicateId)
                && final(self)@ == old(self)@,
            !old(self)@.contains_key(id) ==> r is Ok && final(self)@ == old(self)@.insert(
                id,
                Slot::Live(handle),
            ),
    {
        if self.slots.contains_key(&id) {
            Err(RegisterError::DuplicateId)
        } else {
            self.slots.insert(id, Slot::Live(handle));
            Ok(())
        }
    }

    /// Cancels request `id`: hands back its handle, for the caller to fire, and
    /// records that its outcome is `ExecError::Cancelled`.
    pub fn cancel(&mut self, id: u64) -> (r: Result<H, CancelError>)
        ensures
            (final(self)@, r) == cancel_step(old(self)@, id),
    {
        let live = match self.slots.get(&id) {
            Some(Slot::Live(_)) => true,
            _ => false,
        };
        if !live {
            return Err(CancelError::UnknownId);
        }
        match self.slots.insert(id, Slot::Cancelled) {
            Some(Slot::Live(h)) => Ok(h),
            _ => Err(CancelError::UnknownId),
        }
    }

    /// Completes request `id` with the outcome of its race, and removes its entry.
    pub fn complete(&mut self, id: u64, o: RaceOutcome) -> (r: Result<ResponseResult, ExecError>)
        ensures
            final(self)@ == old(self)@.remove(id),
            completion_result(old(self)@, id, o, r),
    {
        match self.slots.remove(&id) {
            Some(Slot::Cancelled) => Err(ExecError::Cancelled),
            _ => finish(o),
        }
    }
}

/// A request cancelled while it waits for its response ends as
/// `ExecError::Cancelled`, whatever its race produced afterwards.
pub proof fn cancel_before_response_wins<H>(m: Map<u64, Slot<H>>, id: u64, o: RaceOutcome, r: Result<ResponseResult, ExecError>)
    requires
        m.contains_key(id),
        m[id] is Live,
        completion_result(cancel_step(m, id).0, id, o, r),
    ensures
        cancel_step(m, id).1 is Ok,
        r is Err && r->Err_0 is Cancelled,
{
}

/// Cancelling a request after it completed is refused with `UnknownId` and
/// changes nothing.
pub proof fn cancel_after_completion_is_noop<H>(m: Map<u64, Slot<H>>, id: u64)
    ensures
        cancel_step(m.remove(id), id) == (m.remove(id), Err::<H, CancelError>(CancelError::UnknownId)),
{
}

/// Cancelling an unknown id is refused with `UnknownId` and changes nothing.
pub proof fn cancel_unknown_is_noop<H>(m: Map<u64, Slot<H>>, id: u64)
    requires
        !m.contains_key(id),
    ensures
        cancel_step(m, id) == (m, Err::<H, CancelError>(CancelError::UnknownId)),
{
}

/// Cancelling one request leaves every other request as it was: its entry,
/// whether it can still be cancelled, and how it completes.
pub proof fn cancel_is_independent<H>(
    m: Map<u64, Slot<H>>,
    a: u64,
    b: u64,
    o: RaceOutcome,
    r: Result<ResponseResult, ExecError>,
)
    requires
        a != b,
    ensures
        cancel_step(m, a).0.contains_key(b) == m.contains_key(b),
        m.contains_key(b) ==> cancel_step(m, a).0[b] == m[b],
        cancel_step(cancel_step(m, a).0, b).1 == cancel_step(m, b).1,
        completion_result(cancel_step(m, a).0, b, o, r) == completion_result(m, b, o, r),
        cancel_step(m, a).0.remove(b) == cancel_step(m.remove(b), a).0,
{
    assert(cancel_step(m, a).0.remove(b) =~= cancel_step(m.remove(b), a).0);
}

} // verus!
