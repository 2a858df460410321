//! The handoff protocol: a waiting user asks the holder of the capture slot
//! to yield; the holder accepts or denies; on acceptance the slot passes to
//! the requester as a recording. Each target has at most one request, which
//! lives `Pending -> Accepted | Denied` and is dropped the first time its
//! requester reads a final status.
use vstd::prelude::*;
use std::collections::HashMap;
use crate::recorder::{
    RecorderManager, RecorderError, TaskKind, SlotState, holds, slot_after_start, slot_after_stop, CliProbe,
    admission, cli_verdict,
};

verus! {

broadcast use vstd::std_specs::hash::group_hash_axioms;

/// Where a stop request stands.
#[derive(Clone, Copy, Debug, PartialEq, Eq, Structural)]
pub enum RequestStatus {
    Pending,
    Accepted,
    Denied,
}

/// A request, addressed to the holder of the slot, to yield it.
#[derive(Clone, Debug, PartialEq, Eq)]
pub struct StopRequest {
    pub requester_id: u128,
    pub requester_name: String,
    pub status: RequestStatus,
}

impl StopRequest {
    /// A pending request from `requester_id`.
    pub fn new(requester_id: u128, requester_name: String) -> (r: Self)
        ensures
            r == pending_request(requester_id, requester_name),
    {
        StopRequest { requester_id, requester_name, status: RequestStatus::Pending }
    }

    /// A copy of this request.
    pub fn duplicate(&self) -> (r: Self)
        ensures
            r == *self,
    {
        StopRequest {
            requester_id: self.requester_id,
            requester_name: self.requester_name.clone(),
            status: self.status,
        }
    }
}

/// A pending request from `requester_id`, named `requester_name`.
pub open spec fn pending_request(requester_id: u128, requester_name: String) -> StopRequest {
    StopRequest { requester_id, requester_name, status: RequestStatus::Pending }
}

/// `req` with its status set to `status`.
pub open spec fn with_status(req: StopRequest, status: RequestStatus) -> StopRequest {
    StopRequest { status, ..req }
}

/// Why a negotiation step was refused.
#[derive(Clone, Debug, PartialEq, Eq)]
pub enum NegotiationError {
    /// A user asked themselves to stop.
    SelfRequest,
    /// The target does not hold the capture slot.
    TargetNotActive,
    /// The requester holds the slot already.
    RequesterAlreadyActive,
    /// A request to this target is outstanding.
    RequestPending,
    /// No request is addressed to this target.
    NoActiveRequest,
    /// The request addressed to this target came from someone else.
    RequesterMismatch,
    /// Stopping or starting the capture failed.
    Recorder(RecorderError),
}

/// Requests by target user.
pub type Requests = Map<u128, StopRequest>;

/// Whether `requester_id` may ask `target_id` to stop.
pub open spec fn request_check(reqs: Requests, slot: SlotState, requester_id: u128, target_id: u128) -> Result<
    (),
    NegotiationError,
> {
    if requester_id == target_id {
        Err(NegotiationError::SelfRequest)
    } else if !holds(slot, target_id) {
        Err(NegotiationError::TargetNotActive)
    } else if holds(slot, requester_id) {
        Err(NegotiationError::RequesterAlreadyActive)
    } else if reqs.contains_key(target_id) {
        Err(NegotiationError::RequestPending)
    } else {
        Ok(())
    }
}

/// The request to `target_id` as its requester `requester_id` sees it.
pub open spec fn status_seen(reqs: Requests, requester_id: u128, target_id: u128) -> Option<StopRequest> {
    if reqs.contains_key(target_id) && reqs[target_id].requester_id == requester_id {
        Some(reqs[target_id])
    } else {
        None
    }
}

/// The requests after `requester_id` read the status of its request to
/// `target_id`: a final status is dropped once read.
pub open spec fn after_status_read(reqs: Requests, requester_id: u128, target_id: u128) -> Requests {
    match status_seen(reqs, requester_id, target_id) {
        Some(req) => if req.status is Pending {
            reqs
        } else {
            reqs.remove(target_id)
        },
        None => reqs,
    }
}

/// The pending request addressed to `target_id`, if any.
pub open spec fn notification(reqs: Requests, target_id: u128) -> Option<StopRequest> {
    if reqs.contains_key(target_id) && reqs[target_id].status is Pending {
        Some(reqs[target_id])
    } else {
        None
    }
}

/// Whether `target_id` may answer a request from `requester_id`.
pub open spec fn response_check(reqs: Requests, target_id: u128, requester_id: u128) -> Result<(), NegotiationError> {
    if !reqs.contains_key(target_id) {
        Err(NegotiationError::NoActiveRequest)
    } else if reqs[target_id].requester_id != requester_id {
        Err(NegotiationError::RequesterMismatch)
    } else {
        Ok(())
    }
}

/// The requests after the request to `target_id` is marked `status`, where
/// there is one.
pub open spec fn mark(reqs: Requests, target_id: u128, status: RequestStatus) -> Requests {
    if reqs.contains_key(target_id) {
        reqs.insert(target_id, with_status(reqs[target_id], status))
    } else {
        reqs
    }
}

/// What a response did. On acceptance the target's task has been stopped
/// and its process handle is handed over to be terminated; the caller then
/// finishes the handoff with `complete_handoff`.
pub enum Response<H> {
    Denied,
    Stopped(H),
}

/// The registry of outstanding stop requests, one per target user.
pub struct StopNegotiation {
    requests: HashMap<u128, StopRequest>,
}

impl View for StopNegotiation {
    type V = Requests;

    closed spec fn view(&self) -> Requests {
        self.requests@
    }
}

impl StopNegotiation {
    /// A registry with no requests.
    pub fn new() -> (r: Self)
        ensures
            r@ == Map::<u128, StopRequest>::empty(),
    {
        StopNegotiation { requests: HashMap::new() }
    }

    /// `requester_id` asks `target_id`, who must hold the slot, to yield it.
    /// Refused when the two are the same user, when the target does not
    /// hold the slot, when the requester does, and when a request to the
    /// target is outstanding; otherwise a pending request is recorded.
    pub fn request_stop<H>(
        &mut self,
        slot: &RecorderManager<H>,
        requester_id: u128,
        requester_name: String,
        target_id: u128,
    ) -> (r: Result<(), NegotiationError>)
        ensures
            r == request_check(old(self)@, slot@, requester_id, target_id),
            r is Ok ==> final(self)@ == old(self)@.insert(
                target_id,
                pending_request(requester_id, requester_name),
            ),
            r is Err ==> final(self)@ == old(self)@,
    {
        if requester_id == target_id {
            return Err(NegotiationError::SelfRequest);
        }
        if !slot.is_recording(target_id) {
            return Err(NegotiationError::TargetNotActive);
        }
        if slot.is_recording(requester_id) {
            return Err(NegotiationError::RequesterAlreadyActive);
        }
        if self.requests.contains_key(&target_id) {
            return Err(NegotiationError::RequestPending);
        }
        self.requests.insert(target_id, StopRequest::new(requester_id, requester_name));
        Ok(())
    }

    /// The request that `requester_id` made to `target_id`, as it stands. A
    /// final status is handed out once: reading it drops the request.
    pub fn poll_status(&mut self, requester_id: u128, target_id: u128) -> (r: Option<StopRequest>)
        ensures
            r == status_seen(old(self)@, requester_id, target_id),
            final(self)@ == after_status_read(old(self)@, requester_id, target_id),
    {
        let seen = match self.requests.get(&target_id) {
            Some(req) => {
                if req.requester_id == requester_id {
                    Some(req.duplicate())
                } else {
                    None
                }
            },
            None => None,
        };
        match &seen {
            Some(req) => {
                if req.status != RequestStatus::Pending {
                    self.requests.remove(&target_id);
                }
            },
            None => {},
        }
        seen
    }

    /// The pending request addressed to `target_id`, if any.
    pub fn poll_notification(&self, target_id: u128) -> (r: Option<StopRequest>)
        ensures
            r == notification(self@, target_id),
    {
        match self.requests.get(&target_id) {
            Some(req) => {
                if req.status == RequestStatus::Pending {
                    Some(req.duplicate())
                } else {
                    None
                }
            },
            None => None,
        }
    }

    /// The request addressed to `target_id`, whatever its status.
    pub fn request_for(&self, target_id: u128) -> (r: Option<StopRequest>)
        ensures
            r == (if self@.contains_key(target_id) {
                Some(self@[target_id])
            } else {
                None
            }),
    {
        match self.requests.get(&target_id) {
            Some(req) => Some(req.duplicate()),
            None => None,
        }
    }

    fn set_status(&mut self, target_id: u128, status: RequestStatus)
        ensures
            final(self)@ == mark(old(self)@, target_id, status),
    {
        match self.requests.remove(&target_id) {
            Some(req) => {
                let mut updated = req;
                updated.status = status;
                self.requests.insert(target_id, updated);
                proof {
                    assert(final(self)@ =~= mark(old(self)@, target_id, status));
                }
            },
            None => {
                proof {
                    assert(final(self)@ =~= old(self)@);
                }
            },
        }
    }

    /// `target_id` answers the request from `requester_id`. Refused when no
    /// request is addressed to the target or it came from someone else. A
    /// denial marks the request `Denied`. An acceptance needs the target to
    /// hold the slot; the target's task is then stopped and its process
    /// handle returned, while the request stays pending until the handoff
    /// completes.
    pub fn respond<H>(
        &mut self,
        slot: &mut RecorderManager<H>,
        target_id: u128,
        requester_id: u128,
        accept: bool,
    ) -> (r: Result<Response<H>, NegotiationError>)
        ensures
            response_check(old(self)@, target_id, requester_id) matches Err(e) ==> {
                &&& r matches Err(f) && f == e
                &&& final(self)@ == old(self)@
                &&& final(slot)@ == old(slot)@
            },
            response_check(old(self)@, target_id, requester_id) is Ok && !accept ==> {
                &&& r matches Ok(Response::Denied)
                &&& final(self)@ == mark(old(self)@, target_id, RequestStatus::Denied)
                &&& final(slot)@ == old(slot)@
            },
            response_check(old(self)@, target_id, requester_id) is Ok && accept && !holds(
                old(slot)@,
                target_id,
            ) ==> {
                &&& r matches Err(f) && f == NegotiationError::TargetNotActive
                &&& final(self)@ == old(self)@
                &&& final(slot)@ == old(slot)@
            },
            response_check(old(self)@, target_id, requester_id) is Ok && accept && holds(
                old(slot)@,
                target_id,
            ) ==> {
                &&& r matches Ok(Response::Stopped(h)) && old(slot).held_handle() == Some(h)
                &&& final(self)@ == old(self)@
                &&& final(slot)@ is None
            },
    {
        let matches_requester = match self.requests.get(&target_id) {
            Some(req) => req.requester_id == requester_id,
            None => {
                return Err(NegotiationError::NoActiveRequest);
            },
        };
        if !matches_requester {
            return Err(NegotiationError::RequesterMismatch);
        }
        if !accept {
            self.set_status(target_id, RequestStatus::Denied);
            return Ok(Response::Denied);
        }
        if !slot.is_recording(target_id) {
            return Err(NegotiationError::TargetNotActive);
        }
        match slot.stop_recording(target_id) {
            Ok(handle) => Ok(Response::Stopped(handle)),
            Err(e) => Err(NegotiationError::Recorder(e)),
        }
    }

    /// Finishes an accepted handoff from `target_id` to `requester_id`: the
    /// requester's recording is started as `RecorderManager::start_recording`
    /// does, and on success the request to the target is marked `Accepted`.
    /// When the start fails the request is left as it was.
    pub fn complete_handoff<H, F: FnOnce() -> Result<H, String>>(
        &mut self,
        slot: &mut RecorderManager<H>,
        target_id: u128,
        requester_id: u128,
        cli_path: &str,
        probe: &CliProbe,
        launch: F,
    ) -> (r: Result<(), NegotiationError>)
        requires
            launch.requires(()),
        ensures
            final(slot)@ == slot_after_start(old(slot)@, requester_id, TaskKind::Record, r is Ok),
            admission(old(slot)@, requester_id) matches Err(e) ==> r == Err::<(), NegotiationError>(
                NegotiationError::Recorder(e),
            ),
            admission(old(slot)@, requester_id) is Ok ==> match cli_verdict(cli_path@, *probe) {
                Err(p) => r == Err::<(), NegotiationError>(
                    NegotiationError::Recorder(RecorderError::InvalidCliConfig(p)),
                ),
                Ok(()) => r is Ok || (r matches Err(NegotiationError::Recorder(
                    RecorderError::SpawnFailed(why),
                )) && launch.ensures((), Err::<H, String>(why))),
            },
            r is Ok ==> exists|h: H| launch.ensures((), Ok::<H, String>(h)) && final(slot).held_handle()
                == Some(h),
            r is Ok ==> old(slot)@ is None,
            r is Ok ==> final(self)@ == mark(old(self)@, target_id, RequestStatus::Accepted),
            r is Err ==> final(self)@ == old(self)@ && r->Err_0 is Recorder,
    {
        match slot.start_recording(requester_id, TaskKind::Record, cli_path, probe, launch) {
            Ok(()) => {
                self.set_status(target_id, RequestStatus::Accepted);
                Ok(())
            },
            Err(e) => Err(NegotiationError::Recorder(e)),
        }
    }
}

/// While `target_id` holds the slot, a request to it from a distinct user
/// who does not hold the slot succeeds once; a second before it is resolved
/// is refused with `RequestPending`.
pub proof fn lemma_request_once(
    reqs: Requests,
    slot: SlotState,
    requester_id: u128,
    requester_name: String,
    target_id: u128,
)
    requires
        requester_id != target_id,
        holds(slot, target_id),
        !reqs.contains_key(target_id),
    ensures
        request_check(reqs, slot, requester_id, target_id) is Ok,
        request_check(
            reqs.insert(target_id, pending_request(requester_id, requester_name)),
            slot,
            requester_id,
            target_id,
        ) == Err::<(), NegotiationError>(NegotiationError::RequestPending),
{
}

/// A denial is seen by the requester exactly once: the first status read
/// returns the request marked `Denied` and drops it, so the next finds
/// nothing.
pub proof fn lemma_denial_seen_once(reqs: Requests, requester_id: u128, target_id: u128)
    requires
        response_check(reqs, target_id, requester_id) is Ok,
    ensures
        ({
            let denied = mark(reqs, target_id, RequestStatus::Denied);
            let after = after_status_read(denied, requester_id, target_id);
            &&& status_seen(denied, requester_id, target_id) == Some(
                with_status(reqs[target_id], RequestStatus::Denied),
            )
            &&& after == denied.remove(target_id)
            &&& status_seen(after, requester_id, target_id) is None
            &&& after_status_read(after, requester_id, target_id) == after
        }),
{
}

/// An accepted request moves the slot from its holder `target_id` to the
/// requester as a recording: accepting empties the slot, and a successful
/// completion leaves the requester holding it for a `Record` task and the
/// request marked `Accepted`.
pub proof fn lemma_handoff_transfers(reqs: Requests, slot: SlotState, target_id: u128, requester_id: u128)
    requires
        requester_id != target_id,
        holds(slot, target_id),
        response_check(reqs, target_id, requester_id) is Ok,
    ensures
        ({
            let emptied = slot_after_stop(slot, target_id);
            let handed = slot_after_start(emptied, requester_id, TaskKind::Record, true);
            &&& emptied is None
            &&& crate::recorder::admission(emptied, requester_id) is Ok
            &&& handed == Some((requester_id, TaskKind::Record))
            &&& holds(handed, requester_id) && !holds(handed, target_id)
            &&& mark(reqs, target_id, RequestStatus::Accepted)[target_id].status
                == RequestStatus::Accepted
            &&& status_seen(mark(reqs, target_id, RequestStatus::Accepted), requester_id, target_id)
                is Some
        }),
{
}

} // verus!
