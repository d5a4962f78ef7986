//! A handle to an unsealed payload that tracks its sealing status, so that
//! sealing can be retried step by step.

use vstd::prelude::*;
use vstd::std_specs::cmp::PartialEqSpec;

verus! {

/// The status of a sealing operation.
#[derive(Debug, Clone, Copy, PartialEq, Eq, Structural)]
pub enum SealStatus {
    /// The sealing process hasn't started yet.
    NotStarted,
    /// The sealing process has committed the payload to the conductor.
    Committed,
    /// The sealing process has gossiped the payload to the network.
    Gossiped,
    /// The sealing process has inserted the payload and is complete.
    Inserted,
}

impl SealStatus {
    /// The status marks a complete sealing process.
    pub open spec fn complete(self) -> bool {
        self is Inserted
    }

    /// The status marks a sealing process that has left its initial state.
    pub open spec fn started(self) -> bool {
        !(self is NotStarted)
    }

    /// Whether the sealing process is complete, which is when the status is `Inserted`.
    pub fn is_complete(&self) -> (r: bool)
        ensures
            r == self.complete(),
            r <==> *self is Inserted,
    {
        matches!(self, SealStatus::Inserted)
    }

    /// Whether the sealing process has started, which is when the status is not `NotStarted`.
    pub fn has_started(&self) -> (r: bool)
        ensures
            r == self.started(),
            r <==> !(*self is NotStarted),
    {
        !matches!(self, SealStatus::NotStarted)
    }
}

/// Errors that can occur during the sealing process.
#[derive(Debug, Clone, Copy, PartialEq, Eq, Structural)]
pub enum SealError {
    /// The sealing process failed to finish in time for a newly built block.
    CriticalUnfinishedSealed,
}

/// A wrapper around an unsealed payload that tracks the sealing status.
///
/// The payload type is left open: the sealer only stores the payload and
/// compares a newly built one against it with `!=`.
#[derive(Debug, Clone)]
pub struct PayloadSealer<A> {
    /// The unsealed payload that is being tracked.
    pub current_payload: A,
    /// The current status of the sealing process for the payload.
    pub seal_status: SealStatus,
    /// Whether a job is currently in flight.
    pub in_flight: bool,
}

impl<A> PayloadSealer<A> {
    /// The sealer after one inner step: nothing changes while a job is in
    /// flight or once the payload is inserted; otherwise the job for the
    /// current status is marked in flight.
    pub open spec fn after_inner_step(self) -> Self {
        if self.in_flight || self.seal_status.complete() {
            self
        } else {
            PayloadSealer { current_payload: self.current_payload, seal_status: self.seal_status, in_flight: true }
        }
    }

    /// The sealer tracking `payload` from the start, with the in-flight flag kept.
    pub open spec fn after_reset(self, payload: A) -> Self {
        PayloadSealer { current_payload: payload, seal_status: SealStatus::NotStarted, in_flight: self.in_flight }
    }

    /// Performs the inner step: starts the job for the current status unless
    /// one is already in flight or sealing is complete.
    pub fn inner_step(&mut self)
        ensures
            *final(self) == old(self).after_inner_step(),
            final(self).current_payload == old(self).current_payload,
            final(self).seal_status == old(self).seal_status,
            final(self).in_flight == (old(self).in_flight || !(old(self).seal_status is Inserted)),
    {
        if self.in_flight {
            return;
        }
        match self.seal_status {
            SealStatus::NotStarted => {
                // The job commits the payload to the conductor.
                self.in_flight = true;
            },
            SealStatus::Committed => {
                // The job gossips the payload to the network.
                self.in_flight = true;
            },
            SealStatus::Gossiped => {
                // The job inserts the payload into the local engine.
                self.in_flight = true;
            },
            SealStatus::Inserted => {},
        }
    }

    /// Resets the sealer with the new payload and resets the sealing status to `NotStarted`.
    pub fn reset(&mut self, payload: A)
        ensures
            *final(self) == old(self).after_reset(payload),
            final(self).current_payload == payload,
            final(self).seal_status == SealStatus::NotStarted,
            final(self).in_flight == old(self).in_flight,
    {
        self.current_payload = payload;
        self.seal_status = SealStatus::NotStarted;
    }
}

impl<A: PartialEq> PayloadSealer<A> {
    /// A newly built `payload` arrives while the current one is not sealed yet.
    pub open spec fn rejects(self, payload: A) -> bool {
        !self.seal_status.complete() && !payload.eq_spec(&self.current_payload)
    }

    /// Attempts to make progress on the payload sealer if required.
    ///
    /// A newly built payload that differs from the tracked one while sealing
    /// is unfinished is a critical error, and the sealer is left as it was.
    /// Otherwise a new payload replaces the tracked one, and the inner step runs.
    pub fn step(&mut self, payload: Option<A>) -> (r: Result<(), SealError>)
        ensures
            match payload {
                None => {
                    &&& r is Ok
                    &&& *final(self) == old(self).after_inner_step()
                    &&& final(self).current_payload == old(self).current_payload
                    &&& final(self).seal_status == old(self).seal_status
                    &&& final(self).in_flight == (old(self).in_flight || !(old(self).seal_status is Inserted))
                },
                Some(a) => {
                    &&& r is Err ==> {
                        &&& r == Err::<(), SealError>(SealError::CriticalUnfinishedSealed)
                        &&& !old(self).seal_status.complete()
                        &&& !(old(self).seal_status is Inserted)
                        &&& *final(self) == *old(self)
                    }
                    &&& r is Ok ==> *final(self) == old(self).after_reset(a).after_inner_step()
                    &&& r is Ok ==> {
                        &&& final(self).current_payload == a
                        &&& final(self).seal_status == SealStatus::NotStarted
                        &&& final(self).in_flight
                    }
                    &&& old(self).seal_status is Inserted ==> r is Ok
                    &&& A::obeys_eq_spec() ==> (r is Err <==> old(self).rejects(a))
                    &&& A::obeys_eq_spec() ==> (r is Err <==> (!(old(self).seal_status is Inserted)
                        && !a.eq_spec(&old(self).current_payload)))
                },
            },
    {
        if let Some(attributes) = payload {
            if !self.seal_status.is_complete() && attributes != self.current_payload {
                // The caller is expected to handle this, e.g. by transferring
                // leadership.
                return Err(SealError::CriticalUnfinishedSealed);
            }
            self.reset(attributes);
        }
        self.inner_step();
        Ok(())
    }
}

/// A status is complete exactly when it is `Inserted`, and has started
/// exactly when it is not `NotStarted`.
pub proof fn lemma_status_predicates(status: SealStatus)
    ensures
        status.complete() <==> status == SealStatus::Inserted,
        status.started() <==> status != SealStatus::NotStarted,
{
}

/// The inner step starts a job exactly when none is in flight and the
/// payload is not inserted yet; it never touches the payload or the status.
pub proof fn lemma_inner_step_fields<A>(sealer: PayloadSealer<A>)
    ensures
        sealer.after_inner_step().current_payload == sealer.current_payload,
        sealer.after_inner_step().seal_status == sealer.seal_status,
        sealer.after_inner_step().in_flight == (sealer.in_flight || sealer.seal_status != SealStatus::Inserted),
        sealer.in_flight ==> sealer.after_inner_step() == sealer,
{
}

/// A reset tracks the given payload from `NotStarted` and changes nothing
/// else: whether a job is in flight is the same before and after, whatever
/// the old status was.
pub proof fn lemma_reset_fields<A>(sealer: PayloadSealer<A>, payload: A)
    ensures
        sealer.after_reset(payload).current_payload == payload,
        sealer.after_reset(payload).seal_status == SealStatus::NotStarted,
        sealer.after_reset(payload).in_flight == sealer.in_flight,
{
}

/// Resetting twice is the same as resetting once with the last payload.
pub proof fn lemma_reset_last_wins<A>(sealer: PayloadSealer<A>, first: A, second: A)
    ensures
        sealer.after_reset(first).after_reset(second) == sealer.after_reset(second),
{
}

/// A new payload is rejected exactly when the status is not `Inserted` and
/// the payload compares unequal to the tracked one.
pub proof fn lemma_rejects_exactly<A: PartialEq>(sealer: PayloadSealer<A>, payload: A)
    ensures
        sealer.rejects(payload) <==> (sealer.seal_status != SealStatus::Inserted
            && !payload.eq_spec(&sealer.current_payload)),
{
}

/// A complete sealing process has started.
pub proof fn lemma_complete_implies_started(status: SealStatus)
    ensures
        status.complete() ==> status.started(),
{
}

/// The inner step leaves the tracked payload and the sealing status as they are.
pub proof fn lemma_inner_step_keeps_payload_and_status<A>(sealer: PayloadSealer<A>)
    ensures
        sealer.after_inner_step().current_payload == sealer.current_payload,
        sealer.after_inner_step().seal_status == sealer.seal_status,
{
}

/// Running the inner step a second time changes nothing.
pub proof fn lemma_inner_step_idempotent<A>(sealer: PayloadSealer<A>)
    ensures
        sealer.after_inner_step().after_inner_step() == sealer.after_inner_step(),
{
}

/// A payload that the sealer accepts is tracked from the start, with its
/// first job in flight.
pub proof fn lemma_accepted_payload_starts_in_flight<A>(sealer: PayloadSealer<A>, payload: A)
    ensures
        sealer.after_reset(payload).after_inner_step() == (PayloadSealer {
            current_payload: payload,
            seal_status: SealStatus::NotStarted,
            in_flight: true,
        }),
{
}

/// Once sealing is complete, any newly built payload is accepted.
pub proof fn lemma_complete_sealer_accepts_any_payload<A: PartialEq>(sealer: PayloadSealer<A>, payload: A)
    requires
        sealer.seal_status.complete(),
    ensures
        !sealer.rejects(payload),
{
}

/// The payload that is already tracked is never rejected, for a payload type
/// whose `==` is equality of values.
pub proof fn lemma_current_payload_never_rejected<A: PartialEq>(sealer: PayloadSealer<A>)
    requires
        vstd::laws_eq::obeys_concrete_eq::<A>(),
    ensures
        !sealer.rejects(sealer.current_payload),
{
    reveal(vstd::laws_eq::obeys_concrete_eq);
}

} // verus!
