//! Outcome of the cooperative-shutdown race.
//!
//! A running command races its service's completion against the operator
//! interrupt and the termination request. Exactly one branch is observed —
//! the first to resolve — and the losing branches are abandoned with no
//! further effect. A signal resolves the race successfully regardless of the
//! service's health; a service failure is propagated verbatim.

use vstd::prelude::*;

verus! {

/// An OS shutdown request delivered to the process.
#[derive(Clone, Copy, PartialEq, Eq, Structural, Debug)]
pub enum ShutdownSignal {
    /// The operator interrupted the process (ctrl-c).
    OperatorInterrupt,
    /// The platform delivered a termination request.
    TerminationRequest,
}

/// The one event the race observes: either a shutdown signal or the
/// service's completion, which resolves only when the service stops.
#[derive(Debug)]
pub enum RaceEvent<E> {
    /// A shutdown signal won the race.
    Signal(ShutdownSignal),
    /// The service stopped, successfully or with a terminal error.
    ServiceStopped(Result<(), E>),
}

/// The command outcome decided by one observed event.
pub open spec fn spec_race_outcome<E>(ev: RaceEvent<E>) -> Result<(), E> {
    match ev {
        RaceEvent::Signal(_) => Ok(()),
        RaceEvent::ServiceStopped(res) => res,
    }
}

/// The outcome of a whole race: the ordered sequence of events that would
/// eventually resolve is decided by its first element alone, because the
/// losing branches are abandoned unobserved.
pub open spec fn spec_race_of_sequence<E>(events: Seq<RaceEvent<E>>) -> Result<(), E>
    recommends
        events.len() > 0,
{
    spec_race_outcome(events[0])
}

/// Maps the winning branch of the race to the command's outcome: a signal
/// yields success whatever the service's state; a stopped service yields its
/// own result verbatim.
pub fn race_outcome<E>(ev: RaceEvent<E>) -> (r: Result<(), E>)
    ensures
        r == spec_race_outcome(ev),
{
    match ev {
        RaceEvent::Signal(_) => Ok(()),
        RaceEvent::ServiceStopped(res) => res,
    }
}

/// Law: the race outcome is decided by the first event alone. If a shutdown
/// signal fires strictly before the completion resolves, the outcome is
/// success; if the completion resolves first with an error, the outcome is
/// exactly that error, regardless of signal timing thereafter.
pub proof fn lemma_race_decided_by_first_event<E>(
    events: Seq<RaceEvent<E>>,
    later: Seq<RaceEvent<E>>,
)
    requires
        events.len() > 0,
        later.len() > 0,
        events[0] == later[0],
    ensures
        spec_race_of_sequence(events) == spec_race_of_sequence(later),
        events[0] is Signal ==> spec_race_of_sequence(events) == Result::<(), E>::Ok(()),
        forall|e: E|
            events[0] == RaceEvent::ServiceStopped(Result::<(), E>::Err(e))
                ==> spec_race_of_sequence(events) == Result::<(), E>::Err(e),
{
}

/// The process exit status derived from a command outcome: zero exactly on
/// success.
pub fn exit_status<E>(outcome: &Result<(), E>) -> (c: i32)
    ensures
        c == 0 <==> outcome is Ok,
        outcome is Err ==> c == 1,
{
    match outcome {
        Ok(_) => 0,
        Err(_) => 1,
    }
}

} // verus!
