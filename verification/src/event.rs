//! The dashboard-mode race: the event the two threads report on, the
//! reconciliation of whichever event arrives first, and the coordinator's
//! error taxonomy.

use vstd::prelude::*;

verus! {

/// The message carried on the coordinator's internal channel in dashboard
/// mode. Each of the two threads sends exactly one event; the channel has
/// capacity one and the coordinator receives exactly once.
#[derive(Debug)]
pub enum Event<T, E> {
    /// The dashboard's event loop exited: the operator closed it, or the
    /// work finished and the dashboard was not asked to stay open.
    UiFinished,
    /// The computation finished with this outcome, carrying everything it
    /// wrote to its buffered standard output and standard error.
    ComputationFinished(Result<T, E>, Vec<u8>, Vec<u8>),
}

/// What the coordinator returns when it does not return the computation's
/// own success value.
#[derive(Debug)]
pub enum RunError<E> {
    /// The computation itself failed; its error is surfaced verbatim.
    Computation(E),
    /// The operator closed the dashboard before the computation finished.
    Cancelled,
    /// The channel receive failed: every sender was lost without sending,
    /// which correct operation never produces.
    CommunicationFailure,
}

impl<E> RunError<E> {
    /// A human-readable description of the variant.
    pub fn message(&self) -> (m: &'static str)
        ensures
            self is Cancelled ==> m@ == "Operation cancelled by user"@,
            self is CommunicationFailure ==> m@ == "Error communicating with threads"@,
            self is Computation ==> m@ == "The computation failed"@,
    {
        match self {
            RunError::Computation(_) => "The computation failed",
            RunError::Cancelled => "Operation cancelled by user",
            RunError::CommunicationFailure => "Error communicating with threads",
        }
    }
}

/// The coordinator's verdict on the single event it received, telling the
/// surrounding process what remains to be done.
#[derive(Debug)]
pub enum Reconciled<T, E> {
    /// The dashboard exited first: report a cancellation at once. The
    /// computation keeps running detached and its output is discarded.
    Cancelled,
    /// The computation finished first: join the dashboard thread, write
    /// `stdout` then `stderr` to the real streams, and return `outcome`.
    Finished { stdout: Vec<u8>, stderr: Vec<u8>, outcome: Result<T, E> },
    /// Nothing was received: every sender was lost without sending.
    ChannelBroken,
}

/// The reconciliation rule: whichever event arrives first determines the
/// result of the whole run.
pub open spec fn spec_reconcile<T, E>(received: Option<Event<T, E>>) -> Reconciled<T, E> {
    match received {
        Option::None => Reconciled::ChannelBroken,
        Option::Some(Event::UiFinished) => Reconciled::Cancelled,
        Option::Some(Event::ComputationFinished(outcome, stdout, stderr)) => Reconciled::Finished {
            stdout,
            stderr,
            outcome,
        },
    }
}

/// Reconciles the one event the coordinator received on the channel
/// (`None` when the receive itself failed) into a verdict.
pub fn reconcile<T, E>(received: Option<Event<T, E>>) -> (r: Reconciled<T, E>)
    ensures
        r == spec_reconcile(received),
        received is None <==> r is ChannelBroken,
        (received matches Some(Event::UiFinished)) <==> r is Cancelled,
        received matches Some(Event::ComputationFinished(res, out, err)) ==> (r
            matches Reconciled::Finished { stdout, stderr, outcome } && outcome == res && stdout@
            == out@ && stderr@ == err@),
{
    match received {
        None => Reconciled::ChannelBroken,
        Some(Event::UiFinished) => Reconciled::Cancelled,
        Some(Event::ComputationFinished(outcome, stdout, stderr)) => Reconciled::Finished {
            stdout,
            stderr,
            outcome,
        },
    }
}

/// How a finished computation's own result becomes the coordinator's
/// result: success passes through, failure is surfaced verbatim.
pub open spec fn spec_computation_result<T, E>(res: Result<T, E>) -> Result<T, RunError<E>> {
    match res {
        Result::Ok(t) => Result::Ok(t),
        Result::Err(e) => Result::Err(RunError::Computation(e)),
    }
}

/// Wraps a finished computation's result, unchanged, into the
/// coordinator's result type.
pub fn computation_result<T, E>(res: Result<T, E>) -> (r: Result<T, RunError<E>>)
    ensures
        r == spec_computation_result(res),
        r is Ok <==> res is Ok,
        res matches Ok(t) ==> r matches Ok(t2) && t2 == t,
        res matches Err(e) ==> r matches Err(re) && re == RunError::Computation(e),
{
    match res {
        Ok(t) => Ok(t),
        Err(e) => Err(RunError::Computation(e)),
    }
}

/// If the computation completes before any cancellation — whether it ran
/// on the caller's thread or its event won the dashboard race — the
/// coordinator returns exactly the computation's outcome, never a
/// cancellation.
pub proof fn completed_computation_is_returned<T, E>(res: Result<T, E>, out: Vec<u8>, err: Vec<u8>)
    ensures
        spec_reconcile(Some(Event::ComputationFinished(res, out, err))) matches Reconciled::Finished
            { outcome, .. } && outcome == res,
        !(spec_reconcile(Some(Event::ComputationFinished(res, out, err))) is Cancelled),
        spec_computation_result(res) matches Err(e) ==> e is Computation,
        spec_computation_result(res) matches Ok(t) ==> res == Result::<T, E>::Ok(t),
{
}

/// If the operator closes the dashboard strictly before the computation
/// sends its event, the coordinator reports a cancellation — regardless of
/// what the computation eventually produces, since its later event is
/// never observed.
pub proof fn ui_exit_first_cancels<T, E>()
    ensures
        spec_reconcile::<T, E>(Some(Event::UiFinished)) is Cancelled,
{
}

/// What the caller observes after a dashboard run is, byte for byte,
/// exactly what the computation wrote into its buffered sinks: the streams
/// the verdict orders flushed equal the buffers the event carried.
pub proof fn delivered_output_is_what_was_written<T, E>(res: Result<T, E>, out: Vec<u8>, err: Vec<u8>)
    ensures
        spec_reconcile(Some(Event::ComputationFinished(res, out, err))) matches Reconciled::Finished
            { stdout, stderr, .. } && stdout@ == out@ && stderr@ == err@,
{
}

} // verus!
