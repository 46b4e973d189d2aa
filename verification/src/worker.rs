//! Per-iteration decisions of the media transport worker's event loop.
//!
//! A worker owns one UDP socket, one protocol pipeline bound to its own
//! server state, one inbound signaling queue and a shutdown-signal receiver.
//! Each loop iteration polls the shutdown signal, drains the pipeline's
//! outbound queue, applies at most one signaling message, and then either
//! fires due protocol timers at once or blocks on the socket until the
//! earliest timer deadline, capped at the polling interval.  The functions
//! here take what the embedding loop observed — a poll result, the clock, a
//! receive outcome — and return the decision the loop must follow; every
//! decision is a pure function of its inputs, stated exactly in its contract.

use vstd::prelude::*;

verus! {

/// The longest a worker may block on its socket before revisiting the
/// shutdown signal and the signaling queue, in milliseconds.
pub const POLL_INTERVAL_MS: u64 = 100;

/// What one non-blocking poll of the shutdown signal observed.
#[derive(PartialEq, Eq, Structural, Clone, Copy, Debug)]
pub enum ShutdownPoll {
    /// The broadcast shutdown notification arrived.
    Received,
    /// The notifying side is gone; no notification can arrive any more.
    Disconnected,
    /// Nothing yet.
    Quiet,
}

/// Whether a shutdown observation terminates the loop: on a received
/// notification or a closed channel, never otherwise.
pub open spec fn spec_should_stop(poll: ShutdownPoll) -> bool {
    poll == ShutdownPoll::Received || poll == ShutdownPoll::Disconnected
}

/// Decides whether the loop terminates after a shutdown poll.  When it does,
/// the worker notifies its pipeline that the transport went inactive — the
/// only path by which a worker stops consuming its socket.
pub fn should_stop(poll: &ShutdownPoll) -> (stop: bool)
    ensures
        stop == spec_should_stop(*poll),
{
    match poll {
        ShutdownPoll::Received => true,
        ShutdownPoll::Disconnected => true,
        ShutdownPoll::Quiet => false,
    }
}

/// The outcome of applying one polled signaling message to server state.
#[derive(PartialEq, Eq, Structural, Clone, Copy, Debug)]
pub enum SignalingApply {
    /// The queue was empty this iteration.
    NoneArrived,
    /// A message was applied successfully.
    Applied,
    /// Applying the message failed.
    Failed,
}

/// What the iteration does after the signaling step.
#[derive(PartialEq, Eq, Structural, Clone, Copy, Debug)]
pub enum StepVerdict {
    /// Go on with the timer and receive steps of this iteration.
    Proceed,
    /// Abandon the rest of this iteration and start the next one.
    NextIteration,
}

/// A signaling failure is logged and skips to the next iteration; it never
/// terminates the worker.
pub open spec fn spec_after_signaling(outcome: SignalingApply) -> StepVerdict {
    if outcome == SignalingApply::Failed {
        StepVerdict::NextIteration
    } else {
        StepVerdict::Proceed
    }
}

/// Decides how the iteration goes on after the signaling step.  Whatever the
/// outcome, the worker keeps running: a control-plane fault is scoped to the
/// request that caused it.
pub fn after_signaling(outcome: &SignalingApply) -> (v: StepVerdict)
    ensures
        v == spec_after_signaling(*outcome),
{
    match outcome {
        SignalingApply::Failed => StepVerdict::NextIteration,
        _ => StepVerdict::Proceed,
    }
}

/// The effective wake-up deadline: the pipeline's earliest pending timer
/// deadline, capped at one polling interval from now, so the shutdown signal
/// and the signaling queue are revisited at a bounded cadence even with no
/// due timers.
pub open spec fn spec_effective_deadline(now_ms: u64, timer_deadline_ms: Option<u64>) -> u64
    recommends
        now_ms + POLL_INTERVAL_MS <= u64::MAX,
{
    let cap = (now_ms + POLL_INTERVAL_MS) as u64;
    match timer_deadline_ms {
        Some(deadline) => if deadline < cap {
            deadline
        } else {
            cap
        },
        None => cap,
    }
}

/// How the iteration waits once the signaling step proceeded.
#[derive(PartialEq, Eq, Structural, Clone, Copy, Debug)]
pub enum TimerGate {
    /// The effective deadline has already elapsed: fire the timeout handling
    /// at once and start the next iteration without touching the socket.
    FireNow,
    /// Block on the socket for at most this many milliseconds, then advance
    /// the timer-driven logic.
    ReadFor { timeout_ms: u64 },
}

/// The wait decision: fire elapsed timers at once, otherwise read with the
/// remaining delay as the socket timeout.
pub open spec fn spec_plan_wait(now_ms: u64, timer_deadline_ms: Option<u64>) -> TimerGate
    recommends
        now_ms + POLL_INTERVAL_MS <= u64::MAX,
{
    let eff = spec_effective_deadline(now_ms, timer_deadline_ms);
    if eff <= now_ms {
        TimerGate::FireNow
    } else {
        TimerGate::ReadFor { timeout_ms: (eff - now_ms) as u64 }
    }
}

/// Decides how to wait for the rest of the iteration, from the clock and the
/// pipeline's earliest pending timer deadline (`None` when no timer is
/// pending).
pub fn plan_wait(now_ms: u64, timer_deadline_ms: Option<u64>) -> (gate: TimerGate)
    requires
        now_ms + POLL_INTERVAL_MS <= u64::MAX,
    ensures
        gate == spec_plan_wait(now_ms, timer_deadline_ms),
{
    let cap = now_ms + POLL_INTERVAL_MS;
    let eff = match timer_deadline_ms {
        Some(deadline) => if deadline < cap {
            deadline
        } else {
            cap
        },
        None => cap,
    };
    if eff <= now_ms {
        TimerGate::FireNow
    } else {
        TimerGate::ReadFor { timeout_ms: eff - now_ms }
    }
}

/// What one bounded socket receive observed.
#[derive(PartialEq, Eq, Structural, Clone, Copy, Debug)]
pub enum RecvPoll {
    /// A datagram of this many bytes arrived.
    Datagram { len: usize },
    /// The receive timed out or would block: a normal empty outcome.
    TimedOut,
    /// An unrecoverable I/O error.
    Fatal,
}

/// What the iteration does with a receive outcome.
#[derive(PartialEq, Eq, Structural, Clone, Copy, Debug)]
pub enum RecvStep {
    /// Feed the datagram into the pipeline's inbound entry point.
    FeedPipeline,
    /// Nothing arrived; fall through to the timer advance.
    NoInput,
    /// Abort this worker thread; the supervisor observes the exit.  Other
    /// workers and the process keep running.
    AbortWorker,
}

/// A datagram is fed to the pipeline, a timeout falls through, and only an
/// unrecoverable I/O error aborts the worker.
pub open spec fn spec_after_receive(poll: RecvPoll) -> RecvStep {
    match poll {
        RecvPoll::Datagram { .. } => RecvStep::FeedPipeline,
        RecvPoll::TimedOut => RecvStep::NoInput,
        RecvPoll::Fatal => RecvStep::AbortWorker,
    }
}

/// Decides what to do with the outcome of the bounded socket receive.
pub fn after_receive(poll: &RecvPoll) -> (step: RecvStep)
    ensures
        step == spec_after_receive(*poll),
{
    match poll {
        RecvPoll::Datagram { .. } => RecvStep::FeedPipeline,
        RecvPoll::TimedOut => RecvStep::NoInput,
        RecvPoll::Fatal => RecvStep::AbortWorker,
    }
}

/// An inbound network unit: the received bytes, stamped with their arrival
/// time.  The embedding loop adds the peer and local addresses when it hands
/// the unit to the pipeline.
pub struct InboundUnit {
    pub payload: Vec<u8>,
    pub arrival_ms: u64,
}

/// Wraps the first `len` bytes of the receive buffer into an inbound unit
/// stamped with its arrival time.
pub fn tag_datagram(buf: &Vec<u8>, len: usize, now_ms: u64) -> (unit: InboundUnit)
    requires
        len <= buf@.len(),
    ensures
        unit.payload@ == buf@.subrange(0, len as int),
        unit.arrival_ms == now_ms,
{
    let mut payload: Vec<u8> = Vec::new();
    let mut i: usize = 0;
    while i < len
        invariant
            i <= len,
            len <= buf@.len(),
            payload@ =~= buf@.subrange(0, i as int),
        decreases len - i,
    {
        payload.push(buf[i]);
        proof {
            assert(payload@ =~= buf@.subrange(0, i + 1));
        }
        i = i + 1;
    }
    InboundUnit { payload, arrival_ms: now_ms }
}

/// A worker stops issuing socket reads within one polling interval of the
/// shutdown broadcast: any observed shutdown terminates the loop at the top
/// of the iteration, and no iteration ever blocks on the socket for longer
/// than the polling interval.
pub proof fn lemma_shutdown_within_interval(
    poll: ShutdownPoll,
    now_ms: u64,
    timer_deadline_ms: Option<u64>,
)
    requires
        now_ms + POLL_INTERVAL_MS <= u64::MAX,
    ensures
        poll != ShutdownPoll::Quiet ==> spec_should_stop(poll),
        spec_plan_wait(now_ms, timer_deadline_ms) matches TimerGate::ReadFor { timeout_ms }
            ==> 0 < timeout_ms <= POLL_INTERVAL_MS,
{
}

/// No runtime fault of the control plane terminates a worker: every
/// signaling outcome lets the loop keep running, and of the receive outcomes
/// only an unrecoverable I/O error ends the worker thread — never a datagram,
/// however malformed, which the pipeline's terminal exception stage scopes to
/// its originating session.
pub proof fn lemma_faults_do_not_stop_worker(outcome: SignalingApply, poll: RecvPoll)
    ensures
        spec_after_signaling(outcome) == StepVerdict::Proceed || spec_after_signaling(outcome)
            == StepVerdict::NextIteration,
        poll != RecvPoll::Fatal ==> spec_after_receive(poll) != RecvStep::AbortWorker,
{
}

} // verus!
