//! The cancellation controller.
//!
//! One abort signal serves a whole run. A duration timer and an interrupt
//! handler may both trigger it, from any thread; the copy loop only reads it.
//! The signal goes from running to abort-requested once and never back, so a
//! second trigger finds nothing left to do.
//!
//! The shared signal is an atomic flag. What one trigger does is fixed by the
//! spec function [`trigger_spec`], applied to the state that the atomic
//! exchange found; the lemmas of this module state what follows for any
//! order of triggers. Each thread works through a handle of its own, and the
//! contracts of a handle speak of what that handle knows of the signal.

use std::sync::atomic::AtomicBool;
use std::sync::atomic::Ordering;
use std::sync::Arc;
use vstd::prelude::*;

use crate::mode::TimeSpan;

verus! {

/// The two states of an abort signal.
#[derive(Clone, Copy, Debug, PartialEq, Eq)]
pub enum SignalState {
    Running,
    AbortRequested,
}

/// Who asks for the stop.
#[derive(Clone, Copy, Debug, PartialEq, Eq)]
pub enum TriggerSource {
    /// The recording duration has elapsed.
    Timer,
    /// The operator sent an interrupt.
    Interrupt,
}

/// The effect of one trigger on a signal found in state `found`: the state it
/// leaves, and whether this trigger made the transition.
pub open spec fn trigger_spec(found: SignalState) -> (SignalState, bool) {
    (SignalState::AbortRequested, found is Running)
}

/// The state of a signal after the triggers in `sources`, taken in order.
pub open spec fn state_after(start: SignalState, sources: Seq<TriggerSource>) -> SignalState
    decreases sources.len(),
{
    if sources.len() == 0 {
        start
    } else {
        trigger_spec(state_after(start, sources.drop_last())).0
    }
}

/// How many of the triggers in `sources` made the transition.
pub open spec fn transitions(start: SignalState, sources: Seq<TriggerSource>) -> nat
    decreases sources.len(),
{
    if sources.len() == 0 {
        0
    } else {
        let earlier = transitions(start, sources.drop_last());
        if trigger_spec(state_after(start, sources.drop_last())).1 {
            earlier + 1
        } else {
            earlier
        }
    }
}

/// The state that a flag value stands for.
pub fn state_of(flag: bool) -> (state: SignalState)
    ensures
        state == if flag {
            SignalState::AbortRequested
        } else {
            SignalState::Running
        },
{
    if flag {
        SignalState::AbortRequested
    } else {
        SignalState::Running
    }
}

/// Applies one trigger to a signal found in state `found`.
pub fn trigger_on(found: SignalState) -> (effect: (SignalState, bool))
    ensures
        effect == trigger_spec(found),
{
    match found {
        SignalState::Running => (SignalState::AbortRequested, true),
        SignalState::AbortRequested => (SignalState::AbortRequested, false),
    }
}

/// Another pointer to the flag that `shared` points to.
///
/// Calls `Arc::clone`, which makes a second pointer to the same allocation:
/// what the two point to is one and the same flag.
#[verifier::external_body]
fn share_flag(shared: &Arc<AtomicBool>) -> (cloned: Arc<AtomicBool>)
    ensures
        cloned == *shared,
{
    Arc::clone(shared)
}

/// A handle to the abort signal of a run. The signal itself is a flag shared
/// between the threads that may trigger it and the loop that reads it; every
/// thread holds a handle of its own, made by [`AbortSignal::share`].
///
/// A handle remembers a request that it has made or seen. The flag never goes
/// back, so from then on the handle answers without looking at it again.
#[derive(Clone)]
pub struct AbortSignal {
    flag: Arc<AtomicBool>,
    seen: bool,
}

impl AbortSignal {
    /// What the handle knows of the signal: abort-requested once it has made
    /// or seen a request, running until then.
    pub closed spec fn known_state(self) -> SignalState {
        if self.seen {
            SignalState::AbortRequested
        } else {
            SignalState::Running
        }
    }

    /// Whether two handles belong to one signal.
    pub closed spec fn same_signal(self, other: AbortSignal) -> bool {
        self.flag == other.flag
    }

    /// A new signal, running, and the first handle to it.
    pub fn new() -> (signal: AbortSignal)
        ensures
            signal.known_state() is Running,
    {
        AbortSignal { flag: Arc::new(AtomicBool::new(false)), seen: false }
    }

    /// Another handle to the same signal, which knows what this one knows.
    pub fn share(&self) -> (other: AbortSignal)
        ensures
            other == *self,
            other.same_signal(*self),
            other.known_state() == self.known_state(),
    {
        AbortSignal { flag: share_flag(&self.flag), seen: self.seen }
    }

    /// Requests the stop. Returns `true` to the one caller whose request made
    /// the transition, and `false` to every later caller.
    ///
    /// Afterwards the handle knows the signal as abort-requested, and a handle
    /// that knew so before makes no transition: through one handle only the
    /// first trigger can return `true`. Between handles the flag is exchanged
    /// atomically, so of any number of concurrent calls exactly one finds the
    /// signal running; which one depends on the other threads, and no
    /// postcondition says it.
    pub fn trigger(&mut self) -> (first: bool)
        ensures
            final(self).same_signal(*old(self)),
            final(self).known_state() == trigger_spec(old(self).known_state()).0,
            first ==> trigger_spec(old(self).known_state()).1,
    {
        if self.seen {
            return false;
        }
        let found = self.flag.swap(true, Ordering::SeqCst);
        self.seen = true;
        trigger_on(state_of(found)).1
    }

    /// Whether a stop was requested. Once `true`, always `true`: a handle that
    /// knows of the request says so without reading the flag, and a handle
    /// that reads `true` knows of the request from then on.
    pub fn is_requested(&mut self) -> (requested: bool)
        ensures
            final(self).same_signal(*old(self)),
            requested == (final(self).known_state() is AbortRequested),
            old(self).known_state() is AbortRequested ==> requested,
    {
        if !self.seen {
            self.seen = self.flag.load(Ordering::SeqCst);
        }
        self.seen
    }

    /// The state of the signal as far as it can be known at the moment of the
    /// call: what the handle knew, or else what the flag says now.
    pub fn state(&mut self) -> (state: SignalState)
        ensures
            final(self).same_signal(*old(self)),
            state == final(self).known_state(),
            old(self).known_state() is AbortRequested ==> state is AbortRequested,
    {
        let requested = self.is_requested();
        state_of(requested)
    }
}

/// What the driver must start so that the signal of a run can be triggered.
#[derive(Clone, Copy, Debug, PartialEq, Eq)]
pub struct ArmPlan {
    /// A one-shot timer that triggers the signal when this span has passed
    /// since arming. It is not restarted by traffic.
    pub timer: Option<TimeSpan>,
    /// Whether the process-wide interrupt handler triggers the signal.
    pub interrupt: bool,
}

/// The plan for a run with the given time limit: a timer exactly when there
/// is a limit, and the interrupt handler in every case.
pub open spec fn plan_for(duration: Option<TimeSpan>) -> ArmPlan {
    ArmPlan { timer: duration, interrupt: true }
}

/// The cancellation controller of one run: its abort signal, and what has to
/// be started to trigger it.
pub struct CancellationController {
    signal: AbortSignal,
    plan: ArmPlan,
}

impl CancellationController {
    /// The plan the controller was armed with.
    pub closed spec fn spec_plan(self) -> ArmPlan {
        self.plan
    }

    /// The controller's own handle to the signal of the run.
    pub closed spec fn spec_signal(self) -> AbortSignal {
        self.signal
    }

    /// Arms cancellation for a run with the given time limit. The signal is
    /// new and running. Starting the timer and installing the handler is left
    /// to the driver, which returns at once from both.
    pub fn arm(duration: Option<TimeSpan>) -> (controller: CancellationController)
        ensures
            controller.spec_plan() == plan_for(duration),
            controller.spec_signal().known_state() is Running,
    {
        CancellationController {
            signal: AbortSignal::new(),
            plan: ArmPlan { timer: duration, interrupt: true },
        }
    }

    /// What the driver must start.
    pub fn plan(&self) -> (plan: ArmPlan)
        ensures
            plan == self.spec_plan(),
    {
        self.plan
    }

    /// A handle to the signal of the run, for a thread that triggers it or
    /// for the loop that reads it. Every call hands out the same signal.
    pub fn signal(&self) -> (handle: AbortSignal)
        ensures
            handle == self.spec_signal(),
            handle.same_signal(self.spec_signal()),
            handle.known_state() == self.spec_signal().known_state(),
    {
        self.signal.share()
    }
}

/// A trigger always leaves the signal in the abort-requested state, and a
/// second trigger changes nothing: it reports no transition.
pub proof fn trigger_is_idempotent(found: SignalState)
    ensures
        trigger_spec(found).0 is AbortRequested,
        trigger_spec(trigger_spec(found).0) == (SignalState::AbortRequested, false),
{
}

/// Any number of triggers, from whatever sources and in whatever order, make
/// exactly one transition on a running signal (none if there is no trigger),
/// and make none on a signal that was already triggered.
pub proof fn exactly_one_transition(start: SignalState, sources: Seq<TriggerSource>)
    ensures
        sources.len() > 0 ==> state_after(start, sources) is AbortRequested,
        sources.len() == 0 ==> state_after(start, sources) == start,
        transitions(start, sources) == if start is Running && sources.len() > 0 {
            1nat
        } else {
            0nat
        },
    decreases sources.len(),
{
    if sources.len() > 0 {
        exactly_one_transition(start, sources.drop_last());
    }
}

/// Timer first or interrupt first: both orders end in the same state, with
/// one transition, made by whichever trigger came first.
pub proof fn trigger_order_is_irrelevant(a: TriggerSource, b: TriggerSource)
    ensures
        state_after(SignalState::Running, seq![a, b]) == state_after(
            SignalState::Running,
            seq![b, a],
        ),
        state_after(SignalState::Running, seq![a, b]) is AbortRequested,
        transitions(SignalState::Running, seq![a, b]) == 1,
        transitions(SignalState::Running, seq![b, a]) == 1,
        transitions(SignalState::Running, seq![a]) == 1,
{
    exactly_one_transition(SignalState::Running, seq![a, b]);
    exactly_one_transition(SignalState::Running, seq![b, a]);
    exactly_one_transition(SignalState::Running, seq![a]);
}

} // verus!
