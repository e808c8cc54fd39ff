//! The activation/deactivation state machine of the auto-click engine.
//!
//! The engine is observed through two flags, `running` and `stopped`, of which
//! only three combinations are reachable: idle (`running == false`,
//! `stopped == true`), active (`running == true`, `stopped == false`) and
//! stopping (`running == false`, `stopped == false`, a stop was requested but
//! the click loop has not yet wound down). The invalid fourth combination is
//! unrepresentable here: [`Status`] carries exactly the three reachable
//! states.
//!
//! An [`Autoclicker`] value is the shared state of the engine. The embedding
//! program keeps it behind a mutual-exclusion primitive and calls one
//! transition per event: [`Autoclicker::autoclick`] for an activation attempt,
//! [`Autoclicker::stop`] for a stop request or an expired run duration,
//! [`Autoclicker::click_loop_step`] once per click-loop iteration, and
//! [`Autoclicker::trigger_on_hotkey`] for a hotkey activation. Each transition
//! returns what the caller has to do next (emit a click, sleep, wind down), so
//! the unverified driver decides nothing by itself.

use vstd::prelude::*;

verus! {

/// The three reachable states of the engine.
#[derive(Clone, Copy, Debug, PartialEq, Eq, Structural)]
pub enum Status {
    /// No click loop is active and none is winding down: an activation
    /// attempt may claim the engine.
    Idle,
    /// A click loop has claimed the engine and has not been asked to stop.
    Active,
    /// A stop was requested, but the click loop has not yet observed it and
    /// confirmed that it is done.
    Stopping,
}

/// The `running` flag of the engine's observable pair of flags: set exactly
/// while the engine is active.
pub open spec fn running_flag(s: Status) -> bool {
    s is Active
}

/// The `stopped` flag of the engine's observable pair of flags: set exactly
/// while the engine is idle.
pub open spec fn stopped_flag(s: Status) -> bool {
    s is Idle
}

/// The flags never contradict each other: an engine cannot be running and
/// stopped at once. The fourth flag combination is unreachable by
/// construction of [`Status`].
pub proof fn lemma_never_running_and_stopped(s: Status)
    ensures
        !(running_flag(s) && stopped_flag(s)),
{
}

/// What one activation attempt does to the engine: an idle engine is claimed
/// and becomes active in the same step; any other engine is left untouched.
pub open spec fn after_claim(s: Status) -> Status {
    if s is Idle {
        Status::Active
    } else {
        s
    }
}

/// Whether an activation attempt succeeds: only on an idle engine.
pub open spec fn claim_ok(s: Status) -> bool {
    s is Idle
}

/// What a stop request does: an active engine starts winding down; an idle or
/// already-stopping engine is unchanged, since the request only clears the
/// `running` flag, which is already clear there.
pub open spec fn after_stop(s: Status) -> Status {
    if s is Active {
        Status::Stopping
    } else {
        s
    }
}

/// What one click-loop iteration boundary does: while the engine is active
/// the loop clicks on and the state is untouched; otherwise the loop winds
/// down and sets the `stopped` flag, which makes the engine idle again. This
/// is the only transition that ever reaches `Idle` from another state.
pub open spec fn after_loop_tick(s: Status) -> Status {
    if s is Active {
        Status::Active
    } else {
        Status::Idle
    }
}

/// What one hotkey activation does: claim an idle engine, and ask a non-idle
/// one to stop, so that the hotkey toggles the clicker.
pub open spec fn after_hotkey(s: Status) -> Status {
    if s is Idle {
        Status::Active
    } else {
        after_stop(s)
    }
}

/// One event that the engine can observe, from any of the concurrent call
/// sites that share it. The driver serialises the call sites, so a whole
/// execution of the engine is a sequence of these events.
#[derive(Clone, Copy, Debug, PartialEq, Eq, Structural)]
pub enum Event {
    /// An activation attempt: [`Autoclicker::autoclick`].
    Trigger,
    /// A stop request, direct or from an expired run duration:
    /// [`Autoclicker::stop`].
    StopRequest,
    /// One click-loop iteration boundary: [`Autoclicker::click_loop_step`].
    LoopTick,
    /// One hotkey activation: [`Autoclicker::trigger_on_hotkey`].
    HotkeyActivated,
}

/// The state after one event.
pub open spec fn step(s: Status, e: Event) -> Status {
    match e {
        Event::Trigger => after_claim(s),
        Event::StopRequest => after_stop(s),
        Event::LoopTick => after_loop_tick(s),
        Event::HotkeyActivated => after_hotkey(s),
    }
}

/// The state after a sequence of events, first event first.
pub open spec fn run(s: Status, events: Seq<Event>) -> Status
    decreases events.len(),
{
    if events.len() == 0 {
        s
    } else {
        run(step(s, events.first()), events.drop_first())
    }
}

/// Running one more event at the end of a sequence is one more step.
proof fn lemma_run_push(s: Status, events: Seq<Event>, e: Event)
    ensures
        run(s, events.push(e)) == step(run(s, events), e),
    decreases events.len(),
{
    if events.len() == 0 {
        assert(events.push(e).first() == e);
        assert(events.push(e).drop_first() =~= Seq::<Event>::empty());
        assert(run(s, events.push(e)) == run(step(s, e), Seq::<Event>::empty()));
        assert(run(step(s, e), Seq::<Event>::empty()) == step(s, e));
    } else {
        assert(events.push(e).first() == events.first());
        assert(events.push(e).drop_first() =~= events.drop_first().push(e));
        assert(run(s, events.push(e)) == run(
            step(s, events.first()),
            events.drop_first().push(e),
        ));
        lemma_run_push(step(s, events.first()), events.drop_first(), e);
        assert(run(s, events) == run(step(s, events.first()), events.drop_first()));
    }
}

/// At most one activation at a time. Once an activation attempt has
/// succeeded the engine is not idle, and from a non-idle engine no
/// interleaving of further activation attempts, stop requests and hotkey
/// activations reaches the idle state: as long as every click-loop iteration
/// still finds the engine active — that is, as long as the loop of the
/// current run has not wound down and set the `stopped` flag — the engine
/// stays non-idle, so every one of those activation attempts is rejected and
/// leaves the engine untouched.
pub proof fn lemma_at_most_one_activation(s: Status, events: Seq<Event>)
    requires
        !(s is Idle),
        forall|i: int|
            0 <= i < events.len() && events[i] is LoopTick ==> run(
                s,
                #[trigger] events.take(i),
            ) is Active,
    ensures
        forall|i: int| 0 <= i <= events.len() ==> !(run(s, #[trigger] events.take(i)) is Idle),
        forall|i: int| 0 <= i <= events.len() ==> !claim_ok(run(s, #[trigger] events.take(i))),
    decreases events.len(),
{
    assert(events.take(0) =~= Seq::<Event>::empty());
    if events.len() > 0 {
        let n: int = events.len() as int;
        let front = events.drop_last();
        assert forall|i: int| 0 <= i <= front.len() implies events.take(i) =~= front.take(i) by {
        }
        lemma_at_most_one_activation(s, front);
        assert(events.take(n) =~= front.push(events[n - 1]));
        lemma_run_push(s, front, events[n - 1]);
        assert(front =~= events.take(n - 1));
    }
}

/// A successful activation keeps running until somebody asks it to stop.
/// From an active engine, any interleaving of further activation attempts
/// (all rejected) and click-loop iterations (each emitting one click) leaves
/// the engine active: only a stop request, an expired duration or a hotkey
/// press ends the run.
pub proof fn lemma_active_until_stop_requested(s: Status, events: Seq<Event>)
    requires
        s is Active,
        forall|i: int| 0 <= i < events.len() ==> events[i] is Trigger || events[i] is LoopTick,
    ensures
        run(s, events) is Active,
    decreases events.len(),
{
    if events.len() > 0 {
        assert(events[0] is Trigger || events[0] is LoopTick);
        lemma_active_until_stop_requested(step(s, events.first()), events.drop_first());
    }
}

/// One activation attempt, as passed to [`Autoclicker::autoclick`]: the click
/// interval in milliseconds, and the optional start delay and total run
/// duration, both in seconds.
#[derive(Clone, Copy, Debug, PartialEq, Eq, Structural)]
pub struct ActivationRequest {
    pub interval_ms: u64,
    pub start_delay: Option<u64>,
    pub duration: Option<u64>,
}

/// What the caller of [`Autoclicker::autoclick`] has to do after the call.
#[derive(Clone, Copy, Debug, PartialEq, Eq, Structural)]
pub enum AutoclickOutcome {
    /// The engine was idle and this call claimed it. The caller must now run
    /// the activation: wait out `start_delay` seconds if given, then drive
    /// the click loop through [`Autoclicker::click_loop_step`], and, if
    /// `duration` is given, request a stop after that many seconds.
    Started { start_delay: Option<u64>, duration: Option<u64> },
    /// The engine was not idle; nothing was changed and nothing is owed.
    Rejected,
}

/// What the caller of [`Autoclicker::click_loop_step`] has to do next.
#[derive(Clone, Copy, Debug, PartialEq, Eq, Structural)]
pub enum LoopAction {
    /// Emit one click, then sleep `sleep_ms` milliseconds before the next
    /// iteration.
    Click { sleep_ms: u64 },
    /// The engine is no longer running: the loop is done and the engine is
    /// idle again. No further click may be emitted for this activation.
    Exit,
}

/// The engine state. The embedding program shares one value of this type
/// between every call site (direct activation, hotkey stream, stop timer,
/// click loop) behind a mutual-exclusion primitive, so that each method call
/// below is one atomic step.
pub struct Autoclicker {
    status: Status,
}

impl View for Autoclicker {
    type V = Status;

    closed spec fn view(&self) -> Status {
        self.status
    }
}

impl Autoclicker {
    /// A fresh engine: idle, with the `stopped` flag set.
    pub fn new() -> (clicker: Autoclicker)
        ensures
            clicker@ is Idle,
    {
        Autoclicker { status: Status::Idle }
    }

    /// Whether the engine is currently running, i.e. the `running` flag.
    pub fn is_running(&self) -> (r: bool)
        ensures
            r == running_flag(self@),
    {
        matches!(self.status, Status::Active)
    }

    /// Whether the engine is currently stopped, i.e. the `stopped` flag.
    /// Only while this holds can an activation attempt succeed.
    pub fn is_stopped(&self) -> (r: bool)
        ensures
            r == stopped_flag(self@),
    {
        matches!(self.status, Status::Idle)
    }

    /// One activation attempt. In a single step this tests whether the
    /// engine is idle and, if so, claims it: the `running` flag is set and
    /// the `stopped` flag cleared before the call returns, so a concurrent
    /// attempt interleaved after it is rejected. A non-idle engine is left
    /// exactly as it was. On success the outcome carries the start delay and
    /// run duration of the request back to the caller, which owes the engine
    /// a click loop.
    pub fn autoclick(&mut self, request: &ActivationRequest) -> (outcome: AutoclickOutcome)
        ensures
            final(self)@ == after_claim(old(self)@),
            outcome is Started <==> claim_ok(old(self)@),
            claim_ok(old(self)@) ==> outcome == (AutoclickOutcome::Started {
                start_delay: request.start_delay,
                duration: request.duration,
            }),
            !claim_ok(old(self)@) ==> *final(self) == *old(self) && outcome is Rejected,
    {
        if self.is_running() || !self.is_stopped() {
            return AutoclickOutcome::Rejected;
        }
        self.status = Status::Active;
        AutoclickOutcome::Started { start_delay: request.start_delay, duration: request.duration }
    }

    /// Request that the current run end. Clears the `running` flag and
    /// nothing else: the click loop observes the cleared flag at its next
    /// iteration boundary and only then winds down. Called for a direct stop
    /// as well as when a run's duration expires.
    pub fn stop(&mut self)
        ensures
            final(self)@ == after_stop(old(self)@),
            !running_flag(final(self)@),
    {
        if matches!(self.status, Status::Active) {
            self.status = Status::Stopping;
        }
    }

    /// One iteration boundary of the click loop. While the `running` flag is
    /// set the loop owes one click followed by a sleep of `delay_ms`, the
    /// interval read fresh for this iteration, so an interval change takes
    /// effect at the next boundary. Once the flag is observed clear the loop
    /// sets the `stopped` flag — this is the only place it is ever set — and
    /// exits, making the engine idle again.
    pub fn click_loop_step(&mut self, delay_ms: u64) -> (action: LoopAction)
        ensures
            final(self)@ == after_loop_tick(old(self)@),
            running_flag(old(self)@) ==> action == (LoopAction::Click { sleep_ms: delay_ms })
                && *final(self) == *old(self),
            !running_flag(old(self)@) ==> action is Exit && final(self)@ is Idle,
    {
        if matches!(self.status, Status::Active) {
            LoopAction::Click { sleep_ms: delay_ms }
        } else {
            self.status = Status::Idle;
            LoopAction::Exit
        }
    }

    /// One hotkey activation. A hotkey press on an idle engine starts it, by
    /// the same claim as [`Autoclicker::autoclick`] with neither start delay
    /// nor duration; a press while the engine is not idle requests a stop
    /// instead. The composition makes the hotkey a toggle even though the
    /// claim itself is a one-shot primitive. Returns whether a run was
    /// started, in which case the caller owes the engine a click loop.
    pub fn trigger_on_hotkey(&mut self, interval_ms: u64) -> (started: bool)
        ensures
            final(self)@ == after_hotkey(old(self)@),
            started == claim_ok(old(self)@),
    {
        let request = ActivationRequest { interval_ms, start_delay: None, duration: None };
        match self.autoclick(&request) {
            AutoclickOutcome::Started { .. } => true,
            AutoclickOutcome::Rejected => {
                self.stop();
                false
            },
        }
    }
}

} // verus!
