//! The control loop's decisions: when the trigger input starts and stops a
//! capture, and the name a recording is stored under.

use vstd::prelude::*;

verus! {

/// How often the trigger is sampled while capturing, in milliseconds.
pub const POLL_INTERVAL_MS: u64 = 100;

/// Whether a capture is running.
#[derive(Debug, Clone, Copy, PartialEq, Eq, Structural)]
pub enum TriggerState {
    Idle,
    Capturing,
}

/// What the loop does after one sample of the trigger input.
#[derive(Debug, Clone, Copy, PartialEq, Eq, Structural)]
pub enum TriggerAction {
    /// Nothing: the trigger is inactive and no capture runs.
    Wait,
    /// Start a capture.
    StartCapture,
    /// Let the running capture go on.
    KeepCapturing,
    /// Stop the running capture.
    StopCapture,
}

/// A capture starts on an active sample while idle and stops on the first
/// inactive sample after that.
pub open spec fn trigger_next(state: TriggerState, active: bool) -> (TriggerState, TriggerAction) {
    match (state, active) {
        (TriggerState::Idle, false) => (TriggerState::Idle, TriggerAction::Wait),
        (TriggerState::Idle, true) => (TriggerState::Capturing, TriggerAction::StartCapture),
        (TriggerState::Capturing, true) => (TriggerState::Capturing, TriggerAction::KeepCapturing),
        (TriggerState::Capturing, false) => (TriggerState::Idle, TriggerAction::StopCapture),
    }
}

/// Takes one sample of the trigger input.
pub fn trigger_step(state: TriggerState, active: bool) -> (r: (TriggerState, TriggerAction))
    ensures
        r == trigger_next(state, active),
{
    match state {
        TriggerState::Idle => if active {
            (TriggerState::Capturing, TriggerAction::StartCapture)
        } else {
            (TriggerState::Idle, TriggerAction::Wait)
        },
        TriggerState::Capturing => if active {
            (TriggerState::Capturing, TriggerAction::KeepCapturing)
        } else {
            (TriggerState::Idle, TriggerAction::StopCapture)
        },
    }
}

/// The state after the first `k` samples, starting idle.
pub open spec fn state_after(inputs: Seq<bool>, k: nat) -> TriggerState
    decreases k,
{
    if k == 0 {
        TriggerState::Idle
    } else {
        trigger_next(state_after(inputs, (k - 1) as nat), inputs[k - 1]).0
    }
}

/// The action taken on sample `k`.
pub open spec fn action_at(inputs: Seq<bool>, k: nat) -> TriggerAction {
    trigger_next(state_after(inputs, k), inputs[k as int]).1
}

/// The actions for a whole sequence of trigger samples, starting idle.
pub fn run_trigger(inputs: &[bool]) -> (r: Vec<TriggerAction>)
    ensures
        r@.len() == inputs@.len(),
        forall|k: int| 0 <= k < inputs@.len() ==> #[trigger] r@[k] == action_at(inputs@, k as nat),
{
    let mut actions: Vec<TriggerAction> = Vec::new();
    let mut state = TriggerState::Idle;
    let mut i: usize = 0;
    while i < inputs.len()
        invariant
            i <= inputs@.len(),
            actions@.len() == i,
            state == state_after(inputs@, i as nat),
            forall|k: int| 0 <= k < i ==> #[trigger] actions@[k] == action_at(inputs@, k as nat),
        decreases inputs@.len() - i,
    {
        let (next, action) = trigger_step(state, inputs[i]);
        actions.push(action);
        state = next;
        i = i + 1;
    }
    actions
}

proof fn lemma_capturing_until_stop(inputs: Seq<bool>, i: nat, m: nat)
    requires
        i < m <= inputs.len(),
        action_at(inputs, i) == TriggerAction::StartCapture,
        forall|k: nat| i < k < m ==> action_at(inputs, k) != TriggerAction::StopCapture,
    ensures
        state_after(inputs, m) == TriggerState::Capturing,
    decreases m - i,
{
    if m > i + 1 {
        lemma_capturing_until_stop(inputs, i, (m - 1) as nat);
        assert(action_at(inputs, (m - 1) as nat) != TriggerAction::StopCapture);
    }
}

/// Between two starts of a capture there is always a stop: no capture is
/// started while another runs.
pub proof fn law_no_overlapping_capture(inputs: Seq<bool>, i: nat, j: nat)
    requires
        i < j < inputs.len(),
        action_at(inputs, i) == TriggerAction::StartCapture,
        action_at(inputs, j) == TriggerAction::StartCapture,
    ensures
        exists|k: nat| i < k < j && action_at(inputs, k) == TriggerAction::StopCapture,
{
    if forall|k: nat| i < k < j ==> action_at(inputs, k) != TriggerAction::StopCapture {
        lemma_capturing_until_stop(inputs, i, j);
    }
}

/// A capture starts exactly on an active sample taken while idle, and stops
/// exactly on an inactive sample taken while capturing.
pub proof fn law_edges(inputs: Seq<bool>, k: nat)
    requires
        k < inputs.len(),
    ensures
        action_at(inputs, k) == TriggerAction::StartCapture <==> (inputs[k as int]
            && state_after(inputs, k) == TriggerState::Idle),
        action_at(inputs, k) == TriggerAction::StopCapture <==> (!inputs[k as int]
            && state_after(inputs, k) == TriggerState::Capturing),
{
}

} // verus!
