//! The decisions of the polling loop, as a state machine. The loop itself
//! (opening the device backend, waiting on it, reading the cancellation
//! flag) runs outside; after each observation it asks `step` what to do.
use vstd::prelude::*;

verus! {

/// Where the polling loop stands.
#[derive(Clone, Copy, Debug, PartialEq, Eq, Structural)]
pub enum PollState {
    /// Opening the device backend and building the keymap.
    Initializing,
    /// Reading devices, one dispatch step per round.
    Running,
    /// Finished: nothing more is read.
    Stopped,
}

/// What the loop observed since its last step.
#[derive(Clone, Copy, Debug, PartialEq, Eq, Structural)]
pub enum PollInput {
    /// The backend and the keymap are ready.
    Started,
    /// The backend or the keymap could not be set up.
    StartFailed,
    /// The cancellation signal was checked, at the top of a round.
    Signal { fired: bool },
    /// The backend's dispatch step failed.
    DispatchFailed,
}

/// What the loop does next.
#[derive(Clone, Copy, Debug, PartialEq, Eq, Structural)]
pub enum PollAction {
    /// Run one dispatch step, then normalize and queue what it read.
    Dispatch,
    /// Leave the loop.
    Terminate,
    /// Nothing to do for this observation.
    Idle,
}

/// The transition taken on one observation.
pub open spec fn transition(state: PollState, input: PollInput) -> (PollState, PollAction) {
    match state {
        PollState::Initializing => match input {
            PollInput::Started => (PollState::Running, PollAction::Idle),
            PollInput::StartFailed => (PollState::Stopped, PollAction::Terminate),
            _ => (PollState::Initializing, PollAction::Idle),
        },
        PollState::Running => match input {
            PollInput::Signal { fired } => if fired {
                (PollState::Stopped, PollAction::Terminate)
            } else {
                (PollState::Running, PollAction::Dispatch)
            },
            PollInput::DispatchFailed => (PollState::Stopped, PollAction::Terminate),
            _ => (PollState::Running, PollAction::Idle),
        },
        PollState::Stopped => (PollState::Stopped, PollAction::Idle),
    }
}

/// Decides the next state and action of the polling loop.
pub fn step(state: PollState, input: PollInput) -> (r: (PollState, PollAction))
    ensures
        r == transition(state, input),
{
    match state {
        PollState::Initializing => match input {
            PollInput::Started => (PollState::Running, PollAction::Idle),
            PollInput::StartFailed => (PollState::Stopped, PollAction::Terminate),
            _ => (PollState::Initializing, PollAction::Idle),
        },
        PollState::Running => match input {
            PollInput::Signal { fired } => if fired {
                (PollState::Stopped, PollAction::Terminate)
            } else {
                (PollState::Running, PollAction::Dispatch)
            },
            PollInput::DispatchFailed => (PollState::Stopped, PollAction::Terminate),
            _ => (PollState::Running, PollAction::Idle),
        },
        PollState::Stopped => (PollState::Stopped, PollAction::Idle),
    }
}

/// The state after a run of observations.
pub open spec fn final_state(state: PollState, inputs: Seq<PollInput>) -> PollState
    decreases inputs.len(),
{
    if inputs.len() == 0 {
        state
    } else {
        final_state(transition(state, inputs[0]).0, inputs.drop_first())
    }
}

/// How many times a run of observations makes the loop terminate.
pub open spec fn terminations(state: PollState, inputs: Seq<PollInput>) -> nat
    decreases inputs.len(),
{
    if inputs.len() == 0 {
        0
    } else {
        let (next, action) = transition(state, inputs[0]);
        (if action == PollAction::Terminate { 1nat } else { 0nat }) + terminations(
            next,
            inputs.drop_first(),
        )
    }
}

/// Once stopped, the loop stays stopped and never terminates again.
pub proof fn lemma_stopped_is_final(inputs: Seq<PollInput>)
    ensures
        final_state(PollState::Stopped, inputs) == PollState::Stopped,
        terminations(PollState::Stopped, inputs) == 0,
    decreases inputs.len(),
{
    if inputs.len() > 0 {
        lemma_stopped_is_final(inputs.drop_first());
    }
}

/// Whatever it observes, the polling loop terminates at most once.
pub proof fn lemma_terminates_at_most_once(state: PollState, inputs: Seq<PollInput>)
    ensures
        terminations(state, inputs) <= 1,
    decreases inputs.len(),
{
    if inputs.len() > 0 {
        let (next, action) = transition(state, inputs[0]);
        if action == PollAction::Terminate {
            lemma_stopped_is_final(inputs.drop_first());
        } else {
            lemma_terminates_at_most_once(next, inputs.drop_first());
        }
    }
}

/// Seeing the cancellation signal fired twice in a row has the same effect
/// as seeing it once, whatever follows: same final state, same number of
/// terminations.
pub proof fn lemma_cancel_twice_is_once(state: PollState, rest: Seq<PollInput>)
    ensures
        final_state(state, seq![PollInput::Signal { fired: true }, PollInput::Signal { fired: true }] + rest)
            == final_state(state, seq![PollInput::Signal { fired: true }] + rest),
        terminations(state, seq![PollInput::Signal { fired: true }, PollInput::Signal { fired: true }] + rest)
            == terminations(state, seq![PollInput::Signal { fired: true }] + rest),
{
    let fire = PollInput::Signal { fired: true };
    let twice = seq![fire, fire] + rest;
    let once = seq![fire] + rest;
    assert(twice.drop_first() =~= once);
    assert(once.drop_first() =~= rest);
    assert(twice[0] == fire);
    assert(once[0] == fire);
    let after = transition(state, fire).0;
    // After one observed firing the loop is stopped, unless it was still
    // starting up, where a firing changes nothing.
    assert(transition(after, fire) == (after, PollAction::Idle));
    assert(final_state(after, once) == final_state(after, rest));
    assert(final_state(state, twice) == final_state(after, once));
    assert(final_state(state, once) == final_state(after, rest));
    assert(terminations(after, once) == terminations(after, rest));
    assert(terminations(state, twice) == terminations(state, once));
}

} // verus!
