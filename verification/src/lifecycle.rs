//! The session lifecycle: one shared flag that says whether a session is
//! listening. Starting sets it, stopping clears it, and the capture and worker
//! loops keep running only while they read it as set.
//!
//! A session is idle while the flag is clear and no loop runs, listening
//! while the flag is set, and stopping from the moment the flag is cleared
//! until both loops have read it. The flag is all that start and stop see.

use std::sync::atomic::AtomicBool;
use std::sync::atomic::Ordering;
use std::sync::Arc;
use vstd::prelude::*;

verus! {

/// What a start request leads to.
#[derive(Clone, Copy, Debug, PartialEq, Eq, Structural)]
pub enum StartDecision {
    /// No session was listening: the flag is set and both loops are spawned.
    Spawn,
    /// A session is listening already: nothing is done.
    AlreadyListening,
}

/// The flag and the decision that a start request leads to.
#[derive(Clone, Copy, Debug, PartialEq, Eq, Structural)]
pub struct StartOutcome {
    /// The value of the flag once the request is handled.
    pub listening: bool,
    pub decision: StartDecision,
}

/// What a start request leads to when it finds the flag at `listening`: the
/// flag is set afterwards either way, and the loops are spawned only if it
/// was clear.
pub open spec fn start_outcome(listening: bool) -> StartOutcome {
    StartOutcome {
        listening: true,
        decision: if listening {
            StartDecision::AlreadyListening
        } else {
            StartDecision::Spawn
        },
    }
}

/// The flag after a stop request: clear, whatever it was.
pub open spec fn flag_after_stop() -> bool {
    false
}

/// Handles a start request that finds the flag at `listening`.
pub fn on_start(listening: bool) -> (outcome: StartOutcome)
    ensures
        outcome == start_outcome(listening),
{
    if listening {
        StartOutcome { listening: true, decision: StartDecision::AlreadyListening }
    } else {
        StartOutcome { listening: true, decision: StartDecision::Spawn }
    }
}

/// Handles a stop request: the value to write to the flag.
pub fn on_stop() -> (flag: bool)
    ensures
        flag == flag_after_stop(),
{
    false
}

/// Starting is idempotent: a start request that follows another finds the
/// flag set, spawns nothing and leaves the flag as it is. So of two start
/// requests in a row at most one spawns, and the first does exactly when no
/// session was listening.
pub proof fn lemma_second_start_is_a_no_op(listening: bool)
    ensures
        start_outcome(start_outcome(listening).listening).decision
            == StartDecision::AlreadyListening,
        start_outcome(start_outcome(listening).listening).listening == start_outcome(
            listening,
        ).listening,
        start_outcome(listening).decision == StartDecision::Spawn <==> !listening,
{
}

/// A stop request ends the session whatever came before: the loops, which go
/// on only while they read the flag as set, read it as clear, and the next
/// start request spawns again.
pub proof fn lemma_stop_ends_the_session()
    ensures
        !flag_after_stop(),
        start_outcome(flag_after_stop()).decision == StartDecision::Spawn,
{
}

/// The state shared by the command handlers and both loops.
pub struct AppState {
    pub is_listening: Arc<AtomicBool>,
}

impl AppState {
    /// A state in which no session is listening: a fresh flag, clear. The
    /// flag is an atomic, and what an atomic holds is no part of its value, so
    /// no clause can speak of it.
    pub fn new() -> (state: Self) {
        AppState { is_listening: Arc::new(AtomicBool::new(false)) }
    }

    /// Reads the flag. Other threads may write it at any time, so nothing is
    /// promised of the value read.
    pub fn listening(&self) -> (listening: bool) {
        self.is_listening.load(Ordering::Relaxed)
    }

    /// Handles a start request: reads the flag, takes the outcome from
    /// `on_start`, and writes the flag if the loops are to be spawned. What is
    /// read depends on the other threads, so nothing is promised of the
    /// decision here: `on_start` says which decision follows from which value.
    pub fn start(&self) -> (decision: StartDecision) {
        let outcome = on_start(self.is_listening.load(Ordering::Relaxed));
        match outcome.decision {
            StartDecision::Spawn => {
                self.is_listening.store(outcome.listening, Ordering::Relaxed);
            },
            StartDecision::AlreadyListening => {},
        }
        outcome.decision
    }

    /// Handles a stop request: writes the flag as `on_stop` says and returns
    /// without waiting for the loops.
    pub fn stop(&self) {
        self.is_listening.store(on_stop(), Ordering::Relaxed);
    }
}

} // verus!
