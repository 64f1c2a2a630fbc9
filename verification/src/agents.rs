//! The rounds of an agent that runs by itself.
//!
//! The agent is asked, its answer is put to an exit test, and unless the test
//! says stop the answer becomes the next question after a pause. A count of
//! turns guards against an agent that never passes the test. The asking, the
//! test and the pause happen outside the library; the count is kept here.

use vstd::prelude::*;

verus! {

/// What comes after an answer.
#[derive(Debug, Clone, Copy, PartialEq, Eq, Structural)]
pub enum AfterAnswer {
    /// The answer stands: the run is over.
    Stop,
    /// Pause for this many seconds, then go into the next round.
    Pause(u64),
}

/// What a run holds.
pub struct RoundsModel {
    pub max_turns: nat,
    pub turns_taken: nat,
    pub delay_between_rounds: u64,
}

/// The count of turns of one run. A run starts with its turns counted as
/// taken up to the limit, so that the guard lets one round through and stops
/// the run before the next.
#[derive(Debug, Clone, PartialEq)]
pub struct Rounds {
    max_turns: u32,
    turns_taken: u64,
    delay_between_rounds: u64,
}

impl View for Rounds {
    type V = RoundsModel;

    closed spec fn view(&self) -> RoundsModel {
        RoundsModel {
            max_turns: self.max_turns as nat,
            turns_taken: self.turns_taken as nat,
            delay_between_rounds: self.delay_between_rounds,
        }
    }
}

impl Rounds {
    /// The count never runs more than one ahead of the limit.
    pub open spec fn wf(&self) -> bool {
        self@.max_turns <= self@.turns_taken <= self@.max_turns + 1
    }

    /// The start of a run with this limit and this pause between rounds.
    pub fn start(max_turns: u32, delay_between_rounds: u64) -> (r: Self)
        ensures
            r.wf(),
            r@ == (RoundsModel {
                max_turns: max_turns as nat,
                turns_taken: max_turns as nat,
                delay_between_rounds,
            }),
    {
        Rounds { max_turns, turns_taken: max_turns as u64, delay_between_rounds }
    }

    /// Whether the agent is asked once more. It is while the turns taken do
    /// not exceed the limit, and the round is counted.
    pub fn next_round(&mut self) -> (ask: bool)
        requires
            old(self).wf(),
        ensures
            final(self).wf(),
            ask == (old(self)@.turns_taken <= old(self)@.max_turns),
            final(self)@ == (RoundsModel {
                turns_taken: if ask {
                    old(self)@.turns_taken + 1
                } else {
                    old(self)@.turns_taken
                },
                ..old(self)@
            }),
    {
        if self.turns_taken > self.max_turns as u64 {
            false
        } else {
            self.turns_taken = self.turns_taken + 1;
            true
        }
    }

    /// What comes after an answer: nothing more where the exit test passed,
    /// else the pause before the next round.
    pub fn after_answer(&self, exit: bool) -> (r: AfterAnswer)
        ensures
            r == (if exit {
                AfterAnswer::Stop
            } else {
                AfterAnswer::Pause(self@.delay_between_rounds)
            }),
    {
        if exit {
            AfterAnswer::Stop
        } else {
            AfterAnswer::Pause(self.delay_between_rounds)
        }
    }
}

/// A run asks its agent exactly once: the first round goes through, and the
/// guard stops the run before a second.
pub proof fn lemma_one_round(start: RoundsModel)
    requires
        start.turns_taken == start.max_turns,
    ensures
        start.turns_taken <= start.max_turns,
        !(start.turns_taken + 1 <= start.max_turns),
{
}

} // verus!
