use vstd::prelude::*;

use crate::types::CommandTestResult;

verus! {

/// What the caller of the validation protocol must do after one round.
#[derive(Copy, Clone, PartialEq, Eq, Structural, Debug)]
pub enum ValidationAction {
    /// The driver accepted the descriptor as-is: submit it.
    Accept,
    /// The driver adjusted or refused the descriptor and rounds remain:
    /// submit the (possibly adjusted) descriptor again.
    Retry,
    /// The retry budget is exhausted without acceptance: surface a
    /// configuration failure rather than spin forever.
    GiveUp,
}

/// The caller-visible retry guard of the validation protocol. A non-accepting
/// round may have adjusted the descriptor in place, so the required policy is
/// to resubmit until acceptance; nothing guarantees convergence, so the guard
/// caps the number of resubmissions.
pub struct ValidationBudget {
    remaining: u32,
}

impl ValidationBudget {
    /// How many more non-accepting rounds the guard will answer with Retry.
    pub closed spec fn spec_remaining(&self) -> u32 {
        self.remaining
    }

    pub fn new(max_retries: u32) -> (r: ValidationBudget)
        ensures
            r.spec_remaining() == max_retries,
    {
        ValidationBudget { remaining: max_retries }
    }

    pub fn remaining(&self) -> (r: u32)
        ensures
            r == self.spec_remaining(),
    {
        self.remaining
    }

    /// Decides the next move from one round's outcome: acceptance ends the
    /// loop at once; any other outcome asks for a retry while the budget
    /// lasts, and for giving up once it is spent. The budget shrinks by one
    /// on every retry and never grows, so a loop honoring the returned
    /// action performs at most the initial budget of retries.
    pub fn step(&mut self, outcome: CommandTestResult) -> (a: ValidationAction)
        ensures
            outcome == CommandTestResult::Accepted ==> (a == ValidationAction::Accept
                && final(self).spec_remaining() == old(self).spec_remaining()),
            outcome != CommandTestResult::Accepted && old(self).spec_remaining() > 0 ==> (a
                == ValidationAction::Retry && final(self).spec_remaining() == old(
                self,
            ).spec_remaining() - 1),
            outcome != CommandTestResult::Accepted && old(self).spec_remaining() == 0 ==> (a
                == ValidationAction::GiveUp && final(self).spec_remaining() == 0),
    {
        if let CommandTestResult::Accepted = outcome {
            ValidationAction::Accept
        } else if self.remaining > 0 {
            self.remaining = self.remaining - 1;
            ValidationAction::Retry
        } else {
            ValidationAction::GiveUp
        }
    }
}

/// How many rounds a loop honoring the guard performs when the driver
/// produces the given outcomes round by round: it stops at the first
/// acceptance, at the round that exhausts the budget, or when the outcomes
/// run out.
pub open spec fn spec_rounds_used(budget: nat, outcomes: Seq<CommandTestResult>) -> nat
    decreases outcomes.len(),
{
    if outcomes.len() == 0 {
        0
    } else if outcomes[0] == CommandTestResult::Accepted {
        1
    } else if budget == 0 {
        1
    } else {
        1 + spec_rounds_used((budget - 1) as nat, outcomes.skip(1))
    }
}

/// Validation-loop termination: whatever outcomes the driver produces, the
/// guarded loop performs at most budget + 1 rounds.
pub proof fn lemma_validation_bounded(budget: nat, outcomes: Seq<CommandTestResult>)
    ensures
        spec_rounds_used(budget, outcomes) <= budget + 1,
    decreases outcomes.len(),
{
    if outcomes.len() == 0 {
    } else if outcomes[0] == CommandTestResult::Accepted {
    } else if budget == 0 {
    } else {
        lemma_validation_bounded((budget - 1) as nat, outcomes.skip(1));
    }
}

/// A descriptor whose fields are already legal is accepted in its first
/// round: the loop ends after exactly one round, whatever the budget, and
/// (by ValidationBudget::step) the guard's state is left untouched.
pub proof fn lemma_accept_on_first_round(budget: nat, outcomes: Seq<CommandTestResult>)
    requires
        outcomes.len() > 0,
        outcomes[0] == CommandTestResult::Accepted,
    ensures
        spec_rounds_used(budget, outcomes) == 1,
{
}

} // verus!
