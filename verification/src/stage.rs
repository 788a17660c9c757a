//! The stages of one invocation and the order in which they follow.

use vstd::prelude::*;

verus! {

/// Where an invocation stands. Nothing is kept from one invocation to the
/// next: each one starts at `Start`.
#[derive(Clone, Copy, Debug, PartialEq, Eq, Structural)]
pub enum Stage {
    Start,
    Decoding,
    Validating,
    Generating,
    Persisting,
    Responding,
    End,
}

/// The stage that follows `stage`. A stage that succeeds hands over to the
/// next in line; one that fails hands over to `Responding` directly. After
/// `Responding` comes `End`, which is final.
pub open spec fn successor(stage: Stage, failed: bool) -> Stage {
    match stage {
        Stage::Start => if failed { Stage::Responding } else { Stage::Decoding },
        Stage::Decoding => if failed { Stage::Responding } else { Stage::Validating },
        Stage::Validating => if failed { Stage::Responding } else { Stage::Generating },
        Stage::Generating => if failed { Stage::Responding } else { Stage::Persisting },
        Stage::Persisting => Stage::Responding,
        Stage::Responding => Stage::End,
        Stage::End => Stage::End,
    }
}

/// The place of a stage in the line from `Start` to `End`.
pub open spec fn rank(stage: Stage) -> nat {
    match stage {
        Stage::Start => 0,
        Stage::Decoding => 1,
        Stage::Validating => 2,
        Stage::Generating => 3,
        Stage::Persisting => 4,
        Stage::Responding => 5,
        Stage::End => 6,
    }
}

/// The stage reached from `stage` by one transition for each entry of
/// `failures`, in order.
pub open spec fn stage_after(stage: Stage, failures: Seq<bool>) -> Stage
    decreases failures.len(),
{
    if failures.len() == 0 {
        stage
    } else {
        stage_after(successor(stage, failures[0]), failures.drop_first())
    }
}

/// Moves an invocation on by one stage.
pub fn advance(stage: Stage, failed: bool) -> (next: Stage)
    ensures
        next == successor(stage, failed),
{
    match stage {
        Stage::Persisting => Stage::Responding,
        Stage::Responding => Stage::End,
        Stage::End => Stage::End,
        _ if failed => Stage::Responding,
        Stage::Start => Stage::Decoding,
        Stage::Decoding => Stage::Validating,
        Stage::Validating => Stage::Generating,
        Stage::Generating => Stage::Persisting,
    }
}

/// Every transition but the one out of `End` moves forward in the line, so
/// no stage is entered twice.
pub proof fn lemma_transitions_move_forward(stage: Stage, failed: bool)
    ensures
        stage != Stage::End ==> rank(successor(stage, failed)) > rank(stage),
        stage == Stage::End ==> successor(stage, failed) == Stage::End,
{
}

/// `End` is entered from `Responding` and from nowhere else: no invocation
/// ends without a response.
pub proof fn lemma_end_follows_responding(stage: Stage, failed: bool)
    requires
        stage != Stage::End,
        successor(stage, failed) == Stage::End,
    ensures
        stage == Stage::Responding,
{
}

/// A failure before `Responding` leads there in one transition.
pub proof fn lemma_failure_leads_to_responding(stage: Stage)
    requires
        rank(stage) < rank(Stage::Responding),
    ensures
        successor(stage, true) == Stage::Responding,
{
}

/// Transitions never lead backwards, and each one gains a place until `End`
/// is reached.
pub proof fn lemma_stage_after_rank(stage: Stage, failures: Seq<bool>)
    ensures
        rank(stage_after(stage, failures)) >= rank(stage),
        rank(stage_after(stage, failures)) >= 6 || rank(stage_after(stage, failures)) >= rank(
            stage,
        ) + failures.len(),
    decreases failures.len(),
{
    if failures.len() > 0 {
        lemma_transitions_move_forward(stage, failures[0]);
        lemma_stage_after_rank(successor(stage, failures[0]), failures.drop_first());
    }
}

/// Whatever fails and whatever succeeds, an invocation has ended after six
/// transitions.
pub proof fn lemma_six_transitions_end(failures: Seq<bool>)
    requires
        failures.len() >= 6,
    ensures
        stage_after(Stage::Start, failures) == Stage::End,
{
    lemma_stage_after_rank(Stage::Start, failures);
}

} // verus!
