//! The build/test retry-escalation loop: up to five attempts of an external
//! verification verb, with one fix instruction handed to the code agent after
//! every failed attempt.

use vstd::prelude::*;

verus! {

/// The maximum number of attempts of one verification verb within a single
/// development cycle.
pub const RETRY_BUDGET: u64 = 5;

/// The two verification verbs the build system exposes.
#[derive(Clone, Copy, PartialEq, Eq, Structural, Debug)]
pub enum VerifyVerb {
    Build,
    Test,
}

/// The argument under which the build system is invoked for each verb.
pub fn verb_name(verb: VerifyVerb) -> (name: &'static str)
    ensures
        verb is Build ==> name@ == "build"@,
        verb is Test ==> name@ == "test"@,
{
    match verb {
        VerifyVerb::Build => "build",
        VerifyVerb::Test => "test",
    }
}

/// The fix instruction synthesized after a failed attempt, embedding the
/// captured output streams of the failed verification run.
pub open spec fn spec_fix_instruction(
    verb: VerifyVerb,
    stdout: Seq<char>,
    stderr: Seq<char>,
) -> Seq<char> {
    (match verb {
        VerifyVerb::Build => "Fix this build error:\nSTDOUT:\n"@,
        VerifyVerb::Test => "Fix these test failures:\nSTDOUT:\n"@,
    }) + stdout + "\nSTDERR:\n"@ + stderr
}

/// Synthesize the fix instruction for one failed attempt of `verb`.
pub fn fix_instruction(verb: VerifyVerb, stdout: &str, stderr: &str) -> (instruction: String)
    ensures
        instruction@ == spec_fix_instruction(verb, stdout@, stderr@),
{
    let mut instruction = match verb {
        VerifyVerb::Build => String::from_str("Fix this build error:\nSTDOUT:\n"),
        VerifyVerb::Test => String::from_str("Fix these test failures:\nSTDOUT:\n"),
    };
    instruction.append(stdout);
    instruction.append("\nSTDERR:\n");
    instruction.append(stderr);
    instruction
}

/// What the loop does after one attempt: accept the success, fix and try
/// again, or give up so the caller escalates.
#[derive(Clone, Copy, PartialEq, Eq, Structural, Debug)]
pub enum RetryStep {
    Accept,
    FixAndRetry,
    GiveUp,
}

/// Decide how the loop continues after attempt number `attempt` (counted from
/// one) returned `succeeded`. A failed attempt always gets a fix instruction;
/// only after the last budgeted attempt fails does the loop give up.
pub fn retry_step(attempt: u64, succeeded: bool) -> (step: RetryStep)
    requires
        1 <= attempt <= RETRY_BUDGET,
    ensures
        succeeded ==> step == RetryStep::Accept,
        !succeeded && attempt < RETRY_BUDGET ==> step == RetryStep::FixAndRetry,
        !succeeded && attempt == RETRY_BUDGET ==> step == RetryStep::GiveUp,
{
    if succeeded {
        RetryStep::Accept
    } else if attempt < RETRY_BUDGET {
        RetryStep::FixAndRetry
    } else {
        RetryStep::GiveUp
    }
}

/// Whether a run of the loop succeeds, given what the build system would
/// answer on each budgeted attempt.
pub open spec fn spec_retry_succeeds(outcomes: Seq<bool>) -> bool {
    exists|i: int| 0 <= i < RETRY_BUDGET && #[trigger] outcomes[i]
}

/// How many attempts the loop makes, counting from attempt `from`: it stops
/// at the first success, and the budget caps it at five.
pub open spec fn spec_retry_attempts_from(outcomes: Seq<bool>, from: int) -> int
    decreases RETRY_BUDGET - from,
    when 0 <= from < RETRY_BUDGET
{
    if from >= RETRY_BUDGET - 1 {
        RETRY_BUDGET as int
    } else if outcomes[from] {
        from + 1
    } else {
        spec_retry_attempts_from(outcomes, from + 1)
    }
}

pub open spec fn spec_retry_attempts(outcomes: Seq<bool>) -> int {
    spec_retry_attempts_from(outcomes, 0)
}

/// How many fix instructions the loop hands to the code agent: one for every
/// failed attempt, including a failed final attempt.
pub open spec fn spec_retry_fixes(outcomes: Seq<bool>) -> int {
    if spec_retry_succeeds(outcomes) {
        spec_retry_attempts(outcomes) - 1
    } else {
        RETRY_BUDGET as int
    }
}

proof fn lemma_retry_attempts_skip(outcomes: Seq<bool>, upto: int)
    requires
        0 <= upto < RETRY_BUDGET,
        forall|j: int| 0 <= j < upto ==> !(#[trigger] outcomes[j]),
    ensures
        spec_retry_attempts(outcomes) == spec_retry_attempts_from(outcomes, upto),
    decreases upto,
{
    if upto > 0 {
        lemma_retry_attempts_skip(outcomes, upto - 1);
    }
}

/// The result of one run of the retry loop: whether an attempt succeeded,
/// how many attempts were made, and how many fix instructions were issued.
#[derive(Clone, Copy, PartialEq, Eq, Structural, Debug)]
pub struct RetryOutcome {
    pub succeeded: bool,
    pub attempts: u64,
    pub fixes: u64,
}

/// Run the retry loop against a table of per-attempt answers: entry `i` is
/// what the build system would answer on attempt `i + 1`. The loop stops at
/// the first success and never makes more than the budgeted five attempts.
pub fn run_retry(outcomes: &Vec<bool>) -> (outcome: RetryOutcome)
    requires
        outcomes@.len() == RETRY_BUDGET,
    ensures
        outcome.succeeded == spec_retry_succeeds(outcomes@),
        outcome.attempts == spec_retry_attempts(outcomes@),
        outcome.fixes == spec_retry_fixes(outcomes@),
        outcome.succeeded ==> outcomes@[outcome.attempts - 1],
        outcome.succeeded ==> forall|j: int|
            0 <= j < outcome.attempts - 1 ==> !(#[trigger] outcomes@[j]),
{
    let mut i: usize = 0;
    while i < 5
        invariant
            0 <= i <= 5,
            outcomes@.len() == RETRY_BUDGET,
            forall|j: int| 0 <= j < i ==> !(#[trigger] outcomes@[j]),
        decreases 5 - i,
    {
        if outcomes[i] {
            proof {
                lemma_retry_attempts_skip(outcomes@, i as int);
            }
            return RetryOutcome { succeeded: true, attempts: (i as u64) + 1, fixes: i as u64 };
        }
        i = i + 1;
    }
    proof {
        lemma_retry_attempts_skip(outcomes@, 4);
    }
    RetryOutcome { succeeded: false, attempts: 5, fixes: 5 }
}

} // verus!
