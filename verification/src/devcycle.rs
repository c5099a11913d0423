//! The development stage: one cycle per eligible tick implements the next
//! task, gates it behind the build and test retry loops, and either marks the
//! task complete or escalates to `ErrorNeedsHuman`.

use vstd::prelude::*;
use crate::mode::ActivityMode;
use crate::retry::{RetryOutcome, run_retry, RETRY_BUDGET};
use crate::retry::{spec_retry_succeeds, spec_retry_attempts, spec_retry_fixes};

verus! {

/// The development stage ticks on a fixed thirty-second cadence.
pub fn development_interval_secs() -> (secs: u64)
    ensures
        secs == 30,
{
    30
}

/// The instruction that starts a cycle: implement the next uncompleted task.
pub fn implement_task_instruction() -> (instruction: &'static str)
    ensures
        instruction@
            == "find the first UNCOMPLETED task (one without a checkmark \u{2713}) in TASKS.md, working in strict numerical order from top to bottom, implement it, and create some way to test it"@,
{
    "find the first UNCOMPLETED task (one without a checkmark \u{2713}) in TASKS.md, working in strict numerical order from top to bottom, implement it, and create some way to test it"
}

/// The instruction that ends a successful cycle: mark the task done.
pub fn mark_complete_instruction() -> (instruction: &'static str)
    ensures
        instruction@ == "Mark the task we just completed in TASKS.md as done"@,
{
    "Mark the task we just completed in TASKS.md as done"
}

/// What the development loop does at the start of a tick.
#[derive(Clone, Copy, PartialEq, Eq, Structural, Debug)]
pub enum CycleGate {
    /// The shutdown signal is raised: terminate the loop.
    Halt,
    /// The shared mode is not Developing: skip this tick entirely.
    Skip,
    /// Run one full development cycle.
    Proceed,
}

pub open spec fn spec_cycle_gate(shutdown: bool, mode: ActivityMode) -> CycleGate {
    if shutdown {
        CycleGate::Halt
    } else if mode != ActivityMode::Developing {
        CycleGate::Skip
    } else {
        CycleGate::Proceed
    }
}

/// Decide whether this tick runs a development cycle. The mode is checked
/// only here, at cycle start: a cycle already under way runs to completion
/// even if the mode changes meanwhile.
pub fn cycle_gate(shutdown: bool, mode: ActivityMode) -> (gate: CycleGate)
    ensures
        gate == spec_cycle_gate(shutdown, mode),
{
    if shutdown {
        CycleGate::Halt
    } else if mode != ActivityMode::Developing {
        CycleGate::Skip
    } else {
        CycleGate::Proceed
    }
}

/// Whether a cycle escalates: either verification verb exhausting its retry
/// budget ends the cycle in `ErrorNeedsHuman`.
pub open spec fn spec_cycle_escalates(build: Seq<bool>, test: Seq<bool>) -> bool {
    !spec_retry_succeeds(build) || !spec_retry_succeeds(test)
}

/// The mode a cycle leaves behind: unchanged unless the cycle ran in
/// Developing mode and escalated.
pub open spec fn spec_cycle_mode_after(
    mode: ActivityMode,
    build: Seq<bool>,
    test: Seq<bool>,
) -> ActivityMode {
    if mode == ActivityMode::Developing && spec_cycle_escalates(build, test) {
        ActivityMode::ErrorNeedsHuman
    } else {
        mode
    }
}

/// Whether a cycle marks its task complete: only a cycle that ran in
/// Developing mode and saw both verification verbs succeed within their
/// budgets does.
pub open spec fn spec_cycle_marks_complete(
    mode: ActivityMode,
    build: Seq<bool>,
    test: Seq<bool>,
) -> bool {
    mode == ActivityMode::Developing && spec_retry_succeeds(build) && spec_retry_succeeds(test)
}

/// What one development cycle did: the mode it leaves behind and how often
/// each external collaborator was invoked.
#[derive(Clone, Copy, PartialEq, Eq, Structural, Debug)]
pub struct CycleReport {
    pub mode_after: ActivityMode,
    /// Whether the implement-next-task instruction was sent to the code agent.
    pub implement_invoked: bool,
    pub build_attempts: u64,
    pub build_fixes: u64,
    pub test_attempts: u64,
    pub test_fixes: u64,
    /// Whether the mark-task-complete instruction was sent to the code agent.
    pub marked_complete: bool,
}

/// Run one development cycle against tables of per-attempt answers: entry `i`
/// of each table is what the build system would answer on attempt `i + 1` of
/// that verb. A cycle outside Developing mode invokes nothing; otherwise the
/// implementation instruction is sent once, the build loop runs, the test
/// loop runs only after the build loop succeeds, and the task is marked
/// complete only after both succeed — else the cycle escalates.
pub fn run_development_cycle(
    mode: ActivityMode,
    build_outcomes: &Vec<bool>,
    test_outcomes: &Vec<bool>,
) -> (report: CycleReport)
    requires
        build_outcomes@.len() == RETRY_BUDGET,
        test_outcomes@.len() == RETRY_BUDGET,
    ensures
        report.mode_after == spec_cycle_mode_after(mode, build_outcomes@, test_outcomes@),
        report.marked_complete == spec_cycle_marks_complete(mode, build_outcomes@, test_outcomes@),
        report.implement_invoked == (mode == ActivityMode::Developing),
        mode != ActivityMode::Developing ==> report.build_attempts == 0 && report.build_fixes == 0,
        mode == ActivityMode::Developing ==> report.build_attempts == spec_retry_attempts(
            build_outcomes@,
        ) && report.build_fixes == spec_retry_fixes(build_outcomes@),
        mode == ActivityMode::Developing && spec_retry_succeeds(build_outcomes@)
            ==> report.test_attempts == spec_retry_attempts(test_outcomes@) && report.test_fixes
            == spec_retry_fixes(test_outcomes@),
        !(mode == ActivityMode::Developing && spec_retry_succeeds(build_outcomes@))
            ==> report.test_attempts == 0 && report.test_fixes == 0,
{
    if mode != ActivityMode::Developing {
        return CycleReport {
            mode_after: mode,
            implement_invoked: false,
            build_attempts: 0,
            build_fixes: 0,
            test_attempts: 0,
            test_fixes: 0,
            marked_complete: false,
        };
    }
    let build = run_retry(build_outcomes);
    if !build.succeeded {
        return CycleReport {
            mode_after: ActivityMode::ErrorNeedsHuman,
            implement_invoked: true,
            build_attempts: build.attempts,
            build_fixes: build.fixes,
            test_attempts: 0,
            test_fixes: 0,
            marked_complete: false,
        };
    }
    let test = run_retry(test_outcomes);
    if !test.succeeded {
        return CycleReport {
            mode_after: ActivityMode::ErrorNeedsHuman,
            implement_invoked: true,
            build_attempts: build.attempts,
            build_fixes: build.fixes,
            test_attempts: test.attempts,
            test_fixes: test.fixes,
            marked_complete: false,
        };
    }
    CycleReport {
        mode_after: mode,
        implement_invoked: true,
        build_attempts: build.attempts,
        build_fixes: build.fixes,
        test_attempts: test.attempts,
        test_fixes: test.fixes,
        marked_complete: true,
    }
}

/// Escalation law: when both verification verbs fail on every budgeted
/// attempt, a cycle run in Developing mode ends in `ErrorNeedsHuman` and does
/// not mark its task complete.
pub proof fn lemma_always_failing_cycle_escalates(build: Seq<bool>, test: Seq<bool>)
    requires
        forall|i: int| 0 <= i < RETRY_BUDGET ==> !(#[trigger] build[i]),
        forall|i: int| 0 <= i < RETRY_BUDGET ==> !(#[trigger] test[i]),
    ensures
        spec_cycle_mode_after(ActivityMode::Developing, build, test)
            == ActivityMode::ErrorNeedsHuman,
        !spec_cycle_marks_complete(ActivityMode::Developing, build, test),
{
    assert(!spec_retry_succeeds(build));
}

/// Completion law: a cycle marks its task complete only when both the build
/// and the test verification succeeded within their budgets in that cycle.
pub proof fn lemma_completion_requires_both_verifications(
    mode: ActivityMode,
    build: Seq<bool>,
    test: Seq<bool>,
)
    ensures
        spec_cycle_marks_complete(mode, build, test) ==> spec_retry_succeeds(build)
            && spec_retry_succeeds(test),
{
}

/// Success law: when both verification verbs succeed within their budgets, a
/// cycle run in Developing mode leaves the mode unchanged and marks its task
/// complete.
pub proof fn lemma_successful_cycle_completes(build: Seq<bool>, test: Seq<bool>)
    requires
        spec_retry_succeeds(build),
        spec_retry_succeeds(test),
    ensures
        spec_cycle_mode_after(ActivityMode::Developing, build, test) == ActivityMode::Developing,
        spec_cycle_marks_complete(ActivityMode::Developing, build, test),
{
}

/// Mode-gating law for the development stage: while the shared mode is not
/// Developing — in particular while it is `ErrorNeedsHuman` — no cycle
/// starts, and a cycle that could not start changes nothing.
pub proof fn lemma_development_mode_gating(
    shutdown: bool,
    mode: ActivityMode,
    build: Seq<bool>,
    test: Seq<bool>,
)
    requires
        mode != ActivityMode::Developing,
    ensures
        spec_cycle_gate(shutdown, mode) != CycleGate::Proceed,
        spec_cycle_mode_after(mode, build, test) == mode,
        !spec_cycle_marks_complete(mode, build, test),
{
}

} // verus!
