//! The four planning-mode pipeline stages: their table of inputs, outputs,
//! instructions and cadence, and the per-tick decision each stage loop makes.

use vstd::prelude::*;
use crate::mode::ActivityMode;
use crate::staleness::{Stamp, spec_regeneration_required, regeneration_required};
use crate::staleness::lemma_fresh_output_requires_nothing;

verus! {

/// The four document-generation stages, each gated to Planning mode.
#[derive(Clone, Copy, PartialEq, Eq, Structural, Debug)]
pub enum StageKind {
    Requirements,
    Architecture,
    TaskDecomposition,
    TestStrategy,
}

/// Every pipeline stage runs only while the shared mode is Planning.
pub fn stage_required_mode(kind: StageKind) -> (mode: ActivityMode)
    ensures
        mode == ActivityMode::Planning,
{
    match kind {
        StageKind::Requirements => ActivityMode::Planning,
        StageKind::Architecture => ActivityMode::Planning,
        StageKind::TaskDecomposition => ActivityMode::Planning,
        StageKind::TestStrategy => ActivityMode::Planning,
    }
}

/// The output artifact each stage regenerates.
pub fn stage_output_name(kind: StageKind) -> (name: &'static str)
    ensures
        kind is Requirements ==> name@ == "PROJECT.md"@,
        kind is Architecture ==> name@ == "ARCHITECTURE.md"@,
        kind is TaskDecomposition ==> name@ == "TASKS.md"@,
        kind is TestStrategy ==> name@ == "TEST_STRATEGY.md"@,
{
    match kind {
        StageKind::Requirements => "PROJECT.md",
        StageKind::Architecture => "ARCHITECTURE.md",
        StageKind::TaskDecomposition => "TASKS.md",
        StageKind::TestStrategy => "TEST_STRATEGY.md",
    }
}

/// The input artifacts whose timestamps each stage compares against its
/// output's.
pub fn stage_input_names(kind: StageKind) -> (names: Vec<&'static str>)
    ensures
        kind is Requirements ==> names@.len() == 1 && names@[0]@ == "TRANSCRIPT.md"@,
        kind is Architecture ==> names@.len() == 1 && names@[0]@ == "PROJECT.md"@,
        kind is TaskDecomposition ==> names@.len() == 2 && names@[0]@ == "PROJECT.md"@
            && names@[1]@ == "ARCHITECTURE.md"@,
        kind is TestStrategy ==> names@.len() == 2 && names@[0]@ == "TASKS.md"@
            && names@[1]@ == "ARCHITECTURE.md"@,
{
    let mut names: Vec<&'static str> = Vec::new();
    match kind {
        StageKind::Requirements => {
            names.push("TRANSCRIPT.md");
        },
        StageKind::Architecture => {
            names.push("PROJECT.md");
        },
        StageKind::TaskDecomposition => {
            names.push("PROJECT.md");
            names.push("ARCHITECTURE.md");
        },
        StageKind::TestStrategy => {
            names.push("TASKS.md");
            names.push("ARCHITECTURE.md");
        },
    }
    names
}

/// The natural-language instruction handed to the code agent when the stage
/// runs.
pub fn stage_instruction(kind: StageKind) -> (instruction: &'static str)
    ensures
        kind is Requirements ==> instruction@ == "given the TRANSCRIPT.md update PROJECT.md"@,
        kind is Architecture ==> instruction@
            == "given the PROJECT.md, update ARCHITECTURE.md with technical architecture details"@,
        kind is TaskDecomposition ==> instruction@
            == "Given the PROJECT.md and ARCHITECTURE.md, create or update TASKS.md with an ordered list of technical tasks for developers to work on today. Follow these rules:\n1. Tasks must be ordered by dependency - things needed first must be at the top\n2. Each task should be a small, incremental unit of work\n3. Tasks should be clear and actionable with relevant technical details\n4. The goal is to have a testable product by end of day\n5. Break down large tasks into smaller steps\n6. Include any setup/config tasks needed early\n7. Focus on delivering working functionality over perfection\n8. Mark tasks that are critical path for testing\n9. Include estimates of time required for each task\n10. Ensure the sequence leads to a testable product by end of day"@,
        kind is TestStrategy ==> instruction@
            == "Given the TASKS.md and ARCHITECTURE.md, create or update TEST_STRATEGY.md with a comprehensive test strategy following these guidelines:\n1. Create a test pyramid with unit, integration, and end-to-end tests\n2. For each task in TASKS.md, define specific test cases\n3. Include both frontend and backend test strategies\n4. Specify test automation tools and frameworks\n5. Define test coverage goals\n6. Include CI/CD integration strategy\n7. Follow TDD principles - tests should be written before implementation\n8. Include performance and security testing where applicable\n9. Define test data management strategy\n10. Include reporting and monitoring requirements"@,
{
    match kind {
        StageKind::Requirements => "given the TRANSCRIPT.md update PROJECT.md",
        StageKind::Architecture => "given the PROJECT.md, update ARCHITECTURE.md with technical architecture details",
        StageKind::TaskDecomposition => "Given the PROJECT.md and ARCHITECTURE.md, create or update TASKS.md with an ordered list of technical tasks for developers to work on today. Follow these rules:\n1. Tasks must be ordered by dependency - things needed first must be at the top\n2. Each task should be a small, incremental unit of work\n3. Tasks should be clear and actionable with relevant technical details\n4. The goal is to have a testable product by end of day\n5. Break down large tasks into smaller steps\n6. Include any setup/config tasks needed early\n7. Focus on delivering working functionality over perfection\n8. Mark tasks that are critical path for testing\n9. Include estimates of time required for each task\n10. Ensure the sequence leads to a testable product by end of day",
        StageKind::TestStrategy => "Given the TASKS.md and ARCHITECTURE.md, create or update TEST_STRATEGY.md with a comprehensive test strategy following these guidelines:\n1. Create a test pyramid with unit, integration, and end-to-end tests\n2. For each task in TASKS.md, define specific test cases\n3. Include both frontend and backend test strategies\n4. Specify test automation tools and frameworks\n5. Define test coverage goals\n6. Include CI/CD integration strategy\n7. Follow TDD principles - tests should be written before implementation\n8. Include performance and security testing where applicable\n9. Define test data management strategy\n10. Include reporting and monitoring requirements",
    }
}

/// Every planning stage ticks on a fixed sixty-second cadence.
pub fn stage_interval_secs(kind: StageKind) -> (secs: u64)
    ensures
        secs == 60,
{
    match kind {
        StageKind::Requirements => 60,
        StageKind::Architecture => 60,
        StageKind::TaskDecomposition => 60,
        StageKind::TestStrategy => 60,
    }
}

/// What one tick of a stage loop decides to do.
#[derive(Clone, Copy, PartialEq, Eq, Structural, Debug)]
pub enum TickDecision {
    /// The shutdown signal is raised: terminate the loop.
    Halt,
    /// The shared mode does not match the stage's required mode: skip.
    NotEligible,
    /// The output is not stale: nothing to do this tick.
    OutputFresh,
    /// Invoke the code agent once to regenerate the output.
    Invoke,
}

/// The per-tick rule, in the order every stage applies it: the shutdown
/// check first, then mode eligibility, then staleness.
pub open spec fn spec_tick_decision(
    shutdown: bool,
    mode: ActivityMode,
    required: ActivityMode,
    output: Stamp,
    inputs: Seq<Option<u64>>,
) -> TickDecision {
    if shutdown {
        TickDecision::Halt
    } else if mode != required {
        TickDecision::NotEligible
    } else if spec_regeneration_required(output, inputs) {
        TickDecision::Invoke
    } else {
        TickDecision::OutputFresh
    }
}

/// Decide what this tick of a stage does, from snapshots of the shutdown
/// flag, the shared mode, and the artifacts' timestamps.
pub fn tick_decision(
    shutdown: bool,
    mode: ActivityMode,
    required: ActivityMode,
    output: &Stamp,
    inputs: &Vec<Option<u64>>,
) -> (decision: TickDecision)
    ensures
        decision == spec_tick_decision(shutdown, mode, required, *output, inputs@),
{
    if shutdown {
        TickDecision::Halt
    } else if mode != required {
        TickDecision::NotEligible
    } else if regeneration_required(output, inputs) {
        TickDecision::Invoke
    } else {
        TickDecision::OutputFresh
    }
}

/// What a stage does after one code-agent run, judged from the agent's exit
/// status and the output artifact's timestamp before and after the run.
#[derive(Clone, Copy, PartialEq, Eq, Structural, Debug)]
pub enum AgentFollowUp {
    /// The agent failed; report it and let the next tick re-evaluate.
    ReportFailure,
    /// The agent succeeded and the output's timestamp advanced.
    OutputAdvanced,
    /// The agent succeeded but the output's timestamp did not advance: touch
    /// the output so the stage does not re-trigger forever.
    TouchOutput,
}

pub open spec fn spec_agent_follow_up(
    success: bool,
    mtime_before: u64,
    mtime_after: u64,
) -> AgentFollowUp {
    if !success {
        AgentFollowUp::ReportFailure
    } else if mtime_after > mtime_before {
        AgentFollowUp::OutputAdvanced
    } else {
        AgentFollowUp::TouchOutput
    }
}

/// Judge one code-agent run. A successful run whose output timestamp did not
/// advance (for instance, an empty input produced no change) must have the
/// output touched, so the unchanged timestamps cannot re-trigger the stage on
/// every later tick.
pub fn agent_follow_up(success: bool, mtime_before: u64, mtime_after: u64) -> (follow_up:
    AgentFollowUp)
    ensures
        follow_up == spec_agent_follow_up(success, mtime_before, mtime_after),
{
    if !success {
        AgentFollowUp::ReportFailure
    } else if mtime_after > mtime_before {
        AgentFollowUp::OutputAdvanced
    } else {
        AgentFollowUp::TouchOutput
    }
}

/// Mode-gating law: on a tick where the shared mode differs from the stage's
/// required mode, the stage never invokes the code agent.
pub proof fn lemma_mode_gating(
    shutdown: bool,
    mode: ActivityMode,
    required: ActivityMode,
    output: Stamp,
    inputs: Seq<Option<u64>>,
)
    requires
        mode != required,
    ensures
        spec_tick_decision(shutdown, mode, required, output, inputs) != TickDecision::Invoke,
{
}

/// Shutdown law: once the shutdown signal is raised, a tick only halts the
/// loop, whatever the mode and the artifacts say.
pub proof fn lemma_shutdown_halts(
    mode: ActivityMode,
    required: ActivityMode,
    output: Stamp,
    inputs: Seq<Option<u64>>,
)
    ensures
        spec_tick_decision(true, mode, required, output, inputs) == TickDecision::Halt,
{
}

/// Idempotence law: once a run has left the output artifact at least as new
/// as every input, a second tick with unchanged inputs does not invoke the
/// code agent again — it finds the output fresh.
pub proof fn lemma_stage_idempotent(
    required: ActivityMode,
    out_mtime: u64,
    inputs: Seq<Option<u64>>,
)
    requires
        forall|i: int|
            0 <= i < inputs.len() ==> ((#[trigger] inputs[i]) matches Some(t) && t <= out_mtime),
    ensures
        spec_tick_decision(false, required, required, Stamp::Modified(out_mtime), inputs)
            == TickDecision::OutputFresh,
{
    lemma_fresh_output_requires_nothing(out_mtime, inputs);
}

} // verus!
