use colossus::retry::{
    fix_instruction, retry_step, run_retry, verb_name, RetryStep, VerifyVerb, RETRY_BUDGET,
};

#[test]
fn budget_is_five() {
    assert_eq!(RETRY_BUDGET, 5);
}

#[test]
fn verb_names_match_the_build_system() {
    assert_eq!(verb_name(VerifyVerb::Build), "build");
    assert_eq!(verb_name(VerifyVerb::Test), "test");
}

#[test]
fn four_failures_then_success_takes_five_attempts_and_four_fixes() {
    let outcomes = vec![false, false, false, false, true];
    let r = run_retry(&outcomes);
    assert!(r.succeeded);
    assert_eq!(r.attempts, 5);
    assert_eq!(r.fixes, 4);
}

#[test]
fn constant_failure_stops_after_exactly_five_attempts() {
    let outcomes = vec![false, false, false, false, false];
    let r = run_retry(&outcomes);
    assert!(!r.succeeded);
    assert_eq!(r.attempts, 5);
    assert_eq!(r.fixes, 5);
}

#[test]
fn immediate_success_takes_one_attempt_and_no_fix() {
    let outcomes = vec![true, false, false, false, false];
    let r = run_retry(&outcomes);
    assert!(r.succeeded);
    assert_eq!(r.attempts, 1);
    assert_eq!(r.fixes, 0);
}

#[test]
fn success_in_the_middle_stops_the_loop_there() {
    let outcomes = vec![false, true, true, true, true];
    let r = run_retry(&outcomes);
    assert!(r.succeeded);
    assert_eq!(r.attempts, 2);
    assert_eq!(r.fixes, 1);
}

#[test]
fn retry_step_accepts_any_success() {
    for attempt in 1..=5 {
        assert_eq!(retry_step(attempt, true), RetryStep::Accept);
    }
}

#[test]
fn retry_step_fixes_and_retries_until_the_budget_is_spent() {
    for attempt in 1..=4 {
        assert_eq!(retry_step(attempt, false), RetryStep::FixAndRetry);
    }
    assert_eq!(retry_step(5, false), RetryStep::GiveUp);
}

#[test]
fn build_fix_instruction_embeds_both_streams() {
    let instruction = fix_instruction(VerifyVerb::Build, "out text", "err text");
    assert_eq!(
        instruction,
        "Fix this build error:\nSTDOUT:\nout text\nSTDERR:\nerr text"
    );
}

#[test]
fn test_fix_instruction_embeds_both_streams() {
    let instruction = fix_instruction(VerifyVerb::Test, "1 test failed", "assertion error");
    assert_eq!(
        instruction,
        "Fix these test failures:\nSTDOUT:\n1 test failed\nSTDERR:\nassertion error"
    );
}
