//! Shared control state: the tri-state activity mode that gates every stage,
//! and the write-once shutdown signal that every stage loop observes.

use vstd::prelude::*;

verus! {

/// The shared activity mode. Planning-mode stages regenerate documents,
/// the development stage implements tasks, and `ErrorNeedsHuman` freezes
/// automatic development until an operator switches the mode back.
#[derive(Clone, Copy, PartialEq, Eq, Structural, Debug)]
pub enum ActivityMode {
    Planning,
    Developing,
    ErrorNeedsHuman,
}

/// The name under which each mode is reported to the operator's front-end.
pub fn mode_name(mode: ActivityMode) -> (name: &'static str)
    ensures
        mode is Planning ==> name@ == "planning"@,
        mode is Developing ==> name@ == "developing"@,
        mode is ErrorNeedsHuman ==> name@ == "error"@,
{
    match mode {
        ActivityMode::Planning => "planning",
        ActivityMode::Developing => "developing",
        ActivityMode::ErrorNeedsHuman => "error",
    }
}

/// Parse an operator's mode command. Only "planning" and "developing" are
/// accepted; in particular `ErrorNeedsHuman` cannot be requested from
/// outside — it is only ever entered by the development stage's escalation.
pub fn parse_mode_command(name: &str) -> (mode: Option<ActivityMode>)
    ensures
        mode == Some(ActivityMode::Planning) <==> name@ == "planning"@,
        mode == Some(ActivityMode::Developing) <==> name@ == "developing"@,
        mode is None <==> (name@ != "planning"@ && name@ != "developing"@),
        mode != Some(ActivityMode::ErrorNeedsHuman),
{
    proof {
        reveal_strlit("planning");
        reveal_strlit("developing");
        assert("planning"@.len() == 8);
        assert("developing"@.len() == 10);
    }
    let owned = name.to_owned();
    if owned == String::from_str("planning") {
        Some(ActivityMode::Planning)
    } else if owned == String::from_str("developing") {
        Some(ActivityMode::Developing)
    } else {
        None
    }
}

/// The shutdown coordinator: a flag that is raised once and never lowered.
/// Each stage loop reads it at the start of a tick and terminates cleanly
/// when it is set.
pub struct ShutdownSignal {
    raised: bool,
}

impl ShutdownSignal {
    pub closed spec fn is_raised(&self) -> bool {
        self.raised
    }

    pub fn new() -> (signal: Self)
        ensures
            !signal.is_raised(),
    {
        ShutdownSignal { raised: false }
    }

    /// Request shutdown. Whatever the flag held before, it holds afterwards:
    /// there is no way to reverse a shutdown request.
    pub fn raise(&mut self)
        ensures
            final(self).is_raised(),
    {
        self.raised = true;
    }

    pub fn should_halt(&self) -> (halt: bool)
        ensures
            halt == self.is_raised(),
    {
        self.raised
    }
}

} // verus!
