//! Synthesis of the code agent's command-line arguments. The agent is an
//! external program; these builders fix the exact argument vectors with which
//! it is invoked, so the process-spawning shell around the library carries no
//! decision of its own.

use vstd::prelude::*;

verus! {

/// The argument vector for one planning-stage invocation: the fixed flags,
/// the stage's instruction, the stage's artifacts as context, and the
/// optional model identifier last.
pub fn planning_agent_args(
    instruction: &str,
    context_files: &Vec<&str>,
    model: &Option<String>,
) -> (args: Vec<String>)
    ensures
        args@.len() >= 4 + context_files@.len(),
        args@[0]@ == "--no-suggest-shell-commands"@,
        args@[1]@ == "--yes-always"@,
        args@[2]@ == "--message"@,
        args@[3]@ == instruction@,
        forall|i: int|
            0 <= i < context_files@.len() ==> #[trigger] args@[4 + i]@ == context_files@[i]@,
        model is None ==> args@.len() == 4 + context_files@.len(),
        model matches Some(m) ==> args@.len() == 6 + context_files@.len() && args@[4
            + context_files@.len() as int]@ == "--model"@ && args@[5
            + context_files@.len() as int]@ == m@,
{
    let mut args: Vec<String> = Vec::new();
    args.push(String::from_str("--no-suggest-shell-commands"));
    args.push(String::from_str("--yes-always"));
    args.push(String::from_str("--message"));
    args.push(String::from_str(instruction));
    let mut i: usize = 0;
    while i < context_files.len()
        invariant
            0 <= i <= context_files@.len(),
            args@.len() == 4 + i,
            args@[0]@ == "--no-suggest-shell-commands"@,
            args@[1]@ == "--yes-always"@,
            args@[2]@ == "--message"@,
            args@[3]@ == instruction@,
            forall|j: int|
                0 <= j < i ==> #[trigger] args@[4 + j]@ == context_files@[j]@,
        decreases context_files@.len() - i,
    {
        args.push(String::from_str(context_files[i]));
        i = i + 1;
    }
    match model {
        Some(m) => {
            args.push(String::from_str("--model"));
            args.push(m.clone());
        },
        None => {},
    }
    args
}

/// The argument vector for one development-stage invocation: the model comes
/// first and the project context file is always loaded.
pub fn dev_agent_args(model: &str, instruction: &str) -> (args: Vec<String>)
    ensures
        args@.len() == 8,
        args@[0]@ == "--model"@,
        args@[1]@ == model@,
        args@[2]@ == "--message"@,
        args@[3]@ == instruction@,
        args@[4]@ == "--load"@,
        args@[5]@ == "CONTEXT.md"@,
        args@[6]@ == "--yes-always"@,
        args@[7]@ == "--no-suggest-shell-commands"@,
{
    let mut args: Vec<String> = Vec::new();
    args.push(String::from_str("--model"));
    args.push(String::from_str(model));
    args.push(String::from_str("--message"));
    args.push(String::from_str(instruction));
    args.push(String::from_str("--load"));
    args.push(String::from_str("CONTEXT.md"));
    args.push(String::from_str("--yes-always"));
    args.push(String::from_str("--no-suggest-shell-commands"));
    args
}

/// The argument vector for a conversational request (a code change or a
/// question): the optional model, then the chosen context file — unless the
/// front-end sent the placeholder context "None", which loads nothing.
pub fn chat_agent_args(message: &str, context: &str, model: &Option<String>) -> (args: Vec<
    String,
>)
    ensures
        args@.len() >= 4,
        args@[0]@ == "--no-suggest-shell-commands"@,
        args@[1]@ == "--yes-always"@,
        args@[2]@ == "--message"@,
        args@[3]@ == message@,
        model matches Some(m) ==> args@[4]@ == "--model"@ && args@[5]@ == m@,
        model is None && context@ == "None"@ ==> args@.len() == 4,
        model is Some && context@ == "None"@ ==> args@.len() == 6,
        model is None && context@ != "None"@ ==> args@.len() == 6 && args@[4]@ == "--load"@
            && args@[5]@ == context@,
        model is Some && context@ != "None"@ ==> args@.len() == 8 && args@[6]@ == "--load"@
            && args@[7]@ == context@,
{
    let mut args: Vec<String> = Vec::new();
    args.push(String::from_str("--no-suggest-shell-commands"));
    args.push(String::from_str("--yes-always"));
    args.push(String::from_str("--message"));
    args.push(String::from_str(message));
    match model {
        Some(m) => {
            args.push(String::from_str("--model"));
            args.push(m.clone());
        },
        None => {},
    }
    if !(context.to_owned() == String::from_str("None")) {
        args.push(String::from_str("--load"));
        args.push(String::from_str(context));
    }
    args
}

} // verus!
