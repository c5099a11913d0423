//! Decisions behind the HTTP surface: startup requirement checks, the
//! context-file filter, and the speech session's instruction text.

use vstd::prelude::*;
use vstd::string::StrSliceExecFns;

verus! {

/// Why the server refuses to start.
#[derive(Clone, Copy, PartialEq, Eq, Structural, Debug)]
pub enum StartupError {
    MissingGitRepository,
    MissingApiKey,
}

/// The message reported for each startup error.
pub fn startup_error_message(error: StartupError) -> (message: &'static str)
    ensures
        error is MissingGitRepository ==> message@
            == "No .git directory found. Please run this from a git repository."@,
        error is MissingApiKey ==> message@
            == "OPENAI_API_KEY environment variable is not set. Put it in your environment variables or a .env file."@,
{
    match error {
        StartupError::MissingGitRepository => "No .git directory found. Please run this from a git repository.",
        StartupError::MissingApiKey => "OPENAI_API_KEY environment variable is not set. Put it in your environment variables or a .env file.",
    }
}

/// Check the startup requirements from what the environment reports: the
/// project directory must be a git repository, and the API key must be set.
/// A missing repository is reported before a missing key.
pub fn check_requirements(git_exists: bool, api_key_set: bool) -> (result: Result<
    (),
    StartupError,
>)
    ensures
        result is Ok <==> git_exists && api_key_set,
        !git_exists ==> result == Err::<(), StartupError>(StartupError::MissingGitRepository),
        git_exists && !api_key_set ==> result == Err::<(), StartupError>(
            StartupError::MissingApiKey,
        ),
{
    if !git_exists {
        Err(StartupError::MissingGitRepository)
    } else if !api_key_set {
        Err(StartupError::MissingApiKey)
    } else {
        Ok(())
    }
}

/// Which file names count as context files offered to the front-end: those
/// that start with "CONTEXT_" and end with ".md".
pub open spec fn spec_is_context_filename(name: Seq<char>) -> bool {
    &&& name.len() >= 8
    &&& name.subrange(0, 8) == "CONTEXT_"@
    &&& name.subrange(name.len() - 3, name.len() as int) == ".md"@
}

pub fn is_context_filename(name: &str) -> (matches_pattern: bool)
    ensures
        matches_pattern == spec_is_context_filename(name@),
{
    proof {
        reveal_strlit("CONTEXT_");
        reveal_strlit(".md");
    }
    let n: usize = name.unicode_len();
    if n < 8 {
        return false;
    }
    let prefix = name.substring_char(0, 8);
    let suffix = name.substring_char(n - 3, n);
    let prefix_ok = prefix.to_owned() == String::from_str("CONTEXT_");
    let suffix_ok = suffix.to_owned() == String::from_str(".md");
    prefix_ok && suffix_ok
}

/// The placeholder context offered when no context file exists; choosing it
/// loads nothing into the code agent.
pub fn default_context_name() -> (name: &'static str)
    ensures
        name@ == "None"@,
{
    "None"
}

/// The instruction text with which a speech session is created, prefixing
/// the configured instructions with the preferred language.
pub fn session_instructions(preferred_language: &str, instructions: &str) -> (text: String)
    ensures
        text@ == "The preferred language is "@ + preferred_language@ + ". "@ + instructions@,
{
    let mut text = String::from_str("The preferred language is ");
    text.append(preferred_language);
    text.append(". ");
    text.append(instructions);
    text
}

} // verus!
