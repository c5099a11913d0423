use colossus::server::{
    check_requirements, default_context_name, is_context_filename, session_instructions,
    startup_error_message, StartupError,
};

#[test]
fn startup_needs_git_and_the_api_key() {
    assert_eq!(check_requirements(true, true), Ok(()));
    assert_eq!(
        check_requirements(false, true),
        Err(StartupError::MissingGitRepository)
    );
    assert_eq!(
        check_requirements(true, false),
        Err(StartupError::MissingApiKey)
    );
    // a missing repository is reported first
    assert_eq!(
        check_requirements(false, false),
        Err(StartupError::MissingGitRepository)
    );
}

#[test]
fn startup_error_messages_are_actionable() {
    assert_eq!(
        startup_error_message(StartupError::MissingGitRepository),
        "No .git directory found. Please run this from a git repository."
    );
    assert_eq!(
        startup_error_message(StartupError::MissingApiKey),
        "OPENAI_API_KEY environment variable is not set. Put it in your environment variables or a .env file."
    );
}

#[test]
fn context_filenames_need_prefix_and_suffix() {
    assert!(is_context_filename("CONTEXT_api.md"));
    assert!(is_context_filename("CONTEXT_.md"));
    assert!(!is_context_filename("CONTEXT_api.txt"));
    assert!(!is_context_filename("context_api.md"));
    assert!(!is_context_filename("NOTES.md"));
    assert!(!is_context_filename(""));
    assert!(!is_context_filename("CONTEXT_"));
}

#[test]
fn the_placeholder_context_is_named_none() {
    assert_eq!(default_context_name(), "None");
}

#[test]
fn session_instructions_prefix_the_language() {
    assert_eq!(
        session_instructions("english", "Interview the user."),
        "The preferred language is english. Interview the user."
    );
}
