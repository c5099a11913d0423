use colossus::cli::{
    default_instructions, default_model, default_port, default_preferred_language,
    default_project_dir, default_voice, Cli, Commands, ServeArgs,
};

#[test]
fn serve_defaults_match_the_documented_options() {
    assert_eq!(default_project_dir(), "./");
    assert_eq!(default_port(), 49999);
    assert_eq!(default_model(), "gpt-4o-realtime-preview-2024-12-17");
    assert_eq!(default_preferred_language(), "english");
    assert_eq!(default_voice(), "ash");
}

#[test]
fn default_instructions_describe_the_interviewer() {
    let instructions = default_instructions();
    assert!(instructions.contains("<name>Product Manager Interviewer</name>"));
    assert!(instructions.contains("<interview_approach>"));
}

#[test]
fn a_command_line_can_be_assembled_from_the_defaults() {
    let cli = Cli {
        command: Commands::Serve(ServeArgs {
            project_dir: default_project_dir().to_string(),
            port: default_port(),
            model: default_model().to_string(),
            preferred_language: default_preferred_language().to_string(),
            instructions: default_instructions().to_string(),
            voice: default_voice().to_string(),
            code_model: None,
        }),
    };
    let Commands::Serve(args) = cli.command;
    assert_eq!(args.port, 49999);
    assert!(args.code_model.is_none());
}
