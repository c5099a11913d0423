use colossus::agent::{chat_agent_args, dev_agent_args, planning_agent_args};

#[test]
fn planning_args_without_model() {
    let files = vec!["TRANSCRIPT.md", "PROJECT.md"];
    let args = planning_agent_args("given the TRANSCRIPT.md update PROJECT.md", &files, &None);
    assert_eq!(
        args,
        vec![
            "--no-suggest-shell-commands",
            "--yes-always",
            "--message",
            "given the TRANSCRIPT.md update PROJECT.md",
            "TRANSCRIPT.md",
            "PROJECT.md",
        ]
    );
}

#[test]
fn planning_args_with_model_appends_it_last() {
    let files = vec!["PROJECT.md", "ARCHITECTURE.md"];
    let model = Some(String::from("gpt-4o"));
    let args = planning_agent_args("update the architecture", &files, &model);
    assert_eq!(
        args,
        vec![
            "--no-suggest-shell-commands",
            "--yes-always",
            "--message",
            "update the architecture",
            "PROJECT.md",
            "ARCHITECTURE.md",
            "--model",
            "gpt-4o",
        ]
    );
}

#[test]
fn dev_args_load_the_context_file() {
    let args = dev_agent_args("gpt-4o", "implement the next task");
    assert_eq!(
        args,
        vec![
            "--model",
            "gpt-4o",
            "--message",
            "implement the next task",
            "--load",
            "CONTEXT.md",
            "--yes-always",
            "--no-suggest-shell-commands",
        ]
    );
}

#[test]
fn chat_args_skip_the_placeholder_context() {
    let args = chat_agent_args("rename the struct", "None", &None);
    assert_eq!(
        args,
        vec![
            "--no-suggest-shell-commands",
            "--yes-always",
            "--message",
            "rename the struct",
        ]
    );
}

#[test]
fn chat_args_load_a_real_context() {
    let args = chat_agent_args("rename the struct", "CONTEXT_api.md", &None);
    assert_eq!(
        args,
        vec![
            "--no-suggest-shell-commands",
            "--yes-always",
            "--message",
            "rename the struct",
            "--load",
            "CONTEXT_api.md",
        ]
    );
}

#[test]
fn chat_args_put_the_model_before_the_context() {
    let model = Some(String::from("gpt-4o"));
    let args = chat_agent_args("why does the build fail", "CONTEXT_api.md", &model);
    assert_eq!(
        args,
        vec![
            "--no-suggest-shell-commands",
            "--yes-always",
            "--message",
            "why does the build fail",
            "--model",
            "gpt-4o",
            "--load",
            "CONTEXT_api.md",
        ]
    );
}
