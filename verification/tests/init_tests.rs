use colossus::init::{
    context_file_content, env_template, language_name, parse_language_selection,
    project_init_plan, scaffold_files, tasks_template, InitError, InitPlan, Language,
};

#[test]
fn menu_selections_map_in_order() {
    assert_eq!(parse_language_selection(1), Some(Language::Rust));
    assert_eq!(parse_language_selection(2), Some(Language::Python));
    assert_eq!(parse_language_selection(3), Some(Language::JavaScript));
    assert_eq!(parse_language_selection(4), Some(Language::TypeScript));
    assert_eq!(parse_language_selection(0), None);
    assert_eq!(parse_language_selection(5), None);
}

#[test]
fn language_names_match_the_menu() {
    assert_eq!(language_name(Language::Rust), "Rust");
    assert_eq!(language_name(Language::Python), "Python");
    assert_eq!(language_name(Language::JavaScript), "JavaScript");
    assert_eq!(language_name(Language::TypeScript), "TypeScript");
}

#[test]
fn init_plan_sets_up_whatever_is_absent() {
    assert_eq!(
        project_init_plan(false, false, false),
        Err(InitError::MissingDirectory)
    );
    assert_eq!(
        project_init_plan(true, false, true),
        Ok(InitPlan { run_git_init: true, write_env_template: false })
    );
    assert_eq!(
        project_init_plan(true, true, false),
        Ok(InitPlan { run_git_init: false, write_env_template: true })
    );
    assert_eq!(
        project_init_plan(true, true, true),
        Ok(InitPlan { run_git_init: false, write_env_template: false })
    );
}

#[test]
fn env_template_lists_the_expected_keys() {
    let template = env_template();
    assert!(template.contains("DEEPSEEK_API_KEY=<API_KEY>"));
    assert!(template.contains("PERPLEXITY_API_KEY=<API_KEY>"));
    assert!(template.contains("OPENAI_API_KEY=<API_KEY>"));
    assert!(template.contains("ANTHROPIC_API_KEY=<API_KEY>"));
}

#[test]
fn every_language_gets_context_and_tasks_first() {
    for language in [
        Language::Rust,
        Language::Python,
        Language::JavaScript,
        Language::TypeScript,
    ] {
        let files = scaffold_files(language);
        assert_eq!(files[0], ("CONTEXT.md", context_file_content(language)));
        assert_eq!(files[1], ("TASKS.md", tasks_template()));
    }
}

#[test]
fn rust_scaffold_adds_no_extra_files() {
    assert_eq!(scaffold_files(Language::Rust).len(), 2);
}

#[test]
fn python_scaffold_adds_requirements() {
    let files = scaffold_files(Language::Python);
    assert_eq!(files.len(), 3);
    assert_eq!(files[2], ("requirements.txt", "pytest\n"));
}

#[test]
fn javascript_scaffold_adds_a_package_manifest() {
    let files = scaffold_files(Language::JavaScript);
    assert_eq!(files.len(), 3);
    assert_eq!(files[2].0, "package.json");
    assert!(files[2].1.contains("\"test\": \"jest\""));
}

#[test]
fn typescript_scaffold_adds_manifest_and_compiler_config() {
    let files = scaffold_files(Language::TypeScript);
    assert_eq!(files.len(), 4);
    assert_eq!(files[2].0, "package.json");
    assert_eq!(files[3].0, "tsconfig.json");
    assert!(files[3].1.contains("\"strict\": true"));
}

#[test]
fn context_files_differ_per_language() {
    assert!(context_file_content(Language::Rust).contains("/add src/**/*.rs"));
    assert!(context_file_content(Language::Python).contains("/add **/*.py"));
    assert!(context_file_content(Language::JavaScript).contains("/add **/*.js"));
    assert!(context_file_content(Language::TypeScript).contains("/add **/*.tsx"));
}
