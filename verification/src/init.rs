//! Project scaffolding decisions: which setup steps a directory needs, the
//! language menu, and the exact files written for each chosen language.

use vstd::prelude::*;

verus! {

/// Why a directory cannot be initialized.
#[derive(Clone, Copy, PartialEq, Eq, Structural, Debug)]
pub enum InitError {
    MissingDirectory,
}

/// The setup steps one initialization run performs.
#[derive(Clone, Copy, PartialEq, Eq, Structural, Debug)]
pub struct InitPlan {
    /// Initialize a git repository, because none was found.
    pub run_git_init: bool,
    /// Write the environment template, because no environment file was found.
    pub write_env_template: bool,
}

/// Decide what initialization does, from what the filesystem reports about
/// the target directory: a missing directory is refused; otherwise git and
/// the environment template are each set up exactly when absent.
pub fn project_init_plan(dir_exists: bool, git_exists: bool, env_exists: bool) -> (plan: Result<
    InitPlan,
    InitError,
>)
    ensures
        plan is Ok <==> dir_exists,
        !dir_exists ==> plan == Err::<InitPlan, InitError>(InitError::MissingDirectory),
        dir_exists ==> plan == Ok::<InitPlan, InitError>(
            InitPlan { run_git_init: !git_exists, write_env_template: !env_exists },
        ),
{
    if !dir_exists {
        Err(InitError::MissingDirectory)
    } else {
        Ok(InitPlan { run_git_init: !git_exists, write_env_template: !env_exists })
    }
}

/// The languages a project can be scaffolded for, in menu order.
#[derive(Clone, Copy, PartialEq, Eq, Structural, Debug)]
pub enum Language {
    Rust,
    Python,
    JavaScript,
    TypeScript,
}

/// Map the operator's menu selection (one-based) to a language; anything
/// outside the menu is rejected.
pub fn parse_language_selection(selection: usize) -> (language: Option<Language>)
    ensures
        language == Some(Language::Rust) <==> selection == 1,
        language == Some(Language::Python) <==> selection == 2,
        language == Some(Language::JavaScript) <==> selection == 3,
        language == Some(Language::TypeScript) <==> selection == 4,
        language is None <==> !(1 <= selection <= 4),
{
    if selection == 1 {
        Some(Language::Rust)
    } else if selection == 2 {
        Some(Language::Python)
    } else if selection == 3 {
        Some(Language::JavaScript)
    } else if selection == 4 {
        Some(Language::TypeScript)
    } else {
        None
    }
}

/// The name each language is shown under in the menu.
pub fn language_name(language: Language) -> (name: &'static str)
    ensures
        language is Rust ==> name@ == "Rust"@,
        language is Python ==> name@ == "Python"@,
        language is JavaScript ==> name@ == "JavaScript"@,
        language is TypeScript ==> name@ == "TypeScript"@,
{
    match language {
        Language::Rust => "Rust",
        Language::Python => "Python",
        Language::JavaScript => "JavaScript",
        Language::TypeScript => "TypeScript",
    }
}

/// The environment-file template written when a project has none.
pub fn env_template() -> (content: &'static str)
    ensures
        content@
            == "# API Keys for various services\n# Replace <API_KEY> with your actual API keys\n\nDEEPSEEK_API_KEY=<API_KEY>\nPERPLEXITY_API_KEY=<API_KEY>\nOPENAI_API_KEY=<API_KEY>\nANTHROPIC_API_KEY=<API_KEY>\n"@,
{
    "# API Keys for various services\n# Replace <API_KEY> with your actual API keys\n\nDEEPSEEK_API_KEY=<API_KEY>\nPERPLEXITY_API_KEY=<API_KEY>\nOPENAI_API_KEY=<API_KEY>\nANTHROPIC_API_KEY=<API_KEY>\n"
}

/// The code agent's context file for each language.
pub open spec fn spec_context_file_content(language: Language) -> Seq<char> {
    match language {
        Language::Rust => "/add TASKS.md\n/read-only ARCHITECTURE.md\n/read-only PROJECT.md\n/read-only TEST_STRATEGY.md\n/read-only Makefile\n/add src/**/*.rs\n/add tests/**/*.rs\n/add Cargo.toml"@,
        Language::Python => "/add TASKS.md\n/read-only ARCHITECTURE.md\n/read-only PROJECT.md\n/read-only TEST_STRATEGY.md\n/read-only Makefile\n/add **/*.py\n/add requirements.txt\n/add pyproject.toml"@,
        Language::JavaScript => "/add TASKS.md\n/read-only ARCHITECTURE.md\n/read-only PROJECT.md\n/read-only TEST_STRATEGY.md\n/read-only Makefile\n/add package.json\n/add **/*.js\n/add **/*.css\n/add **/*.html\n/add jest.config.js"@,
        Language::TypeScript => "/add TASKS.md\n/read-only ARCHITECTURE.md\n/read-only PROJECT.md\n/read-only TEST_STRATEGY.md\n/read-only Makefile\n/add package.json\n/add tsconfig.json\n/add **/*.ts\n/add **/*.tsx\n/add **/*.css\n/add **/*.html\n/add jest.config.ts"@,
    }
}

pub fn context_file_content(language: Language) -> (content: &'static str)
    ensures
        content@ == spec_context_file_content(language),
{
    match language {
        Language::Rust => "/add TASKS.md\n/read-only ARCHITECTURE.md\n/read-only PROJECT.md\n/read-only TEST_STRATEGY.md\n/read-only Makefile\n/add src/**/*.rs\n/add tests/**/*.rs\n/add Cargo.toml",
        Language::Python => "/add TASKS.md\n/read-only ARCHITECTURE.md\n/read-only PROJECT.md\n/read-only TEST_STRATEGY.md\n/read-only Makefile\n/add **/*.py\n/add requirements.txt\n/add pyproject.toml",
        Language::JavaScript => "/add TASKS.md\n/read-only ARCHITECTURE.md\n/read-only PROJECT.md\n/read-only TEST_STRATEGY.md\n/read-only Makefile\n/add package.json\n/add **/*.js\n/add **/*.css\n/add **/*.html\n/add jest.config.js",
        Language::TypeScript => "/add TASKS.md\n/read-only ARCHITECTURE.md\n/read-only PROJECT.md\n/read-only TEST_STRATEGY.md\n/read-only Makefile\n/add package.json\n/add tsconfig.json\n/add **/*.ts\n/add **/*.tsx\n/add **/*.css\n/add **/*.html\n/add jest.config.ts",
    }
}

/// The starter task list every scaffolded project receives.
pub open spec fn spec_tasks_template() -> Seq<char> {
    "# Project Tasks\n\nList your project tasks here.\n"@
}

pub fn tasks_template() -> (content: &'static str)
    ensures
        content@ == spec_tasks_template(),
{
    "# Project Tasks\n\nList your project tasks here.\n"
}

/// The starter package manifest for the script languages.
pub open spec fn spec_package_json_template() -> Seq<char> {
    "{\n  \"name\": \"project\",\n  \"version\": \"1.0.0\",\n  \"description\": \"\",\n  \"main\": \"index.js\",\n  \"scripts\": {\n    \"test\": \"jest\",\n    \"start\": \"node index.js\"\n  },\n  \"keywords\": [],\n  \"author\": \"\",\n  \"license\": \"ISC\"\n}"@
}

pub fn package_json_template() -> (content: &'static str)
    ensures
        content@ == spec_package_json_template(),
{
    "{\n  \"name\": \"project\",\n  \"version\": \"1.0.0\",\n  \"description\": \"\",\n  \"main\": \"index.js\",\n  \"scripts\": {\n    \"test\": \"jest\",\n    \"start\": \"node index.js\"\n  },\n  \"keywords\": [],\n  \"author\": \"\",\n  \"license\": \"ISC\"\n}"
}

/// The starter compiler configuration for TypeScript.
pub open spec fn spec_tsconfig_template() -> Seq<char> {
    "{\n  \"compilerOptions\": {\n    \"target\": \"es6\",\n    \"module\": \"commonjs\",\n    \"strict\": true,\n    \"esModuleInterop\": true,\n    \"skipLibCheck\": true,\n    \"forceConsistentCasingInFileNames\": true\n  }\n}"@
}

pub fn tsconfig_template() -> (content: &'static str)
    ensures
        content@ == spec_tsconfig_template(),
{
    "{\n  \"compilerOptions\": {\n    \"target\": \"es6\",\n    \"module\": \"commonjs\",\n    \"strict\": true,\n    \"esModuleInterop\": true,\n    \"skipLibCheck\": true,\n    \"forceConsistentCasingInFileNames\": true\n  }\n}"
}

/// The starter dependency list for Python.
pub open spec fn spec_requirements_template() -> Seq<char> {
    "pytest\n"@
}

pub fn requirements_template() -> (content: &'static str)
    ensures
        content@ == spec_requirements_template(),
{
    "pytest\n"
}

/// The files written when scaffolding a project for `language`, as pairs of
/// file name and content: the context file and the task list always, then
/// the language's own starter files.
pub fn scaffold_files(language: Language) -> (files: Vec<(&'static str, &'static str)>)
    ensures
        files@.len() >= 2,
        files@[0].0@ == "CONTEXT.md"@ && files@[0].1@ == spec_context_file_content(language),
        files@[1].0@ == "TASKS.md"@ && files@[1].1@ == spec_tasks_template(),
        language is Rust ==> files@.len() == 2,
        language is Python ==> files@.len() == 3 && files@[2].0@ == "requirements.txt"@
            && files@[2].1@ == spec_requirements_template(),
        language is JavaScript ==> files@.len() == 3 && files@[2].0@ == "package.json"@
            && files@[2].1@ == spec_package_json_template(),
        language is TypeScript ==> files@.len() == 4 && files@[2].0@ == "package.json"@
            && files@[2].1@ == spec_package_json_template() && files@[3].0@ == "tsconfig.json"@
            && files@[3].1@ == spec_tsconfig_template(),
{
    let mut files: Vec<(&'static str, &'static str)> = Vec::new();
    files.push(("CONTEXT.md", context_file_content(language)));
    files.push(("TASKS.md", tasks_template()));
    match language {
        Language::Rust => {},
        Language::Python => {
            files.push(("requirements.txt", requirements_template()));
        },
        Language::JavaScript => {
            files.push(("package.json", package_json_template()));
        },
        Language::TypeScript => {
            files.push(("package.json", package_json_template()));
            files.push(("tsconfig.json", tsconfig_template()));
        },
    }
    files
}

} // verus!
