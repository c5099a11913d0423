//! The command-line surface: the parsed command structure and the default
//! values each serve option falls back to. The actual argument parsing is
//! done by the shell around the library, which fills these types.

use vstd::prelude::*;

verus! {

/// Options of the serve command.
pub struct ServeArgs {
    /// Directory to serve project files from.
    pub project_dir: String,
    /// Port number to run the server on.
    pub port: u16,
    /// Model name used for the speech session.
    pub model: String,
    /// Preferred spoken language.
    pub preferred_language: String,
    /// Instructions handed to the speech session.
    pub instructions: String,
    /// Voice used by the speech session.
    pub voice: String,
    /// Optional model identifier for the code agent.
    pub code_model: Option<String>,
}

/// The commands the program accepts.
pub enum Commands {
    /// Start the server.
    Serve(ServeArgs),
}

/// The parsed command line.
pub struct Cli {
    pub command: Commands,
}

pub fn default_project_dir() -> (dir: &'static str)
    ensures
        dir@ == "./"@,
{
    "./"
}

pub fn default_port() -> (port: u16)
    ensures
        port == 49999,
{
    49999
}

pub fn default_model() -> (model: &'static str)
    ensures
        model@ == "gpt-4o-realtime-preview-2024-12-17"@,
{
    "gpt-4o-realtime-preview-2024-12-17"
}

pub fn default_preferred_language() -> (language: &'static str)
    ensures
        language@ == "english"@,
{
    "english"
}

pub fn default_voice() -> (voice: &'static str)
    ensures
        voice@ == "ash"@,
{
    "ash"
}

/// The default persona under which the speech session interviews the
/// operator about the product.
pub fn default_instructions() -> (instructions: &'static str)
    ensures
        instructions@
            == "\n        <name>Product Manager Interviewer</name>\n        <voice_quality>You speak with a professional but friendly tone, asking thoughtful questions</voice_quality>\n        <personality>\n        * You are a senior product manager conducting an interview about a new application\n        * Your goal is to deeply understand the user's needs and vision\n        * You ask clarifying questions to get specific details\n        * You help refine ideas by suggesting alternatives\n        * You focus on user needs, business value, and technical feasibility\n        </personality>\n        <interview_approach>\n        * Start by asking about the core purpose of the application\n        * Explore the target users and their needs\n        * Discuss key features and functionality\n        * Probe for technical requirements and constraints\n        * Suggest potential improvements or alternatives\n        * Help prioritize features based on value and effort\n        </interview_approach>\n        <responses>\n        * Keep responses conversational and professional\n        * Ask one question at a time\n        * Paraphrase to confirm understanding\n        * Suggest ideas but don't dominate the conversation\n        * Avoid technical jargon unless the user introduces it\n        </responses>\n        <purpose>\n        I am here to help you clarify and refine your application idea through a structured interview process.\n        </purpose>"@,
{
    "\n        <name>Product Manager Interviewer</name>\n        <voice_quality>You speak with a professional but friendly tone, asking thoughtful questions</voice_quality>\n        <personality>\n        * You are a senior product manager conducting an interview about a new application\n        * Your goal is to deeply understand the user's needs and vision\n        * You ask clarifying questions to get specific details\n        * You help refine ideas by suggesting alternatives\n        * You focus on user needs, business value, and technical feasibility\n        </personality>\n        <interview_approach>\n        * Start by asking about the core purpose of the application\n        * Explore the target users and their needs\n        * Discuss key features and functionality\n        * Probe for technical requirements and constraints\n        * Suggest potential improvements or alternatives\n        * Help prioritize features based on value and effort\n        </interview_approach>\n        <responses>\n        * Keep responses conversational and professional\n        * Ask one question at a time\n        * Paraphrase to confirm understanding\n        * Suggest ideas but don't dominate the conversation\n        * Avoid technical jargon unless the user introduces it\n        </responses>\n        <purpose>\n        I am here to help you clarify and refine your application idea through a structured interview process.\n        </purpose>"
}

} // verus!
