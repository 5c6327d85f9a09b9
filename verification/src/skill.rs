//! Skills: what the backend tells of them, and what it is asked to do with
//! them.

use std::collections::HashMap;
use vstd::prelude::*;

verus! {

/// What a skill takes in.
#[derive(Clone, Debug)]
pub struct SkillInputConfig {
    pub context_scope: String,
    pub accepts_user_input: bool,
    pub user_input_placeholder: Option<String>,
    pub accepts_attachments: bool,
    pub parameters: Vec<SkillParameter>,
}

/// What a skill gives out, and how.
#[derive(Clone, Debug)]
pub struct SkillOutputConfig {
    pub mode: String,
    pub file_name_template: Option<String>,
    pub echo_to_chat: bool,
}

/// A parameter of a skill.
#[derive(Clone, Debug)]
pub struct SkillParameter {
    pub key: String,
    pub label: String,
    pub param_type: String,
    pub default_value: Option<String>,
    pub options: Option<Vec<SkillParameterOption>>,
    pub required: bool,
}

/// A value that a parameter may take.
#[derive(Clone, Debug)]
pub struct SkillParameterOption {
    pub value: String,
    pub label: String,
}

/// A skill as the backend lists it.
#[derive(Clone, Debug)]
pub struct Skill {
    pub skill_key: String,
    pub title: String,
    pub description: String,
    pub icon: Option<String>,
    pub category: String,
    pub tags: Vec<String>,
    pub roles: Vec<String>,
    pub order: i32,
    pub visibility: String,
    pub input: SkillInputConfig,
    pub output: SkillOutputConfig,
    pub is_enabled: bool,
    pub is_built_in: bool,
    pub usage_count: i64,
}

/// The skills on offer.
#[derive(Clone, Debug)]
pub struct SkillsResponse {
    pub skills: Vec<Skill>,
}

/// The run that the execution of a skill has started.
#[derive(Clone, Debug)]
pub struct SkillExecuteResponse {
    pub run_id: String,
    pub user_message_id: String,
    pub assistant_message_id: String,
}

/// A request to run a skill in a session.
#[derive(Clone, Debug)]
pub struct SkillExecuteRequest {
    pub session_id: String,
    pub user_input: Option<String>,
    pub attachment_ids: Option<Vec<String>>,
    pub parameters: Option<HashMap<String, String>>,
    pub context_scope_override: Option<String>,
    pub output_mode_override: Option<String>,
}

/// A skill of the user, to be created or updated.
#[derive(Clone, Debug)]
pub struct CreateSkillRequest {
    pub title: String,
    pub description: Option<String>,
    pub icon: Option<String>,
    pub category: Option<String>,
    pub tags: Option<Vec<String>>,
    pub order: Option<i32>,
    pub input: Option<SkillInputConfig>,
    pub execution: Option<SkillExecutionConfig>,
    pub output: Option<SkillOutputConfig>,
}

/// How a skill of the user is run.
#[derive(Clone, Debug)]
pub struct SkillExecutionConfig {
    pub prompt_template: String,
    pub system_prompt_override: Option<String>,
    pub model_type: Option<String>,
}

/// The key of a skill that was created.
#[derive(Clone, Debug)]
pub struct CreateSkillResponse {
    pub skill_key: String,
}

/// The request that runs a skill in a session with what the user gave: it
/// overrides neither the context scope nor the output mode of the skill.
pub fn execute_request(
    session_id: String,
    user_input: Option<String>,
    attachment_ids: Option<Vec<String>>,
    parameters: Option<HashMap<String, String>>,
) -> (request: SkillExecuteRequest)
    ensures
        request.session_id == session_id,
        request.user_input == user_input,
        request.attachment_ids == attachment_ids,
        request.parameters == parameters,
        request.context_scope_override is None,
        request.output_mode_override is None,
{
    SkillExecuteRequest {
        session_id,
        user_input,
        attachment_ids,
        parameters,
        context_scope_override: None,
        output_mode_override: None,
    }
}

} // verus!
