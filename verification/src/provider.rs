//! The reasoning capability descriptor handed to the request translator.
use vstd::prelude::*;

verus! {

/// Codex Responses -> Chat Completions reasoning capability descriptor.
///
/// Each field, when set, overrides what the translator would otherwise infer
/// from the model name.
#[derive(Debug, Clone, PartialEq, Eq)]
pub struct CodexChatReasoningConfig {
    pub supports_thinking: Option<bool>,
    pub supports_effort: Option<bool>,
    pub thinking_param: Option<String>,
    pub effort_param: Option<String>,
    pub effort_value_mode: Option<String>,
    pub output_format: Option<String>,
}

impl Default for CodexChatReasoningConfig {
    fn default() -> (r: Self)
        ensures
            r.supports_thinking is None,
            r.supports_effort is None,
            r.thinking_param is None,
            r.effort_param is None,
            r.effort_value_mode is None,
            r.output_format is None,
    {
        CodexChatReasoningConfig {
            supports_thinking: None,
            supports_effort: None,
            thinking_param: None,
            effort_param: None,
            effort_value_mode: None,
            output_format: None,
        }
    }
}

} // verus!
