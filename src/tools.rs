//! Answers of the scheduler's tool interface for language-model function calls.

use vstd::prelude::*;

verus! {

/// One piece of a tool's answer.
#[derive(Debug, Clone)]
pub struct ToolContent {
    pub content_type: String,
    pub text: Option<String>,
}

impl ToolContent {
    /// A text answer.
    pub fn text(text: String) -> (r: Self)
        ensures
            r.content_type@ == "text"@,
            r.text == Some(text),
    {
        ToolContent { content_type: String::from_str("text"), text: Some(text) }
    }

    /// An error message, sent as text.
    pub fn error(text: String) -> (r: Self)
        ensures
            r.content_type@ == "text"@,
            r.text == Some(text),
    {
        ToolContent { content_type: String::from_str("text"), text: Some(text) }
    }
}

/// A tool's whole answer.
#[derive(Debug, Clone)]
pub struct CallToolResponse {
    pub success: bool,
    pub content: Vec<ToolContent>,
    pub error: Option<String>,
}

} // verus!
