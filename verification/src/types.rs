//! Value types shared by the decision tables and the guard.

use vstd::prelude::*;
use vstd::string::StringExecFns;
use serde_json::Value;
use crate::params::{json_of, Json};

verus! {

/// Why a tool call may not proceed.
#[derive(Debug)]
pub enum ToolError {
    /// The request is malformed: a field is missing or has the wrong type.
    Invalid(String),
    /// The request is well formed, and policy forbids it.
    Denied(String),
    /// The request is within policy, and no confirmation is registered for it yet.
    NeedsConfirmation,
}

/// What a [`ToolError`] says, with its message as a sequence of characters.
pub enum ToolErrorView {
    Invalid(Seq<char>),
    Denied(Seq<char>),
    NeedsConfirmation,
}

impl View for ToolError {
    type V = ToolErrorView;

    open spec fn view(&self) -> ToolErrorView {
        match self {
            ToolError::Invalid(reason) => ToolErrorView::Invalid(reason@),
            ToolError::Denied(reason) => ToolErrorView::Denied(reason@),
            ToolError::NeedsConfirmation => ToolErrorView::NeedsConfirmation,
        }
    }
}

/// The outcome of a check as contracts speak of it: success, or the view of the error.
pub open spec fn outcome(result: Result<(), ToolError>) -> Result<(), ToolErrorView> {
    match result {
        Ok(_) => Ok(()),
        Err(error) => Err(error@),
    }
}

/// A policy rejection with the given reason.
pub open spec fn denied(reason: &str) -> Result<(), ToolErrorView> {
    Err(ToolErrorView::Denied(reason@))
}

/// A malformed-request outcome with the given reason.
pub open spec fn invalid(reason: &str) -> Result<(), ToolErrorView> {
    Err(ToolErrorView::Invalid(reason@))
}

/// The line of text that stands for an error in diagnostics.
pub open spec fn rendered(error: ToolErrorView) -> Seq<char> {
    match error {
        ToolErrorView::Invalid(reason) => "invalid: "@ + reason,
        ToolErrorView::Denied(reason) => "denied: "@ + reason,
        ToolErrorView::NeedsConfirmation => "needs confirmation"@,
    }
}

impl Clone for ToolError {
    fn clone(&self) -> (copy: ToolError)
        ensures
            copy@ == self@,
    {
        match self {
            ToolError::Invalid(reason) => ToolError::Invalid(reason.clone()),
            ToolError::Denied(reason) => ToolError::Denied(reason.clone()),
            ToolError::NeedsConfirmation => ToolError::NeedsConfirmation,
        }
    }
}

impl ToolError {
    /// Renders the error for a human reader: the kind, then the reason.
    pub fn message(&self) -> (line: String)
        ensures
            line@ == rendered(self@),
    {
        match self {
            ToolError::Invalid(reason) => String::from_str("invalid: ").concat(reason.as_str()),
            ToolError::Denied(reason) => String::from_str("denied: ").concat(reason.as_str()),
            ToolError::NeedsConfirmation => String::from_str("needs confirmation"),
        }
    }
}

/// One request to run a tool.
#[derive(Debug)]
pub struct ToolCall {
    /// Identifies the call; confirmations are registered under it.
    pub id: String,
    /// The tool that is asked for.
    pub tool_name: String,
    /// The parameters of the tool, as a JSON tree.
    pub parameters: Value,
}

/// What a [`ToolCall`] holds: its texts as sequences of characters, its parameters as a tree.
pub struct ToolCallView {
    pub id: Seq<char>,
    pub tool_name: Seq<char>,
    pub parameters: Json,
}

impl View for ToolCall {
    type V = ToolCallView;

    open spec fn view(&self) -> ToolCallView {
        ToolCallView {
            id: self.id@,
            tool_name: self.tool_name@,
            parameters: json_of(self.parameters),
        }
    }
}

impl Clone for ToolCall {
    fn clone(&self) -> (copy: ToolCall)
        ensures
            copy@ == self@,
    {
        ToolCall {
            id: self.id.clone(),
            tool_name: self.tool_name.clone(),
            parameters: self.parameters.clone(),
        }
    }
}

/// The host operating system, fixed when the process starts.
#[derive(Debug, Clone, Copy, PartialEq, Eq, Structural)]
pub enum Platform {
    Linux,
    MacOS,
    Windows,
}

/// The privilege level of the authenticated session.
#[derive(Debug, Clone, Copy, PartialEq, Eq, Structural)]
pub enum UserRole {
    Standard,
    Admin,
}

} // verus!
