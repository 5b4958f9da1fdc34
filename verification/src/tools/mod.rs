//! Web tools: SSRF screening of fetch targets and web search result handling.

pub mod web;
pub mod web_search;


use vstd::prelude::*;

verus! {

/// Failure of a web tool call.
#[derive(Debug, Clone, PartialEq, Eq)]
pub enum ToolError {
    /// The arguments of the named tool were rejected.
    InvalidArguments { name: String, reason: String },
    /// The target was refused as a server-side request forgery risk.
    SsrfBlocked { url: String, reason: String },
    /// A command or request of the tool failed.
    CommandExec(String),
}

/// Abstract view of a tool error.
pub enum ToolErrorView {
    InvalidArguments(Seq<char>, Seq<char>),
    SsrfBlocked(Seq<char>, Seq<char>),
    CommandExec(Seq<char>),
}

pub open spec fn tool_error_view(e: ToolError) -> ToolErrorView {
    match e {
        ToolError::InvalidArguments { name, reason } => ToolErrorView::InvalidArguments(
            name@,
            reason@,
        ),
        ToolError::SsrfBlocked { url, reason } => ToolErrorView::SsrfBlocked(url@, reason@),
        ToolError::CommandExec(m) => ToolErrorView::CommandExec(m@),
    }
}

/// View of a result that carries nothing on success.
pub open spec fn unit_result_view(r: Result<(), ToolError>) -> Result<(), ToolErrorView> {
    match r {
        Ok(()) => Ok(()),
        Err(e) => Err(tool_error_view(e)),
    }
}

/// View of a result that carries text on success.
pub open spec fn text_result_view(r: Result<String, ToolError>) -> Result<Seq<char>, ToolErrorView> {
    match r {
        Ok(s) => Ok(s@),
        Err(e) => Err(tool_error_view(e)),
    }
}

/// Builds a string from a literal head followed by `tail`.
pub fn concat2(head: &str, tail: &str) -> (r: String)
    ensures
        r@ == head@ + tail@,
{
    let mut s = head.to_owned();
    crate::text::push_str(&mut s, tail);
    s
}

/// Builds a string from three parts.
pub fn concat3(a: &str, b: &str, c: &str) -> (r: String)
    ensures
        r@ == a@ + b@ + c@,
{
    let mut s = a.to_owned();
    crate::text::push_str(&mut s, b);
    crate::text::push_str(&mut s, c);
    s
}

/// Builds a string from four parts.
pub fn concat4(a: &str, b: &str, c: &str, d: &str) -> (r: String)
    ensures
        r@ == a@ + b@ + c@ + d@,
{
    let mut s = a.to_owned();
    crate::text::push_str(&mut s, b);
    crate::text::push_str(&mut s, c);
    crate::text::push_str(&mut s, d);
    s
}

} // verus!
