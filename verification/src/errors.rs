//! The two error taxonomies: syntax errors from parsing and render errors from
//! serializing. Both are plain values; neither is ever retried, since each is a
//! deterministic function of its input.

use vstd::prelude::*;

verus! {

/// Why a render call failed.
///
/// `InvalidAst` is the one kind the renderer produces today: the tree holds a
/// deliberately embedded `Error` placeholder. `InvalidNode` and
/// `UnexpectedError` are kept for callers that distinguish a malformed node
/// from an internal fault.
#[derive(Debug, PartialEq)]
pub enum RenderError {
    InvalidNode(String),
    UnexpectedError(String),
    InvalidAst(String),
}

impl RenderError {
    /// A human-readable account of the failure, in place of `Display`.
    pub fn describe(&self) -> (r: String)
        ensures
            (self matches RenderError::InvalidNode(m) ==> r@ == "Invalid node: "@ + m@),
            (self matches RenderError::UnexpectedError(m) ==> r@ == "Unexpected render error: "@
                + m@),
            (self matches RenderError::InvalidAst(m) ==> r@ == "Invalid AST: "@ + m@),
    {
        let mut out = String::new();
        match self {
            RenderError::InvalidNode(m) => {
                out.append("Invalid node: ");
                out.append(m.as_str());
            },
            RenderError::UnexpectedError(m) => {
                out.append("Unexpected render error: ");
                out.append(m.as_str());
            },
            RenderError::InvalidAst(m) => {
                out.append("Invalid AST: ");
                out.append(m.as_str());
            },
        }
        out
    }
}

/// A grammar mismatch. Parsing is all-or-nothing: one `SyntaxError` stands for
/// the whole call and no partial tree is returned beside it.
#[derive(Debug, PartialEq)]
pub struct SyntaxError {
    pub message: String,
}

impl SyntaxError {
    /// A human-readable account of the failure, in place of `Display`.
    pub fn describe(&self) -> (r: String)
        ensures
            r@ == "Syntax error: "@ + self.message@,
    {
        let mut out = String::new();
        out.append("Syntax error: ");
        out.append(self.message.as_str());
        out
    }
}

} // verus!
