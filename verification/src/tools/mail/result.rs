//! What a use of the tool comes to.
use crate::json;
use crate::text::chars;
use vstd::prelude::*;

verus! {

/// What a use of a tool comes to.
#[derive(Debug, Clone, PartialEq, Eq)]
pub struct ToolResult {
    pub success: bool,
    pub output: String,
    pub error: Option<String>,
}

/// What a `ToolResult` says.
#[verifier::ext_equal]
pub struct ResultView {
    pub success: bool,
    pub output: Seq<char>,
    pub error: Option<Seq<char>>,
}

impl View for ToolResult {
    type V = ResultView;

    open spec fn view(&self) -> ResultView {
        ResultView {
            success: self.success,
            output: self.output@,
            error: chars::string_option(self.error),
        }
    }
}

/// A document as it is printed.
pub open spec fn printed(document: json::Json) -> Seq<char> {
    match json::pretty_text(document) {
        Some(text) => text,
        None => Seq::empty(),
    }
}

/// Success with a document.
pub open spec fn succeeded(document: json::Json) -> ResultView {
    ResultView { success: true, output: printed(document), error: None }
}

/// Failure with a message.
pub open spec fn failed(message: Seq<char>) -> ResultView {
    ResultView { success: false, output: Seq::empty(), error: Some(message) }
}

/// Success with a document. An object is printed between braces.
pub(crate) fn success(document: &serde_json::Value) -> (r: ToolResult)
    ensures
        r@ == succeeded(json::json_of(*document)),
        json::json_of(*document) is Object ==> r@.output.len() >= 2 && r@.output.first() == '{'
            && r@.output.last() == '}',
{
    let output = match json::to_pretty(document) {
        Some(text) => text,
        None => String::new(),
    };
    ToolResult { success: true, output, error: None }
}

/// Failure with a message.
pub(crate) fn failure(message: String) -> (r: ToolResult)
    ensures
        r@ == failed(message@),
{
    ToolResult { success: false, output: String::new(), error: Some(message) }
}

} // verus!
