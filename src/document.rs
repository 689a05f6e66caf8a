use vstd::prelude::*;
use vstd::string::*;

use crate::text::{is_blank, is_blank_text};

verus! {

/// The name reported for a batch item without a title.
pub open spec fn untitled() -> Seq<char> {
    "Unknown"@
}

/// The message of an outcome whose content is blank.
pub open spec fn empty_content_message() -> Seq<char> {
    "Empty content is not allowed"@
}

/// A submitted document: its text and an optional title.
pub struct DocumentInput {
    pub content: String,
    pub title: Option<String>,
}

/// The mathematical value of a document.
pub struct InputView {
    pub content: Seq<char>,
    pub title: Option<Seq<char>>,
}

/// The view of an optional text.
pub open spec fn opt_view(t: Option<String>) -> Option<Seq<char>> {
    match t {
        Some(s) => Some(s@),
        None => None,
    }
}

impl View for DocumentInput {
    type V = InputView;

    open spec fn view(&self) -> InputView {
        InputView { content: self.content@, title: opt_view(self.title) }
    }
}

/// Whether a submitted item was accepted for indexing.
#[derive(Clone, Copy, Debug, PartialEq, Eq, Structural)]
pub enum OutcomeStatus {
    Indexed,
    Failed,
}

impl OutcomeStatus {
    /// The word that reports the status.
    pub fn as_str(&self) -> (r: &'static str)
        ensures
            r@ == match self {
                OutcomeStatus::Indexed => "indexed"@,
                OutcomeStatus::Failed => "failed"@,
            },
    {
        match self {
            OutcomeStatus::Indexed => "indexed",
            OutcomeStatus::Failed => "failed",
        }
    }
}

/// What became of one submitted item.
pub struct DocumentResult {
    pub filename: String,
    pub status: OutcomeStatus,
    pub error: Option<String>,
}

/// The mathematical value of an outcome.
pub struct OutcomeView {
    pub filename: Seq<char>,
    pub status: OutcomeStatus,
    pub error: Option<Seq<char>>,
}

impl View for DocumentResult {
    type V = OutcomeView;

    open spec fn view(&self) -> OutcomeView {
        OutcomeView { filename: self.filename@, status: self.status, error: opt_view(self.error) }
    }
}

/// An accepted item.
pub open spec fn indexed(name: Seq<char>) -> OutcomeView {
    OutcomeView { filename: name, status: OutcomeStatus::Indexed, error: None }
}

/// A rejected item, with the reason.
pub open spec fn failed(name: Seq<char>, message: Seq<char>) -> OutcomeView {
    OutcomeView { filename: name, status: OutcomeStatus::Failed, error: Some(message) }
}

/// The outcome of content that decoded as text: blank text is rejected.
pub open spec fn content_outcome(name: Seq<char>, content: Seq<char>) -> OutcomeView {
    if is_blank(content) {
        failed(name, empty_content_message())
    } else {
        indexed(name)
    }
}

/// The views of a sequence of outcomes.
pub open spec fn outcome_views(s: Seq<DocumentResult>) -> Seq<OutcomeView> {
    s.map_values(|o: DocumentResult| o@)
}

/// The views of a sequence of documents.
pub open spec fn document_views(s: Seq<DocumentInput>) -> Seq<InputView> {
    s.map_values(|d: DocumentInput| d@)
}

/// A copy of an optional text.
pub fn clone_opt(t: &Option<String>) -> (r: Option<String>)
    ensures
        opt_view(r) == opt_view(*t),
{
    match t {
        Some(s) => Some(s.clone()),
        None => None,
    }
}

impl DocumentInput {
    /// A copy of the document.
    pub fn duplicate(&self) -> (r: DocumentInput)
        ensures
            r@ == self@,
    {
        DocumentInput { content: self.content.clone(), title: clone_opt(&self.title) }
    }
}

/// Checks that content is worth indexing: blank text is refused.
pub fn process_content(content: &str) -> (r: Result<(), String>)
    ensures
        r is Ok <==> !is_blank(content@),
        r matches Err(e) ==> e@ == empty_content_message(),
{
    if is_blank_text(content) {
        Err(String::from_str("Empty content is not allowed"))
    } else {
        Ok(())
    }
}

/// The outcome of an item whose content decoded as `content`.
pub fn outcome_for_content(name: String, content: &str) -> (r: DocumentResult)
    ensures
        r@ == content_outcome(name@, content@),
{
    match process_content(content) {
        Ok(()) => DocumentResult { filename: name, status: OutcomeStatus::Indexed, error: None },
        Err(e) => DocumentResult { filename: name, status: OutcomeStatus::Failed, error: Some(e) },
    }
}

} // verus!
