//! What can go wrong with a request body, and the client error that each
//! failure is reported as.

use crate::path::{path_text, path_view, render_path, PathSegment, SegmentView};
use vstd::prelude::*;

verus! {

/// The body could not be read in full from the transport.
#[derive(Debug, Clone, PartialEq, Eq)]
pub struct TransportReadFailure {
    /// What the transport said of the failure.
    pub cause: String,
}

impl View for TransportReadFailure {
    type V = Seq<char>;

    /// A transport failure is its cause.
    open spec fn view(&self) -> Seq<char> {
        self.cause@
    }
}

/// The body was read but could not be decoded into the shape asked for.
#[derive(Debug, Clone, PartialEq, Eq)]
pub struct DecodeDiagnostic {
    /// The segments from the root of the document to the node at which
    /// decoding was given up; empty when that node is the root.
    pub path: Vec<PathSegment>,
    /// What was wrong at that node.
    pub cause: String,
}

/// A diagnostic as a mathematical value.
pub struct DiagnosticView {
    pub path: Seq<SegmentView>,
    pub cause: Seq<char>,
}

impl View for DecodeDiagnostic {
    type V = DiagnosticView;

    open spec fn view(&self) -> DiagnosticView {
        DiagnosticView { path: path_view(self.path@), cause: self.cause@ }
    }
}

/// The failure that a client is shown: a request it must not repeat
/// unchanged. Both kinds of failure end as one of these.
#[derive(Debug, Clone, PartialEq, Eq)]
pub struct BadRequest {
    /// The text for the client.
    pub message: String,
}

impl View for BadRequest {
    type V = Seq<char>;

    /// A client error is its message.
    open spec fn view(&self) -> Seq<char> {
        self.message@
    }
}

/// The message for a body that could not be read.
pub open spec fn transport_message(cause: Seq<char>) -> Seq<char> {
    "Failed to read request body: "@ + cause
}

/// The message for a body that could not be decoded: where, then why.
pub open spec fn decode_message(diagnostic: DiagnosticView) -> Seq<char> {
    "Invalid JSON at "@ + path_text(diagnostic.path) + ": "@ + diagnostic.cause
}

/// A failure at the root names no path: in its message the colon follows
/// the word "at" and one space, and the cause follows the colon.
pub proof fn lemma_root_message(diagnostic: DiagnosticView)
    requires
        diagnostic.path.len() == 0,
    ensures
        decode_message(diagnostic) == "Invalid JSON at : "@ + diagnostic.cause,
{
    reveal_strlit("Invalid JSON at ");
    reveal_strlit(": ");
    reveal_strlit("Invalid JSON at : ");
}

/// The message says no more and no less than the diagnostic: diagnostics
/// with the same path and the same cause have the same message.
pub proof fn lemma_message_of_equal_diagnostics(first: DecodeDiagnostic, second: DecodeDiagnostic)
    requires
        first@.path == second@.path,
        first@.cause == second@.cause,
    ensures
        decode_message(first@) == decode_message(second@),
{
}

impl TransportReadFailure {
    /// The text that tells a client of this failure.
    pub fn message(&self) -> (text: String)
        ensures
            text@ == transport_message(self@),
    {
        let mut text = String::new();
        text.append("Failed to read request body: ");
        text.append(self.cause.as_str());
        text
    }

    /// The client error that this failure is reported as.
    pub fn reject(&self) -> (rejection: BadRequest)
        ensures
            rejection@ == transport_message(self@),
    {
        BadRequest { message: self.message() }
    }
}

impl DecodeDiagnostic {
    /// The path as text, such as `items[3].name`; empty for the root.
    pub fn path_string(&self) -> (text: String)
        ensures
            text@ == path_text(self@.path),
    {
        render_path(self.path.as_slice())
    }

    /// The text that tells a client of this failure.
    pub fn message(&self) -> (text: String)
        ensures
            text@ == decode_message(self@),
    {
        let path = self.path_string();
        let mut text = String::new();
        text.append("Invalid JSON at ");
        text.append(path.as_str());
        text.append(": ");
        text.append(self.cause.as_str());
        text
    }

    /// The client error that this failure is reported as.
    pub fn reject(&self) -> (rejection: BadRequest)
        ensures
            rejection@ == decode_message(self@),
    {
        BadRequest { message: self.message() }
    }
}

} // verus!
