//! Plain data for the language-server transport that surrounds the library.
//! The core performs no protocol work itself: these types only carry what an
//! editor-facing driver reads and writes, as plain values.

use vstd::prelude::*;

verus! {

/// A document named by its URI.
#[derive(Clone, Debug, PartialEq)]
pub struct TextDocumentIdentifier {
    pub uri: String,
}

/// A document named by its URI together with a version counter.
#[derive(Clone, Debug, PartialEq)]
pub struct VersionedTextDocumentIdentifier {
    pub uri: String,
    pub version: i32,
}

/// A document with its language and full text.
#[derive(Clone, Debug, PartialEq)]
pub struct TextDocumentItem {
    pub uri: String,
    pub language_id: String,
    pub version: i32,
    pub text: String,
}

/// The parameters of a document-open notification.
#[derive(Clone, Debug, PartialEq)]
pub struct DidOpenTextDocumentParams {
    pub text_document: TextDocumentItem,
}

/// The parameters of a document-symbol request.
#[derive(Clone, Debug, PartialEq)]
pub struct DocumentSymbolParams {
    pub text_document: TextDocumentIdentifier,
}

/// The answer to a document-symbol request.
#[derive(Clone, Debug, PartialEq)]
pub struct DocumentSymbolResponse {
}

/// A document-open notification: the text and its language.
#[derive(Clone, Debug, PartialEq)]
pub struct DidOpenTextDocument {
    pub text: String,
    pub language_id: String,
}

/// A hover request at a zero-based line/character position.
#[derive(Debug, PartialEq)]
pub struct HoverRequest {
    pub position: (u64, u64),
}

/// A hover answer: the strings to show.
#[derive(Debug, PartialEq)]
pub struct Hover {
    pub contents: Vec<MarkedString>,
}

/// One hover string, plain or tagged with a language.
#[derive(Clone, Debug, PartialEq)]
pub enum MarkedString {
    String(String),
    LanguageString { language: String, value: String },
}

} // verus!
