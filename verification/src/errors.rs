//! The error taxonomy of the library.
//!
//! Parsing and materializing report `ParseError`; the interactive
//! composition reports `BotstoneError`.  Every error type has a spec-level
//! view so that contracts can pin down exactly which error an input earns.

use vstd::prelude::*;

verus! {

/// Failure to interpret a colour specification.
#[derive(Debug, PartialEq, Clone)]
pub enum ColourParseError {
    /// A `#`-prefixed string whose length is not exactly seven characters.
    InvalidColourHexLength(String),
    /// A `#`-prefixed string of the right length holding a non-hex character.
    InvalidColourHexValue(String),
    /// A name that is not in the colour table.
    UnknownColourName(String),
}

/// Spec-level view of `ColourParseError`.
pub enum ColourErrorView {
    InvalidColourHexLength(Seq<char>),
    InvalidColourHexValue(Seq<char>),
    UnknownColourName(Seq<char>),
}

impl View for ColourParseError {
    type V = ColourErrorView;

    open spec fn view(&self) -> ColourErrorView {
        match self {
            ColourParseError::InvalidColourHexLength(s) => ColourErrorView::InvalidColourHexLength(s@),
            ColourParseError::InvalidColourHexValue(s) => ColourErrorView::InvalidColourHexValue(s@),
            ColourParseError::UnknownColourName(s) => ColourErrorView::UnknownColourName(s@),
        }
    }
}

/// Failure of the textual path: either the text is not a well-formed
/// document, or the document does not fit the message schema, or a colour
/// in it cannot be resolved.
#[derive(Debug, PartialEq, Clone)]
pub enum ParseError {
    /// A colour specification was rejected.
    ColourParseError(ColourParseError),
    /// The text is not a well-formed document, or the document does not
    /// fit the schema; carries a human-readable diagnostic.
    InvalidJson(String),
}

/// Spec-level view of `ParseError`.
pub enum ParseErrorView {
    ColourParseError(ColourErrorView),
    InvalidJson(Seq<char>),
}

impl View for ParseError {
    type V = ParseErrorView;

    open spec fn view(&self) -> ParseErrorView {
        match self {
            ParseError::ColourParseError(e) => ParseErrorView::ColourParseError(e@),
            ParseError::InvalidJson(s) => ParseErrorView::InvalidJson(s@),
        }
    }
}

/// Failure to read a permission node from its textual form.
#[derive(Debug, PartialEq, Clone)]
pub enum PermissionParseError {
    InvalidPermissionString(String),
}

/// Spec-level view of `PermissionParseError`.
pub enum PermissionErrorView {
    InvalidPermissionString(Seq<char>),
}

impl View for PermissionParseError {
    type V = PermissionErrorView;

    open spec fn view(&self) -> PermissionErrorView {
        match self {
            PermissionParseError::InvalidPermissionString(s) => PermissionErrorView::InvalidPermissionString(s@),
        }
    }
}

/// Top-level error of the interactive composition path.
#[derive(Debug, PartialEq, Clone)]
pub enum BotstoneError {
    /// A parse or materialize step failed.
    ParseError(ParseError),
    /// The underlying send or receive capability failed; fatal to the session.
    Transport(String),
    /// An internal invariant was violated, such as an unrecognized reaction
    /// reaching the orchestrator.
    ImpossibleError(String),
    /// Any other failure, described in words.
    Other(String),
}

/// Spec-level view of `BotstoneError`.
pub enum BotstoneErrorView {
    ParseError(ParseErrorView),
    Transport(Seq<char>),
    ImpossibleError(Seq<char>),
    Other(Seq<char>),
}

impl View for BotstoneError {
    type V = BotstoneErrorView;

    open spec fn view(&self) -> BotstoneErrorView {
        match self {
            BotstoneError::ParseError(e) => BotstoneErrorView::ParseError(e@),
            BotstoneError::Transport(s) => BotstoneErrorView::Transport(s@),
            BotstoneError::ImpossibleError(s) => BotstoneErrorView::ImpossibleError(s@),
            BotstoneError::Other(s) => BotstoneErrorView::Other(s@),
        }
    }
}

} // verus!
