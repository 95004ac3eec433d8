//! Diagnostics and error types of the assembler.

use vstd::prelude::*;

verus! {

// ---------------------------------------------------------------------
// Spec-level views of the error types (label names as byte sequences).
// ---------------------------------------------------------------------

pub enum DiagnosticsTypeView {
    UnusedLocalLabel(Seq<u8>),
}

pub struct DiagnosticsView {
    pub line_number: nat,
    pub diag_type: DiagnosticsTypeView,
}

pub struct ParserErrorView {
    pub line_number: nat,
    pub token: Option<Seq<u8>>,
}

pub enum LabelErrorTypeView {
    BadDefPrefix(Seq<u8>),
    Duplicate(Seq<u8>),
    BehindFullMemory(Seq<u8>),
    NotResolved(Seq<u8>),
}

pub struct LabelErrorView {
    pub line_number: nat,
    pub err_type: LabelErrorTypeView,
}

pub enum AssemblerErrorView {
    Parser(ParserErrorView),
    Label(LabelErrorView),
    Overflow(nat),
}

// ---------------------------------------------------------------------
// Executable error types.
// ---------------------------------------------------------------------

// Diagnostics (warnings) help users to improve their otherwise correct
// code:
#[derive(Clone, PartialEq, Eq, Debug)]
pub enum DiagnosticsType {
    UnusedLocalLabel(Vec<u8>),
}

impl View for DiagnosticsType {
    type V = DiagnosticsTypeView;

    open spec fn view(&self) -> DiagnosticsTypeView {
        match self {
            DiagnosticsType::UnusedLocalLabel(name) => DiagnosticsTypeView::UnusedLocalLabel(
                name@,
            ),
        }
    }
}

#[derive(Clone, PartialEq, Eq, Debug)]
pub struct Diagnostics {
    pub line_number: usize,
    pub diag_type: DiagnosticsType,
}

impl View for Diagnostics {
    type V = DiagnosticsView;

    open spec fn view(&self) -> DiagnosticsView {
        DiagnosticsView { line_number: self.line_number as nat, diag_type: self.diag_type@ }
    }
}

impl Diagnostics {
    pub fn new(line_number: usize, diag_type: DiagnosticsType) -> (d: Diagnostics)
        ensures
            d == (Diagnostics { line_number, diag_type }),
    {
        Diagnostics { line_number, diag_type }
    }
}

// Parsing is error-prone.
// We use this custom error type to return some diagnostics.
#[derive(Clone, PartialEq, Eq, Debug)]
pub struct ParserError {
    pub line_number: usize,
    pub token: Option<Vec<u8>>,
}

impl View for ParserError {
    type V = ParserErrorView;

    open spec fn view(&self) -> ParserErrorView {
        ParserErrorView {
            line_number: self.line_number as nat,
            token: match &self.token {
                Some(t) => Some(t@),
                None => None,
            },
        }
    }
}

impl ParserError {
    pub fn new(line_number: usize, token: Option<Vec<u8>>) -> (e: ParserError)
        ensures
            e == (ParserError { line_number, token }),
    {
        ParserError { line_number, token }
    }
}

// A wrong usage of a label in a syntactically correct program:
#[derive(Clone, PartialEq, Eq, Debug)]
pub enum LabelErrorType {
    BadDefPrefix(Vec<u8>),
    Duplicate(Vec<u8>),
    BehindFullMemory(Vec<u8>),
    NotResolved(Vec<u8>),
}

impl View for LabelErrorType {
    type V = LabelErrorTypeView;

    open spec fn view(&self) -> LabelErrorTypeView {
        match self {
            LabelErrorType::BadDefPrefix(s) => LabelErrorTypeView::BadDefPrefix(s@),
            LabelErrorType::Duplicate(s) => LabelErrorTypeView::Duplicate(s@),
            LabelErrorType::BehindFullMemory(s) => LabelErrorTypeView::BehindFullMemory(s@),
            LabelErrorType::NotResolved(s) => LabelErrorTypeView::NotResolved(s@),
        }
    }
}

#[derive(Clone, PartialEq, Eq, Debug)]
pub struct LabelError {
    pub line_number: usize,
    pub err_type: LabelErrorType,
}

impl View for LabelError {
    type V = LabelErrorView;

    open spec fn view(&self) -> LabelErrorView {
        LabelErrorView { line_number: self.line_number as nat, err_type: self.err_type@ }
    }
}

impl LabelError {
    pub fn new(line_number: usize, err_type: LabelErrorType) -> (e: LabelError)
        ensures
            e == (LabelError { line_number, err_type }),
    {
        LabelError { line_number, err_type }
    }
}

// This is a compound error type that wraps all the other ones:
#[derive(Clone, PartialEq, Eq, Debug)]
pub enum AssemblerError {
    ParserError(ParserError),
    LabelError(LabelError),
    OverflowError(usize),
}

impl View for AssemblerError {
    type V = AssemblerErrorView;

    open spec fn view(&self) -> AssemblerErrorView {
        match self {
            AssemblerError::ParserError(e) => AssemblerErrorView::Parser(e@),
            AssemblerError::LabelError(e) => AssemblerErrorView::Label(e@),
            AssemblerError::OverflowError(line) => AssemblerErrorView::Overflow(*line as nat),
        }
    }
}

} // verus!
