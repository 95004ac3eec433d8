//! The assembler: a line-oriented parser and a two-pass assembler
//! producing object code plus a symbol table.

pub mod error;
pub mod assembler;
pub mod parser;

pub use error::{Diagnostics, DiagnosticsType, ParserError, LabelErrorType, LabelError, AssemblerError};
pub use error::{DiagnosticsView, DiagnosticsTypeView, ParserErrorView, LabelErrorTypeView, LabelErrorView, AssemblerErrorView};
pub use assembler::{Label, Symbol, ObjectCode, ObjectCodeView, SymbolView, LabelView, BindingView, ProgramRepr};
pub use parser::{ProgramToken, StatementToken, WordToken, LabelIdentifierToken, AddressToken, LabelDefinitionToken, DataToken, InstructionToken, StatementContentToken};
