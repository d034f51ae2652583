//! A recursive-descent parser for the declarations of a small language: imports,
//! functions, constants, variables, statics, structs, def blocks and generic blocks.
//!
//! [`parse`] turns a source text into a [`Rattle`] tree or a [`SyntaxError`].
//! The grammar itself is written down in [`grammar`] as mathematical functions on
//! token sequences, and every parsing function is proved to compute the function of
//! its production.

pub mod ast;
pub mod cursor;
pub mod error;
pub mod grammar;
pub mod jit;
pub mod laws;
pub mod lexer;
pub mod parser;
pub mod token;

pub use ast::{
    Rattle, RtlBody, RtlConstExpr, RtlDecl, RtlDeclValue, RtlDef, RtlExpr, RtlFn, RtlFnArg, RtlGen,
    RtlImport, RtlPub, RtlStatic, RtlStruct, RtlStructField, RtlVarExpr,
};
pub use cursor::TokenCursor;
pub use error::{ErrorKind, RtlResult, SyntaxError, TokenKind};
pub use jit::JitMeta;
pub use lexer::tokenize;
pub use parser::{parse, parse_tokens};
pub use token::{Delimiter, Token};
