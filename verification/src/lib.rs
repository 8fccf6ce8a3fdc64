//! Contextual identifier resolution for an ECMAScript / TypeScript parser.
//!
//! Whether a word may stand as an identifier depends on where it appears:
//! `await` is a name in a script but reserved in a module, `yield` is a name
//! outside generators, `let` and `static` are names that strict mode forbids.
//! This crate decides, for a classified token and the parser's [`Context`],
//! whether the token resolves to a name and which diagnostics come with it,
//! and parses the identifier-shaped productions built on that decision:
//! identifier references, identifier names, private names and module export
//! names.

pub mod ast;
pub mod context;
pub mod error;
pub mod ident;
pub mod parser;
pub mod resolve;
pub mod span;
pub mod token;

pub use crate::ast::{Ident, IdentName, ModuleExportName, PrivateName, Str};
pub use crate::context::{Context, Syntax};
pub use crate::error::{Error, SyntaxError};
pub use crate::parser::Parser;
pub use crate::resolve::{resolve, Resolution};
pub use crate::span::Span;
pub use crate::token::{Token, TokenAndSpan, Word};
