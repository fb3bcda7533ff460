//! The syntax tree of a small scripting language, and the entry point that makes it from source
//! text.
//!
//! - [`operator`]: the binary operators and their tokens.
//! - [`name`]: function names, bare or namespaced, and their canonical text.
//! - [`ast`]: the statements that a program is made of, and their models.
//! - [`well_formed`]: what holds of the names in a tree.
//! - [`equality`] and [`cloning`]: what `==` and `clone` mean on trees.
//! - [`parse`]: from source text to a program or a [`ParseError`], by way of a grammar engine that
//!   the caller brings.
//! - [`engine`]: what such an engine answers.
//! - [`error`]: the two ways in which parsing fails.
//! - [`text`]: the two questions asked of the text that the engine leaves unread.

pub mod ast;
pub mod cloning;
pub mod engine;
pub mod equality;
pub mod error;
pub mod name;
pub mod operator;
pub mod parse;
pub mod text;
pub mod well_formed;

pub use crate::ast::{
    ConditionalStatement, DioAstStatement, DioscriptAst, FunctionCall, FunctionDefine,
    LoopExecuteType, LoopStatement, ParamsType, UseStatement, VariableDefine,
};
pub use crate::error::ParseError;
pub use crate::name::FunctionName;
pub use crate::operator::CalculateMark;
