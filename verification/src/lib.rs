//! Hatchet: Haxe to C++98.
//!
//! A source is lexed ([`lexer`]) and parsed ([`parser`]), the files are put together to a
//! program ([`assemble`]), and each module of it becomes a header and a source ([`codegen`]).
//! [`driver`] plans a whole run. What holds of more than one function stands in [`laws`].
//!
//! A function `f` ensures that the model of its result is `f_spec` of the models of its
//! arguments; the model of a value `x` of a syntax type is `x.v()`.

use vstd::prelude::*;

pub mod assemble;
pub mod ast;
pub mod cli;
pub mod codegen;
pub mod copy;
pub mod driver;
pub mod laws;
pub mod lexer;
pub mod model;
pub mod node;
pub mod parser;
pub mod prelude;
pub mod program;
pub mod rebase;
pub mod report;
pub mod resolve;
pub mod strings;
pub mod text;
pub mod token;
