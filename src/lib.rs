//! Front end and evaluator for a small expression language with Portuguese
//! keywords: characters become tokens, tokens become a syntax tree, and the
//! tree is walked to a value.

pub mod ast;
pub mod error;
pub mod object;
pub mod primitive;
pub mod token;
mod source;
pub mod tokenizer;
pub mod tokens;
pub mod parse;
pub mod interpreter;
