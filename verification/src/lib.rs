//! A parser for member expressions: property access, `new`, `super` and
//! tagged templates, read from a stream of tokens and built into one
//! expression tree.
//!
//! [`parser::MemberExpression`] is the parser. It reads tokens from a
//! [`cursor::Cursor`], asks a `boa_interner` table for the symbols of
//! reserved words that stand as names, and hands over to the
//! [`productions::Productions`] around it for its operands: the primary
//! expression it starts with, the expression between brackets, the
//! arguments of `new` and the template literal behind a tag.
//!
//! [`grammar`] says what the member expression of a stream of tokens is, and
//! the parser is proved to yield just that. [`laws`] holds what follows for
//! every member expression. [`atoms::Atoms`] are productions whose operands
//! are single tokens; for them, [`spelling`] writes a tree back into tokens
//! and [`round_trip`] proves that parsing those gives the tree again.
//! [`interner`] states what is taken on trust of the table's code.

pub mod atoms;
pub mod cursor;
pub mod error;
pub mod grammar;
pub mod interner;
pub mod keyword;
pub mod laws;
pub mod node;
pub mod parser;
pub mod position;
pub mod productions;
pub mod punctuator;
pub mod round_trip;
pub mod spelling;
pub mod token;
