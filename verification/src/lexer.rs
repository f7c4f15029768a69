//! The token categories of the human-readable assembly dialect.
//!
//! The tokenizer itself is regex-driven and lives with the highlighter in the
//! front end; the category set is defined here so the rest of the system can
//! speak about classified tokens as plain values.

use vstd::prelude::*;

verus! {

/// One category of source token the assembly dialect distinguishes.
#[derive(Debug, PartialEq, Eq, Structural, Clone, Copy)]
pub enum Token {
    /// A `//` comment running to the end of the line.
    LineComment,
    /// A `/* ... */` comment.
    BlockComment,
    /// A line break, `\n` or `\r\n`.
    NewLine,
    /// A whitespace character outside a token.
    WhiteSpace,
    /// A decimal integer literal.
    Integer,
    /// A `0x`-prefixed integer literal.
    HexInteger,
    /// A `0o`-prefixed integer literal.
    OctalInteger,
    /// A `0b`-prefixed integer literal.
    BinaryInteger,
    /// A floating-point literal.
    Float,
    /// A `.`-prefixed directive name.
    Directive,
    /// An identifier followed by `:`.
    Label,
    /// A bare identifier.
    Identifier,
    /// A lone `.`.
    DotSymbol,
}

} // verus!
