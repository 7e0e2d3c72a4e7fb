//! The token model: spans, token kinds, tokens, and the diagnostics that
//! the lexer records for malformed input.

use vstd::prelude::*;

verus! {

/// A half-open byte-offset range `[start, end)` into the source buffer,
/// used for zero-copy text recovery. A well-formed span has `start <= end`
/// and lies within the bounds of the buffer it refers to.
#[derive(Debug, Clone, Copy, PartialEq, Eq, Structural)]
pub struct Span {
    pub start: usize,
    pub end: usize,
}

impl Span {
    /// A span lies within a buffer of length `len` when its bounds are
    /// ordered and do not pass the end of the buffer.
    pub open spec fn wf(self, len: nat) -> bool {
        self.start <= self.end <= len
    }
}

impl Default for Span {
    fn default() -> (s: Self)
        ensures
            s.start == 0 && s.end == 0,
    {
        Span { start: 0, end: 0 }
    }
}

/// The closed set of token tags for the Swift-like language.
///
/// Only `Plus`, `PlusEq`, `Identifier`, `Await`, `As` and the sentinel
/// `Empty` are produced by the current lexer; the remaining tags are the
/// reserved keyword vocabulary the keyword table will grow into.
/// `Empty` means "no consumer-visible token was produced here" and is
/// used for whitespace and skipped bytes; consumers filter it out.
#[derive(Debug, Clone, Copy, PartialEq, Eq, Structural)]
pub enum TokenKind {
    Plus,
    PlusEq,
    Identifier,

    // Declarations
    AssociatedType,
    Class,
    Deinit,
    Enum,
    Extension,
    FilePrivate,
    Func,
    Import,
    Init,
    Inout,
    Internal,
    Let,
    Open,
    Operator,
    Private,
    PrecedenceGroup,
    Protocol,
    Public,
    Rethrows,
    Static,
    Subscript,
    TypeAlias,
    Var,

    // Statements
    Break,
    Case,
    Catch,
    Continue,
    Default,
    Defer,
    Do,
    Else,
    FallThrough,
    For,
    Guard,
    If,
    In,
    Repeat,
    Return,
    Throw,
    Throws,
    True,
    Try,

    // Expressions and types
    Any,
    As,
    Await,
    False,
    Is,
    Nil,
    /// `self`
    LSelf,
    /// `Self`
    USelf,
    Super,

    // Patterns
    Underscore,

    // Keywords that start with a number sign (`#`)
    /// `#available`
    HashAvailable,
    /// `#colorLiteral`
    HashColorLiteral,
    /// `#else`
    HashElse,
    /// `#elseif`
    HashElseIf,
    /// `#endif`
    HashEndIf,
    /// `#fileLiteral`
    HashFileLiteral,
    /// `#if`
    HashIf,
    /// `#imageLiteral`
    HashImageLiteral,
    /// `#keyPath`
    HashKeyPath,
    /// `#selector`
    HashSelector,
    /// `#sourceLocation`
    HashSourceLocation,
    /// `#unavailable`
    HashUnavailable,

    /// The sentinel: no token was produced.
    Empty,
}

impl Default for TokenKind {
    fn default() -> (k: Self)
        ensures
            k == TokenKind::Empty,
    {
        TokenKind::Empty
    }
}

/// A classified token: a kind together with the span of buffer bytes it
/// was read from. A token owns none of the buffer's bytes; its text is
/// recovered on demand by slicing the buffer with the span.
#[derive(Debug, Clone, Copy, PartialEq, Eq, Structural)]
pub struct Token {
    pub kind: TokenKind,
    pub span: Span,
}

impl Token {
    /// The value a fresh in-progress token holds: the `Empty` sentinel
    /// with a zero span.
    pub open spec fn spec_empty() -> Token {
        Token { kind: TokenKind::Empty, span: Span { start: 0, end: 0 } }
    }

    /// Creates a fresh token holding the `Empty` sentinel and a zero span.
    pub fn new() -> (t: Self)
        ensures
            t == Token::spec_empty(),
    {
        Token { kind: TokenKind::Empty, span: Span { start: 0, end: 0 } }
    }
}

impl Default for Token {
    fn default() -> (t: Self)
        ensures
            t == Token::spec_empty(),
    {
        Token::new()
    }
}

/// A diagnostic recorded by the lexer. Both conditions are non-fatal:
/// scanning resumes cleanly on the next call.
#[derive(Debug, Clone, Copy, PartialEq, Eq, Structural)]
pub enum Diagnostic {
    /// No dispatch entry exists for the byte at `pos`; the lexer skipped
    /// exactly that one byte.
    UnrecognizedByte { pos: usize, byte: u8 },
    /// A quoted identifier opened at `start` reached the end of the
    /// buffer before its closing backtick.
    UnterminatedQuotedIdentifier { start: usize },
}

} // verus!
