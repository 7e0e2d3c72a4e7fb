//! A pull-based lexical tokenizer for a Swift-like source language.
//!
//! A `Lexer` turns a raw text buffer into a stream of classified tokens
//! (identifiers, keywords, a small operator set) by looking the byte at
//! the cursor up in a per-byte dispatch table and running the matching
//! handler: one dispatch per input byte, no branching cascade. Token
//! spans are byte offsets into the buffer, so the literal text of any
//! token can be recovered by slicing.
//!
//! Every public operation carries a contract stated over the model in
//! [`model`]: what one call to [`Lexer::next_token`] returns and consumes
//! is exactly `model::step_kind` / `model::step_end` of the buffer and
//! the cursor position, and the session-wide laws (span tiling,
//! monotonicity, coverage, determinism) are proved there once and for
//! all.

use vstd::prelude::*;

pub mod handler;
mod identifier;
pub mod model;
pub mod source;
pub mod token;

verus! {

use crate::model::{step_diags, step_end, step_kind, handler_for_byte, HandlerKind};
use crate::source::Source;
use vstd::string::StringSliceAdditionalSpecFns;
use crate::token::{Diagnostic, Span, Token, TokenKind};

/// `oxc_allocator::Allocator` is the arena reserved for future AST node
/// allocation. The lexer only holds a shared reference to one and never
/// calls into it, so the type is declared opaquely and nothing is
/// assumed about it.
#[verifier::external_type_specification]
#[verifier::external_body]
pub struct ExAllocator(oxc_allocator::Allocator);

/// The lexer: one tokenizing session over one source buffer.
///
/// It owns the session's `Source` (buffer plus cursor) and an
/// in-progress scratch token that the driver stamps and the handlers
/// classify. The allocator reference is carried for the parser stages
/// that will be built on top; the lexer does not use it for tokens.
pub struct Lexer<'alloc> {
    /// Reference to the given `Allocator` instance; reserved for future
    /// AST integration.
    #[allow(dead_code)]
    pub alloc: &'alloc oxc_allocator::Allocator,
    /// The source code being tokenized.
    pub source: Source,
    /// The in-progress token. The driver is its only writer; it is
    /// reset to the `Empty` sentinel after every completed call.
    pub token: Token,
    /// The diagnostics sink: unrecognized bytes and unterminated quoted
    /// identifiers land here, in the order they were found. All
    /// conditions recorded here are non-fatal.
    pub diagnostics: Vec<Diagnostic>,
}

impl<'a> Lexer<'a> {
    /// The session is well-formed when its cursor lies within its
    /// buffer. Construction establishes this and every operation
    /// preserves it.
    pub open spec fn wf(&self) -> bool {
        self.source.wf()
    }

    /// Creates a new lexing session over `source`, with the cursor at
    /// the start, a fresh scratch token and no diagnostics.
    pub fn new(alloc: &'a oxc_allocator::Allocator, source: &'a str) -> (l: Self)
        ensures
            l.source@ == source.spec_bytes(),
            l.source.spec_pos() == 0,
            l.token == Token::spec_empty(),
            l.diagnostics@ == Seq::<Diagnostic>::empty(),
            l.wf(),
    {
        Lexer {
            alloc,
            source: Source::new(source),
            token: Token::new(),
            diagnostics: Vec::new(),
        }
    }

    /// The dispatch-table lookup: the handler entry for `byte`, or
    /// `None` when the byte is unrecognized. A pure per-byte selection
    /// with no backtracking.
    fn handler_from_byte(&self, byte: u8) -> (h: Option<HandlerKind>)
        ensures
            h == handler_for_byte(byte),
    {
        if byte == 0 {
            Some(HandlerKind::EndOfInput)
        } else if byte == 32 {
            Some(HandlerKind::Whitespace)
        } else if byte == 96 {
            Some(HandlerKind::QuotedIdentifier)
        } else if byte == 43 {
            Some(HandlerKind::Operator)
        } else if crate::handler::is_ident_start(byte) {
            Some(HandlerKind::Identifier)
        } else if byte >= 128 {
            Some(HandlerKind::NonAscii)
        } else {
            None
        }
    }

    /// Commits the cursor one byte forward.
    #[inline]
    pub(crate) fn bump(&mut self)
        requires
            old(self).wf(),
            old(self).source.spec_pos() < old(self).source@.len(),
        ensures
            final(self).source@ == old(self).source@,
            final(self).source.spec_pos() == old(self).source.spec_pos() + 1,
            final(self).token == old(self).token,
            final(self).diagnostics@ == old(self).diagnostics@,
            final(self).wf(),
    {
        self.source.advance_ptr();
    }

    /// One driver step: reads the byte at the cursor, dispatches to its
    /// handler, stamps the completed token's span, and resets the
    /// scratch token for the next call.
    ///
    /// Once the cursor is at the end the session is exhausted: the call
    /// consumes nothing and hands back an `Empty` token whose span is
    /// the empty range at the end. Everywhere else the cursor moves
    /// forward by at least one byte, so a scan loop terminates after at
    /// most one call per buffer byte. An unrecognized byte is reported
    /// to the diagnostics sink and skipped as an `Empty` token;
    /// consumers filter `Empty` tokens out.
    pub fn next_token(&mut self) -> (t: Token)
        requires
            old(self).wf(),
        ensures
            final(self).wf(),
            final(self).source@ == old(self).source@,
            final(self).token == Token::spec_empty(),
            t.kind == step_kind(old(self).source@, old(self).source.spec_pos()),
            t.span.start == old(self).source.spec_pos(),
            t.span.end == step_end(old(self).source@, old(self).source.spec_pos()),
            final(self).source.spec_pos() == t.span.end,
            t.span.start <= t.span.end <= old(self).source@.len(),
            final(self).diagnostics@ == old(self).diagnostics@ + step_diags(
                old(self).source@,
                old(self).source.spec_pos(),
            ),
    {
        proof {
            crate::model::lemma_step_progress(old(self).source@, old(self).source.spec_pos());
        }
        if self.source.is_at_end() {
            let p = self.source.current_pos();
            self.token = Token::new();
            proof {
                assert(old(self).diagnostics@ + step_diags(
                    old(self).source@,
                    old(self).source.spec_pos(),
                ) =~= old(self).diagnostics@);
            }
            return Token { kind: TokenKind::Empty, span: Span { start: p, end: p } };
        }
        let next_byte = self.read_byte();
        let start = self.source.current_pos();
        self.token.span.start = start;
        match self.handler_from_byte(next_byte) {
            Some(HandlerKind::EndOfInput) => self.end_of_input_handler(),
            Some(HandlerKind::Whitespace) => self.whitespace_handler(),
            Some(HandlerKind::Identifier) => self.identifier_byte_handler(),
            Some(HandlerKind::QuotedIdentifier) => self.quoted_identifier_byte_handler(),
            Some(HandlerKind::Operator) => self.plus_handler(),
            Some(HandlerKind::NonAscii) => self.non_ascii_handler(),
            None => {
                // No dispatch entry: report the byte, skip exactly one
                // byte, and produce no token for it.
                self.diagnostics.push(
                    Diagnostic::UnrecognizedByte { pos: start, byte: next_byte },
                );
                self.token.kind = TokenKind::Empty;
                self.bump();
                proof {
                    assert(self.diagnostics@ =~= old(self).diagnostics@ + step_diags(
                        old(self).source@,
                        old(self).source.spec_pos(),
                    ));
                }
            },
        }
        self.token.span.end = self.source.current_pos();
        let tok = self.token;
        self.token = Token::new();
        tok
    }

    /// Runs the session to exhaustion and collects every produced
    /// token, `Empty` sentinels included: the executable counterpart of
    /// the model's `token_stream`, for which the span-tiling,
    /// monotonicity, coverage and determinism laws are proved in
    /// [`model`]. Consumers that only want visible tokens filter the
    /// `Empty` ones out; by `model::lemma_empty_tokens_are_skips` that
    /// drops exactly the whitespace and skipped bytes.
    pub fn remaining_tokens(&mut self) -> (r: Vec<Token>)
        requires
            old(self).wf(),
        ensures
            final(self).wf(),
            final(self).source@ == old(self).source@,
            final(self).source.spec_pos() == old(self).source@.len(),
            crate::model::tokens_entries(r@) == crate::model::token_stream(
                old(self).source@,
                old(self).source.spec_pos(),
            ),
            final(self).diagnostics@ == old(self).diagnostics@ + crate::model::stream_diags(
                old(self).source@,
                old(self).source.spec_pos(),
            ),
    {
        let ghost s = self.source@;
        let ghost p0 = self.source.spec_pos();
        let mut r: Vec<Token> = Vec::new();
        while !self.source.is_at_end()
            invariant
                self.wf(),
                self.source@ == s,
                0 <= p0 <= s.len(),
                crate::model::tokens_entries(r@) + crate::model::token_stream(
                    s,
                    self.source.spec_pos(),
                ) == crate::model::token_stream(s, p0),
                self.diagnostics@ + crate::model::stream_diags(s, self.source.spec_pos())
                    == old(self).diagnostics@ + crate::model::stream_diags(s, p0),
            decreases s.len() - self.source.spec_pos(),
        {
            let ghost pos_before = self.source.spec_pos();
            let ghost rv0 = r@;
            let ghost m0 = crate::model::tokens_entries(r@);
            let ghost d0 = self.diagnostics@;
            let tok = self.next_token();
            r.push(tok);
            proof {
                crate::model::lemma_step_progress(s, pos_before);
                let e = crate::model::token_entry(tok);
                let head = seq![(step_kind(s, pos_before), pos_before, step_end(s, pos_before))];
                assert(e == head[0]);
                assert(r@ =~= rv0.push(tok));
                assert forall|i: int| 0 <= i < r@.len() implies crate::model::tokens_entries(
                    r@,
                )[i] == (m0 + head)[i] by {
                    assert(crate::model::tokens_entries(r@)[i] == crate::model::token_entry(
                        r@[i],
                    ));
                    if i < rv0.len() {
                        assert(r@[i] == rv0[i]);
                        assert(m0[i] == crate::model::token_entry(rv0[i]));
                    } else {
                        assert(r@[i] == tok);
                    }
                }
                assert(crate::model::tokens_entries(r@) =~= m0 + head);
                assert((m0 + head) + crate::model::token_stream(s, step_end(s, pos_before))
                    =~= m0 + (head + crate::model::token_stream(s, step_end(s, pos_before))));
                assert((d0 + step_diags(s, pos_before)) + crate::model::stream_diags(
                    s,
                    step_end(s, pos_before),
                ) =~= d0 + (step_diags(s, pos_before) + crate::model::stream_diags(
                    s,
                    step_end(s, pos_before),
                )));
            }
        }
        proof {
            assert(crate::model::tokens_entries(r@) + crate::model::token_stream(
                s,
                self.source.spec_pos(),
            ) =~= crate::model::tokens_entries(r@));
            assert(self.diagnostics@ + crate::model::stream_diags(s, self.source.spec_pos())
                =~= self.diagnostics@);
        }
        r
    }

    /// A copy of the bytes the in-progress token's span refers to.
    pub fn token_as_str(&self) -> (r: Vec<u8>)
        requires
            self.token.span.wf(self.source@.len()),
        ensures
            r@ == self.source@.subrange(self.token.span.start as int, self.token.span.end as int),
    {
        let start = self.token.span.start;
        let end = self.token.span.end;
        self.source.get_slice(start, end)
    }

    /// The byte at the cursor.
    pub fn read_byte(&mut self) -> (b: u8)
        requires
            old(self).source.spec_pos() < old(self).source@.len(),
        ensures
            *final(self) == *old(self),
            b == old(self).source@[old(self).source.spec_pos()],
    {
        self.source.current()
    }

    /// One byte of lookahead: whether the byte after the cursor is `c`
    /// (compared byte-granularly, by `c`'s low byte), committing the
    /// cursor onto that byte when it is. At the end of the buffer there
    /// is no lookahead byte and the answer is `false`.
    pub fn next_eq(&mut self, c: char) -> (r: bool)
        requires
            old(self).wf(),
        ensures
            r == (old(self).source.spec_pos() + 1 < old(self).source@.len()
                && old(self).source@[old(self).source.spec_pos() + 1] == (c as u32) as u8),
            final(self).source@ == old(self).source@,
            final(self).source.spec_pos() == if r {
                old(self).source.spec_pos() + 1
            } else {
                old(self).source.spec_pos()
            },
            final(self).token == old(self).token,
            final(self).diagnostics@ == old(self).diagnostics@,
            final(self).wf(),
    {
        let expected: u8 = #[verifier::truncate] ((c as u32) as u8);
        match self.source.peek() {
            Some(b) => {
                if b == expected {
                    self.bump();
                    true
                } else {
                    false
                }
            },
            None => false,
        }
    }

    /// Whether the session is exhausted: the cursor has reached the end
    /// of the buffer. Callers drive the pull loop with this.
    pub fn is_at_end(&self) -> (r: bool)
        ensures
            r == (self.source.spec_pos() >= self.source@.len()),
    {
        self.source.is_at_end()
    }

    /// The byte after the cursor. The caller guarantees it exists.
    pub fn peek(&self) -> (b: u8)
        requires
            self.wf(),
            self.source.spec_pos() + 1 < self.source@.len(),
        ensures
            b == self.source@[self.source.spec_pos() + 1],
    {
        let r = self.source.peek();
        r.unwrap()
    }
}

} // verus!
