//! The byte handlers behind the dispatch table, and the keyword
//! classifier they share.
//!
//! Each handler consumes at least one byte (so the driver always makes
//! forward progress) and sets the in-progress token's kind; the driver
//! stamps the span. All six carry the same contract shape: what they
//! consume and classify is exactly the model's `step_end` / `step_kind`
//! / `step_diags` for the byte class their dispatch entry covers.

use vstd::prelude::*;

verus! {

use crate::model::{classify_ident_text, handler_for_byte, kw_as, kw_await, step_diags, step_end,
    step_kind, HandlerKind};
use crate::token::{Diagnostic, TokenKind};
use crate::Lexer;

/// Whether `byte` is an ASCII letter or digit.
pub(crate) fn is_alphanumeric(byte: u8) -> (r: bool)
    ensures
        r == crate::model::is_alphanumeric_byte(byte),
{
    (48 <= byte && byte <= 57) || (65 <= byte && byte <= 90) || (97 <= byte && byte <= 122)
}

/// Whether `byte` continues an identifier run: alphanumeric or `_`.
pub(crate) fn is_ident_continue(byte: u8) -> (r: bool)
    ensures
        r == crate::model::is_ident_continue_byte(byte),
{
    is_alphanumeric(byte) || byte == 95
}

/// Whether `byte` begins a generic identifier: alphanumeric, `_` or `$`.
pub(crate) fn is_ident_start(byte: u8) -> (r: bool)
    ensures
        r == crate::model::is_ident_start_byte(byte),
{
    is_ident_continue(byte) || byte == 36
}

/// The keyword classifier: the single source of truth mapping a scanned
/// identifier text to its kind. An exact, case-sensitive match against a
/// known keyword spelling yields that keyword's kind; any other text is
/// a plain identifier.
pub fn classify_keyword(text: &Vec<u8>) -> (k: TokenKind)
    ensures
        k == classify_ident_text(text@),
{
    if text.len() == 5 && text[0] == 97 && text[1] == 119 && text[2] == 97 && text[3] == 105
        && text[4] == 116 {
        // `await`
        proof {
            assert(text@ =~= kw_await());
        }
        TokenKind::Await
    } else if text.len() == 2 && text[0] == 65 && text[1] == 115 {
        // `As`
        proof {
            assert(text@ =~= kw_as());
        }
        TokenKind::As
    } else {
        proof {
            assert(kw_await().len() == 5 && kw_await()[0] == 97 && kw_await()[1] == 119
                && kw_await()[2] == 97 && kw_await()[3] == 105 && kw_await()[4] == 116);
            assert(kw_as().len() == 2 && kw_as()[0] == 65 && kw_as()[1] == 115);
        }
        TokenKind::Identifier
    }
}

impl<'a> Lexer<'a> {
    /// The dispatch entry for byte 0. The driver never dispatches once
    /// the cursor is at the end, so this handler only ever sees a stray
    /// NUL inside the buffer: it is reported as an unrecognized byte
    /// and skipped, preserving forward progress.
    pub(crate) fn end_of_input_handler(&mut self)
        requires
            old(self).wf(),
            old(self).source.spec_pos() < old(self).source@.len(),
            handler_for_byte(old(self).source@[old(self).source.spec_pos()]) == Some(
                HandlerKind::EndOfInput,
            ),
        ensures
            final(self).source@ == old(self).source@,
            final(self).source.spec_pos() == step_end(
                old(self).source@,
                old(self).source.spec_pos(),
            ),
            final(self).token.kind == step_kind(old(self).source@, old(self).source.spec_pos()),
            final(self).token.span == old(self).token.span,
            final(self).diagnostics@ == old(self).diagnostics@ + step_diags(
                old(self).source@,
                old(self).source.spec_pos(),
            ),
            final(self).wf(),
    {
        let pos = self.source.current_pos();
        let byte = self.source.current();
        self.diagnostics.push(Diagnostic::UnrecognizedByte { pos, byte });
        self.token.kind = TokenKind::Empty;
        self.bump();
        proof {
            assert(self.diagnostics@ =~= old(self).diagnostics@ + step_diags(
                old(self).source@,
                old(self).source.spec_pos(),
            ));
        }
    }

    /// Handles an ASCII space: produces no token (the `Empty` sentinel)
    /// and skips the byte.
    pub(crate) fn whitespace_handler(&mut self)
        requires
            old(self).wf(),
            old(self).source.spec_pos() < old(self).source@.len(),
            handler_for_byte(old(self).source@[old(self).source.spec_pos()]) == Some(
                HandlerKind::Whitespace,
            ),
        ensures
            final(self).source@ == old(self).source@,
            final(self).source.spec_pos() == step_end(
                old(self).source@,
                old(self).source.spec_pos(),
            ),
            final(self).token.kind == step_kind(old(self).source@, old(self).source.spec_pos()),
            final(self).token.span == old(self).token.span,
            final(self).diagnostics@ == old(self).diagnostics@ + step_diags(
                old(self).source@,
                old(self).source.spec_pos(),
            ),
            final(self).wf(),
    {
        self.token.kind = TokenKind::Empty;
        self.bump();
        proof {
            assert(self.diagnostics@ =~= old(self).diagnostics@ + Seq::<Diagnostic>::empty());
        }
    }

    /// Handles an identifier-start byte: scans the maximal identifier
    /// run and classifies the scanned text against the keyword table.
    /// The per-leading-byte keyword shortcuts of a hand-tuned lexer are
    /// an optimization over exactly this contract, never a second
    /// policy: every scanned identifier goes through the one classifier.
    pub(crate) fn identifier_byte_handler(&mut self)
        requires
            old(self).wf(),
            old(self).source.spec_pos() < old(self).source@.len(),
            handler_for_byte(old(self).source@[old(self).source.spec_pos()]) == Some(
                HandlerKind::Identifier,
            ),
        ensures
            final(self).source@ == old(self).source@,
            final(self).source.spec_pos() == step_end(
                old(self).source@,
                old(self).source.spec_pos(),
            ),
            final(self).token.kind == step_kind(old(self).source@, old(self).source.spec_pos()),
            final(self).token.span == old(self).token.span,
            final(self).diagnostics@ == old(self).diagnostics@ + step_diags(
                old(self).source@,
                old(self).source.spec_pos(),
            ),
            final(self).wf(),
    {
        let text = self.identifier_handler();
        self.token.kind = classify_keyword(&text);
        proof {
            assert(self.diagnostics@ =~= old(self).diagnostics@ + Seq::<Diagnostic>::empty());
        }
    }

    /// Handles a backtick: scans the quoted identifier and classifies it
    /// as a plain identifier unconditionally. Quoting is the language's
    /// escape mechanism for using a keyword spelling as an identifier,
    /// so the text is never reclassified even when it spells a keyword.
    pub(crate) fn quoted_identifier_byte_handler(&mut self)
        requires
            old(self).wf(),
            old(self).source.spec_pos() < old(self).source@.len(),
            handler_for_byte(old(self).source@[old(self).source.spec_pos()]) == Some(
                HandlerKind::QuotedIdentifier,
            ),
        ensures
            final(self).source@ == old(self).source@,
            final(self).source.spec_pos() == step_end(
                old(self).source@,
                old(self).source.spec_pos(),
            ),
            final(self).token.kind == step_kind(old(self).source@, old(self).source.spec_pos()),
            final(self).token.span == old(self).token.span,
            final(self).diagnostics@ == old(self).diagnostics@ + step_diags(
                old(self).source@,
                old(self).source.spec_pos(),
            ),
            final(self).wf(),
    {
        let _ = self.quoted_identifier_handler();
        self.token.kind = TokenKind::Identifier;
    }

    /// Handles `+`: one byte of lookahead disambiguates the two-byte
    /// operator `+=` from the one-byte `+`. At the end of the buffer
    /// there is no lookahead byte, which counts as "no match": the
    /// one-byte operator is produced.
    pub(crate) fn plus_handler(&mut self)
        requires
            old(self).wf(),
            old(self).source.spec_pos() < old(self).source@.len(),
            handler_for_byte(old(self).source@[old(self).source.spec_pos()]) == Some(
                HandlerKind::Operator,
            ),
        ensures
            final(self).source@ == old(self).source@,
            final(self).source.spec_pos() == step_end(
                old(self).source@,
                old(self).source.spec_pos(),
            ),
            final(self).token.kind == step_kind(old(self).source@, old(self).source.spec_pos()),
            final(self).token.span == old(self).token.span,
            final(self).diagnostics@ == old(self).diagnostics@ + step_diags(
                old(self).source@,
                old(self).source.spec_pos(),
            ),
            final(self).wf(),
    {
        if self.next_eq('=') {
            self.source.advance(1);
            self.token.kind = TokenKind::PlusEq;
        } else {
            self.bump();
            self.token.kind = TokenKind::Plus;
        }
        proof {
            assert(self.diagnostics@ =~= old(self).diagnostics@ + Seq::<Diagnostic>::empty());
        }
    }

    /// Handles a non-ASCII lead byte: a placeholder that advances one
    /// byte and performs no classification (no multi-byte decoding in
    /// this core), producing no token.
    pub(crate) fn non_ascii_handler(&mut self)
        requires
            old(self).wf(),
            old(self).source.spec_pos() < old(self).source@.len(),
            handler_for_byte(old(self).source@[old(self).source.spec_pos()]) == Some(
                HandlerKind::NonAscii,
            ),
        ensures
            final(self).source@ == old(self).source@,
            final(self).source.spec_pos() == step_end(
                old(self).source@,
                old(self).source.spec_pos(),
            ),
            final(self).token.kind == step_kind(old(self).source@, old(self).source.spec_pos()),
            final(self).token.span == old(self).token.span,
            final(self).diagnostics@ == old(self).diagnostics@ + step_diags(
                old(self).source@,
                old(self).source.spec_pos(),
            ),
            final(self).wf(),
    {
        self.source.advance(1);
        self.token.kind = TokenKind::Empty;
        proof {
            assert(self.diagnostics@ =~= old(self).diagnostics@ + Seq::<Diagnostic>::empty());
        }
    }
}

} // verus!
