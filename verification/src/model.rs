//! The mathematical model of tokenization.
//!
//! Everything the lexer does is specified here as pure functions over the
//! buffer's byte sequence and a cursor position: which handler a byte
//! dispatches to, where each token ends, what kind it gets, and which
//! diagnostics a step records. `token_stream` folds the single-step model
//! into the token sequence of a whole session, and the lemmas at the end
//! state the session-wide laws: the spans tile the buffer, span starts
//! are monotone, only skippable bytes vanish from the visible output, and
//! the whole stream is a function of the buffer contents alone.

use vstd::prelude::*;

verus! {

use crate::token::{Diagnostic, Token, TokenKind};

// --- Byte classes ------------------------------------------------------

/// ASCII `0`..=`9`.
pub open spec fn is_digit_byte(b: u8) -> bool {
    48 <= b <= 57
}

/// ASCII `A`..=`Z` or `a`..=`z`.
pub open spec fn is_letter_byte(b: u8) -> bool {
    65 <= b <= 90 || 97 <= b <= 122
}

/// ASCII alphanumeric: a letter or a digit.
pub open spec fn is_alphanumeric_byte(b: u8) -> bool {
    is_letter_byte(b) || is_digit_byte(b)
}

/// A byte that continues an identifier run: alphanumeric or `_`.
pub open spec fn is_ident_continue_byte(b: u8) -> bool {
    is_alphanumeric_byte(b) || b == 95
}

/// A byte that begins a generic identifier: alphanumeric, `_` or `$`.
pub open spec fn is_ident_start_byte(b: u8) -> bool {
    is_ident_continue_byte(b) || b == 36
}

// --- The dispatch table ------------------------------------------------

/// The behaviors a dispatch-table entry can name. Every byte value maps
/// to at most one of these; a byte with no entry is unrecognized and is
/// reported and skipped by the driver.
#[derive(Debug, Clone, Copy, PartialEq, Eq, Structural)]
pub enum HandlerKind {
    /// Byte 0. The driver never dispatches once the cursor is at the
    /// end, so this entry only ever fires on a stray NUL inside the
    /// buffer, which is reported and skipped.
    EndOfInput,
    /// ASCII space: produces no token.
    Whitespace,
    /// An identifier-start byte: scans a maximal identifier run and
    /// classifies the text against the keyword table.
    Identifier,
    /// A backtick: scans a backtick-quoted identifier, which is always a
    /// plain identifier even when its text spells a keyword.
    QuotedIdentifier,
    /// `+`: disambiguates `Plus` from `PlusEq` with one byte of
    /// lookahead.
    Operator,
    /// A non-ASCII lead byte (>= 0x80): a placeholder that advances one
    /// byte and performs no classification.
    NonAscii,
}

/// The dispatch table as a mapping: the handler entry for each byte
/// value, or `None` for an unrecognized byte.
pub open spec fn handler_for_byte(b: u8) -> Option<HandlerKind> {
    if b == 0 {
        Some(HandlerKind::EndOfInput)
    } else if b == 32 {
        Some(HandlerKind::Whitespace)
    } else if b == 96 {
        Some(HandlerKind::QuotedIdentifier)
    } else if b == 43 {
        Some(HandlerKind::Operator)
    } else if is_ident_start_byte(b) {
        Some(HandlerKind::Identifier)
    } else if b >= 128 {
        Some(HandlerKind::NonAscii)
    } else {
        None
    }
}

// --- Identifier runs ---------------------------------------------------

/// The first position at or after `i` whose byte does not continue an
/// identifier run (or the end of the buffer).
pub open spec fn ident_run_end(s: Seq<u8>, i: int) -> int
    recommends
        0 <= i <= s.len(),
    decreases s.len() - i,
        when 0 <= i <= s.len()
{
    if i >= s.len() {
        s.len() as int
    } else if is_ident_continue_byte(s[i]) {
        ident_run_end(s, i + 1)
    } else {
        i
    }
}

/// The first position at or after `i` whose byte is not ASCII
/// alphanumeric (or the end of the buffer). Quoted identifiers enclose
/// an alphanumeric run: `_` does not continue it.
pub open spec fn alnum_run_end(s: Seq<u8>, i: int) -> int
    recommends
        0 <= i <= s.len(),
    decreases s.len() - i,
        when 0 <= i <= s.len()
{
    if i >= s.len() {
        s.len() as int
    } else if is_alphanumeric_byte(s[i]) {
        alnum_run_end(s, i + 1)
    } else {
        i
    }
}

pub proof fn lemma_ident_run_end_bounds(s: Seq<u8>, i: int)
    requires
        0 <= i <= s.len(),
    ensures
        i <= ident_run_end(s, i) <= s.len(),
    decreases s.len() - i,
{
    if i < s.len() && is_ident_continue_byte(s[i]) {
        lemma_ident_run_end_bounds(s, i + 1);
    }
}

pub proof fn lemma_alnum_run_end_bounds(s: Seq<u8>, i: int)
    requires
        0 <= i <= s.len(),
    ensures
        i <= alnum_run_end(s, i) <= s.len(),
    decreases s.len() - i,
{
    if i < s.len() && is_alphanumeric_byte(s[i]) {
        lemma_alnum_run_end_bounds(s, i + 1);
    }
}

// --- The keyword table -------------------------------------------------

/// The byte spelling of the keyword `await`.
pub open spec fn kw_await() -> Seq<u8> {
    seq![97u8, 119u8, 97u8, 105u8, 116u8]
}

/// The byte spelling of the keyword `As`.
pub open spec fn kw_as() -> Seq<u8> {
    seq![65u8, 115u8]
}

/// The single source of truth for keyword classification: a scanned
/// identifier text gets a keyword's kind exactly when it matches that
/// keyword's spelling exactly and case-sensitively; any other text is a
/// plain identifier. Casing matters: `As` is a keyword, `as` is not.
pub open spec fn classify_ident_text(text: Seq<u8>) -> TokenKind {
    if text == kw_await() {
        TokenKind::Await
    } else if text == kw_as() {
        TokenKind::As
    } else {
        TokenKind::Identifier
    }
}

// --- One driver step ---------------------------------------------------

/// Where a quoted identifier that opens at `pos` ends: past the opening
/// backtick, past the maximal alphanumeric run, and past one closing
/// byte — unless the buffer ends first, in which case nothing past the
/// run is consumed (and the step records a diagnostic).
pub open spec fn quoted_ident_end(s: Seq<u8>, pos: int) -> int
    recommends
        0 <= pos < s.len(),
{
    let run = alnum_run_end(s, pos + 1);
    if run < s.len() {
        run + 1
    } else {
        run
    }
}

/// The cursor position after one driver call on buffer `s` at position
/// `pos`. At the end of the buffer the cursor does not move; everywhere
/// else it moves forward by at least one byte.
pub open spec fn step_end(s: Seq<u8>, pos: int) -> int
    recommends
        0 <= pos <= s.len(),
{
    if pos >= s.len() {
        pos
    } else {
        match handler_for_byte(s[pos]) {
            Some(HandlerKind::EndOfInput) => pos + 1,
            Some(HandlerKind::Whitespace) => pos + 1,
            Some(HandlerKind::Identifier) => ident_run_end(s, pos + 1),
            Some(HandlerKind::QuotedIdentifier) => quoted_ident_end(s, pos),
            Some(HandlerKind::Operator) => if pos + 1 < s.len() && s[pos + 1] == 61 {
                pos + 2
            } else {
                pos + 1
            },
            Some(HandlerKind::NonAscii) => pos + 1,
            None => pos + 1,
        }
    }
}

/// The kind of the token one driver call produces on buffer `s` at
/// position `pos`. `Empty` marks the steps that produce no
/// consumer-visible token.
pub open spec fn step_kind(s: Seq<u8>, pos: int) -> TokenKind
    recommends
        0 <= pos <= s.len(),
{
    if pos >= s.len() {
        TokenKind::Empty
    } else {
        match handler_for_byte(s[pos]) {
            Some(HandlerKind::EndOfInput) => TokenKind::Empty,
            Some(HandlerKind::Whitespace) => TokenKind::Empty,
            Some(HandlerKind::Identifier) => classify_ident_text(
                s.subrange(pos, ident_run_end(s, pos + 1)),
            ),
            Some(HandlerKind::QuotedIdentifier) => TokenKind::Identifier,
            Some(HandlerKind::Operator) => if pos + 1 < s.len() && s[pos + 1] == 61 {
                TokenKind::PlusEq
            } else {
                TokenKind::Plus
            },
            Some(HandlerKind::NonAscii) => TokenKind::Empty,
            None => TokenKind::Empty,
        }
    }
}

/// The diagnostics one driver call records: an unrecognized byte (no
/// dispatch entry, or a stray NUL) and an unterminated quoted
/// identifier are reported; both are non-fatal.
pub open spec fn step_diags(s: Seq<u8>, pos: int) -> Seq<Diagnostic>
    recommends
        0 <= pos <= s.len(),
{
    if pos >= s.len() {
        Seq::empty()
    } else {
        match handler_for_byte(s[pos]) {
            Some(HandlerKind::EndOfInput) => seq![
                Diagnostic::UnrecognizedByte { pos: pos as usize, byte: s[pos] },
            ],
            Some(HandlerKind::QuotedIdentifier) => if alnum_run_end(s, pos + 1) >= s.len() {
                seq![Diagnostic::UnterminatedQuotedIdentifier { start: pos as usize }]
            } else {
                Seq::empty()
            },
            None => seq![Diagnostic::UnrecognizedByte { pos: pos as usize, byte: s[pos] }],
            Some(_) => Seq::empty(),
        }
    }
}

/// Away from the end of the buffer, every step moves the cursor forward
/// by at least one byte; no step ever moves it backward or past the end.
/// This is what makes a scan loop over a buffer of length `L` terminate
/// in at most `L` driver calls.
pub proof fn lemma_step_progress(s: Seq<u8>, pos: int)
    requires
        0 <= pos <= s.len(),
    ensures
        pos <= step_end(s, pos) <= s.len(),
        pos < s.len() ==> pos < step_end(s, pos),
{
    if pos < s.len() {
        lemma_ident_run_end_bounds(s, pos + 1);
        lemma_alnum_run_end_bounds(s, pos + 1);
    }
}

// --- A whole session ---------------------------------------------------

/// The token sequence a session starting at `pos` produces: one entry
/// `(kind, start, end)` per driver call, until the buffer is exhausted.
pub open spec fn token_stream(s: Seq<u8>, pos: int) -> Seq<(TokenKind, int, int)>
    recommends
        0 <= pos <= s.len(),
    decreases s.len() - pos,
        when 0 <= pos <= s.len()
        via token_stream_decreases
{
    if pos >= s.len() {
        Seq::empty()
    } else {
        seq![(step_kind(s, pos), pos, step_end(s, pos))] + token_stream(s, step_end(s, pos))
    }
}

#[via_fn]
proof fn token_stream_decreases(s: Seq<u8>, pos: int) {
    lemma_step_progress(s, pos);
}

/// The entry a completed token contributes to the stream: its kind and
/// its span's bounds.
pub open spec fn token_entry(t: Token) -> (TokenKind, int, int) {
    (t.kind, t.span.start as int, t.span.end as int)
}

/// The stream entries of a sequence of completed tokens.
pub open spec fn tokens_entries(ts: Seq<Token>) -> Seq<(TokenKind, int, int)> {
    ts.map_values(|t: Token| token_entry(t))
}

/// The diagnostics a session starting at `pos` records, in order: the
/// concatenation of every step's diagnostics.
pub open spec fn stream_diags(s: Seq<u8>, pos: int) -> Seq<Diagnostic>
    recommends
        0 <= pos <= s.len(),
    decreases s.len() - pos,
        when 0 <= pos <= s.len()
        via stream_diags_decreases
{
    if pos >= s.len() {
        Seq::empty()
    } else {
        step_diags(s, pos) + stream_diags(s, step_end(s, pos))
    }
}

#[via_fn]
proof fn stream_diags_decreases(s: Seq<u8>, pos: int) {
    lemma_step_progress(s, pos);
}

/// The concatenation of the texts of a stream's spans, in order.
pub open spec fn stream_text(s: Seq<u8>, ts: Seq<(TokenKind, int, int)>) -> Seq<u8>
    decreases ts.len(),
{
    if ts.len() == 0 {
        Seq::empty()
    } else {
        s.subrange(ts[0].1, ts[0].2) + stream_text(s, ts.drop_first())
    }
}

/// A byte the lexer drops without producing a visible token: whitespace,
/// a stray NUL, a non-ASCII lead byte, or a byte with no dispatch entry.
pub open spec fn is_skipped_byte(b: u8) -> bool {
    b == 32 || b == 0 || b >= 128 || handler_for_byte(b) is None
}

/// Law: the token spans tile the buffer. Each token starts exactly where
/// the previous one ended, the first starts at the session's starting
/// position, every span moves forward, and the last span reaches the end
/// of the buffer: no byte is left uncovered and none is covered twice.
pub proof fn lemma_token_stream_tiles(s: Seq<u8>, pos: int)
    requires
        0 <= pos <= s.len(),
    ensures
        ({
            let ts = token_stream(s, pos);
            &&& forall|i: int|
                0 <= i < ts.len() ==> (#[trigger] ts[i]).1 == if i == 0 {
                    pos
                } else {
                    ts[i - 1].2
                }
            &&& forall|i: int| 0 <= i < ts.len() ==> (#[trigger] ts[i]).1 < ts[i].2 <= s.len()
            &&& ts.len() == 0 <==> pos == s.len()
            &&& ts.len() > 0 ==> ts[ts.len() - 1].2 == s.len()
        }),
    decreases s.len() - pos,
{
    if pos < s.len() {
        let e = step_end(s, pos);
        lemma_step_progress(s, pos);
        lemma_token_stream_tiles(s, e);
        let ts = token_stream(s, pos);
        let tail = token_stream(s, e);
        assert(ts[0] == (step_kind(s, pos), pos, e));
        assert(forall|i: int| 1 <= i < ts.len() ==> ts[i] == tail[i - 1]);
    }
}

/// Law (monotonicity): within one session, successive token spans' start
/// positions are non-decreasing, and each span's end is at least its
/// start.
pub proof fn lemma_token_stream_monotonic(s: Seq<u8>, pos: int)
    requires
        0 <= pos <= s.len(),
    ensures
        ({
            let ts = token_stream(s, pos);
            &&& forall|i: int| 0 <= i < ts.len() ==> pos <= (#[trigger] ts[i]).1
            &&& forall|i: int, j: int|
                0 <= i <= j < ts.len() ==> (#[trigger] ts[i]).1 <= (#[trigger] ts[j]).1
            &&& forall|i: int| 0 <= i < ts.len() ==> (#[trigger] ts[i]).1 <= ts[i].2
        }),
    decreases s.len() - pos,
{
    if pos < s.len() {
        let e = step_end(s, pos);
        lemma_step_progress(s, pos);
        lemma_token_stream_monotonic(s, e);
        let ts = token_stream(s, pos);
        let tail = token_stream(s, e);
        assert(forall|i: int| 1 <= i < ts.len() ==> ts[i] == tail[i - 1]);
    }
}

/// Law (coverage): the concatenation of all token spans' texts, in
/// order, reproduces the input from the session's starting position on.
/// Together with `lemma_empty_tokens_are_skips` this pins down the
/// visible output: dropping the `Empty` tokens removes exactly the
/// skipped bytes and nothing else.
pub proof fn lemma_token_stream_covers(s: Seq<u8>, pos: int)
    requires
        0 <= pos <= s.len(),
    ensures
        stream_text(s, token_stream(s, pos)) == s.subrange(pos, s.len() as int),
    decreases s.len() - pos,
{
    let ts = token_stream(s, pos);
    if pos >= s.len() {
        assert(s.subrange(pos, s.len() as int) =~= Seq::<u8>::empty());
    } else {
        let e = step_end(s, pos);
        lemma_step_progress(s, pos);
        lemma_token_stream_covers(s, e);
        assert(ts.drop_first() =~= token_stream(s, e));
        assert(s.subrange(pos, e) + s.subrange(e, s.len() as int) =~= s.subrange(
            pos,
            s.len() as int,
        ));
    }
}

/// Law (skips): a token is `Empty` exactly when its span is a single
/// skipped byte. So filtering `Empty` tokens out of the stream drops
/// whitespace, stray NULs, non-ASCII placeholder bytes and unrecognized
/// bytes — and nothing else.
pub proof fn lemma_empty_tokens_are_skips(s: Seq<u8>, pos: int)
    requires
        0 <= pos <= s.len(),
    ensures
        ({
            let ts = token_stream(s, pos);
            &&& forall|i: int|
                0 <= i < ts.len() && (#[trigger] ts[i]).0 == TokenKind::Empty ==> ts[i].2 == ts[i].1
                    + 1 && is_skipped_byte(s[ts[i].1])
            &&& forall|i: int|
                0 <= i < ts.len() && (#[trigger] ts[i]).0 != TokenKind::Empty
                    ==> !is_skipped_byte(s[ts[i].1])
        }),
    decreases s.len() - pos,
{
    if pos < s.len() {
        let e = step_end(s, pos);
        lemma_step_progress(s, pos);
        lemma_empty_tokens_are_skips(s, e);
        let ts = token_stream(s, pos);
        let tail = token_stream(s, e);
        assert(forall|i: int| 1 <= i < ts.len() ==> ts[i] == tail[i - 1]);
        assert(step_kind(s, pos) == TokenKind::Empty ==> is_skipped_byte(s[pos]));
        assert(step_kind(s, pos) != TokenKind::Empty ==> !is_skipped_byte(s[pos]));
    }
}

/// Law (determinism): the token stream is a function of the buffer
/// contents alone. Two independent sessions over equal buffers produce
/// identical token sequences: no hidden state affects the result.
pub proof fn lemma_token_stream_deterministic(s1: Seq<u8>, s2: Seq<u8>)
    requires
        s1 == s2,
    ensures
        token_stream(s1, 0) == token_stream(s2, 0),
{
}

/// A token is exactly its kind and span, so two token sequences with
/// the same stream entries are the same sequence. Together with the
/// determinism law this pins the collected output of two sessions over
/// equal buffers down to equality.
pub proof fn lemma_entries_determine_tokens(a: Seq<Token>, b: Seq<Token>)
    requires
        tokens_entries(a) == tokens_entries(b),
    ensures
        a == b,
{
    assert(tokens_entries(a).len() == a.len());
    assert(tokens_entries(b).len() == b.len());
    assert forall|i: int| 0 <= i < a.len() implies a[i] == b[i] by {
        assert(tokens_entries(a)[i] == token_entry(a[i]));
        assert(tokens_entries(b)[i] == token_entry(b[i]));
        assert(a[i].span.start == b[i].span.start);
        assert(a[i].span.end == b[i].span.end);
    }
    assert(a =~= b);
}

} // verus!
