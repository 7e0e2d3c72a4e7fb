//! The identifier scanners: the maximal-run scan behind the generic
//! identifier handler and the backtick-quoted identifier scan.

use vstd::prelude::*;

verus! {

use crate::handler::{is_alphanumeric, is_ident_continue};
use crate::model::{alnum_run_end, ident_run_end, lemma_alnum_run_end_bounds,
    lemma_ident_run_end_bounds};
use crate::token::Diagnostic;
use crate::Lexer;

impl<'a> Lexer<'a> {
    /// Scans the identifier that starts at the cursor: the byte under
    /// the cursor (dispatch guarantees it begins an identifier) followed
    /// by the maximal run of alphanumeric or `_` bytes. Returns the
    /// scanned text; the cursor ends on the first byte past the run.
    pub(crate) fn identifier_handler(&mut self) -> (r: Vec<u8>)
        requires
            old(self).wf(),
            old(self).source.spec_pos() < old(self).source@.len(),
        ensures
            final(self).source@ == old(self).source@,
            final(self).source.spec_pos() == ident_run_end(
                old(self).source@,
                old(self).source.spec_pos() + 1,
            ),
            r@ == old(self).source@.subrange(
                old(self).source.spec_pos(),
                final(self).source.spec_pos(),
            ),
            final(self).token == old(self).token,
            final(self).diagnostics@ == old(self).diagnostics@,
            final(self).wf(),
    {
        let ghost s = self.source@;
        let start = self.source.current_pos();
        self.bump();
        proof {
            lemma_ident_run_end_bounds(s, start + 1);
        }
        while !self.source.is_at_end() && is_ident_continue(self.source.current())
            invariant
                self.source@ == s,
                start + 1 <= self.source.spec_pos() <= s.len(),
                ident_run_end(s, start + 1) == ident_run_end(s, self.source.spec_pos()),
                self.token == old(self).token,
                self.diagnostics@ == old(self).diagnostics@,
            decreases s.len() - self.source.spec_pos(),
        {
            self.source.advance_ptr();
        }
        let end = self.source.current_pos();
        self.source.get_slice(start, end)
    }

    /// Scans a backtick-quoted identifier: the opening backtick, a
    /// maximal run of alphanumeric bytes, and one closing byte
    /// (intended to be the matching backtick). A quoted identifier that
    /// reaches the end of the buffer before its closing byte is
    /// malformed: nothing past the run is consumed and the condition is
    /// reported to the diagnostics sink. Returns the scanned text,
    /// delimiters included.
    pub(crate) fn quoted_identifier_handler(&mut self) -> (r: Vec<u8>)
        requires
            old(self).wf(),
            old(self).source.spec_pos() < old(self).source@.len(),
        ensures
            final(self).source@ == old(self).source@,
            final(self).source.spec_pos() == crate::model::quoted_ident_end(
                old(self).source@,
                old(self).source.spec_pos(),
            ),
            r@ == old(self).source@.subrange(
                old(self).source.spec_pos(),
                final(self).source.spec_pos(),
            ),
            final(self).token == old(self).token,
            final(self).diagnostics@ == old(self).diagnostics@ + if alnum_run_end(
                old(self).source@,
                old(self).source.spec_pos() + 1,
            ) >= old(self).source@.len() {
                seq![(Diagnostic::UnterminatedQuotedIdentifier { start: old(self).source.spec_pos() as usize })]
            } else {
                Seq::<Diagnostic>::empty()
            },
            final(self).wf(),
    {
        let ghost s = self.source@;
        let start = self.source.current_pos();
        // Move past the opening backtick.
        self.bump();
        proof {
            lemma_alnum_run_end_bounds(s, start + 1);
        }
        while !self.source.is_at_end() && is_alphanumeric(self.source.current())
            invariant
                self.source@ == s,
                start + 1 <= self.source.spec_pos() <= s.len(),
                alnum_run_end(s, start + 1) == alnum_run_end(s, self.source.spec_pos()),
                self.token == old(self).token,
                self.diagnostics@ == old(self).diagnostics@,
            decreases s.len() - self.source.spec_pos(),
        {
            self.source.advance_ptr();
        }
        if self.source.is_at_end() {
            // The closing backtick is missing: report, consume nothing
            // further.
            self.diagnostics.push(Diagnostic::UnterminatedQuotedIdentifier { start });
            proof {
                assert(self.diagnostics@ =~= old(self).diagnostics@ + seq![
                    (Diagnostic::UnterminatedQuotedIdentifier { start: start }),
                ]);
            }
        } else {
            // Move past the ending backtick.
            self.bump();
            proof {
                assert(self.diagnostics@ =~= old(self).diagnostics@ + Seq::<
                    Diagnostic,
                >::empty());
            }
        }
        let end = self.source.current_pos();
        self.source.get_slice(start, end)
    }
}

} // verus!
