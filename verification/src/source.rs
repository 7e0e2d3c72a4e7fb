//! `Source` owns the byte buffer being tokenized together with the cursor
//! position, and exposes byte-granularity operations only: reading the
//! current byte, one byte of lookahead, committing forward moves, and
//! slicing spans back out of the buffer.
//!
//! The buffer is fixed at construction and never mutated, so byte-offset
//! spans handed out by the lexer stay valid for the whole session. The
//! position only ever moves forward, and every operation is
//! bounds-checked: no read at or past the end of the buffer is possible.

use vstd::prelude::*;
use vstd::string::*;

verus! {

/// The source buffer and the cursor position of one lexing session.
pub struct Source {
    /// The bytes of the source text, fixed at construction.
    bytes: Vec<u8>,
    /// The cursor: a byte offset with `0 <= pos <= bytes.len()`.
    pos: usize,
}

impl View for Source {
    type V = Seq<u8>;

    /// The mathematical content of a `Source` is its byte sequence.
    closed spec fn view(&self) -> Seq<u8> {
        self.bytes@
    }
}

impl Source {
    /// The cursor position as a mathematical integer.
    pub closed spec fn spec_pos(&self) -> int {
        self.pos as int
    }

    /// The cursor never lies outside the buffer: `0 <= pos <= len`.
    pub open spec fn wf(&self) -> bool {
        0 <= self.spec_pos() <= self@.len()
    }

    /// Creates a `Source` over the UTF-8 bytes of `source`, with the
    /// cursor at the start.
    pub fn new(source: &str) -> (s: Self)
        ensures
            s@ == source.spec_bytes(),
            s.spec_pos() == 0,
            s.wf(),
    {
        Source { bytes: source.as_bytes_vec(), pos: 0 }
    }

    /// Hands back a copy of the entire source text's bytes.
    pub fn get_whole_source(&self) -> (r: Vec<u8>)
        ensures
            r@ == self@,
    {
        let r = self.get_slice_internal(0, self.bytes.len());
        proof {
            assert(self@.subrange(0, self@.len() as int) =~= self@);
        }
        r
    }

    /// The cursor position, as a byte offset from the start of the buffer.
    pub fn get_current_pos(&self) -> (p: usize)
        ensures
            p == self.spec_pos(),
    {
        self.pos
    }

    /// Moves the cursor forward by `offset` bytes. The caller guarantees
    /// that this does not overshoot the end of the buffer.
    pub fn advance(&mut self, offset: usize)
        requires
            old(self).spec_pos() + offset <= old(self)@.len(),
        ensures
            final(self)@ == old(self)@,
            final(self).spec_pos() == old(self).spec_pos() + offset,
            final(self).wf(),
    {
        let len: usize = self.bytes.len();
        assert(self.pos + offset <= len);
        self.pos = self.pos + offset;
    }

    /// Moves the cursor forward by exactly one byte. The caller
    /// guarantees that the cursor is not already at the end.
    pub fn advance_ptr(&mut self)
        requires
            old(self).spec_pos() < old(self)@.len(),
        ensures
            final(self)@ == old(self)@,
            final(self).spec_pos() == old(self).spec_pos() + 1,
            final(self).wf(),
    {
        let len: usize = self.bytes.len();
        assert(self.pos < len);
        self.pos = self.pos + 1;
    }

    /// The byte at the cursor. The caller guarantees that the cursor is
    /// not at the end; an out-of-bounds read is impossible.
    pub fn current(&self) -> (b: u8)
        requires
            self.spec_pos() < self@.len(),
        ensures
            b == self@[self.spec_pos()],
    {
        self.bytes[self.pos]
    }

    /// The cursor position, as a byte offset from the start of the buffer.
    pub fn current_pos(&self) -> (p: usize)
        ensures
            p == self.spec_pos(),
    {
        self.pos
    }

    /// Whether the cursor has reached the end of the buffer.
    pub fn is_at_end(&self) -> (r: bool)
        ensures
            r == (self.spec_pos() >= self@.len()),
    {
        self.pos >= self.bytes.len()
    }

    /// The byte one past the cursor, or `None` when no such byte exists.
    /// Never reads out of bounds.
    pub fn peek(&self) -> (r: Option<u8>)
        requires
            self.wf(),
        ensures
            r == if self.spec_pos() + 1 < self@.len() {
                Some(self@[self.spec_pos() + 1])
            } else {
                None::<u8>
            },
    {
        if self.pos < self.bytes.len() && self.pos + 1 < self.bytes.len() {
            Some(self.bytes[self.pos + 1])
        } else {
            None
        }
    }

    /// A copy of the buffer bytes in `[start, end)`. The caller
    /// guarantees `start <= end <= len`.
    pub fn get_slice(&self, start: usize, end: usize) -> (r: Vec<u8>)
        requires
            start <= end <= self@.len(),
        ensures
            r@ == self@.subrange(start as int, end as int),
    {
        self.get_slice_internal(start, end)
    }

    /// The copy loop behind `get_slice` and `get_whole_source`.
    fn get_slice_internal(&self, start: usize, end: usize) -> (r: Vec<u8>)
        requires
            start <= end <= self@.len(),
        ensures
            r@ == self@.subrange(start as int, end as int),
    {
        let mut r: Vec<u8> = Vec::new();
        let mut i: usize = start;
        while i < end
            invariant
                start <= i <= end <= self@.len(),
                r@ == self@.subrange(start as int, i as int),
            decreases end - i,
        {
            r.push(self.bytes[i]);
            i = i + 1;
            proof {
                assert(r@ =~= self@.subrange(start as int, i as int));
            }
        }
        r
    }

    /// The cursor position as a 32-bit offset. The caller guarantees the
    /// position fits in 32 bits.
    pub fn offset(&self) -> (r: u32)
        requires
            self.spec_pos() <= u32::MAX,
        ensures
            r == self.spec_pos(),
    {
        self.pos as u32
    }

    /// Reads the byte at the cursor as a character and moves the cursor
    /// past it, or returns `None` at the end of the buffer.
    pub fn next_char(&mut self) -> (r: Option<char>)
        requires
            old(self).wf(),
        ensures
            final(self)@ == old(self)@,
            final(self).wf(),
            old(self).spec_pos() < old(self)@.len() ==> {
                &&& r == Some(old(self)@[old(self).spec_pos()] as char)
                &&& final(self).spec_pos() == old(self).spec_pos() + 1
            },
            old(self).spec_pos() >= old(self)@.len() ==> {
                &&& r is None
                &&& final(self).spec_pos() == old(self).spec_pos()
            },
    {
        if self.pos < self.bytes.len() {
            let value = self.bytes[self.pos];
            self.pos = self.pos + 1;
            Some(value as char)
        } else {
            None
        }
    }

    /// The byte at the cursor as a character, without moving the cursor,
    /// or `None` at the end of the buffer.
    pub fn peek_char(&self) -> (r: Option<char>)
        requires
            self.wf(),
        ensures
            r == if self.spec_pos() < self@.len() {
                Some(self@[self.spec_pos()] as char)
            } else {
                None::<char>
            },
    {
        if self.pos < self.bytes.len() {
            Some(self.bytes[self.pos] as char)
        } else {
            None
        }
    }
}

} // verus!
