//! The read-buffer half of the framer.
//!
//! The driver reads raw bytes from the transport and feeds them in; a
//! streaming parser inspects the buffered bytes and reports how many a
//! recognised message consumed.  [`Buffer::accept`] then splits exactly
//! that prefix off, and [`Buffer::drain`] clears the buffer on a hard
//! parse failure, returning the remainder for diagnostics.

use vstd::prelude::*;

use crate::wire::{append_bytes, bytes_end_with, bytes_of, ends_with, lit};

verus! {

/// Incremental read buffer between the transport and the parsers.
pub struct Buffer {
    pub data: Vec<u8>,
}

impl Buffer {
    /// An empty buffer.
    pub fn new() -> (r: Buffer)
        ensures
            r.data@ == Seq::<u8>::empty(),
    {
        Buffer { data: Vec::new() }
    }

    /// Number of buffered bytes.
    pub fn len(&self) -> (r: usize)
        ensures
            r == self.data@.len(),
    {
        self.data.len()
    }

    /// Whether the buffer holds no bytes.
    pub fn is_empty(&self) -> (r: bool)
        ensures
            r == (self.data@.len() == 0),
    {
        self.data.len() == 0
    }

    /// Append freshly read bytes at the back.
    pub fn feed(&mut self, bytes: &[u8])
        ensures
            final(self).data@ == old(self).data@ + bytes@,
    {
        append_bytes(&mut self.data, bytes);
    }

    /// Split off the wire form of an accepted message: exactly the first
    /// `consumed` bytes leave the buffer and are returned; the rest stays.
    pub fn accept(&mut self, consumed: usize) -> (wire: Vec<u8>)
        requires
            consumed <= old(self).data@.len(),
        ensures
            wire@ == old(self).data@.subrange(0, consumed as int),
            wire@.len() == consumed,
            final(self).data@ == old(self).data@.skip(consumed as int),
    {
        let head_slice = vstd::slice::slice_subrange(self.data.as_slice(), 0, consumed);
        let mut wire: Vec<u8> = Vec::new();
        append_bytes(&mut wire, head_slice);
        let rest_slice = vstd::slice::slice_subrange(self.data.as_slice(), consumed, self.data.len());
        let mut rest: Vec<u8> = Vec::new();
        append_bytes(&mut rest, rest_slice);
        self.data = rest;
        wire
    }

    /// Empty the buffer after a hard parse failure, returning the
    /// remainder that could not be framed.
    pub fn drain(&mut self) -> (remainder: Vec<u8>)
        ensures
            remainder@ == old(self).data@,
            final(self).data@ == Seq::<u8>::empty(),
    {
        let whole_slice = vstd::slice::slice_subrange(self.data.as_slice(), 0, self.data.len());
        let mut remainder: Vec<u8> = Vec::new();
        append_bytes(&mut remainder, whole_slice);
        proof {
            assert(old(self).data@.subrange(0, old(self).data@.len() as int) =~= old(self).data@);
        }
        self.data.clear();
        remainder
    }

    /// Whether the buffered bytes end with an IMAP literal length
    /// announcement, i.e. `}` followed by a line ending.  When a parse
    /// reports *incomplete* and this holds, the IMAP engine sends a bare
    /// continuation so the client transmits the literal bytes.
    pub fn ends_with_literal_marker(&self) -> (r: bool)
        ensures
            r == (ends_with(self.data@, bytes_of("}\r\n")) || ends_with(
                self.data@,
                bytes_of("}\n"),
            )),
    {
        let crlf_marker = lit("}\r\n");
        let lf_marker = lit("}\n");
        bytes_end_with(self.data.as_slice(), crlf_marker.as_slice()) || bytes_end_with(
            self.data.as_slice(),
            lf_marker.as_slice(),
        )
    }
}

} // verus!
