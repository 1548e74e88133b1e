//! The session-log model: collected event fields and the line prefix
//! of the console trace.
//!
//! The structured-logging plumbing itself stays outside the library;
//! what is verified here is the field store that a log event is
//! collected into and the direction marker of a traffic line.

use vstd::prelude::*;

use crate::wire::{bytes_of, lit};

verus! {

/// The fields of one log event, in the order they were recorded; a
/// later record of the same key shadows an earlier one.
pub struct CollectVisitor {
    pub entries: Vec<(Vec<u8>, Vec<u8>)>,
}

/// The value of the last entry with this key, if any.
pub open spec fn last_value(entries: Seq<(Vec<u8>, Vec<u8>)>, key: Seq<u8>) -> Option<Seq<u8>>
    decreases entries.len(),
{
    if entries.len() == 0 {
        None
    } else if entries.last().0@ == key {
        Some(entries.last().1@)
    } else {
        last_value(entries.drop_last(), key)
    }
}

impl CollectVisitor {
    /// An empty field store.
    pub fn new() -> (r: CollectVisitor)
        ensures
            r.entries@.len() == 0,
    {
        CollectVisitor { entries: Vec::new() }
    }

    /// Record one field.
    pub fn record(&mut self, key: Vec<u8>, value: Vec<u8>)
        ensures
            final(self).entries@ == old(self).entries@.push((key, value)),
    {
        self.entries.push((key, value));
    }

    /// Look a field up; the most recent record wins.
    pub fn get(&self, key: &[u8]) -> (r: Option<Vec<u8>>)
        ensures
            match r {
                Some(v) => last_value(self.entries@, key@) == Some(v@),
                None => last_value(self.entries@, key@) is None,
            },
    {
        let n: usize = self.entries.len();
        let mut i: usize = n;
        proof {
            assert(self.entries@.take(n as int) =~= self.entries@);
        }
        while i > 0
            invariant
                i <= n,
                n == self.entries@.len(),
                last_value(self.entries@, key@) == last_value(
                    self.entries@.take(i as int),
                    key@,
                ),
            decreases i,
        {
            i = i - 1;
            proof {
                assert(self.entries@.take(i + 1).last() == self.entries@[i as int]);
                assert(self.entries@.take(i + 1).drop_last() =~= self.entries@.take(i as int));
            }
            if crate::wire::bytes_eq(self.entries[i].0.as_slice(), key) {
                let mut v: Vec<u8> = Vec::new();
                crate::wire::append_bytes(&mut v, self.entries[i].1.as_slice());
                return Some(v);
            }
        }
        proof {
            assert(self.entries@.take(0).len() == 0);
        }
        None
    }
}

/// The direction marker of one traffic line in the console trace:
/// `S:` for bytes the server sent, `C:` for bytes the client sent.
pub open spec fn direction_marker(outbound: bool) -> Seq<u8> {
    if outbound {
        bytes_of("S:")
    } else {
        bytes_of("C:")
    }
}

/// Render the direction marker.
pub fn render_direction_marker(outbound: bool) -> (r: Vec<u8>)
    ensures
        r@ == direction_marker(outbound),
{
    if outbound {
        lit("S:")
    } else {
        lit("C:")
    }
}

} // verus!
