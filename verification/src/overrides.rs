//! The override/filter layer applied before protocol dispatch.
//!
//! For each inbound command the engines consult, in order: the ignore
//! list (chosen by the TLS flag), the hide list, and the raw override
//! table.  Only when all three miss does the state machine see the
//! command.  All name comparisons are case-insensitive.

use vstd::prelude::*;

use crate::wire::{bytes_eq_ci, eq_ci};

verus! {

/// One raw-override table entry: command name to literal response bytes.
#[derive(Debug, Clone)]
pub struct OverrideEntry {
    pub key: Vec<u8>,
    pub value: Vec<u8>,
}

/// `name` occurs in `list`, compared case-insensitively.
pub open spec fn name_in(list: Seq<Vec<u8>>, name: Seq<u8>) -> bool {
    exists|i: int| 0 <= i < list.len() && eq_ci(list[i]@, name)
}

/// Membership test against a command-name list.
pub fn name_matches(list: &Vec<Vec<u8>>, name: &[u8]) -> (r: bool)
    ensures
        r == name_in(list@, name@),
{
    let mut i: usize = 0;
    while i < list.len()
        invariant
            i <= list@.len(),
            forall|j: int| 0 <= j < i ==> !eq_ci(list@[j]@, name@),
        decreases list@.len() - i,
    {
        if bytes_eq_ci(list[i].as_slice(), name) {
            assert(0 <= i < list@.len() && eq_ci(list@[i as int]@, name@));
            return true;
        }
        i = i + 1;
    }
    false
}

/// The first table entry whose key equals `name` case-insensitively,
/// or `None` when the table has no such key.
pub open spec fn override_lookup(table: Seq<OverrideEntry>, name: Seq<u8>) -> Option<Seq<u8>>
    decreases table.len(),
{
    if table.len() == 0 {
        None
    } else if eq_ci(table[0].key@, name) {
        Some(table[0].value@)
    } else {
        override_lookup(table.drop_first(), name)
    }
}

/// Look a command name up in the override table.
pub fn find_override(table: &Vec<OverrideEntry>, name: &[u8]) -> (r: Option<Vec<u8>>)
    ensures
        match r {
            Some(v) => override_lookup(table@, name@) == Some(v@),
            None => override_lookup(table@, name@) is None,
        },
{
    let mut i: usize = 0;
    proof {
        assert(table@.skip(0) =~= table@);
    }
    while i < table.len()
        invariant
            i <= table@.len(),
            override_lookup(table@, name@) == override_lookup(table@.skip(i as int), name@),
        decreases table@.len() - i,
    {
        if bytes_eq_ci(table[i].key.as_slice(), name) {
            proof {
                assert(table@.skip(i as int)[0] == table@[i as int]);
            }
            let mut v: Vec<u8> = Vec::new();
            crate::wire::append_bytes(&mut v, table[i].value.as_slice());
            return Some(v);
        }
        proof {
            assert(table@.skip(i as int)[0] == table@[i as int]);
            assert(table@.skip(i as int).drop_first() =~= table@.skip(i + 1));
        }
        i = i + 1;
    }
    proof {
        assert(table@.skip(table@.len() as int).len() == 0);
    }
    None
}

/// The decision of the override layer for one command.
#[derive(Debug, Clone, PartialEq, Eq)]
pub enum Gate {
    /// Silently discard the command; nothing is written.
    Ignore,
    /// Answer with the protocol's *command not recognised* response.
    Hide,
    /// Write exactly these configured bytes and skip the engine.
    Replace(Vec<u8>),
    /// Fall through to protocol dispatch.
    Engine,
}

/// Classify one command name against the three override mechanisms.
///
/// `ignore` must already be the list selected by the current TLS flag.
pub fn gate(
    ignore: &Vec<Vec<u8>>,
    hide: &Vec<Vec<u8>>,
    table: &Vec<OverrideEntry>,
    name: &[u8],
) -> (g: Gate)
    ensures
        g is Ignore <==> name_in(ignore@, name@),
        !name_in(ignore@, name@) ==> ((g is Hide) <==> name_in(hide@, name@)),
        (!name_in(ignore@, name@) && !name_in(hide@, name@)) ==> match override_lookup(
            table@,
            name@,
        ) {
            Some(v) => g matches Gate::Replace(b) && b@ == v,
            None => g is Engine,
        },
{
    if name_matches(ignore, name) {
        return Gate::Ignore;
    }
    if name_matches(hide, name) {
        return Gate::Hide;
    }
    match find_override(table, name) {
        Some(v) => Gate::Replace(v),
        None => Gate::Engine,
    }
}

} // verus!
