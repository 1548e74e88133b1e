//! Credential decoding during AUTH exchanges.
//!
//! The engines log what AUTH hands them after base64 decoding; they never
//! validate it.  Decoding itself is done by the `base64` crate; only the
//! log line built from its result is verified.

use vstd::prelude::*;

use crate::wire::{append_lit, bytes_of, escape_seq, trim_bytes, trimmed};

verus! {

/// What `base64::decode` returns on the given input, `None` where it
/// errors.  Decoding is a function of the input bytes alone.
pub uninterp spec fn b64_decoded(s: Seq<u8>) -> Option<Seq<u8>>;

/// Relies on base64::decode with the standard alphabet: the result
/// depends only on the input bytes, and invalid input yields an error.
#[verifier::external_body]
fn b64_decode(input: &[u8]) -> (r: Option<Vec<u8>>)
    ensures
        match r {
            Some(v) => b64_decoded(input@) == Some(v@),
            None => b64_decoded(input@) is None,
        },
{
    base64::decode(input).ok()
}

/// The log line the engines record for one base64 credential line:
/// the trimmed input is decoded; on success the escaped plaintext is
/// quoted after `prefix=`, otherwise the line is reported as invalid.
pub open spec fn b64_log_line(prefix: Seq<u8>, line: Seq<u8>) -> Seq<u8> {
    match b64_decoded(trimmed(line)) {
        Some(v) => prefix + bytes_of("=\"") + escape_seq(v) + bytes_of(
            "\" base64-decoded and escaped",
        ),
        None => prefix + bytes_of(" is not valid base64: ") + trimmed(line),
    }
}

/// Decode one credential line and render its log entry.
pub fn b64_log(prefix: &str, line: &[u8]) -> (r: Vec<u8>)
    ensures
        r@ == b64_log_line(bytes_of(prefix), line@),
{
    let t = trim_bytes(line);
    let mut r = crate::wire::lit(prefix);
    match b64_decode(t.as_slice()) {
        Some(v) => {
            append_lit(&mut r, "=\"");
            let esc = crate::wire::escape_bytes(v.as_slice());
            crate::wire::append_bytes(&mut r, esc.as_slice());
            append_lit(&mut r, "\" base64-decoded and escaped");
        }
        None => {
            append_lit(&mut r, " is not valid base64: ");
            crate::wire::append_bytes(&mut r, t.as_slice());
        }
    }
    r
}

} // verus!
