//! Byte-string utilities shared by the framer and the three protocol engines.
//!
//! All wire data is modelled as byte vectors; the spec side speaks of
//! `Seq<u8>`.  ASCII literals enter through [`lit`], whose contract equates
//! the result with the literal's UTF-8 bytes.

use vstd::prelude::*;
use vstd::string::StrSliceExecFns;
use vstd::string::StringSliceAdditionalSpecFns;

verus! {

/// The UTF-8 bytes of a string slice, as a spec-level sequence.
pub open spec fn bytes_of(s: &str) -> Seq<u8> {
    s.spec_bytes()
}

/// Materialise a literal as a byte vector.
pub fn lit(s: &str) -> (r: Vec<u8>)
    ensures
        r@ == bytes_of(s),
{
    s.as_bytes_vec()
}

/// For an ASCII literal, the byte view is the character view, byte for
/// byte.
pub proof fn lemma_ascii_bytes(s: &str)
    requires
        vstd::string::is_ascii(s),
    ensures
        bytes_of(s).len() == s@.len(),
        forall|i: int| 0 <= i < s@.len() ==> bytes_of(s)[i] == s@[i] as u8,
{
    vstd::utf8::is_ascii_chars_encode_utf8(s@);
}

/// Append a byte slice to a vector.
pub fn append_bytes(dst: &mut Vec<u8>, src: &[u8])
    ensures
        final(dst)@ == old(dst)@ + src@,
{
    let mut i: usize = 0;
    while i < src.len()
        invariant
            i <= src@.len(),
            dst@ == old(dst)@ + src@.subrange(0, i as int),
        decreases src@.len() - i,
    {
        dst.push(src[i]);
        proof {
            assert(src@.subrange(0, i + 1) == src@.subrange(0, i as int).push(src@[i as int]));
        }
        i = i + 1;
    }
    proof {
        assert(src@.subrange(0, src@.len() as int) == src@);
    }
}

/// Append the bytes of an ASCII literal to a vector.
pub fn append_lit(dst: &mut Vec<u8>, s: &str)
    ensures
        final(dst)@ == old(dst)@ + bytes_of(s),
{
    let b = lit(s);
    append_bytes(dst, b.as_slice());
}

/// Decimal digits of `n`, most significant first.
pub open spec fn dec_digits(n: nat) -> Seq<u8>
    decreases n,
{
    if n < 10 {
        seq![(48 + n) as u8]
    } else {
        dec_digits(n / 10) + seq![(48 + n % 10) as u8]
    }
}

/// Render `n` in decimal.
pub fn fmt_u64(n: u64) -> (r: Vec<u8>)
    ensures
        r@ == dec_digits(n as nat),
    decreases n,
{
    let mut r: Vec<u8> = if n >= 10 {
        fmt_u64(n / 10)
    } else {
        Vec::new()
    };
    r.push(48 + (n % 10) as u8);
    proof {
        if n < 10 {
            vstd::arithmetic::div_mod::lemma_small_mod(n as nat, 10);
            assert(r@ == dec_digits(n as nat));
        } else {
            assert(n as nat / 10 == (n / 10) as nat);
        }
    }
    r
}

/// Render `n` in decimal.
pub fn fmt_u32(n: u32) -> (r: Vec<u8>)
    ensures
        r@ == dec_digits(n as nat),
{
    fmt_u64(n as u64)
}

/// ASCII lower-casing of one byte.
pub open spec fn lower_byte(b: u8) -> u8 {
    if 65 <= b && b <= 90 {
        (b + 32) as u8
    } else {
        b
    }
}

/// ASCII lower-casing of a byte sequence.
pub open spec fn lower_seq(s: Seq<u8>) -> Seq<u8> {
    s.map_values(|b: u8| lower_byte(b))
}

/// Case-insensitive (ASCII) equality of byte sequences.
pub open spec fn eq_ci(a: Seq<u8>, b: Seq<u8>) -> bool {
    lower_seq(a) == lower_seq(b)
}

fn lower_byte_exec(b: u8) -> (r: u8)
    ensures
        r == lower_byte(b),
{
    if 65 <= b && b <= 90 {
        b + 32
    } else {
        b
    }
}

/// Case-insensitive (ASCII) comparison of byte slices.
pub fn bytes_eq_ci(a: &[u8], b: &[u8]) -> (r: bool)
    ensures
        r == eq_ci(a@, b@),
{
    if a.len() != b.len() {
        proof {
            assert(lower_seq(a@).len() == a@.len());
            assert(lower_seq(b@).len() == b@.len());
        }
        return false;
    }
    let mut i: usize = 0;
    while i < a.len()
        invariant
            a@.len() == b@.len(),
            i <= a@.len(),
            forall|j: int| 0 <= j < i ==> lower_byte(a@[j]) == lower_byte(b@[j]),
        decreases a@.len() - i,
    {
        if lower_byte_exec(a[i]) != lower_byte_exec(b[i]) {
            proof {
                assert(lower_seq(a@)[i as int] != lower_seq(b@)[i as int]);
            }
            return false;
        }
        i = i + 1;
    }
    proof {
        assert(lower_seq(a@) =~= lower_seq(b@));
    }
    true
}

/// Plain equality of byte slices.
pub fn bytes_eq(a: &[u8], b: &[u8]) -> (r: bool)
    ensures
        r == (a@ == b@),
{
    if a.len() != b.len() {
        return false;
    }
    let mut i: usize = 0;
    while i < a.len()
        invariant
            a@.len() == b@.len(),
            i <= a@.len(),
            forall|j: int| 0 <= j < i ==> a@[j] == b@[j],
        decreases a@.len() - i,
    {
        if a[i] != b[i] {
            return false;
        }
        i = i + 1;
    }
    proof {
        assert(a@ =~= b@);
    }
    true
}

/// `needle` occurs in `hay` starting at position `i`.
pub open spec fn is_sub_at(hay: Seq<u8>, needle: Seq<u8>, i: int) -> bool {
    0 <= i && i + needle.len() <= hay.len() && hay.subrange(i, i + needle.len()) == needle
}

/// `needle` occurs somewhere in `hay`.
pub open spec fn contains_seq(hay: Seq<u8>, needle: Seq<u8>) -> bool {
    exists|i: int| is_sub_at(hay, needle, i)
}

/// Does `needle` occur in `hay` at position `i`?
pub fn match_at(hay: &[u8], needle: &[u8], i: usize) -> (r: bool)
    requires
        i + needle@.len() <= hay@.len(),
    ensures
        r == is_sub_at(hay@, needle@, i as int),
{
    let hlen: usize = hay.len();
    let mut j: usize = 0;
    while j < needle.len()
        invariant
            hay@.len() == hlen,
            i + needle@.len() <= hay@.len(),
            j <= needle@.len(),
            forall|k: int| 0 <= k < j ==> hay@[i + k] == needle@[k],
        decreases needle@.len() - j,
    {
        let idx: usize = i + j;
        if hay[idx] != needle[j] {
            proof {
                assert(hay@.subrange(i as int, i + needle@.len())[j as int] == hay@[i + j]);
            }
            return false;
        }
        j = j + 1;
    }
    proof {
        assert(hay@.subrange(i as int, i + needle@.len()) =~= needle@);
    }
    true
}

/// Substring search.
pub fn contains_sub(hay: &[u8], needle: &[u8]) -> (r: bool)
    ensures
        r == contains_seq(hay@, needle@),
{
    if needle.len() > hay.len() {
        proof {
            assert(forall|i: int| !is_sub_at(hay@, needle@, i));
        }
        return false;
    }
    if needle.len() == 0 {
        proof {
            assert(hay@.subrange(0, 0) =~= needle@);
            assert(is_sub_at(hay@, needle@, 0));
        }
        return true;
    }
    let mut i: usize = 0;
    while i <= hay.len() - needle.len()
        invariant
            1 <= needle@.len() <= hay@.len(),
            hay@.len() <= usize::MAX,
            i <= hay@.len() - needle@.len() + 1,
            forall|k: int| 0 <= k < i ==> !is_sub_at(hay@, needle@, k),
        decreases hay@.len() - needle@.len() + 1 - i,
    {
        if match_at(hay, needle, i) {
            return true;
        }
        i = i + 1;
    }
    proof {
        assert(forall|k: int| is_sub_at(hay@, needle@, k) ==> 0 <= k <= hay@.len() - needle@.len());
    }
    false
}

/// `s` ends with `suffix`.
pub open spec fn ends_with(s: Seq<u8>, suffix: Seq<u8>) -> bool {
    s.len() >= suffix.len() && s.subrange(s.len() - suffix.len(), s.len() as int) == suffix
}

/// Suffix test.
pub fn bytes_end_with(s: &[u8], suffix: &[u8]) -> (r: bool)
    ensures
        r == ends_with(s@, suffix@),
{
    if suffix.len() > s.len() {
        return false;
    }
    let start: usize = s.len() - suffix.len();
    let r = match_at(s, suffix, start);
    proof {
        assert(is_sub_at(s@, suffix@, start as int) == ends_with(s@, suffix@));
    }
    r
}

/// ASCII whitespace, as `str::split_whitespace` sees it for ASCII input.
pub open spec fn is_ws(b: u8) -> bool {
    b == 32 || b == 9 || b == 10 || b == 13 || b == 12 || b == 11
}

fn is_ws_exec(b: u8) -> (r: bool)
    ensures
        r == is_ws(b),
{
    b == 32 || b == 9 || b == 10 || b == 13 || b == 12 || b == 11
}

/// `s` with leading and trailing ASCII whitespace removed.
pub open spec fn trimmed(s: Seq<u8>) -> Seq<u8>
    decreases s.len(),
{
    if s.len() > 0 && is_ws(s[0]) {
        trimmed(s.drop_first())
    } else if s.len() > 0 && is_ws(s.last()) {
        trimmed(s.drop_last())
    } else {
        s
    }
}

/// Remove leading and trailing ASCII whitespace.
pub fn trim_bytes(s: &[u8]) -> (r: Vec<u8>)
    ensures
        r@ == trimmed(s@),
    decreases s@.len(),
{
    if s.len() > 0 && is_ws_exec(s[0]) {
        let rest = vstd::slice::slice_subrange(s, 1, s.len());
        proof {
            assert(rest@ == s@.drop_first());
        }
        trim_bytes(rest)
    } else if s.len() > 0 && is_ws_exec(s[s.len() - 1]) {
        let rest = vstd::slice::slice_subrange(s, 0, s.len() - 1);
        proof {
            assert(rest@ == s@.drop_last());
        }
        trim_bytes(rest)
    } else {
        let mut r: Vec<u8> = Vec::new();
        append_bytes(&mut r, s);
        r
    }
}

/// The first whitespace-separated token of `s`, empty if there is none.
pub open spec fn first_token(s: Seq<u8>) -> Seq<u8>
    decreases s.len(),
{
    if s.len() == 0 {
        Seq::<u8>::empty()
    } else if is_ws(s[0]) {
        first_token(s.drop_first())
    } else {
        seq![s[0]] + token_tail(s.drop_first())
    }
}

/// The longest whitespace-free prefix of `s`.
pub open spec fn token_tail(s: Seq<u8>) -> Seq<u8>
    decreases s.len(),
{
    if s.len() == 0 || is_ws(s[0]) {
        Seq::<u8>::empty()
    } else {
        seq![s[0]] + token_tail(s.drop_first())
    }
}

fn token_tail_exec(s: &[u8]) -> (r: Vec<u8>)
    ensures
        r@ == token_tail(s@),
    decreases s@.len(),
{
    if s.len() == 0 || is_ws_exec(s[0]) {
        Vec::new()
    } else {
        let rest = vstd::slice::slice_subrange(s, 1, s.len());
        proof {
            assert(rest@ == s@.drop_first());
        }
        let tail = token_tail_exec(rest);
        let mut r: Vec<u8> = Vec::new();
        r.push(s[0]);
        append_bytes(&mut r, tail.as_slice());
        proof {
            assert(r@ =~= seq![s@[0]] + token_tail(s@.drop_first()));
        }
        r
    }
}

/// Extract the first whitespace-separated token.
pub fn first_token_exec(s: &[u8]) -> (r: Vec<u8>)
    ensures
        r@ == first_token(s@),
    decreases s@.len(),
{
    if s.len() == 0 {
        Vec::new()
    } else if is_ws_exec(s[0]) {
        let rest = vstd::slice::slice_subrange(s, 1, s.len());
        proof {
            assert(rest@ == s@.drop_first());
        }
        first_token_exec(rest)
    } else {
        token_tail_exec(s)
    }
}

/// View of a list of byte vectors as byte sequences.
pub open spec fn views_of(items: Seq<Vec<u8>>) -> Seq<Seq<u8>> {
    items.map_values(|v: Vec<u8>| v@)
}

/// Join `items` with separator `sep`.
pub open spec fn join_seq(items: Seq<Seq<u8>>, sep: Seq<u8>) -> Seq<u8>
    decreases items.len(),
{
    if items.len() == 0 {
        Seq::<u8>::empty()
    } else if items.len() == 1 {
        items[0]
    } else {
        items[0] + sep + join_seq(items.drop_first(), sep)
    }
}

/// Join byte vectors with an ASCII separator literal.
pub fn join_with(items: &Vec<Vec<u8>>, sep: &str) -> (r: Vec<u8>)
    ensures
        r@ == join_seq(items.deep_view(), bytes_of(sep)),
    decreases items@.len(),
{
    let mut r: Vec<u8> = Vec::new();
    if items.len() == 0 {
        return r;
    }
    append_bytes(&mut r, items[0].as_slice());
    let mut i: usize = 1;
    while i < items.len()
        invariant
            1 <= i <= items@.len(),
            items@.len() >= 1,
            r@ == join_seq(items.deep_view().subrange(0, i as int), bytes_of(sep)),
        decreases items@.len() - i,
    {
        append_lit(&mut r, sep);
        append_bytes(&mut r, items[i].as_slice());
        proof {
            lemma_join_snoc(items.deep_view().subrange(0, i + 1), bytes_of(sep));
            assert(items.deep_view().subrange(0, i + 1).drop_last() =~= items.deep_view().subrange(
                0,
                i as int,
            ));
            assert(items.deep_view().subrange(0, i + 1).last() == items@[i as int]@);
        }
        i = i + 1;
    }
    proof {
        assert(items.deep_view().subrange(0, items@.len() as int) =~= items.deep_view());
    }
    r
}

/// Unfolding of [`join_seq`] at the last element.
proof fn lemma_join_snoc(items: Seq<Seq<u8>>, sep: Seq<u8>)
    requires
        items.len() >= 2,
    ensures
        join_seq(items, sep) == join_seq(items.drop_last(), sep) + sep + items.last(),
    decreases items.len(),
{
    if items.len() == 2 {
        assert(items.drop_first().len() == 1);
        assert(join_seq(items.drop_first(), sep) == items.drop_first()[0]);
        assert(join_seq(items, sep) == items[0] + sep + items.drop_first()[0]);
        assert(items.drop_last() =~= seq![items[0]]);
        assert(join_seq(items.drop_last(), sep) == items[0]);
        assert(items.drop_first()[0] == items.last());
    } else {
        lemma_join_snoc(items.drop_first(), sep);
        assert(items.drop_first().drop_last() =~= items.drop_last().drop_first());
        assert(items.drop_first().last() == items.last());
        assert(join_seq(items, sep) == items[0] + sep + join_seq(items.drop_first(), sep));
        assert(join_seq(items.drop_last(), sep) == items.drop_last()[0] + sep + join_seq(
            items.drop_last().drop_first(),
            sep,
        ));
        assert(items.drop_last()[0] == items[0]);
        assert(join_seq(items, sep) == items[0] + sep + (join_seq(
            items.drop_last().drop_first(),
            sep,
        ) + sep + items.last()));
        assert(items[0] + sep + (join_seq(items.drop_last().drop_first(), sep) + sep
            + items.last()) =~= (items[0] + sep + join_seq(items.drop_last().drop_first(), sep))
            + sep + items.last());
    }
}

/// Every occurrence of `pat` in `s` replaced by `rep`, scanning left to
/// right without re-examining replaced text.
pub open spec fn replace_all(s: Seq<u8>, pat: Seq<u8>, rep: Seq<u8>) -> Seq<u8>
    decreases s.len(),
{
    if pat.len() == 0 || s.len() < pat.len() {
        s
    } else if s.subrange(0, pat.len() as int) == pat {
        rep + replace_all(s.skip(pat.len() as int), pat, rep)
    } else {
        seq![s[0]] + replace_all(s.drop_first(), pat, rep)
    }
}

/// Replace every occurrence of `pat` by `rep`.
pub fn replace_bytes(s: &[u8], pat: &[u8], rep: &[u8]) -> (r: Vec<u8>)
    ensures
        r@ == replace_all(s@, pat@, rep@),
    decreases s@.len(),
{
    if pat.len() == 0 || s.len() < pat.len() {
        let mut r: Vec<u8> = Vec::new();
        append_bytes(&mut r, s);
        return r;
    }
    let head = vstd::slice::slice_subrange(s, 0, pat.len());
    if bytes_eq(head, pat) {
        let rest = vstd::slice::slice_subrange(s, pat.len(), s.len());
        proof {
            assert(rest@ == s@.skip(pat@.len() as int));
        }
        let tail = replace_bytes(rest, pat, rep);
        let mut r: Vec<u8> = Vec::new();
        append_bytes(&mut r, rep);
        append_bytes(&mut r, tail.as_slice());
        r
    } else {
        let rest = vstd::slice::slice_subrange(s, 1, s.len());
        proof {
            assert(rest@ == s@.drop_first());
        }
        let tail = replace_bytes(rest, pat, rep);
        let mut r: Vec<u8> = Vec::new();
        r.push(s[0]);
        append_bytes(&mut r, tail.as_slice());
        proof {
            assert(r@ =~= seq![s@[0]] + replace_all(s@.drop_first(), pat@, rep@));
        }
        r
    }
}

/// Hex digit for a value below 16.
pub open spec fn hex_digit(n: u8) -> u8 {
    if n < 10 {
        (48 + n) as u8
    } else {
        (87 + n) as u8
    }
}

/// Log escaping of one byte: printable ASCII stays, anything else
/// becomes `\xNN`.
pub open spec fn escape_byte(b: u8) -> Seq<u8> {
    if 32 <= b && b < 127 {
        seq![b]
    } else {
        seq![92u8, 120u8, hex_digit(b / 16), hex_digit(b % 16)]
    }
}

/// Log escaping of a byte sequence.
pub open spec fn escape_seq(s: Seq<u8>) -> Seq<u8>
    decreases s.len(),
{
    if s.len() == 0 {
        Seq::<u8>::empty()
    } else {
        escape_byte(s[0]) + escape_seq(s.drop_first())
    }
}

/// Escape bytes for a log line.
pub fn escape_bytes(s: &[u8]) -> (r: Vec<u8>)
    ensures
        r@ == escape_seq(s@),
    decreases s@.len(),
{
    if s.len() == 0 {
        return Vec::new();
    }
    let b = s[0];
    let mut r: Vec<u8> = Vec::new();
    if 32 <= b && b < 127 {
        r.push(b);
    } else {
        r.push(92);
        r.push(120);
        let hi = b / 16;
        let lo = b % 16;
        r.push(if hi < 10 { 48 + hi } else { 87 + hi });
        r.push(if lo < 10 { 48 + lo } else { 87 + lo });
    }
    proof {
        assert(r@ =~= escape_byte(s@[0]));
    }
    let rest = vstd::slice::slice_subrange(s, 1, s.len());
    proof {
        assert(rest@ == s@.drop_first());
    }
    let tail = escape_bytes(rest);
    append_bytes(&mut r, tail.as_slice());
    r
}

/// Number of lines in `s`, as `str::lines` counts them: newline-separated
/// segments, with a final empty segment after a trailing newline dropped.
pub open spec fn line_count(s: Seq<u8>) -> nat {
    newline_count(s) + if s.len() > 0 && s.last() != 10 {
        1nat
    } else {
        0nat
    }
}

/// Number of newline bytes in `s`.
pub open spec fn newline_count(s: Seq<u8>) -> nat
    decreases s.len(),
{
    if s.len() == 0 {
        0nat
    } else {
        newline_count(s.drop_last()) + if s.last() == 10 {
            1nat
        } else {
            0nat
        }
    }
}

/// The newline count never exceeds the length.
proof fn lemma_newline_count_bound(s: Seq<u8>)
    ensures
        newline_count(s) <= s.len(),
    decreases s.len(),
{
    if s.len() > 0 {
        lemma_newline_count_bound(s.drop_last());
    }
}

/// Count lines.
pub fn count_lines(s: &[u8]) -> (r: usize)
    ensures
        r == line_count(s@),
{
    let mut nl: usize = 0;
    let mut i: usize = 0;
    while i < s.len()
        invariant
            i <= s@.len(),
            nl == newline_count(s@.subrange(0, i as int)),
            nl <= i,
        decreases s@.len() - i,
    {
        if s[i] == 10 {
            nl = nl + 1;
        }
        proof {
            assert(s@.subrange(0, i + 1).drop_last() =~= s@.subrange(0, i as int));
            assert(s@.subrange(0, i + 1).last() == s@[i as int]);
        }
        i = i + 1;
    }
    proof {
        assert(s@.subrange(0, s@.len() as int) =~= s@);
    }
    if s.len() > 0 && s[s.len() - 1] != 10 {
        proof {
            lemma_newline_count_bound(s@.drop_last());
            assert(newline_count(s@) == newline_count(s@.drop_last()));
            assert(nl <= s@.len() - 1);
        }
        nl + 1
    } else {
        nl
    }
}

} // verus!
