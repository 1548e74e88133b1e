//! Prediction of the next IMAP command tag a client will use.
//!
//! Clients commonly count their tags: `A00021`, `A00022`, and so on.
//! The evolution strategy keeps the one-character prefix and increments
//! the numeric part, zero-padded to five digits.

use vstd::prelude::*;

use crate::wire::{append_bytes, dec_digits, fmt_u32};

verus! {

/// How the next tag is derived from the current one.
#[derive(Debug, Clone, Copy, PartialEq, Eq, Structural)]
pub enum Strategy {
    Evolution,
}

/// A tag predictor.
#[derive(Debug, Clone)]
pub struct Predictor {
    pub strategy: Strategy,
}

/// Decimal digit bytes only.
pub open spec fn all_digits(s: Seq<u8>) -> bool {
    forall|i: int| 0 <= i < s.len() ==> 48 <= #[trigger] s[i] && s[i] <= 57
}

/// The numeric value of a decimal digit string.
pub open spec fn dec_value(s: Seq<u8>) -> nat
    decreases s.len(),
{
    if s.len() == 0 {
        0
    } else {
        dec_value(s.drop_last()) * 10 + (s.last() - 48) as nat
    }
}

/// Zero-padding to five digits, as `{:05}` formatting produces.
pub open spec fn pad5(digits: Seq<u8>) -> Seq<u8> {
    if digits.len() >= 5 {
        digits
    } else {
        Seq::new((5 - digits.len()) as nat, |i: int| 48u8) + digits
    }
}

/// A tag the evolution strategy can advance: a one-byte prefix and a
/// numeric part that can still be incremented.
pub open spec fn tag_evolvable(s: Seq<u8>) -> bool {
    s.len() >= 2 && all_digits(s.skip(1)) && dec_value(s.skip(1)) < u32::MAX
}

/// The predicted successor tag.
pub open spec fn predicted_tag(s: Seq<u8>) -> Seq<u8> {
    seq![s[0]] + pad5(dec_digits(dec_value(s.skip(1)) + 1))
}

/// A digit-string prefix never exceeds the whole string's value.
proof fn lemma_dec_prefix_le(s: Seq<u8>, i: int)
    requires
        0 <= i <= s.len(),
    ensures
        dec_value(s.subrange(0, i)) <= dec_value(s),
    decreases s.len() - i,
{
    if i == s.len() {
        assert(s.subrange(0, i) =~= s);
    } else {
        lemma_dec_prefix_le(s, i + 1);
        assert(s.subrange(0, i + 1).drop_last() =~= s.subrange(0, i));
        assert(dec_value(s.subrange(0, i + 1)) == dec_value(s.subrange(0, i)) * 10 + (s[i] - 48) as nat);
    }
}

/// Parse a decimal digit string.
fn parse_digits(s: &[u8]) -> (r: u32)
    requires
        all_digits(s@),
        dec_value(s@) < u32::MAX,
    ensures
        r as nat == dec_value(s@),
{
    let mut r: u32 = 0;
    let mut i: usize = 0;
    proof {
        assert(s@.subrange(0, 0) =~= Seq::<u8>::empty());
    }
    while i < s.len()
        invariant
            i <= s@.len(),
            all_digits(s@),
            dec_value(s@) < u32::MAX,
            r as nat == dec_value(s@.subrange(0, i as int)),
        decreases s@.len() - i,
    {
        proof {
            lemma_dec_prefix_le(s@, i + 1);
            assert(s@.subrange(0, i + 1).drop_last() =~= s@.subrange(0, i as int));
            assert(s@.subrange(0, i + 1).last() == s@[i as int]);
            assert(dec_value(s@.subrange(0, i + 1)) == dec_value(s@.subrange(0, i as int)) * 10 + (
            s@[i as int] - 48) as nat);
        }
        r = r * 10 + (s[i] - 48) as u32;
        i = i + 1;
    }
    proof {
        assert(s@.subrange(0, s@.len() as int) =~= s@);
    }
    r
}

impl Predictor {
    /// A predictor for the given strategy.
    pub fn with_strategy(strategy: Strategy) -> (r: Predictor)
        ensures
            r.strategy == strategy,
    {
        Predictor { strategy }
    }

    /// Predict the tag the client will use next: the prefix byte kept,
    /// the numeric part incremented and padded to five digits.
    pub fn predict(&self, current_tag: &[u8]) -> (r: Vec<u8>)
        requires
            tag_evolvable(current_tag@),
        ensures
            r@ == predicted_tag(current_tag@),
    {
        let digits = vstd::slice::slice_subrange(current_tag, 1, current_tag.len());
        proof {
            assert(digits@ == current_tag@.skip(1));
        }
        let value = parse_digits(digits);
        let next_digits = fmt_u32(value + 1);
        let mut r: Vec<u8> = Vec::new();
        r.push(current_tag[0]);
        if next_digits.len() < 5 {
            let mut pad: usize = 5 - next_digits.len();
            let ghost done: Seq<u8> = Seq::new((5 - next_digits@.len()) as nat, |i: int| 48u8);
            while pad > 0
                invariant
                    pad <= 5 - next_digits@.len(),
                    next_digits@.len() < 5,
                    r@ == seq![current_tag@[0]] + Seq::new(
                        (5 - next_digits@.len() - pad) as nat,
                        |i: int| 48u8,
                    ),
                decreases pad,
            {
                r.push(48);
                proof {
                    assert(r@ =~= seq![current_tag@[0]] + Seq::new(
                        (5 - next_digits@.len() - (pad - 1)) as nat,
                        |i: int| 48u8,
                    ));
                }
                pad = pad - 1;
            }
            append_bytes(&mut r, next_digits.as_slice());
            proof {
                assert(r@ =~= seq![current_tag@[0]] + pad5(next_digits@));
            }
        } else {
            append_bytes(&mut r, next_digits.as_slice());
            proof {
                assert(r@ =~= seq![current_tag@[0]] + pad5(next_digits@));
            }
        }
        r
    }

    /// An iterator of successive predicted tags, starting after the
    /// given one.
    pub fn predict_iter(&self, current_tag: Vec<u8>) -> (r: PredictorIter)
        ensures
            r.current_tag@ == current_tag@,
            r.predictor.strategy == self.strategy,
    {
        PredictorIter { predictor: Predictor { strategy: self.strategy }, current_tag }
    }
}

/// Successive predicted tags.
#[derive(Debug)]
pub struct PredictorIter {
    pub predictor: Predictor,
    pub current_tag: Vec<u8>,
}

impl PredictorIter {
    /// Advance by one predicted tag.
    pub fn next(&mut self) -> (r: Option<Vec<u8>>)
        requires
            tag_evolvable(old(self).current_tag@),
        ensures
            final(self).predictor == old(self).predictor,
            r matches Some(v) && v@ == predicted_tag(old(self).current_tag@) && final(self).current_tag@ == predicted_tag(old(self).current_tag@),
    {
        let predicted = self.predictor.predict(self.current_tag.as_slice());
        let mut copy: Vec<u8> = Vec::new();
        append_bytes(&mut copy, predicted.as_slice());
        self.current_tag = copy;
        Some(predicted)
    }
}

} // verus!
