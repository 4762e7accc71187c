//! Decimal rendering of the integer values that appear in field numbers,
//! enum values and reserved ranges, proved against a recursive spec of
//! the decimal numeral.

use vstd::prelude::*;
use vstd::string::StringExecFns;
use crate::util::{lemma_push_is_add, lemma_seq_assoc, lemma_seq_empty_left};

verus! {

/// The character of one decimal digit.
pub open spec fn dec_digit(d: nat) -> char {
    if d == 0 {
        '0'
    } else if d == 1 {
        '1'
    } else if d == 2 {
        '2'
    } else if d == 3 {
        '3'
    } else if d == 4 {
        '4'
    } else if d == 5 {
        '5'
    } else if d == 6 {
        '6'
    } else if d == 7 {
        '7'
    } else if d == 8 {
        '8'
    } else {
        '9'
    }
}

/// The decimal numeral of a natural number, most significant digit first.
pub open spec fn spec_udec(n: nat) -> Seq<char>
    decreases n,
{
    if n < 10 {
        seq![dec_digit(n)]
    } else {
        spec_udec(n / 10).push(dec_digit(n % 10))
    }
}

/// The decimal numeral of an integer: a minus sign before the numeral of
/// the magnitude when negative.
pub open spec fn spec_idec(v: int) -> Seq<char> {
    if v < 0 {
        seq!['-'] + spec_udec((-v) as nat)
    } else {
        spec_udec(v as nat)
    }
}

/// The digit characters of a digit stack read from the top down.
pub open spec fn rev_digit_chars(ds: Seq<u64>) -> Seq<char> {
    Seq::new(ds.len(), |i: int| dec_digit(ds[ds.len() - 1 - i] as nat))
}

proof fn lemma_rev_digit_chars_push(ds: Seq<u64>, d: u64)
    ensures
        rev_digit_chars(ds.push(d)) == seq![dec_digit(d as nat)] + rev_digit_chars(ds),
{
    assert(rev_digit_chars(ds.push(d)) =~= seq![dec_digit(d as nat)] + rev_digit_chars(ds));
}

fn digit_str(d: u64) -> (r: &'static str)
    requires
        d < 10,
    ensures
        r@ == seq![dec_digit(d as nat)],
{
    let r: &'static str = if d == 0 {
        "0"
    } else if d == 1 {
        "1"
    } else if d == 2 {
        "2"
    } else if d == 3 {
        "3"
    } else if d == 4 {
        "4"
    } else if d == 5 {
        "5"
    } else if d == 6 {
        "6"
    } else if d == 7 {
        "7"
    } else if d == 8 {
        "8"
    } else {
        "9"
    };
    proof {
        reveal_strlit("0");
        reveal_strlit("1");
        reveal_strlit("2");
        reveal_strlit("3");
        reveal_strlit("4");
        reveal_strlit("5");
        reveal_strlit("6");
        reveal_strlit("7");
        reveal_strlit("8");
        reveal_strlit("9");
        assert(r@ =~= seq![dec_digit(d as nat)]);
    }
    r
}

/// Appends the decimal numeral of `x` to `buf`.
pub fn append_u64_dec(buf: &mut String, x: u64)
    ensures
        final(buf)@ == old(buf)@ + spec_udec(x as nat),
{
    let mut digits: Vec<u64> = Vec::new();
    let mut n: u64 = x;
    digits.push(n % 10);
    n = n / 10;
    proof {
        assert(rev_digit_chars(digits@) =~= seq![dec_digit((x % 10) as nat)]);
        if x < 10 {
            assert(Seq::<char>::empty() + rev_digit_chars(digits@) =~= seq![
                dec_digit(x as nat),
            ]);
        } else {
            lemma_push_is_add(spec_udec((x / 10) as nat), dec_digit((x % 10) as nat));
        }
    }
    while n > 0
        invariant
            forall|i: int| 0 <= i < digits@.len() ==> digits@[i] < 10,
            spec_udec(x as nat) == (if n > 0 {
                spec_udec(n as nat)
            } else {
                Seq::<char>::empty()
            }) + rev_digit_chars(digits@),
        decreases n,
    {
        let ghost prev = digits@;
        let ghost np: u64 = n;
        let d: u64 = n % 10;
        digits.push(d);
        n = n / 10;
        proof {
            lemma_rev_digit_chars_push(prev, d);
            if np < 10 {
                assert(spec_udec(np as nat) == seq![dec_digit(np as nat)]);
                assert(spec_udec(np as nat) + rev_digit_chars(prev) =~= Seq::<char>::empty()
                    + rev_digit_chars(digits@));
            } else {
                lemma_push_is_add(spec_udec((np / 10) as nat), dec_digit((np % 10) as nat));
                lemma_seq_assoc(
                    spec_udec((np / 10) as nat),
                    seq![dec_digit((np % 10) as nat)],
                    rev_digit_chars(prev),
                );
            }
        }
    }
    let ghost rev = rev_digit_chars(digits@);
    proof {
        lemma_seq_empty_left(rev);
        assert(spec_udec(x as nat) == rev);
        assert(rev.subrange(0, 0) =~= Seq::<char>::empty());
    }
    let mut i: usize = digits.len();
    while i > 0
        invariant
            i <= digits@.len(),
            forall|j: int| 0 <= j < digits@.len() ==> digits@[j] < 10,
            rev == rev_digit_chars(digits@),
            spec_udec(x as nat) == rev,
            buf@ == old(buf)@ + rev.subrange(0, digits@.len() as int - i as int),
        decreases i,
    {
        i = i - 1;
        let ghost before = buf@;
        let d: u64 = digits[i];
        buf.append(digit_str(d));
        proof {
            let ghost l = digits@.len() as int;
            assert(buf@ == before + seq![dec_digit(d as nat)]);
            assert(dec_digit(d as nat) == rev[l - 1 - i]);
            lemma_seq_assoc(old(buf)@, rev.subrange(0, l - 1 - i), seq![dec_digit(d as nat)]);
            assert(rev.subrange(0, l - 1 - i) + seq![dec_digit(d as nat)] =~= rev.subrange(
                0,
                l - i,
            ));
        }
    }
    proof {
        assert(rev.subrange(0, digits@.len() as int) =~= rev);
    }
}

/// Appends the decimal numeral of `v`, minus sign included, to `buf`.
pub fn append_i32_dec(buf: &mut String, v: i32)
    ensures
        final(buf)@ == old(buf)@ + spec_idec(v as int),
{
    if v < 0 {
        buf.append("-");
        let m: i64 = -(v as i64);
        let ghost mid = buf@;
        append_u64_dec(buf, m as u64);
        proof {
            reveal_strlit("-");
            assert("-"@ =~= seq!['-']);
            assert((m as u64) as nat == (-(v as int)) as nat);
            lemma_seq_assoc(old(buf)@, seq!['-'], spec_udec((-(v as int)) as nat));
        }
    } else {
        append_u64_dec(buf, v as u64);
    }
}

} // verus!
