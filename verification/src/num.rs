//! Decimal tokens: the wire form of every integer field, and the checks
//! applied when one is read back.

use vstd::prelude::*;

verus! {

/// Whether `c` is a decimal digit.
pub open spec fn is_digit(c: char) -> bool {
    48 <= c as u32 <= 57
}

/// The digit character for `d` (0 through 9).
pub open spec fn digit_char(d: nat) -> char {
    ((48 + d) as u8) as char
}

/// The value of a digit character.
pub open spec fn digit_val(c: char) -> nat {
    (c as u32 - 48) as nat
}

/// The decimal representation of `n`, without sign or leading zeros.
pub open spec fn dec_rep(n: nat) -> Seq<char>
    decreases n,
{
    if n < 10 {
        seq![digit_char(n)]
    } else {
        dec_rep(n / 10).push(digit_char(n % 10))
    }
}

/// A non-empty, all-digit token.
pub open spec fn is_dec_digits(s: Seq<char>) -> bool {
    s.len() > 0 && forall|i: int| 0 <= i < s.len() ==> is_digit(#[trigger] s[i])
}

/// The value of an all-digit token.
pub open spec fn dec_val(s: Seq<char>) -> nat
    decreases s.len(),
{
    if s.len() == 0 {
        0
    } else {
        dec_val(s.drop_last()) * 10 + digit_val(s.last())
    }
}

/// A token that decodes as a `u64`: all digits, value in range.
pub open spec fn is_u64_token(s: Seq<char>) -> bool {
    is_dec_digits(s) && dec_val(s) <= u64::MAX
}

/// A token that decodes as a `usize`: all digits, value in range.
pub open spec fn is_usize_token(s: Seq<char>) -> bool {
    is_dec_digits(s) && dec_val(s) <= usize::MAX
}

/// The decimal representation is all digits and starts with a zero only
/// for the value zero.
pub proof fn lemma_dec_rep_digits(n: nat)
    ensures
        is_dec_digits(dec_rep(n)),
        dec_rep(n)[0] == digit_char(0) ==> n == 0,
        n == 0 ==> dec_rep(n) == seq![digit_char(0)],
    decreases n,
{
    if n < 10 {
        assert(dec_rep(n) == seq![digit_char(n)]);
        assert(digit_char(n) as u32 == 48 + n);
    } else {
        lemma_dec_rep_digits(n / 10);
        let head = dec_rep(n / 10);
        let r = head.push(digit_char(n % 10));
        assert forall|i: int| 0 <= i < r.len() implies is_digit(#[trigger] r[i]) by {
            if i < head.len() {
                assert(r[i] == head[i]);
            }
        }
        assert(r[0] == head[0]);
    }
}

/// Reading the decimal representation back yields the value.
pub proof fn lemma_dec_rep_val(n: nat)
    ensures
        dec_val(dec_rep(n)) == n,
    decreases n,
{
    if n < 10 {
        let s = dec_rep(n);
        assert(s.drop_last() =~= Seq::<char>::empty());
        assert(digit_char(n) as u32 == 48 + n);
        assert(s.last() == digit_char(n));
        assert(dec_val(s.drop_last()) == 0);
        assert(dec_val(s) == dec_val(s.drop_last()) * 10 + digit_val(s.last()));
        assert(dec_val(s) == n);
    } else {
        lemma_dec_rep_val(n / 10);
        let head = dec_rep(n / 10);
        let r = head.push(digit_char(n % 10));
        assert(r.drop_last() =~= head);
        assert(r.last() == digit_char(n % 10));
        assert(digit_char(n % 10) as u32 == 48 + n % 10);
        vstd::arithmetic::div_mod::lemma_fundamental_div_mod(n as int, 10);
        assert(dec_val(r) == dec_val(head) * 10 + digit_val(r.last()));
        assert(dec_val(r) == n);
    }
}

/// A longer all-digit token never has a smaller value than its prefix.
proof fn lemma_dec_val_prefix(s: Seq<char>, j: int)
    requires
        0 <= j <= s.len(),
    ensures
        dec_val(s.take(j)) <= dec_val(s),
    decreases s.len() - j,
{
    if j < s.len() {
        lemma_dec_val_prefix(s, j + 1);
        assert(s.take(j + 1).drop_last() =~= s.take(j));
        assert(dec_val(s.take(j + 1)) == dec_val(s.take(j)) * 10 + digit_val(s.take(j + 1).last()));
        assert(dec_val(s.take(j)) * 10 >= dec_val(s.take(j))) by (nonlinear_arith);
    } else {
        assert(s.take(j) =~= s);
    }
}

/// Writes the decimal representation of `n` onto the end of `out`.
pub fn push_dec_u64(n: u64, out: &mut Vec<char>)
    ensures
        final(out)@ == old(out)@ + dec_rep(n as nat),
    decreases n,
{
    if n < 10 {
        out.push((48 + n as u8) as char);
        proof {
            assert(48 + n as u8 == (48 + n as nat) as u8);
            assert(final(out)@ =~= old(out)@ + dec_rep(n as nat));
        }
    } else {
        push_dec_u64(n / 10, out);
        let d = (n % 10) as u8;
        out.push((48 + d) as char);
        proof {
            assert(48 + d == (48 + (n % 10) as nat) as u8);
            assert(final(out)@ =~= old(out)@ + dec_rep(n as nat));
        }
    }
}

/// Reads an all-digit token as a `u64`: the value when the token is one,
/// absent when the text is not all digits or the value does not fit.
pub fn parse_dec_u64(s: &Vec<char>) -> (r: Option<u64>)
    ensures
        match r {
            Some(v) => is_u64_token(s@) && v as nat == dec_val(s@),
            None => !is_u64_token(s@),
        },
{
    if s.len() == 0 {
        return None;
    }
    let mut acc: u64 = 0;
    let mut i: usize = 0;
    while i < s.len()
        invariant
            0 <= i <= s.len(),
            forall|k: int| 0 <= k < i ==> is_digit(#[trigger] s@[k]),
            acc as nat == dec_val(s@.take(i as int)),
        decreases s.len() - i,
    {
        let c = s[i];
        let u = c as u32;
        if u < 48 || u > 57 {
            return None;
        }
        let d = (u - 48) as u64;
        if acc > (u64::MAX - d) / 10 {
            proof {
                assert(s@.take(i + 1).drop_last() =~= s@.take(i as int));
                assert(dec_val(s@.take(i + 1)) == acc * 10 + d);
                assert(acc * 10 + d > u64::MAX) by (nonlinear_arith)
                    requires
                        acc > (u64::MAX - d) / 10,
                        d < 10,
                ;
                lemma_dec_val_prefix(s@, i + 1);
            }
            return None;
        }
        proof {
            assert(acc * 10 + d <= u64::MAX) by (nonlinear_arith)
                requires
                    acc <= (u64::MAX - d) / 10,
                    d < 10,
            ;
            assert(s@.take(i + 1).drop_last() =~= s@.take(i as int));
        }
        acc = acc * 10 + d;
        i += 1;
    }
    proof {
        assert(s@.take(s@.len() as int) =~= s@);
    }
    Some(acc)
}

} // verus!
