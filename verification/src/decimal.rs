//! Numbers written out in decimal digits.

use vstd::prelude::*;
use vstd::string::StringExecFns;

verus! {

/// The character of one decimal digit.
pub open spec fn digit_char(d: nat) -> char {
    if d == 0 {
        '0'
    } else if d == 1 {
        '1'
    } else if d == 2 {
        '2'
    } else if d == 3 {
        '3'
    } else if d == 4 {
        '4'
    } else if d == 5 {
        '5'
    } else if d == 6 {
        '6'
    } else if d == 7 {
        '7'
    } else if d == 8 {
        '8'
    } else {
        '9'
    }
}

/// The decimal digits of a number, most significant first, without leading
/// zeros: `0` is `"0"`.
pub open spec fn decimal_text(n: nat) -> Seq<char>
    decreases n,
{
    if n < 10 {
        seq![digit_char(n)]
    } else {
        decimal_text(n / 10).push(digit_char(n % 10))
    }
}

/// The text of digits that were collected least significant first.
spec fn tail_text(digits: Seq<u8>) -> Seq<char>
    decreases digits.len(),
{
    if digits.len() == 0 {
        Seq::<char>::empty()
    } else {
        tail_text(digits.drop_first()).push(digit_char(digits[0] as nat))
    }
}

proof fn lemma_tail_push(digits: Seq<u8>, d: u8)
    ensures
        tail_text(digits.push(d)) == seq![digit_char(d as nat)] + tail_text(digits),
    decreases digits.len(),
{
    if digits.len() == 0 {
        assert(digits.push(d).drop_first() =~= Seq::<u8>::empty());
        assert(tail_text(Seq::<u8>::empty()) =~= Seq::<char>::empty());
        assert(tail_text(digits) =~= Seq::<char>::empty());
        assert(digits.push(d)[0] == d);
        assert(tail_text(digits.push(d)) =~= seq![digit_char(d as nat)] + tail_text(digits));
    } else {
        assert(digits.push(d).drop_first() =~= digits.drop_first().push(d));
        lemma_tail_push(digits.drop_first(), d);
        assert(tail_text(digits.push(d)) =~= seq![digit_char(d as nat)] + tail_text(digits));
    }
}

proof fn lemma_tail_take(digits: Seq<u8>, i: int)
    requires
        0 < i <= digits.len(),
    ensures
        tail_text(digits.take(i)) == seq![digit_char(digits[i - 1] as nat)] + tail_text(
            digits.take(i - 1),
        ),
{
    assert(digits.take(i) =~= digits.take(i - 1).push(digits[i - 1]));
    lemma_tail_push(digits.take(i - 1), digits[i - 1]);
}

/// One decimal digit as a string.
fn digit_str(d: u8) -> (s: &'static str)
    requires
        d < 10,
    ensures
        s@ == seq![digit_char(d as nat)],
{
    proof {
        reveal_strlit("0");
        reveal_strlit("1");
        reveal_strlit("2");
        reveal_strlit("3");
        reveal_strlit("4");
        reveal_strlit("5");
        reveal_strlit("6");
        reveal_strlit("7");
        reveal_strlit("8");
        reveal_strlit("9");
    }
    let s = if d == 0 {
        "0"
    } else if d == 1 {
        "1"
    } else if d == 2 {
        "2"
    } else if d == 3 {
        "3"
    } else if d == 4 {
        "4"
    } else if d == 5 {
        "5"
    } else if d == 6 {
        "6"
    } else if d == 7 {
        "7"
    } else if d == 8 {
        "8"
    } else {
        "9"
    };
    assert(s@ =~= seq![digit_char(d as nat)]);
    s
}

/// Appends the decimal digits of `n` to `out`.
pub fn push_decimal(out: &mut String, n: u64)
    ensures
        final(out)@ == old(out)@ + decimal_text(n as nat),
{
    // the digits, least significant first
    let mut digits: Vec<u8> = Vec::new();
    let mut rest: u64 = n;
    while rest >= 10
        invariant
            forall|i: int| 0 <= i < digits.len() ==> digits[i] < 10,
            decimal_text(n as nat) == decimal_text(rest as nat) + tail_text(digits@),
        decreases rest,
    {
        let d: u8 = (rest % 10) as u8;
        proof {
            lemma_tail_push(digits@, d);
            assert(decimal_text(rest as nat) == decimal_text((rest / 10) as nat).push(
                digit_char((rest % 10) as nat),
            ));
            assert(decimal_text((rest / 10) as nat).push(digit_char(d as nat)) + tail_text(digits@)
                =~= decimal_text((rest / 10) as nat) + (seq![digit_char(d as nat)] + tail_text(
                digits@,
            )));
        }
        digits.push(d);
        rest = rest / 10;
    }
    out.append(digit_str(rest as u8));
    let mut i: usize = digits.len();
    assert(digits@.take(i as int) =~= digits@);
    assert(out@ + tail_text(digits@.take(i as int)) =~= old(out)@ + decimal_text(n as nat));
    while i > 0
        invariant
            i <= digits.len(),
            forall|j: int| 0 <= j < digits.len() ==> digits[j] < 10,
            out@ + tail_text(digits@.take(i as int)) == old(out)@ + decimal_text(n as nat),
        decreases i,
    {
        proof {
            lemma_tail_take(digits@, i as int);
            assert((out@ + seq![digit_char(digits[i - 1] as nat)]) + tail_text(
                digits@.take(i - 1),
            ) =~= out@ + (seq![digit_char(digits[i - 1] as nat)] + tail_text(digits@.take(i - 1))));
        }
        i = i - 1;
        out.append(digit_str(digits[i]));
    }
    assert(digits@.take(0) =~= Seq::<u8>::empty());
    assert(out@ + Seq::<char>::empty() =~= out@);
}

/// A number with its sign: a minus where it is negative, then the digits
/// of its magnitude.
pub open spec fn signed_text(n: int) -> Seq<char> {
    if n < 0 {
        seq!['-'] + decimal_text((-n) as nat)
    } else {
        decimal_text(n as nat)
    }
}

/// Appends `n` with its sign to `out`.
pub fn push_signed(out: &mut String, n: i64)
    ensures
        final(out)@ == old(out)@ + signed_text(n as int),
{
    if n < 0 {
        proof {
            reveal_strlit("-");
        }
        out.append("-");
        assert("-"@ =~= seq!['-']);
        let magnitude: u64 = ((-(n + 1)) as u64) + 1;
        push_decimal(out, magnitude);
        assert((old(out)@ + seq!['-']) + decimal_text(magnitude as nat) =~= old(out)@ + (seq!['-']
            + decimal_text((-n) as nat)));
    } else {
        push_decimal(out, n as u64);
    }
}

/// The decimal digits of `n`.
pub fn decimal(n: u64) -> (s: String)
    ensures
        s@ == decimal_text(n as nat),
{
    let mut s = String::new();
    push_decimal(&mut s, n);
    assert(Seq::<char>::empty() + decimal_text(n as nat) =~= decimal_text(n as nat));
    s
}

} // verus!
