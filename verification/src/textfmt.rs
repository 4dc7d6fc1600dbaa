//! Decimal text rendering: unsigned integers, fixed-width digit fields,
//! and scaled decimal values (`raw / 10^exp`).

use vstd::prelude::*;
use vstd::string::StringExecFns;

verus! {

/// `10^k`.
pub open spec fn pow10(k: nat) -> nat
    decreases k,
{
    if k == 0 {
        1
    } else {
        10 * pow10((k - 1) as nat)
    }
}

pub proof fn lemma_pow10_table()
    ensures
        pow10(0) == 1,
        pow10(1) == 10,
        pow10(2) == 100,
        pow10(3) == 1000,
        pow10(4) == 10000,
        pow10(5) == 100000,
        pow10(6) == 1000000,
        pow10(7) == 10000000,
        pow10(8) == 100000000,
        pow10(9) == 1000000000,
{
    reveal_with_fuel(pow10, 11);
}

/// `10^k` as a machine integer, for exponents whose power fits in `u32`.
pub fn pow10_u32(k: u8) -> (r: u32)
    requires
        k <= 9,
    ensures
        r == pow10(k as nat),
{
    proof {
        lemma_pow10_table();
    }
    match k {
        0 => 1,
        1 => 10,
        2 => 100,
        3 => 1000,
        4 => 10000,
        5 => 100000,
        6 => 1000000,
        7 => 10000000,
        8 => 100000000,
        _ => 1000000000,
    }
}

/// The character for one decimal digit.
pub open spec fn digit_char(d: nat) -> char {
    if d == 0 {
        '0'
    } else if d == 1 {
        '1'
    } else if d == 2 {
        '2'
    } else if d == 3 {
        '3'
    } else if d == 4 {
        '4'
    } else if d == 5 {
        '5'
    } else if d == 6 {
        '6'
    } else if d == 7 {
        '7'
    } else if d == 8 {
        '8'
    } else {
        '9'
    }
}

/// Decimal digits of `n`, most significant first, without leading zeros
/// (a single `'0'` for `n == 0`).
pub open spec fn spec_digits(n: nat) -> Seq<char>
    decreases n,
{
    if n < 10 {
        seq![digit_char(n)]
    } else {
        spec_digits(n / 10).push(digit_char(n % 10))
    }
}

/// Exactly `k` decimal digits: the `k` lowest digits of `n`, zero-padded.
pub open spec fn spec_fixed(n: nat, k: nat) -> Seq<char>
    decreases k,
{
    if k == 0 {
        Seq::<char>::empty()
    } else {
        spec_fixed(n / 10, (k - 1) as nat).push(digit_char(n % 10))
    }
}

/// Rendering of the scaled decimal `raw / 10^k`: trailing zeros of the
/// fraction are dropped, and the point is dropped with the last of them.
pub open spec fn spec_scaled(raw: nat, k: nat) -> Seq<char>
    decreases k,
{
    if k > 0 && raw % 10 == 0 {
        spec_scaled(raw / 10, (k - 1) as nat)
    } else if k == 0 {
        spec_digits(raw)
    } else {
        spec_digits(raw / pow10(k)) + seq!['.'] + spec_fixed(raw % pow10(k), k)
    }
}

/// Occurrences of the character `c` in `s`.
pub open spec fn count_char(s: Seq<char>, c: char) -> nat
    decreases s.len(),
{
    if s.len() == 0 {
        0
    } else {
        count_char(s.drop_last(), c) + (if s.last() == c {
            1nat
        } else {
            0nat
        })
    }
}

/// Counting a character distributes over concatenation.
pub proof fn lemma_count_char_concat(a: Seq<char>, b: Seq<char>, c: char)
    ensures
        count_char(a + b, c) == count_char(a, c) + count_char(b, c),
    decreases b.len(),
{
    if b.len() == 0 {
        assert(a + b =~= a);
    } else {
        assert((a + b).drop_last() =~= a + b.drop_last());
        lemma_count_char_concat(a, b.drop_last(), c);
    }
}

/// A one-character sequence counts one occurrence of that character and
/// zero of any other.
pub proof fn lemma_count_char_single(x: char, c: char)
    ensures
        count_char(seq![x], c) == (if x == c {
            1nat
        } else {
            0nat
        }),
{
    reveal_with_fuel(count_char, 2);
    assert(seq![x].drop_last() =~= Seq::<char>::empty());
}

/// A sequence without `c` counts zero occurrences of it.
pub proof fn lemma_count_char_zero(s: Seq<char>, c: char)
    requires
        forall|i: int| 0 <= i < s.len() ==> s[i] != c,
    ensures
        count_char(s, c) == 0,
    decreases s.len(),
{
    if s.len() > 0 {
        lemma_count_char_zero(s.drop_last(), c);
    }
}

/// `c` is one of the ten decimal digit characters.
pub open spec fn char_is_digit(c: char) -> bool {
    c == '0' || c == '1' || c == '2' || c == '3' || c == '4' || c == '5' || c == '6' || c == '7'
        || c == '8' || c == '9'
}

/// A rendered integer consists of digit characters alone.
pub proof fn lemma_digits_all_digits(n: nat)
    ensures
        forall|i: int| 0 <= i < spec_digits(n).len() ==> char_is_digit(#[trigger] spec_digits(n)[i]),
    decreases n,
{
    if n >= 10 {
        lemma_digits_all_digits(n / 10);
        assert forall|i: int|
            0 <= i < spec_digits(n).len() implies char_is_digit(#[trigger] spec_digits(n)[i]) by {
            if i < spec_digits(n / 10).len() {
                assert(spec_digits(n)[i] == spec_digits(n / 10)[i]);
            }
        }
    }
}

/// A fixed-width digit field consists of digit characters alone.
pub proof fn lemma_fixed_all_digits(n: nat, k: nat)
    ensures
        forall|i: int|
            0 <= i < spec_fixed(n, k).len() ==> char_is_digit(#[trigger] spec_fixed(n, k)[i]),
    decreases k,
{
    if k > 0 {
        lemma_fixed_all_digits(n / 10, (k - 1) as nat);
        assert forall|i: int|
            0 <= i < spec_fixed(n, k).len() implies char_is_digit(
            #[trigger] spec_fixed(n, k)[i],
        ) by {
            if i < spec_fixed(n / 10, (k - 1) as nat).len() {
                assert(spec_fixed(n, k)[i] == spec_fixed(n / 10, (k - 1) as nat)[i]);
            }
        }
    }
}

/// A character that is neither a digit nor the point does not occur in a
/// rendered integer.
pub proof fn lemma_digits_clean(n: nat, c: char)
    requires
        !char_is_digit(c),
    ensures
        count_char(spec_digits(n), c) == 0,
{
    lemma_digits_all_digits(n);
    lemma_count_char_zero(spec_digits(n), c);
}

/// A character that is not a digit does not occur in a fixed-width field.
pub proof fn lemma_fixed_clean(n: nat, k: nat, c: char)
    requires
        !char_is_digit(c),
    ensures
        count_char(spec_fixed(n, k), c) == 0,
{
    lemma_fixed_all_digits(n, k);
    lemma_count_char_zero(spec_fixed(n, k), c);
}

/// A character that is neither a digit nor the decimal point does not
/// occur in a rendered scaled value.
pub proof fn lemma_scaled_clean(raw: nat, k: nat, c: char)
    requires
        !char_is_digit(c),
        c != '.',
    ensures
        count_char(spec_scaled(raw, k), c) == 0,
    decreases k,
{
    if k > 0 && raw % 10 == 0 {
        lemma_scaled_clean(raw / 10, (k - 1) as nat, c);
    } else if k == 0 {
        lemma_digits_clean(raw, c);
    } else {
        lemma_digits_clean(raw / pow10(k), c);
        lemma_fixed_clean(raw % pow10(k), k, c);
        lemma_count_char_single('.', c);
        lemma_count_char_concat(spec_digits(raw / pow10(k)), seq!['.'], c);
        lemma_count_char_concat(
            spec_digits(raw / pow10(k)) + seq!['.'],
            spec_fixed(raw % pow10(k), k),
            c,
        );
    }
}

fn digit_str(d: u8) -> (r: &'static str)
    requires
        d < 10,
    ensures
        r@ == seq![digit_char(d as nat)],
{
    let r = match d {
        0 => "0",
        1 => "1",
        2 => "2",
        3 => "3",
        4 => "4",
        5 => "5",
        6 => "6",
        7 => "7",
        8 => "8",
        _ => "9",
    };
    proof {
        reveal_strlit("0");
        reveal_strlit("1");
        reveal_strlit("2");
        reveal_strlit("3");
        reveal_strlit("4");
        reveal_strlit("5");
        reveal_strlit("6");
        reveal_strlit("7");
        reveal_strlit("8");
        reveal_strlit("9");
        assert(r@ =~= seq![digit_char(d as nat)]);
    }
    r
}

/// Appends the decimal digits of `n` to `out`.
pub fn push_digits(out: &mut String, n: u32)
    ensures
        final(out)@ == old(out)@ + spec_digits(n as nat),
    decreases n,
{
    if n >= 10 {
        push_digits(out, n / 10);
    }
    out.append(digit_str((n % 10) as u8));
    proof {
        assert(final(out)@ =~= old(out)@ + spec_digits(n as nat));
    }
}

/// Appends exactly `k` decimal digits of `n` to `out`, zero-padded.
pub fn push_fixed(out: &mut String, n: u32, k: u8)
    ensures
        final(out)@ == old(out)@ + spec_fixed(n as nat, k as nat),
    decreases k,
{
    if k > 0 {
        push_fixed(out, n / 10, k - 1);
        out.append(digit_str((n % 10) as u8));
    }
    proof {
        assert(final(out)@ =~= old(out)@ + spec_fixed(n as nat, k as nat));
    }
}

/// The decimal digits of `n` as a `String`.
pub fn u32_string(n: u32) -> (r: String)
    ensures
        r@ == spec_digits(n as nat),
{
    let mut s = String::new();
    push_digits(&mut s, n);
    proof {
        assert(s@ =~= spec_digits(n as nat));
    }
    s
}

/// Renders `raw / 10^exp` as decimal text.
pub fn scaled_string(raw: u32, exp: u8) -> (r: String)
    requires
        exp <= 9,
    ensures
        r@ == spec_scaled(raw as nat, exp as nat),
{
    let mut rest: u32 = raw;
    let mut k: u8 = exp;
    while k > 0 && rest % 10 == 0
        invariant
            k <= 9,
            spec_scaled(rest as nat, k as nat) == spec_scaled(raw as nat, exp as nat),
        decreases k,
    {
        rest = rest / 10;
        k = k - 1;
    }
    let mut s = String::new();
    if k == 0 {
        push_digits(&mut s, rest);
    } else {
        let d = pow10_u32(k);
        proof {
            lemma_pow10_table();
        }
        push_digits(&mut s, rest / d);
        s.append(".");
        proof {
            reveal_strlit(".");
            assert("."@ =~= seq!['.']);
        }
        push_fixed(&mut s, rest % d, k);
    }
    proof {
        assert(s@ =~= spec_scaled(raw as nat, exp as nat));
    }
    s
}

} // verus!
