//! Rendering numbers into message text: decimal, and fixed-width lowercase
//! hexadecimal.
use crate::types::HashValue;
use vstd::prelude::*;
use vstd::string::StringExecFns;

verus! {

/// The character of digit `d` (below sixteen): `0`-`9`, then `a`-`f`.
pub open spec fn digit_char(d: int) -> char {
    if d < 10 {
        (48 + d) as char
    } else {
        (87 + d) as char
    }
}

/// The decimal digits of `n`, most significant first, without leading zeros.
pub open spec fn decimal(n: nat) -> Seq<char>
    decreases n,
{
    if n < 10 {
        seq![digit_char(n as int)]
    } else {
        decimal(n / 10).push(digit_char((n % 10) as int))
    }
}

/// The lowest `width` hexadecimal digits of `n`, most significant first.
pub open spec fn hex_fixed(n: nat, width: nat) -> Seq<char>
    decreases width,
{
    if width == 0 {
        Seq::empty()
    } else {
        hex_fixed(n / 16, (width - 1) as nat).push(digit_char((n % 16) as int))
    }
}

/// The one-character text of digit `d`.
fn digit_str(d: u8) -> (s: &'static str)
    requires
        d < 16,
    ensures
        s@ == seq![digit_char(d as int)],
{
    match d {
        0 => {
            proof { reveal_strlit("0"); }
            "0"
        },
        1 => {
            proof { reveal_strlit("1"); }
            "1"
        },
        2 => {
            proof { reveal_strlit("2"); }
            "2"
        },
        3 => {
            proof { reveal_strlit("3"); }
            "3"
        },
        4 => {
            proof { reveal_strlit("4"); }
            "4"
        },
        5 => {
            proof { reveal_strlit("5"); }
            "5"
        },
        6 => {
            proof { reveal_strlit("6"); }
            "6"
        },
        7 => {
            proof { reveal_strlit("7"); }
            "7"
        },
        8 => {
            proof { reveal_strlit("8"); }
            "8"
        },
        9 => {
            proof { reveal_strlit("9"); }
            "9"
        },
        10 => {
            proof { reveal_strlit("a"); }
            "a"
        },
        11 => {
            proof { reveal_strlit("b"); }
            "b"
        },
        12 => {
            proof { reveal_strlit("c"); }
            "c"
        },
        13 => {
            proof { reveal_strlit("d"); }
            "d"
        },
        14 => {
            proof { reveal_strlit("e"); }
            "e"
        },
        _ => {
            proof { reveal_strlit("f"); }
            "f"
        },
    }
}

/// Appends the decimal digits of `n` to `out`.
pub fn push_decimal(out: &mut String, n: u64)
    ensures
        final(out)@ == old(out)@ + decimal(n as nat),
    decreases n,
{
    if n >= 10 {
        push_decimal(out, n / 10);
    }
    let d: u8 = (n % 10) as u8;
    out.append(digit_str(d));
    proof {
        if n >= 10 {
            assert(decimal(n as nat) == decimal((n / 10) as nat).push(digit_char((n % 10) as int)));
        }
    }
    assert(out@ =~= old(out)@ + decimal(n as nat)) by {
        if n < 10 {
            assert(decimal(n as nat) == seq![digit_char(n as int)]);
        }
    }
}

/// Appends the lowest `width` hexadecimal digits of `n` to `out`.
pub fn push_hex_fixed(out: &mut String, n: u128, width: u32)
    ensures
        final(out)@ == old(out)@ + hex_fixed(n as nat, width as nat),
    decreases width,
{
    if width == 0 {
        assert(out@ =~= old(out)@ + hex_fixed(n as nat, 0));
        return;
    }
    push_hex_fixed(out, n / 16, width - 1);
    let d: u8 = (n % 16) as u8;
    out.append(digit_str(d));
    assert(out@ =~= old(out)@ + hex_fixed(n as nat, width as nat));
}

/// A hash value as 64 lowercase hexadecimal digits, most significant first.
pub open spec fn hash_hex(h: HashValue) -> Seq<char> {
    hex_fixed(h.hi as nat, 32) + hex_fixed(h.lo as nat, 32)
}

/// Appends the 64 hexadecimal digits of a hash value to `out`.
pub fn push_hash_hex(out: &mut String, h: HashValue)
    ensures
        final(out)@ == old(out)@ + hash_hex(h),
{
    push_hex_fixed(out, h.hi, 32);
    push_hex_fixed(out, h.lo, 32);
    assert(out@ =~= old(out)@ + hash_hex(h));
}


/// The number that a sequence of digit characters spells, most significant first.
pub open spec fn digits_value(s: Seq<char>, base: int) -> int
    decreases s.len(),
{
    if s.len() == 0 {
        0
    } else {
        digits_value(s.drop_last(), base) * base + digit_of(s.last())
    }
}

/// The value of a digit character (`0`-`9`, then `a`-`f`).
pub open spec fn digit_of(c: char) -> int {
    if '0' <= c && c <= '9' {
        c as int - 48
    } else {
        c as int - 87
    }
}

/// Whether a character is a decimal digit.
pub open spec fn is_decimal_digit(c: char) -> bool {
    '0' <= c && c <= '9'
}

/// Whether a character is a lowercase hexadecimal digit.
pub open spec fn is_hex_digit(c: char) -> bool {
    ('0' <= c && c <= '9') || ('a' <= c && c <= 'f')
}

/// The decimal form of a number is made of decimal digits, has no leading
/// zero (but for zero itself) and spells the number.
pub proof fn lemma_decimal_spells_number(n: nat)
    ensures
        decimal(n).len() >= 1,
        forall|i: int| 0 <= i < decimal(n).len() ==> is_decimal_digit(#[trigger] decimal(n)[i]),
        n > 0 ==> decimal(n)[0] != '0',
        digits_value(decimal(n), 10) == n,
    decreases n,
{
    if n >= 10 {
        lemma_decimal_spells_number(n / 10);
        let t = decimal(n / 10);
        let d = digit_char((n % 10) as int);
        assert(decimal(n) == t.push(d));
        assert(t.push(d).drop_last() =~= t);
        assert forall|i: int| 0 <= i < decimal(n).len() implies is_decimal_digit(#[trigger] decimal(n)[i]) by {
            if i < t.len() {
                assert(decimal(n)[i] == t[i]);
            }
        }
        assert(decimal(n)[0] == t[0]);
        assert(digit_of(d) == n % 10);
        assert(digits_value(decimal(n), 10) == digits_value(t, 10) * 10 + digit_of(d));
        vstd::arithmetic::div_mod::lemma_fundamental_div_mod(n as int, 10);
        assert((n / 10) * 10 == 10 * (n / 10)) by (nonlinear_arith);
        assert(digits_value(t, 10) == n / 10);
        assert(digits_value(decimal(n), 10) == n);
    } else {
        assert(decimal(n) == seq![digit_char(n as int)]);
        let one = seq![digit_char(n as int)];
        assert(one.drop_last() =~= Seq::<char>::empty());
        assert(digits_value(one.drop_last(), 10) == 0);
        assert(one.last() == digit_char(n as int));
        assert(digit_of(digit_char(n as int)) == n);
        assert(digits_value(one, 10) == 0 * 10 + digit_of(one.last()));
    }
}

/// The fixed-width hexadecimal form of a number has exactly the width asked
/// for, is made of lowercase hexadecimal digits, and spells the number's
/// value below sixteen to the width.
pub proof fn lemma_hex_spells_number(n: nat, width: nat)
    ensures
        hex_fixed(n, width).len() == width,
        forall|i: int| 0 <= i < hex_fixed(n, width).len() ==> is_hex_digit(#[trigger] hex_fixed(n, width)[i]),
        digits_value(hex_fixed(n, width), 16) == (n as int) % vstd::arithmetic::power::pow(16, width as nat),
    decreases width,
{
    reveal(vstd::arithmetic::power::pow);
    if width > 0 {
        let w = (width - 1) as nat;
        lemma_hex_spells_number(n / 16, w);
        let t = hex_fixed(n / 16, w);
        let d = digit_char((n % 16) as int);
        assert(hex_fixed(n, width) == t.push(d));
        assert(t.push(d).drop_last() =~= t);
        assert forall|i: int| 0 <= i < hex_fixed(n, width).len() implies is_hex_digit(
            #[trigger] hex_fixed(n, width)[i],
        ) by {
            if i < t.len() {
                assert(hex_fixed(n, width)[i] == t[i]);
            }
        }
        let p = vstd::arithmetic::power::pow(16, w);
        vstd::arithmetic::power::lemma_pow_positive(16, w);
        assert(vstd::arithmetic::power::pow(16, width) == 16 * p);
        // n % (16 p) == (n / 16 % p) * 16 + n % 16
        vstd::arithmetic::div_mod::lemma_breakdown(n as int, 16, p);
        assert(digits_value(hex_fixed(n, width), 16) == (((n / 16) as int) % p) * 16 + (n as int) % 16);
        assert((16 * p) == p * 16) by (nonlinear_arith);
    }
}

} // verus!
