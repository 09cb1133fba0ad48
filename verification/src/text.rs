//! Numbers as text.

use vstd::prelude::*;
use vstd::string::StringExecFns;

verus! {

/// The character for `d`, in bases up to sixteen.
pub open spec fn digit(d: nat) -> char {
    if d < 10 {
        (48 + d) as char
    } else {
        (87 + d) as char
    }
}

/// The digits of `n` in base `radix`, highest first and without leading zeros.
pub open spec fn digits(n: nat, radix: nat) -> Seq<char>
    decreases n,
{
    if radix < 2 || n < radix {
        seq![digit(n)]
    } else {
        proof {
            assert(n / radix < n) by (nonlinear_arith)
                requires
                    n >= radix,
                    radix >= 2,
            ;
        }
        digits(n / radix, radix).push(digit(n % radix))
    }
}

/// The `width` lowest digits of `n` in base sixteen.
pub open spec fn padded_hex(n: nat, width: nat) -> Seq<char>
    decreases width,
{
    if width == 0 {
        Seq::empty()
    } else {
        padded_hex(n / 16, (width - 1) as nat).push(digit(n % 16))
    }
}

/// `n` in base ten.
pub open spec fn decimal(n: nat) -> Seq<char> {
    digits(n, 10)
}

/// `n` in base sixteen, with its prefix.
pub open spec fn hex(n: nat) -> Seq<char> {
    "0x"@ + digits(n, 16)
}

/// `n` as eight digits in base sixteen, with their prefix.
pub open spec fn hex_word(n: nat) -> Seq<char> {
    "0x"@ + padded_hex(n, 8)
}

/// What `{:?}` prints for a duration.
pub uninterp spec fn duration_debug(duration: core::time::Duration) -> Seq<char>;

/// Prints a duration with its `Debug` implementation. Nothing is claimed but that the text
/// depends on the duration alone.
#[verifier::external_body]
pub(crate) fn duration_text(duration: core::time::Duration) -> (r: String)
    ensures
        r@ == duration_debug(duration),
{
    format!("{duration:?}")
}

fn digit_text(d: u64) -> (r: &'static str)
    requires
        d < 16,
    ensures
        r@ == seq![digit(d as nat)],
{
    proof {
        reveal_strlit("0");
        reveal_strlit("1");
        reveal_strlit("2");
        reveal_strlit("3");
        reveal_strlit("4");
        reveal_strlit("5");
        reveal_strlit("6");
        reveal_strlit("7");
        reveal_strlit("8");
        reveal_strlit("9");
        reveal_strlit("a");
        reveal_strlit("b");
        reveal_strlit("c");
        reveal_strlit("d");
        reveal_strlit("e");
        reveal_strlit("f");
    }
    let r = match d {
        0 => "0",
        1 => "1",
        2 => "2",
        3 => "3",
        4 => "4",
        5 => "5",
        6 => "6",
        7 => "7",
        8 => "8",
        9 => "9",
        10 => "a",
        11 => "b",
        12 => "c",
        13 => "d",
        14 => "e",
        _ => "f",
    };
    assert(r@ =~= seq![digit(d as nat)]);
    r
}

fn append_digits(out: &mut String, n: u64, radix: u64)
    requires
        2 <= radix <= 16,
    ensures
        final(out)@ == old(out)@ + digits(n as nat, radix as nat),
    decreases n,
{
    if n >= radix {
        proof {
            assert(n / radix < n) by (nonlinear_arith)
                requires
                    n >= radix,
                    radix >= 2,
            ;
            assert(n % radix < radix) by (nonlinear_arith)
                requires
                    radix >= 2,
            ;
        }
        append_digits(out, n / radix, radix);
        out.append(digit_text(n % radix));
        assert(out@ =~= old(out)@ + digits(n as nat, radix as nat));
    } else {
        out.append(digit_text(n));
    }
}

fn append_padded(out: &mut String, n: u64, width: u64)
    ensures
        final(out)@ == old(out)@ + padded_hex(n as nat, width as nat),
    decreases width,
{
    if width > 0 {
        append_padded(out, n / 16, width - 1);
        out.append(digit_text(n % 16));
    }
    assert(out@ =~= old(out)@ + padded_hex(n as nat, width as nat));
}

/// Appends `n` in base ten.
pub fn append_decimal(out: &mut String, n: u64)
    ensures
        final(out)@ == old(out)@ + decimal(n as nat),
{
    append_digits(out, n, 10);
}

/// Appends `n` in base sixteen, with its prefix.
pub fn append_hex(out: &mut String, n: u64)
    ensures
        final(out)@ == old(out)@ + hex(n as nat),
{
    out.append("0x");
    append_digits(out, n, 16);
    assert(out@ =~= old(out)@ + hex(n as nat));
}

/// Appends `n` as eight digits in base sixteen, with their prefix.
pub fn append_hex_word(out: &mut String, n: u32)
    ensures
        final(out)@ == old(out)@ + hex_word(n as nat),
{
    out.append("0x");
    append_padded(out, n as u64, 8);
    assert(out@ =~= old(out)@ + hex_word(n as nat));
}

/// The number that a character stands for as a digit.
pub open spec fn digit_value(c: char) -> int {
    if '0' <= c && c <= '9' {
        c as int - '0' as int
    } else {
        c as int - 'a' as int + 10
    }
}

/// The number that characters stand for as digits in base `radix`, the highest first.
pub open spec fn number_of(s: Seq<char>, radix: int) -> int
    decreases s.len(),
{
    if s.len() == 0 {
        0
    } else {
        number_of(s.drop_last(), radix) * radix + digit_value(s.last())
    }
}

/// A digit is the character that stands for it.
pub proof fn law_digit(d: nat)
    requires
        d < 16,
    ensures
        digit_value(digit(d)) == d,
        d < 10 ==> '0' <= digit(d) && digit(d) <= '9',
        d >= 10 ==> 'a' <= digit(d) && digit(d) <= 'f',
{
}

/// The digits of a number read as that number, and there is no zero before them.
pub proof fn law_digits_read_back(n: nat, radix: nat)
    requires
        2 <= radix <= 16,
    ensures
        number_of(digits(n, radix), radix as int) == n,
        digits(n, radix).len() > 0,
        n > 0 ==> digits(n, radix)[0] != '0',
        n == 0 ==> digits(n, radix) =~= seq!['0'],
    decreases n,
{
    if n < radix {
        let s = digits(n, radix);
        assert(s.drop_last() =~= Seq::<char>::empty());
        law_digit(n);
        assert(number_of(s.drop_last(), radix as int) == 0);
    } else {
        assert(n / radix < n && n / radix > 0 && n % radix < radix) by (nonlinear_arith)
            requires
                n >= radix,
                radix >= 2,
        ;
        law_digits_read_back(n / radix, radix);
        law_digit(n % radix);
        let s = digits(n, radix);
        assert(s.drop_last() =~= digits(n / radix, radix));
        vstd::arithmetic::div_mod::lemma_fundamental_div_mod(n as int, radix as int);
        assert(radix * (n / radix) == (n / radix) * radix) by (nonlinear_arith);
    }
}

/// A number is told in base ten, and in base sixteen after its prefix, so that it can be read back;
/// different numbers are told differently.
pub proof fn law_numbers_told(n: nat, other: nat)
    ensures
        number_of(decimal(n), 10) == n,
        hex(n).take(2) =~= seq!['0', 'x'],
        number_of(hex(n).skip(2), 16) == n,
        decimal(n) == decimal(other) ==> n == other,
        hex(n) == hex(other) ==> n == other,
{
    reveal_strlit("0x");
    law_digits_read_back(n, 10);
    law_digits_read_back(n, 16);
    law_digits_read_back(other, 10);
    law_digits_read_back(other, 16);
    assert(hex(n).skip(2) =~= digits(n, 16));
    assert(hex(other).skip(2) =~= digits(other, 16));
    assert(hex(n).take(2) =~= "0x"@);
    assert("0x"@ =~= seq!['0', 'x']);
}

proof fn lemma_padded(n: nat, width: nat)
    ensures
        padded_hex(n, width).len() == width,
        number_of(padded_hex(n, width), 16) == n % (vstd::arithmetic::power::pow(16, width) as nat),
        vstd::arithmetic::power::pow(16, width) > 0,
    decreases width,
{
    reveal(vstd::arithmetic::power::pow);
    if width > 0 {
        let p = vstd::arithmetic::power::pow(16, (width - 1) as nat) as nat;
        lemma_padded(n / 16, (width - 1) as nat);
        let s = padded_hex(n, width);
        assert(s.drop_last() =~= padded_hex(n / 16, (width - 1) as nat));
        law_digit(n % 16);
        vstd::arithmetic::div_mod::lemma_mod_breakdown(n as int, 16, p as int);
    }
}

/// A word is told as eight digits in base sixteen after their prefix, so that it can be read back.
pub proof fn law_word_told(n: u32)
    ensures
        hex_word(n as nat).len() == 10,
        hex_word(n as nat).take(2) =~= seq!['0', 'x'],
        number_of(hex_word(n as nat).skip(2), 16) == n,
{
    reveal_strlit("0x");
    lemma_padded(n as nat, 8);
    assert(vstd::arithmetic::power::pow(16, 8) == 0x1_0000_0000) by {
        reveal(vstd::arithmetic::power::pow);
        reveal_with_fuel(vstd::arithmetic::power::pow, 9);
    }
    vstd::arithmetic::div_mod::lemma_small_mod(n as nat, 0x1_0000_0000);
    assert(hex_word(n as nat).skip(2) =~= padded_hex(n as nat, 8));
    assert(hex_word(n as nat).take(2) =~= "0x"@);
    assert("0x"@ =~= seq!['0', 'x']);
}

} // verus!
