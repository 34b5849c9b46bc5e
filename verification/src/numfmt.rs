//! Verified rendering of the report's numeric fields: unsigned decimal,
//! octal and lowercase hexadecimal, and signed decimal. Each executable
//! function is proved to produce exactly the digit sequence its spec
//! function describes.

use vstd::prelude::*;

use vstd::string::StringExecFns;

verus! {

/// The character of one digit value, for any base up to sixteen; digits ten
/// to fifteen use the lowercase letters.
pub open spec fn digit_char(d: int) -> char {
    if d == 0 {
        '0'
    } else if d == 1 {
        '1'
    } else if d == 2 {
        '2'
    } else if d == 3 {
        '3'
    } else if d == 4 {
        '4'
    } else if d == 5 {
        '5'
    } else if d == 6 {
        '6'
    } else if d == 7 {
        '7'
    } else if d == 8 {
        '8'
    } else if d == 9 {
        '9'
    } else if d == 10 {
        'a'
    } else if d == 11 {
        'b'
    } else if d == 12 {
        'c'
    } else if d == 13 {
        'd'
    } else if d == 14 {
        'e'
    } else {
        'f'
    }
}

/// The digits of `n` in base `base`, most significant first, with no
/// leading zeros (zero itself is the single digit '0').
pub open spec fn digits_seq(n: nat, base: nat) -> Seq<char>
    recommends
        2 <= base <= 16,
    decreases n,
    when 2 <= base
    via digits_seq_decreases
{
    if n < base {
        seq![digit_char(n as int)]
    } else {
        digits_seq(n / base, base) + seq![digit_char((n % base) as int)]
    }
}

#[via_fn]
proof fn digits_seq_decreases(n: nat, base: nat) {
    if 2 <= base && base <= n {
        vstd::arithmetic::div_mod::lemma_div_decreases(n as int, base as int);
    }
}

/// The decimal rendering of an unsigned value.
pub open spec fn dec_seq(n: nat) -> Seq<char> {
    digits_seq(n, 10)
}

/// The octal rendering of an unsigned value.
pub open spec fn oct_seq(n: nat) -> Seq<char> {
    digits_seq(n, 8)
}

/// The lowercase hexadecimal rendering of an unsigned value.
pub open spec fn hex_seq(n: nat) -> Seq<char> {
    digits_seq(n, 16)
}

/// The decimal rendering of a signed value: a leading minus sign before the
/// magnitude when negative.
pub open spec fn i64_dec_seq(n: int) -> Seq<char> {
    if n >= 0 {
        dec_seq(n as nat)
    } else {
        seq!['-'] + dec_seq((-n) as nat)
    }
}

/// The one-character string of one digit value.
fn digit_str(d: u64) -> (r: &'static str)
    requires
        d < 16,
    ensures
        r@ == seq![digit_char(d as int)],
{
    if d == 0 {
        proof {
            reveal_strlit("0");
        }
        assert("0"@ =~= seq!['0']);
        "0"
    } else if d == 1 {
        proof {
            reveal_strlit("1");
        }
        assert("1"@ =~= seq!['1']);
        "1"
    } else if d == 2 {
        proof {
            reveal_strlit("2");
        }
        assert("2"@ =~= seq!['2']);
        "2"
    } else if d == 3 {
        proof {
            reveal_strlit("3");
        }
        assert("3"@ =~= seq!['3']);
        "3"
    } else if d == 4 {
        proof {
            reveal_strlit("4");
        }
        assert("4"@ =~= seq!['4']);
        "4"
    } else if d == 5 {
        proof {
            reveal_strlit("5");
        }
        assert("5"@ =~= seq!['5']);
        "5"
    } else if d == 6 {
        proof {
            reveal_strlit("6");
        }
        assert("6"@ =~= seq!['6']);
        "6"
    } else if d == 7 {
        proof {
            reveal_strlit("7");
        }
        assert("7"@ =~= seq!['7']);
        "7"
    } else if d == 8 {
        proof {
            reveal_strlit("8");
        }
        assert("8"@ =~= seq!['8']);
        "8"
    } else if d == 9 {
        proof {
            reveal_strlit("9");
        }
        assert("9"@ =~= seq!['9']);
        "9"
    } else if d == 10 {
        proof {
            reveal_strlit("a");
        }
        assert("a"@ =~= seq!['a']);
        "a"
    } else if d == 11 {
        proof {
            reveal_strlit("b");
        }
        assert("b"@ =~= seq!['b']);
        "b"
    } else if d == 12 {
        proof {
            reveal_strlit("c");
        }
        assert("c"@ =~= seq!['c']);
        "c"
    } else if d == 13 {
        proof {
            reveal_strlit("d");
        }
        assert("d"@ =~= seq!['d']);
        "d"
    } else if d == 14 {
        proof {
            reveal_strlit("e");
        }
        assert("e"@ =~= seq!['e']);
        "e"
    } else {
        proof {
            reveal_strlit("f");
        }
        assert("f"@ =~= seq!['f']);
        "f"
    }
}

/// Renders `n` in the given base, most significant digit first.
fn u64_to_base(n: u64, base: u64) -> (r: String)
    requires
        2 <= base <= 16,
    ensures
        r@ == digits_seq(n as nat, base as nat),
    decreases n,
{
    if n < base {
        String::from_str(digit_str(n))
    } else {
        proof {
            vstd::arithmetic::div_mod::lemma_div_decreases(n as int, base as int);
        }
        let mut r = u64_to_base(n / base, base);
        r.append(digit_str(n % base));
        r
    }
}

/// The decimal string of an unsigned value.
pub fn u64_to_dec(n: u64) -> (r: String)
    ensures
        r@ == dec_seq(n as nat),
{
    u64_to_base(n, 10)
}

/// The octal string of an unsigned value.
pub fn u64_to_oct(n: u64) -> (r: String)
    ensures
        r@ == oct_seq(n as nat),
{
    u64_to_base(n, 8)
}

/// The lowercase hexadecimal string of an unsigned value.
pub fn u64_to_hex(n: u64) -> (r: String)
    ensures
        r@ == hex_seq(n as nat),
{
    u64_to_base(n, 16)
}

/// The decimal string of a signed value.
pub fn i64_to_dec(n: i64) -> (r: String)
    ensures
        r@ == i64_dec_seq(n as int),
{
    if n >= 0 {
        u64_to_dec(n as u64)
    } else {
        let wide: i128 = n as i128;
        let magnitude: u64 = (-wide) as u64;
        let mut r = String::from_str("-");
        let digits = u64_to_dec(magnitude);
        r.append(digits.as_str());
        proof {
            reveal_strlit("-");
        }
        assert("-"@ =~= seq!['-']);
        r
    }
}

} // verus!
