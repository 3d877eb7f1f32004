//! Double-precision values carried as their IEEE-754 bit patterns.
//!
//! The library never computes with floating-point numbers: it only compares
//! them and writes them out as hexadecimal literals, and both can be done
//! exactly on the bit pattern.
use crate::text::{i64_text, int_text};
use vstd::prelude::*;

verus! {

/// A double-precision value, as its IEEE-754 bit pattern.
#[derive(Debug, Clone, Copy, PartialEq, Eq, Structural)]
pub struct Double {
    pub bits: u64,
}

/// Bit pattern of the lowest finite single-precision value, widened.
pub const F32_MIN_BITS: u64 = 0xC7EF_FFFF_E000_0000;

/// Bit pattern of the greatest finite single-precision value, widened.
pub const F32_MAX_BITS: u64 = 0x47EF_FFFF_E000_0000;

impl Double {
    pub open spec fn sign(self) -> bool {
        (self.bits >> 63u64) == 1
    }

    pub open spec fn biased_exponent(self) -> u64 {
        (self.bits >> 52u64) & 0x7ffu64
    }

    pub open spec fn fraction(self) -> u64 {
        self.bits & 0xf_ffff_ffff_ffffu64
    }

    /// Not a number: all exponent bits set and a non-zero fraction.
    pub open spec fn is_nan(self) -> bool {
        self.biased_exponent() == 0x7ff && self.fraction() != 0
    }

    /// A key that orders all values that are not NaN as their real values are
    /// ordered (both zeros get the key 0).
    pub open spec fn order_key(self) -> int {
        if self.sign() {
            -((self.bits & 0x7fff_ffff_ffff_ffffu64) as int)
        } else {
            self.bits as int
        }
    }

    /// `self < other` on doubles: false whenever one of them is NaN.
    pub open spec fn spec_lt(self, other: Double) -> bool {
        !self.is_nan() && !other.is_nan() && self.order_key() < other.order_key()
    }

    /// `self <= other` on doubles: false whenever one of them is NaN.
    pub open spec fn spec_le(self, other: Double) -> bool {
        !self.is_nan() && !other.is_nan() && self.order_key() <= other.order_key()
    }

    fn nan(&self) -> (r: bool)
        ensures
            r == self.is_nan(),
    {
        ((self.bits >> 52u64) & 0x7ffu64) == 0x7ff && (self.bits & 0xf_ffff_ffff_ffffu64) != 0
    }

    fn key(&self) -> (r: i128)
        ensures
            r as int == self.order_key(),
    {
        if (self.bits >> 63u64) == 1 {
            -((self.bits & 0x7fff_ffff_ffff_ffffu64) as i128)
        } else {
            self.bits as i128
        }
    }

    /// `self < other`, as doubles compare.
    pub fn less_than(&self, other: &Double) -> (r: bool)
        ensures
            r == self.spec_lt(*other),
    {
        !self.nan() && !other.nan() && self.key() < other.key()
    }

    /// `self <= other`, as doubles compare.
    pub fn at_most(&self, other: &Double) -> (r: bool)
        ensures
            r == self.spec_le(*other),
    {
        !self.nan() && !other.nan() && self.key() <= other.key()
    }
}

impl Double {
    /// Whether the value is a finite value of single-precision range.
    pub open spec fn in_f32_range(self) -> bool {
        Double { bits: F32_MIN_BITS }.spec_le(self) && self.spec_le(Double { bits: F32_MAX_BITS })
    }
}

/// The character of a hexadecimal digit.
pub open spec fn hex_char(d: nat) -> char {
    if d < 10 {
        crate::text::digit_char(d)
    } else if d == 10 {
        'a'
    } else if d == 11 {
        'b'
    } else if d == 12 {
        'c'
    } else if d == 13 {
        'd'
    } else if d == 14 {
        'e'
    } else {
        'f'
    }
}

/// The lowest `n` hexadecimal digits of `f`, most significant first.
pub open spec fn hex_digits(f: nat, n: nat) -> Seq<char>
    decreases n,
{
    if n == 0 {
        Seq::empty()
    } else {
        hex_digits(f / 16, (n - 1) as nat).push(hex_char(f % 16))
    }
}

impl Double {
    /// The power of two of the leading digit: `biased - 1023`, or `-1022`
    /// for zero and subnormal values.
    pub open spec fn binary_exponent(self) -> int {
        if self.biased_exponent() == 0 {
            -1022
        } else {
            self.biased_exponent() - 1023
        }
    }

    /// The exact hexadecimal floating-point literal of the value, as C, C++
    /// and Python's `float.fromhex` read it: an optional '-', `0x1.` (or
    /// `0x0.` for zero and subnormal values), the 13 hexadecimal digits of
    /// the fraction, `p` and the binary exponent in decimal.
    pub open spec fn hex_text(self) -> Seq<char> {
        (if self.sign() { seq!['-'] } else { Seq::empty() }) + (if self.biased_exponent() == 0 {
            seq!['0', 'x', '0', '.']
        } else {
            seq!['0', 'x', '1', '.']
        }) + hex_digits(self.fraction() as nat, 13) + seq!['p'] + int_text(self.binary_exponent())
    }
}

fn hex_str(d: u64) -> (r: &'static str)
    requires
        d < 16,
    ensures
        r@ == seq![hex_char(d as nat)],
{
    proof {
        reveal_strlit("0");
        reveal_strlit("1");
        reveal_strlit("2");
        reveal_strlit("3");
        reveal_strlit("4");
        reveal_strlit("5");
        reveal_strlit("6");
        reveal_strlit("7");
        reveal_strlit("8");
        reveal_strlit("9");
        reveal_strlit("a");
        reveal_strlit("b");
        reveal_strlit("c");
        reveal_strlit("d");
        reveal_strlit("e");
        reveal_strlit("f");
    }
    match d {
        0 => "0",
        1 => "1",
        2 => "2",
        3 => "3",
        4 => "4",
        5 => "5",
        6 => "6",
        7 => "7",
        8 => "8",
        9 => "9",
        10 => "a",
        11 => "b",
        12 => "c",
        13 => "d",
        14 => "e",
        _ => "f",
    }
}

fn hex_digits_text(f: u64, n: u32) -> (r: String)
    ensures
        r@ == hex_digits(f as nat, n as nat),
    decreases n,
{
    if n == 0 {
        String::new()
    } else {
        let mut s = hex_digits_text(f / 16, n - 1);
        s.append(hex_str(f % 16));
        s
    }
}

impl Double {
    /// The exact hexadecimal floating-point literal of the value.
    pub fn to_hex_literal(&self) -> (r: String)
        ensures
            r@ == self.hex_text(),
    {
        let be = (self.bits >> 52u64) & 0x7ffu64;
        let fr = self.bits & 0xf_ffff_ffff_ffffu64;
        let b = self.bits;
        assert((b >> 52u64) & 0x7ffu64 <= 0x7ffu64) by (bit_vector);
        let mut s = if (self.bits >> 63u64) == 1 { "-".to_owned() } else { String::new() };
        if be == 0 {
            s.append("0x0.");
        } else {
            s.append("0x1.");
        }
        s.append(hex_digits_text(fr, 13).as_str());
        s.append("p");
        let e: i64 = if be == 0 { -1022 } else { be as i64 - 1023 };
        s.append(i64_text(e).as_str());
        proof {
            reveal_strlit("-");
            reveal_strlit("0x0.");
            reveal_strlit("0x1.");
            reveal_strlit("p");
            assert(e as int == self.binary_exponent());
            if self.biased_exponent() == 0 {
                assert("0x0."@ =~= seq!['0', 'x', '0', '.']);
            } else {
                assert("0x1."@ =~= seq!['0', 'x', '1', '.']);
            }
            assert(s@ =~= self.hex_text());
        }
        s
    }
}

} // verus!
