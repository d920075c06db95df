//! Unsigned 256-bit integers: the width in which a token registry counts its
//! supply and numbers its tokens.

use vstd::prelude::*;
use vstd::string::*;

verus! {

/// An unsigned 256-bit integer, held as four 64-bit limbs.
#[derive(Clone, Copy, Debug, PartialEq, Eq, Structural)]
pub struct U256 {
    /// Bits 0 to 63.
    pub w0: u64,
    /// Bits 64 to 127.
    pub w1: u64,
    /// Bits 128 to 191.
    pub w2: u64,
    /// Bits 192 to 255.
    pub w3: u64,
}

/// The number that four limbs stand for, least significant first.
pub open spec fn limbs_value(w0: u64, w1: u64, w2: u64, w3: u64) -> nat {
    (w0 as nat) + (w1 as nat) * 0x1_0000_0000_0000_0000nat
        + (w2 as nat) * 0x1_0000_0000_0000_0000_0000_0000_0000_0000nat
        + (w3 as nat) * 0x1_0000_0000_0000_0000_0000_0000_0000_0000_0000_0000_0000_0000nat
}

/// The largest number that fits: 2^256 - 1.
pub open spec fn max_value() -> nat {
    0xffff_ffff_ffff_ffff_ffff_ffff_ffff_ffff_ffff_ffff_ffff_ffff_ffff_ffff_ffff_ffffnat
}

/// The character that writes the digit `d`.
pub open spec fn digit_char(d: nat) -> char {
    "0123456789"@[d as int]
}

/// The decimal writing of `n`: most significant digit first, no leading
/// zero, and `0` written as one digit.
pub open spec fn decimal(n: nat) -> Seq<char>
    decreases n,
{
    if n < 10 {
        seq![digit_char(n)]
    } else {
        decimal(n / 10) + seq![digit_char(n % 10)]
    }
}

/// The decimal writing of `n` where `n` is positive, and nothing where it is
/// zero: the digits that stand before the last one of `10 * n + d`.
pub open spec fn leading_digits(n: nat) -> Seq<char> {
    if n == 0 {
        Seq::empty()
    } else {
        decimal(n)
    }
}

/// The last digit of a number is that of its remainder by ten, and the
/// digits before it write its tenth.
pub proof fn lemma_decimal_split(n: nat)
    ensures
        decimal(n) == leading_digits(n / 10) + seq![digit_char(n % 10)],
{
    if n < 10 {
        assert(n / 10 == 0);
        assert(n % 10 == n);
        assert(decimal(n) =~= leading_digits(n / 10) + seq![digit_char(n % 10)]);
    }
}

impl View for U256 {
    type V = nat;

    open spec fn view(&self) -> nat {
        limbs_value(self.w0, self.w1, self.w2, self.w3)
    }
}

impl U256 {
    /// Zero.
    pub fn zero() -> (n: U256)
        ensures
            n@ == 0,
    {
        U256 { w0: 0, w1: 0, w2: 0, w3: 0 }
    }

    /// The number `x`.
    pub fn from_u64(x: u64) -> (n: U256)
        ensures
            n@ == x,
    {
        U256 { w0: x, w1: 0, w2: 0, w3: 0 }
    }

    /// The number with the given limbs, least significant first.
    pub fn from_limbs(w0: u64, w1: u64, w2: u64, w3: u64) -> (n: U256)
        ensures
            n@ == limbs_value(w0, w1, w2, w3),
            n == (U256 { w0, w1, w2, w3 }),
    {
        U256 { w0, w1, w2, w3 }
    }

    /// Whether the number is zero.
    pub fn is_zero(&self) -> (zero: bool)
        ensures
            zero == (self@ == 0),
    {
        self.w0 == 0 && self.w1 == 0 && self.w2 == 0 && self.w3 == 0
    }

    /// The number as a `u64`, where it fits.
    pub fn to_u64(&self) -> (x: Option<u64>)
        ensures
            x == if self@ <= u64::MAX { Some(self@ as u64) } else { None },
    {
        if self.w1 == 0 && self.w2 == 0 && self.w3 == 0 {
            Some(self.w0)
        } else {
            None
        }
    }

    /// Whether `self` is smaller than `other`.
    pub fn lt(&self, other: &U256) -> (smaller: bool)
        ensures
            smaller == (self@ < other@),
    {
        if self.w3 != other.w3 {
            self.w3 < other.w3
        } else if self.w2 != other.w2 {
            self.w2 < other.w2
        } else if self.w1 != other.w1 {
            self.w1 < other.w1
        } else {
            self.w0 < other.w0
        }
    }

    /// The next number, where there is one.
    pub fn successor(&self) -> (next: Option<U256>)
        ensures
            next is Some <==> self@ < max_value(),
            next matches Some(n) ==> n@ == self@ + 1,
    {
        if self.w0 < u64::MAX {
            Some(U256 { w0: self.w0 + 1, w1: self.w1, w2: self.w2, w3: self.w3 })
        } else if self.w1 < u64::MAX {
            Some(U256 { w0: 0, w1: self.w1 + 1, w2: self.w2, w3: self.w3 })
        } else if self.w2 < u64::MAX {
            Some(U256 { w0: 0, w1: 0, w2: self.w2 + 1, w3: self.w3 })
        } else if self.w3 < u64::MAX {
            Some(U256 { w0: 0, w1: 0, w2: 0, w3: self.w3 + 1 })
        } else {
            None
        }
    }

    /// The number before, where there is one.
    pub fn predecessor(&self) -> (before: Option<U256>)
        ensures
            before is Some <==> self@ > 0,
            before matches Some(n) ==> n@ + 1 == self@,
    {
        if self.w0 > 0 {
            Some(U256 { w0: self.w0 - 1, w1: self.w1, w2: self.w2, w3: self.w3 })
        } else if self.w1 > 0 {
            Some(U256 { w0: u64::MAX, w1: self.w1 - 1, w2: self.w2, w3: self.w3 })
        } else if self.w2 > 0 {
            Some(U256 { w0: u64::MAX, w1: u64::MAX, w2: self.w2 - 1, w3: self.w3 })
        } else if self.w3 > 0 {
            Some(U256 { w0: u64::MAX, w1: u64::MAX, w2: u64::MAX, w3: self.w3 - 1 })
        } else {
            None
        }
    }

    /// The tenth of the number, rounded down, and the remainder.
    pub fn div_rem_10(&self) -> (parts: (U256, u8))
        ensures
            parts.0@ == self@ / 10,
            parts.1 == self@ % 10,
    {
        let a3: u128 = self.w3 as u128;
        let q3: u128 = a3 / 10;
        let a2: u128 = (a3 % 10) * 0x1_0000_0000_0000_0000u128 + self.w2 as u128;
        let q2: u128 = a2 / 10;
        let a1: u128 = (a2 % 10) * 0x1_0000_0000_0000_0000u128 + self.w1 as u128;
        let q1: u128 = a1 / 10;
        let a0: u128 = (a1 % 10) * 0x1_0000_0000_0000_0000u128 + self.w0 as u128;
        let q0: u128 = a0 / 10;
        let rest: u128 = a0 % 10;
        let tenth = U256 { w0: q0 as u64, w1: q1 as u64, w2: q2 as u64, w3: q3 as u64 };
        assert(self@ == 10 * tenth@ + rest);
        (tenth, rest as u8)
    }

    /// The number in decimal.
    pub fn to_decimal(&self) -> (text: String)
        ensures
            text@ == decimal(self@),
    {
        let digits = "0123456789";
        proof {
            reveal_strlit("0123456789");
        }
        let (first_rest, first_digit) = self.div_rem_10();
        let mut rest: U256 = first_rest;
        let mut text: String = String::from_str(
            digits.substring_char(first_digit as usize, first_digit as usize + 1),
        );
        proof {
            lemma_decimal_split(self@);
            assert(text@ =~= seq![digit_char(first_digit as nat)]);
        }
        while !rest.is_zero()
            invariant
                digits@ == "0123456789"@,
                digits@.len() == 10,
                decimal(self@) == leading_digits(rest@) + text@,
            decreases rest@,
        {
            let (tenth, digit) = rest.div_rem_10();
            let head = String::from_str(digits.substring_char(digit as usize, digit as usize + 1));
            proof {
                lemma_decimal_split(rest@);
                assert(head@ =~= seq![digit_char(digit as nat)]);
                assert(leading_digits(rest@) + text@ =~= leading_digits(tenth@) + (head@ + text@));
            }
            text = head.concat(text.as_str());
            rest = tenth;
        }
        assert(leading_digits(rest@) + text@ =~= text@);
        text
    }
}

impl Default for U256 {
    fn default() -> (n: U256)
        ensures
            n@ == 0,
    {
        U256::zero()
    }
}

/// A number below 2^64 and a multiple of 2^64 add up in one way only.
proof fn lemma_limb_split(low_a: nat, high_a: nat, low_b: nat, high_b: nat)
    requires
        low_a < 0x1_0000_0000_0000_0000nat,
        low_b < 0x1_0000_0000_0000_0000nat,
        low_a + high_a * 0x1_0000_0000_0000_0000nat == low_b + high_b * 0x1_0000_0000_0000_0000nat,
    ensures
        low_a == low_b,
        high_a == high_b,
{
}

/// Two numbers are the same number exactly when their limbs agree.
pub proof fn lemma_value_determines_limbs(a: U256, b: U256)
    ensures
        a@ == b@ <==> a == b,
{
    if a@ == b@ {
        let high_a = (a.w1 as nat) + (a.w2 as nat) * 0x1_0000_0000_0000_0000nat + (a.w3 as nat)
            * 0x1_0000_0000_0000_0000_0000_0000_0000_0000nat;
        let high_b = (b.w1 as nat) + (b.w2 as nat) * 0x1_0000_0000_0000_0000nat + (b.w3 as nat)
            * 0x1_0000_0000_0000_0000_0000_0000_0000_0000nat;
        lemma_limb_split(a.w0 as nat, high_a, b.w0 as nat, high_b);
        let top_a = (a.w2 as nat) + (a.w3 as nat) * 0x1_0000_0000_0000_0000nat;
        let top_b = (b.w2 as nat) + (b.w3 as nat) * 0x1_0000_0000_0000_0000nat;
        lemma_limb_split(a.w1 as nat, top_a, b.w1 as nat, top_b);
        lemma_limb_split(a.w2 as nat, a.w3 as nat, b.w2 as nat, b.w3 as nat);
    }
}

/// Every value fits in 256 bits.
pub proof fn lemma_value_bounded(a: U256)
    ensures
        a@ <= max_value(),
{
}

} // verus!
