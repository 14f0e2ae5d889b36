//! Unsigned 256-bit integers and decimal literals.

use vstd::prelude::*;
use vstd::string::*;

verus! {

/// Two to the power 64: the weight of one limb.
pub open spec fn limb_base() -> nat {
    0x1_0000_0000_0000_0000
}

/// Two to the power 256: one more than the largest `U256`.
pub open spec fn u256_bound() -> nat {
    limb_base() * limb_base() * limb_base() * limb_base()
}

/// An unsigned 256-bit integer, held as four 64-bit limbs, the least
/// significant first.
#[derive(Debug, Clone, Copy, PartialEq, Eq)]
pub struct U256 {
    pub limbs: (u64, u64, u64, u64),
}

impl View for U256 {
    type V = nat;

    open spec fn view(&self) -> nat {
        (self.limbs.0 as nat) + limb_base() * ((self.limbs.1 as nat) + limb_base() * ((
        self.limbs.2 as nat) + limb_base() * (self.limbs.3 as nat)))
    }
}

impl DeepView for U256 {
    type V = nat;

    open spec fn deep_view(&self) -> nat {
        self@
    }
}

/// Whether `c` is one of the ten ASCII digits.
pub open spec fn is_digit(c: char) -> bool {
    '0' <= c && c <= '9'
}

/// The number that the digit `c` stands for; 0 for any other character.
pub open spec fn digit_value(c: char) -> nat {
    if is_digit(c) {
        (c as u32 - '0' as u32) as nat
    } else {
        0
    }
}

/// Whether `s` is a decimal literal: one ASCII digit or more, nothing else.
pub open spec fn is_decimal(s: Seq<char>) -> bool {
    s.len() > 0 && forall|i: int| 0 <= i < s.len() ==> is_digit(#[trigger] s[i])
}

/// The number that the digits of `s` spell in base ten.
pub open spec fn decimal_value(s: Seq<char>) -> nat
    decreases s.len(),
{
    if s.len() == 0 {
        0
    } else {
        decimal_value(s.drop_last()) * 10 + digit_value(s.last())
    }
}

/// What a decimal literal with a value below `bound` denotes; nothing for
/// any other text.
pub open spec fn decimal_below(s: Seq<char>, bound: nat) -> Option<nat> {
    if is_decimal(s) && decimal_value(s) < bound {
        Some(decimal_value(s))
    } else {
        None
    }
}

/// The value of a prefix of `s` never exceeds the value of `s`.
pub proof fn lemma_decimal_prefix(s: Seq<char>, k: int)
    requires
        0 <= k <= s.len(),
    ensures
        decimal_value(s.take(k)) <= decimal_value(s),
    decreases s.len(),
{
    if k == s.len() {
        assert(s.take(k) =~= s);
    } else {
        assert(s.drop_last().take(k) =~= s.take(k));
        lemma_decimal_prefix(s.drop_last(), k);
    }
}

impl U256 {
    /// The number zero.
    pub fn zero() -> (n: U256)
        ensures
            n@ == 0,
    {
        U256 { limbs: (0, 0, 0, 0) }
    }

    /// The same number as `n`.
    pub fn from_u64(n: u64) -> (wide: U256)
        ensures
            wide@ == n,
    {
        U256 { limbs: (n, 0, 0, 0) }
    }

    /// This number as a `u64`, where it fits.
    pub fn to_u64(&self) -> (narrow: Option<u64>)
        ensures
            narrow == (if self@ < limb_base() {
                Some(self@ as u64)
            } else {
                None
            }),
    {
        if self.limbs.1 == 0 && self.limbs.2 == 0 && self.limbs.3 == 0 {
            Some(self.limbs.0)
        } else {
            None
        }
    }

    /// Ten times this number plus `digit`, where that is still below two to
    /// the power 256.
    pub fn shift_in_digit(&self, digit: u8) -> (next: Option<U256>)
        ensures
            next.deep_view() == (if self@ * 10 + digit < u256_bound() {
                Some(self@ * 10 + digit as nat)
            } else {
                None
            }),
    {
        let t0: u128 = (self.limbs.0 as u128) * 10 + (digit as u128);
        let n0: u64 = (t0 % 0x1_0000_0000_0000_0000) as u64;
        let c0: u128 = t0 / 0x1_0000_0000_0000_0000;
        let t1: u128 = (self.limbs.1 as u128) * 10 + c0;
        let n1: u64 = (t1 % 0x1_0000_0000_0000_0000) as u64;
        let c1: u128 = t1 / 0x1_0000_0000_0000_0000;
        let t2: u128 = (self.limbs.2 as u128) * 10 + c1;
        let n2: u64 = (t2 % 0x1_0000_0000_0000_0000) as u64;
        let c2: u128 = t2 / 0x1_0000_0000_0000_0000;
        let t3: u128 = (self.limbs.3 as u128) * 10 + c2;
        let n3: u64 = (t3 % 0x1_0000_0000_0000_0000) as u64;
        let c3: u128 = t3 / 0x1_0000_0000_0000_0000;
        let shifted = U256 { limbs: (n0, n1, n2, n3) };
        proof {
            let b = limb_base();
            assert(u256_bound() == b * (b * (b * b))) by (nonlinear_arith)
                requires
                    b == limb_base(),
            ;
            assert(self@ * 10 + digit == shifted@ + b * (b * (b * (b * (c3 as nat)))));
            assert(shifted@ < b * (b * (b * b)));
        }
        if c3 == 0 {
            Some(shifted)
        } else {
            proof {
                let b = limb_base();
                assert(b * (b * (b * (b * (c3 as nat)))) >= b * (b * (b * b)));
            }
            None
        }
    }

    /// Reads a decimal literal.
    pub fn from_dec_str(text: &str) -> (number: Option<U256>)
        ensures
            number.deep_view() == decimal_below(text@, u256_bound()),
    {
        if !text.is_ascii() {
            return None;
        }
        let bytes = text.as_bytes();
        let n = bytes.len();
        proof {
            is_ascii_spec_bytes(text);
        }
        if n == 0 {
            return None;
        }
        let mut acc = U256::zero();
        let mut i: usize = 0;
        while i < n
            invariant
                i <= n,
                n == text@.len(),
                n == bytes@.len(),
                is_ascii(text),
                bytes@ == text.spec_bytes(),
                forall|j: int| 0 <= j < n ==> bytes@[j] == (#[trigger] text@[j]) as u8,
                forall|j: int| 0 <= j < i ==> is_digit(#[trigger] text@[j]),
                acc@ == decimal_value(text@.take(i as int)),
            decreases n - i,
        {
            let b = bytes[i];
            if b < 48 || b > 57 {
                assert(!is_digit(text@[i as int]));
                return None;
            }
            let digit: u8 = b - 48;
            proof {
                assert(text@.take(i + 1).drop_last() =~= text@.take(i as int));
                assert(text@.take(i + 1).last() == text@[i as int]);
                assert(is_digit(text@[i as int]));
                assert(digit_value(text@[i as int]) == digit);
            }
            match acc.shift_in_digit(digit) {
                Some(next) => {
                    acc = next;
                },
                None => {
                    proof {
                        lemma_decimal_prefix(text@, i + 1);
                    }
                    return None;
                },
            }
            i += 1;
        }
        assert(text@.take(i as int) =~= text@);
        Some(acc)
    }
}

} // verus!
