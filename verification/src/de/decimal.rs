//! Fixed-point decimal numbers, the numeric kind that can carry a fraction.

use vstd::arithmetic::div_mod::{
    lemma_fundamental_div_mod,
    lemma_fundamental_div_mod_converse,
    lemma_mod_multiples_basic,
};
use vstd::prelude::*;

verus! {

/// Ten to the power `n`.
pub open spec fn pow10(n: nat) -> int
    decreases n,
{
    if n == 0 {
        1
    } else {
        10 * pow10((n - 1) as nat)
    }
}

/// Powers of ten are positive.
pub proof fn lemma_pow10_positive(n: nat)
    ensures
        pow10(n) > 0,
    decreases n,
{
    if n > 0 {
        lemma_pow10_positive((n - 1) as nat);
    }
}

/// Exponents add when powers of ten are multiplied.
pub proof fn lemma_pow10_add(a: nat, b: nat)
    ensures
        pow10(a + b) == pow10(a) * pow10(b),
    decreases a,
{
    if a > 0 {
        lemma_pow10_add((a - 1) as nat, b);
        assert(10 * (pow10((a - 1) as nat) * pow10(b)) == (10 * pow10((a - 1) as nat)) * pow10(b))
            by (nonlinear_arith);
    }
}

/// The number `mantissa / 10^scale`.
///
/// Two decimals are equal when mantissa and scale are: `10 / 10^1` and
/// `1 / 10^0` name the same number and are different values.
#[derive(Debug, Clone, Copy, PartialEq, Eq)]
pub struct Decimal {
    /// The digits, as a signed integer.
    pub mantissa: i128,
    /// How many of the digits stand behind the decimal point.
    pub scale: u8,
}

/// An unsigned magnitude that is not a multiple of ten, scaled up by `10^k`,
/// is no multiple of a higher power of ten, whatever the sign.
proof fn lemma_fraction_remains(mantissa: int, scale: nat, k: nat, mag: int)
    requires
        k < scale,
        mantissa == mag * pow10(k) || mantissa == -(mag * pow10(k)),
        mag % 10 != 0,
    ensures
        mantissa % pow10(scale) != 0,
{
    let rest = (scale - k - 1) as nat;
    let p = pow10(scale);
    let pk = pow10(k);
    let pr = pow10(rest);
    lemma_pow10_positive(scale);
    lemma_pow10_positive(k);
    lemma_pow10_add(k, (rest + 1) as nat);
    if mantissa % p == 0 {
        let q = mantissa / p;
        lemma_fundamental_div_mod(mantissa, p);
        let m = if mantissa == mag * pk {
            pr * q
        } else {
            -(pr * q)
        };
        assert(mag * pk == (m * 10) * pk) by (nonlinear_arith)
            requires
                mantissa == p * q,
                p == pk * (10 * pr),
                mantissa == mag * pk || mantissa == -(mag * pk),
                m == (if mantissa == mag * pk {
                    pr * q
                } else {
                    -(pr * q)
                }),
        ;
        assert(mag == m * 10) by (nonlinear_arith)
            requires
                mag * pk == (m * 10) * pk,
                pk > 0,
        ;
        lemma_mod_multiples_basic(m, 10);
    }
}

impl Decimal {
    /// The decimal `mantissa / 10^scale`.
    pub fn new(mantissa: i128, scale: u8) -> (d: Decimal)
        ensures
            d.mantissa == mantissa,
            d.scale == scale,
    {
        Decimal { mantissa, scale }
    }

    /// The decimal that stands for the integer `value`.
    pub fn from_integer(value: i128) -> (d: Decimal)
        ensures
            d.mantissa == value,
            d.scale == 0,
            d.is_whole(),
            d.whole_part() == value,
    {
        Decimal { mantissa: value, scale: 0 }
    }

    /// Whether the number has no fractional part.
    pub open spec fn is_whole(&self) -> bool {
        self.mantissa as int % pow10(self.scale as nat) == 0
    }

    /// The number itself, where it has no fractional part.
    pub open spec fn whole_part(&self) -> int {
        self.mantissa as int / pow10(self.scale as nat)
    }

    /// The integer that this decimal equals, if it equals one.
    pub fn to_integer(&self) -> (r: Option<i128>)
        ensures
            self.is_whole() ==> r is Some && r->Some_0 == self.whole_part(),
            !self.is_whole() ==> r is None,
    {
        if self.scale == 0 {
            return Some(self.mantissa);
        }
        let negative = self.mantissa < 0;
        let mut mag: u128 = if negative {
            (-(self.mantissa + 1)) as u128 + 1
        } else {
            self.mantissa as u128
        };
        let ghost sign: int = if negative {
            -1
        } else {
            1
        };
        let mut k: u8 = 0;
        while k < self.scale
            invariant
                k <= self.scale,
                sign == 1 || sign == -1,
                negative <==> sign == -1,
                self.mantissa == sign * (mag * pow10(k as nat)),
                k > 0 ==> mag <= i128::MAX,
            decreases self.scale - k,
        {
            if mag % 10 != 0 {
                proof {
                    lemma_fraction_remains(
                        self.mantissa as int,
                        self.scale as nat,
                        k as nat,
                        mag as int,
                    );
                }
                return None;
            }
            proof {
                let next = mag as int / 10;
                lemma_fundamental_div_mod(mag as int, 10);
                assert(mag * pow10(k as nat) == next * pow10((k + 1) as nat)) by (nonlinear_arith)
                    requires
                        mag == 10 * next,
                        pow10((k + 1) as nat) == 10 * pow10(k as nat),
                ;
            }
            mag = mag / 10;
            k = k + 1;
        }
        let whole: i128 = if negative {
            -(mag as i128)
        } else {
            mag as i128
        };
        proof {
            let p = pow10(self.scale as nat);
            lemma_pow10_positive(self.scale as nat);
            assert(self.mantissa == whole * p + 0) by (nonlinear_arith)
                requires
                    self.mantissa == sign * (mag * p),
                    whole == sign * mag,
            ;
            lemma_fundamental_div_mod_converse(self.mantissa as int, p, whole as int, 0);
        }
        Some(whole)
    }
}

} // verus!
