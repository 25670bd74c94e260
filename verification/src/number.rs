use vstd::prelude::*;

verus! {

/// The bit that holds the sign.
pub const SIGN_BIT: u64 = 0x8000_0000_0000_0000;

/// The weight of the lowest bit of the exponent: two to the power 52.
pub const HIDDEN_BIT: u64 = 0x0010_0000_0000_0000;

/// The bits of positive infinity: every magnitude above it is not a number.
pub const INFINITY_BITS: u64 = 0x7ff0_0000_0000_0000;

/// A number of the language: the 64 bits of an IEEE 754 double.
///
/// Tests, orderings and conversions to and from indexes are decided here, on the bits.
/// Sums, products, quotients, remainders, and the reading and writing of decimal text
/// need rounding, and are asked of the host.
#[derive(Debug, Clone, Copy, PartialEq, Eq, Structural)]
pub struct Num {
    pub bits: u64,
}

/// Two to the power `k`.
pub open spec fn two_to(k: nat) -> nat
    decreases k,
{
    if k == 0 {
        1
    } else {
        2 * two_to((k - 1) as nat)
    }
}

/// The position of the highest set bit of `n`: the greatest `p` with `two_to(p) <= n`.
pub open spec fn log2(n: nat) -> nat
    decreases n,
{
    if n < 2 {
        0
    } else {
        1 + log2(n / 2)
    }
}

/// How many times `unit` goes into `n`, rounded to the nearest whole number, and to the even
/// one of two that are equally near.
pub open spec fn round_half_even(n: nat, unit: nat) -> nat {
    let q = n / unit;
    let r = n % unit;
    if 2 * r > unit || (2 * r == unit && q % 2 == 1) {
        q + 1
    } else {
        q
    }
}

/// The number nearest to the integer `n`, the even one of two that are equally near.
pub open spec fn spec_from_index(n: nat) -> Num {
    if n == 0 {
        Num { bits: 0 }
    } else {
        let p = log2(n);
        let m = if p <= 52 {
            n * two_to((52 - p) as nat)
        } else {
            round_half_even(n, two_to((p - 52) as nat))
        };
        Num { bits: ((1023 + p) * HIDDEN_BIT + (m - HIDDEN_BIT)) as u64 }
    }
}

impl Num {
    /// Whether the sign bit is set.
    pub open spec fn negative(self) -> bool {
        self.bits >= SIGN_BIT
    }

    /// The bits without the sign. Among numbers of one sign, a greater magnitude is
    /// a number farther from zero.
    pub open spec fn magnitude(self) -> int {
        if self.bits >= SIGN_BIT {
            self.bits - SIGN_BIT
        } else {
            self.bits as int
        }
    }

    /// Whether the bits stand for no number at all.
    pub open spec fn is_nan(self) -> bool {
        self.magnitude() > INFINITY_BITS
    }

    /// Whether this is zero, of either sign.
    pub open spec fn spec_is_zero(self) -> bool {
        self.magnitude() == 0
    }

    /// An integer that is ordered as the numbers are: the magnitude, negated for a negative number.
    pub open spec fn key(self) -> int {
        if self.negative() {
            -self.magnitude()
        } else {
            self.magnitude()
        }
    }

    /// Numeric equality: both are numbers and of one value; the two zeros are equal.
    pub open spec fn spec_equals(self, other: Num) -> bool {
        !self.is_nan() && !other.is_nan() && self.key() == other.key()
    }

    /// Numeric `<`: false where either is not a number.
    pub open spec fn spec_less(self, other: Num) -> bool {
        !self.is_nan() && !other.is_nan() && self.key() < other.key()
    }

    /// Numeric `<=`: false where either is not a number.
    pub open spec fn spec_at_most(self, other: Num) -> bool {
        !self.is_nan() && !other.is_nan() && self.key() <= other.key()
    }

    /// The same number with the other sign.
    pub open spec fn spec_negated(self) -> Num {
        if self.bits >= SIGN_BIT {
            Num { bits: (self.bits - SIGN_BIT) as u64 }
        } else {
            Num { bits: (self.bits + SIGN_BIT) as u64 }
        }
    }

    /// The biased exponent.
    pub open spec fn exponent(self) -> int {
        self.magnitude() / (HIDDEN_BIT as int)
    }

    /// The fraction bits.
    pub open spec fn fraction(self) -> int {
        self.magnitude() % (HIDDEN_BIT as int)
    }

    /// The integer part of a number that is finite and at least one.
    pub open spec fn whole(self) -> nat {
        let m = (HIDDEN_BIT + self.fraction()) as nat;
        if self.exponent() >= 1075 {
            m * two_to((self.exponent() - 1075) as nat)
        } else {
            m / two_to((1075 - self.exponent()) as nat)
        }
    }

    /// The index that a number stands for: its integer part, zero for what is negative, less
    /// than one or not a number, and the greatest index for what is beyond it.
    pub open spec fn spec_to_index(self) -> usize {
        if self.is_nan() || self.negative() || self.exponent() < 1023 {
            0
        } else if self.exponent() >= 1087 || self.whole() > usize::MAX {
            usize::MAX
        } else {
            self.whole() as usize
        }
    }

    /// The number with the given bits.
    pub fn from_bits(bits: u64) -> (r: Num)
        ensures
            r.bits == bits,
    {
        Num { bits }
    }

    /// Positive zero.
    pub fn zero() -> (r: Num)
        ensures
            r.bits == 0,
            r.spec_is_zero(),
    {
        Num { bits: 0 }
    }

    /// The bits without the sign.
    fn abs_bits(self) -> (r: u64)
        ensures
            r == self.magnitude(),
            r < SIGN_BIT,
    {
        if self.bits >= SIGN_BIT {
            self.bits - SIGN_BIT
        } else {
            self.bits
        }
    }

    /// Whether the bits stand for no number at all.
    pub fn nan(self) -> (r: bool)
        ensures
            r == self.is_nan(),
    {
        self.abs_bits() > INFINITY_BITS
    }

    /// Whether this is zero, of either sign.
    #[verifier::when_used_as_spec(spec_is_zero)]
    pub fn is_zero(self) -> (r: bool)
        ensures
            r == self.spec_is_zero(),
    {
        self.abs_bits() == 0
    }

    /// Numeric equality.
    #[verifier::when_used_as_spec(spec_equals)]
    pub fn equals(self, other: Num) -> (r: bool)
        ensures
            r == self.spec_equals(other),
    {
        if self.nan() || other.nan() {
            false
        } else {
            let a = self.abs_bits();
            let b = other.abs_bits();
            a == b && (a == 0 || (self.bits >= SIGN_BIT) == (other.bits >= SIGN_BIT))
        }
    }

    /// Numeric `<`.
    #[verifier::when_used_as_spec(spec_less)]
    pub fn less(self, other: Num) -> (r: bool)
        ensures
            r == self.spec_less(other),
    {
        if self.nan() || other.nan() {
            false
        } else {
            let a = self.abs_bits();
            let b = other.abs_bits();
            let a_negative = self.bits >= SIGN_BIT;
            let b_negative = other.bits >= SIGN_BIT;
            if a_negative {
                if b_negative {
                    a > b
                } else {
                    a > 0 || b > 0
                }
            } else {
                if b_negative {
                    false
                } else {
                    a < b
                }
            }
        }
    }

    /// Numeric `<=`.
    #[verifier::when_used_as_spec(spec_at_most)]
    pub fn at_most(self, other: Num) -> (r: bool)
        ensures
            r == self.spec_at_most(other),
    {
        self.less(other) || self.equals(other)
    }

    /// The same number with the other sign.
    #[verifier::when_used_as_spec(spec_negated)]
    pub fn negated(self) -> (r: Num)
        ensures
            r == self.spec_negated(),
    {
        if self.bits >= SIGN_BIT {
            Num { bits: self.bits - SIGN_BIT }
        } else {
            Num { bits: self.bits + SIGN_BIT }
        }
    }

    /// The index that a number stands for.
    #[verifier::when_used_as_spec(spec_to_index)]
    pub fn to_index(self) -> (r: usize)
        ensures
            r == self.spec_to_index(),
    {
        if self.nan() || self.bits >= SIGN_BIT {
            return 0;
        }
        let exponent = self.bits / HIDDEN_BIT;
        let fraction = self.bits % HIDDEN_BIT;
        if exponent < 1023 {
            return 0;
        }
        if exponent >= 1087 {
            return usize::MAX;
        }
        let m: u64 = HIDDEN_BIT + fraction;
        let whole: u64 = if exponent >= 1075 {
            let k: u64 = exponent - 1075;
            let scale = power_of_two(k);
            proof {
                lemma_two_to_increases(k as nat, 11);
                lemma_two_to_values();
                assert(m * scale <= m * 2048) by (nonlinear_arith)
                    requires
                        0 <= m,
                        scale <= 2048,
                ;
            }
            m * scale
        } else {
            let k: u64 = 1075 - exponent;
            let scale = power_of_two(k);
            m / scale
        };
        if whole > usize::MAX as u64 {
            usize::MAX
        } else {
            whole as usize
        }
    }

    /// The number nearest to the integer `n`, the even one of two that are equally near.
    pub fn from_index(n: usize) -> (r: Num)
        ensures
            r == spec_from_index(n as nat),
    {
        if n == 0 {
            return Num { bits: 0 };
        }
        let n: u64 = n as u64;
        let mut p: u64 = 0;
        let mut scale: u64 = 1;
        while scale <= n / 2
            invariant
                p <= 63,
                scale == two_to(p as nat),
                1 <= scale <= n,
                log2(n as nat) == p + log2((n / scale) as nat),
            decreases n - scale,
        {
            proof {
                lemma_two_to_values();
                if p >= 63 {
                    lemma_two_to_increases(63, p as nat);
                }
                lemma_halving(n as nat, scale as nat);
            }
            scale = scale * 2;
            p = p + 1;
        }
        assert(n / scale == 1) by (nonlinear_arith)
            requires
                1 <= scale <= n,
                scale > n / 2,
        ;
        assert(log2(1) == 0);
        let m: u64 = if p <= 52 {
            let up = power_of_two(52 - p);
            proof {
                lemma_two_to_adds(p as nat, (52 - p) as nat);
                lemma_two_to_values();
                assert(n * up < 2 * (scale * up)) by (nonlinear_arith)
                    requires
                        n < 2 * scale,
                        up >= 1,
                ;
                assert(n * up >= scale * up) by (nonlinear_arith)
                    requires
                        n >= scale,
                        up >= 1,
                ;
            }
            n * up
        } else {
            let unit = power_of_two(p - 52);
            let q = n / unit;
            let r = n % unit;
            proof {
                lemma_two_to_adds(52, (p - 52) as nat);
                lemma_two_to_values();
                lemma_quotient_bounds(n as nat, unit as nat, HIDDEN_BIT as nat);
            }
            if r > unit - r || (r == unit - r && q % 2 == 1) {
                q + 1
            } else {
                q
            }
        };
        proof {
            lemma_two_to_values();
        }
        Num { bits: (1023 + p) * HIDDEN_BIT + (m - HIDDEN_BIT) }
    }
}

/// Two to the power `k`, for `k` below 64.
pub fn power_of_two(k: u64) -> (r: u64)
    requires
        k <= 63,
    ensures
        r == two_to(k as nat),
        r >= 1,
{
    let mut r: u64 = 1;
    let mut i: u64 = 0;
    while i < k
        invariant
            i <= k <= 63,
            r == two_to(i as nat),
            r >= 1,
        decreases k - i,
    {
        proof {
            lemma_two_to_increases((i + 1) as nat, 63);
            lemma_two_to_values();
        }
        r = r * 2;
        i = i + 1;
    }
    r
}

/// Some powers of two.
pub proof fn lemma_two_to_values()
    ensures
        two_to(0) == 1,
        two_to(11) == 2048,
        two_to(52) == 0x0010_0000_0000_0000,
        two_to(53) == 0x0020_0000_0000_0000,
        two_to(63) == 0x8000_0000_0000_0000,
        two_to(64) == 0x1_0000_0000_0000_0000,
{
    reveal_with_fuel(two_to, 65);
}

/// A greater power of two is a greater number.
pub proof fn lemma_two_to_increases(a: nat, b: nat)
    requires
        a <= b,
    ensures
        1 <= two_to(a) <= two_to(b),
    decreases b,
{
    if a < b {
        lemma_two_to_increases(a, (b - 1) as nat);
    } else if a > 0 {
        lemma_two_to_increases((a - 1) as nat, (a - 1) as nat);
    }
}

/// Powers of two multiply as their exponents add.
pub proof fn lemma_two_to_adds(a: nat, b: nat)
    ensures
        two_to(a + b) == two_to(a) * two_to(b),
    decreases b,
{
    if b > 0 {
        lemma_two_to_adds(a, (b - 1) as nat);
        let x = two_to(a);
        let y = two_to((b - 1) as nat);
        assert((a + b - 1) as nat == a + (b - 1) as nat);
        assert(two_to(a + b) == 2 * two_to((a + b - 1) as nat));
        assert(two_to(b) == 2 * y);
        assert(2 * (x * y) == x * (2 * y)) by (nonlinear_arith);
    } else {
        assert(two_to(a) * 1 == two_to(a));
    }
}

/// The highest set bit of a number: the power of two of its position is at most the number,
/// and the next one is beyond it.
pub proof fn lemma_log2_bounds(n: nat)
    requires
        n >= 1,
    ensures
        two_to(log2(n)) <= n < 2 * two_to(log2(n)),
    decreases n,
{
    if n >= 2 {
        lemma_log2_bounds(n / 2);
    }
}

/// An index below two to the power 53 is the index of its number: between such indexes and
/// the numbers nothing is lost.
pub proof fn lemma_index_round_trip(n: nat)
    requires
        n < two_to(53),
        n <= usize::MAX,
    ensures
        spec_from_index(n).spec_to_index() == n,
{
    lemma_two_to_values();
    if n > 0 {
        let p = log2(n);
        lemma_log2_bounds(n);
        if p > 52 {
            lemma_two_to_increases(53, p);
        }
        let up = two_to((52 - p) as nat);
        lemma_two_to_adds(p, (52 - p) as nat);
        lemma_two_to_increases(0, (52 - p) as nat);
        let m = n * up;
        let h = HIDDEN_BIT as int;
        assert(two_to(p) * up == h);
        assert(h <= m < 2 * h) by (nonlinear_arith)
            requires
                two_to(p) <= n < 2 * two_to(p),
                two_to(p) * up == h,
                up >= 1,
                m == n * up,
        ;
        let bits = (1023 + p) * h + (m - h);
        assert(bits < 1076 * h) by (nonlinear_arith)
            requires
                bits == (1023 + p) * h + (m - h),
                p <= 52,
                m < 2 * h,
                h > 0,
        ;
        let x = spec_from_index(n);
        assert(x.bits == bits);
        assert(x.magnitude() == bits);
        vstd::arithmetic::div_mod::lemma_fundamental_div_mod_converse(bits, h, (1023 + p) as int, m - h);
        assert(x.exponent() == 1023 + p);
        assert(x.fraction() == m - h);
        if p == 52 {
            assert(up == 1);
            assert(m * 1 == m) by (nonlinear_arith);
        } else {
            vstd::arithmetic::div_mod::lemma_div_multiples_vanish(n as int, up as int);
            assert((up as int) * (n as int) == m) by (nonlinear_arith)
                requires
                    m == n * up,
            ;
            assert(m as int / (up as int) == n);
        }
        assert(!x.negative());
        assert(!x.is_nan());
        assert((h + x.fraction()) as nat == m);
        if p == 52 {
            assert((x.exponent() - 1075) as nat == 0);
            assert(x.whole() == m * two_to(0));
            assert(m == n) by (nonlinear_arith)
                requires
                    m == n * up,
                    up == 1,
            ;
            assert(m * two_to(0) == m) by (nonlinear_arith)
                requires
                    two_to(0) == 1,
            ;
        } else {
            assert((1075 - x.exponent()) as nat == (52 - p) as nat);
            assert(x.whole() == m / up);
            assert(m / up == n);
        }
        assert(x.whole() == n);
    } else {
        let zero = spec_from_index(0);
        assert(zero.bits == 0);
        assert(zero.magnitude() == 0);
        assert(zero.exponent() == 0);
    }
}

/// Halving after dividing by `d` is dividing by twice `d`.
proof fn lemma_halving(n: nat, d: nat)
    requires
        d >= 1,
    ensures
        (n / d) / 2 == n / (2 * d),
        d <= n / 2 ==> n / d >= 2 && 2 * d <= n,
{
    vstd::arithmetic::div_mod::lemma_div_denominator(n as int, d as int, 2);
    assert(d * 2 == 2 * d);
    if d <= n / 2 {
        assert(n / d >= 2) by (nonlinear_arith)
            requires
                d >= 1,
                2 * d <= n,
        ;
    }
}

/// Where `n` lies between `h * d` and twice that, `n / d` lies between `h` and `2 * h`.
proof fn lemma_quotient_bounds(n: nat, d: nat, h: nat)
    requires
        d >= 1,
        h * d <= n < 2 * (h * d),
    ensures
        h <= n / d < 2 * h,
        n % d < d,
        n == (n / d) * d + n % d,
{
    vstd::arithmetic::div_mod::lemma_fundamental_div_mod(n as int, d as int);
    assert(h <= n / d && n / d < 2 * h) by (nonlinear_arith)
        requires
            d >= 1,
            h * d <= n < 2 * (h * d),
            n == d * (n / d) + n % d,
            0 <= n % d < d,
    ;
    assert((n / d) * d == d * (n / d)) by (nonlinear_arith);
}

} // verus!
