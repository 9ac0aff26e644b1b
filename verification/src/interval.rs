//! Time intervals as the settings keep them: double-precision numbers, held by
//! their bits.
use vstd::arithmetic::power2::*;
use vstd::prelude::*;

verus! {

/// A number of seconds or minutes, held as the bits of an IEEE 754 double.
///
/// The library stores intervals and hands them on. It computes nothing with
/// them, so the bits are all it needs. What number the bits stand for, and
/// where it lies, the spec functions say.
#[derive(Clone, Copy, Debug, PartialEq, Eq, Structural)]
pub struct Interval {
    pub bits: u64,
}

/// The bits of the double `1.0`.
pub const ONE_BITS: u64 = 0x3ff0_0000_0000_0000;

/// The bits of the double `10.0`.
pub const TEN_BITS: u64 = 0x4024_0000_0000_0000;

/// The bits of the double `60.0`.
pub const SIXTY_BITS: u64 = 0x404e_0000_0000_0000;

/// The bits of the double `300.0`.
pub const THREE_HUNDRED_BITS: u64 = 0x4072_c000_0000_0000;

impl Interval {
    /// The sign bit and the biased exponent, the upper twelve bits.
    pub open spec fn exponent(self) -> int {
        self.bits as int / 0x10_0000_0000_0000
    }

    /// The fraction, the lower fifty-two bits.
    pub open spec fn fraction(self) -> int {
        self.bits as int % 0x10_0000_0000_0000
    }

    /// A positive normal number: the sign bit is clear, and it is neither
    /// zero, subnormal, infinite nor a NaN.
    pub open spec fn is_normal(self) -> bool {
        0 < self.exponent() < 0x7ff
    }

    /// The value of a positive normal number, in units of two to the power
    /// of minus 1075.
    pub open spec fn magnitude(self) -> int {
        (0x10_0000_0000_0000 + self.fraction()) * pow2(self.exponent() as nat)
    }

    /// The number is exactly the whole number `n`.
    pub open spec fn is_whole(self, n: int) -> bool {
        self.is_normal() && self.magnitude() == n * pow2(1075)
    }

    /// The number lies between the whole numbers `low` and `high`, both
    /// included.
    pub open spec fn is_between(self, low: int, high: int) -> bool {
        &&& self.is_normal()
        &&& low * pow2(1075) <= self.magnitude() <= high * pow2(1075)
    }

    /// The interval of length one.
    pub fn one() -> (one: Interval)
        ensures
            one == (Interval { bits: ONE_BITS }),
            one.is_whole(1),
    {
        proof {
            lemma_named_intervals();
        }
        Interval { bits: ONE_BITS }
    }

    /// The interval of length ten.
    pub fn ten() -> (ten: Interval)
        ensures
            ten == (Interval { bits: TEN_BITS }),
            ten.is_whole(10),
    {
        proof {
            lemma_named_intervals();
        }
        Interval { bits: TEN_BITS }
    }

    /// The interval of length sixty.
    pub fn sixty() -> (sixty: Interval)
        ensures
            sixty == (Interval { bits: SIXTY_BITS }),
            sixty.is_whole(60),
    {
        proof {
            lemma_named_intervals();
        }
        Interval { bits: SIXTY_BITS }
    }

    /// The interval of length three hundred.
    pub fn three_hundred() -> (three_hundred: Interval)
        ensures
            three_hundred == (Interval { bits: THREE_HUNDRED_BITS }),
            three_hundred.is_whole(300),
    {
        proof {
            lemma_named_intervals();
        }
        Interval { bits: THREE_HUNDRED_BITS }
    }
}

/// A number whose significand is `n` shifted to its place is the whole number
/// `n`.
proof fn lemma_whole(x: Interval, n: int)
    requires
        x.is_normal(),
        x.exponent() <= 1075,
        0x10_0000_0000_0000 + x.fraction() == n * pow2((1075 - x.exponent()) as nat),
    ensures
        x.is_whole(n),
{
    let e = x.exponent() as nat;
    let d = (1075 - x.exponent()) as nat;
    lemma_pow2_adds(d, e);
    assert((n * pow2(d)) * pow2(e) == n * (pow2(d) * pow2(e))) by (nonlinear_arith);
}

/// The four named numbers are the whole numbers that their names say.
pub proof fn lemma_named_intervals()
    ensures
        (Interval { bits: ONE_BITS }).is_whole(1),
        (Interval { bits: TEN_BITS }).is_whole(10),
        (Interval { bits: SIXTY_BITS }).is_whole(60),
        (Interval { bits: THREE_HUNDRED_BITS }).is_whole(300),
{
    lemma2_to64();
    lemma2_to64_rest();
    lemma_whole(Interval { bits: ONE_BITS }, 1);
    lemma_whole(Interval { bits: TEN_BITS }, 10);
    lemma_whole(Interval { bits: SIXTY_BITS }, 60);
    lemma_whole(Interval { bits: THREE_HUNDRED_BITS }, 300);
}

/// Positive normal numbers are ordered as their bits are.
pub proof fn lemma_bits_order(x: Interval, y: Interval)
    requires
        x.is_normal(),
        y.is_normal(),
    ensures
        x.bits <= y.bits <==> x.magnitude() <= y.magnitude(),
        x.bits == y.bits <==> x.magnitude() == y.magnitude(),
{
    if x.bits < y.bits {
        lemma_bits_increase(x, y);
    } else if y.bits < x.bits {
        lemma_bits_increase(y, x);
    }
}

/// The numbers between two whole numbers are those whose bits lie between
/// theirs.
pub proof fn law_between_by_bits(x: Interval, low: Interval, high: Interval, l: int, h: int)
    requires
        low.is_whole(l),
        high.is_whole(h),
    ensures
        x.is_between(l, h) <==> low.bits <= x.bits <= high.bits,
{
    if x.is_normal() {
        lemma_bits_order(low, x);
        lemma_bits_order(x, high);
    }
}

/// No two numbers are the same whole number.
pub proof fn law_whole_is_unique(x: Interval, y: Interval, n: int)
    requires
        x.is_whole(n),
        y.is_whole(n),
    ensures
        x == y,
{
    lemma_bits_order(x, y);
}

proof fn lemma_bits_increase(x: Interval, y: Interval)
    requires
        x.is_normal(),
        y.is_normal(),
        x.bits < y.bits,
    ensures
        x.magnitude() < y.magnitude(),
{
    let ex = x.exponent() as nat;
    let ey = y.exponent() as nat;
    let sx = 0x10_0000_0000_0000 + x.fraction();
    let sy = 0x10_0000_0000_0000 + y.fraction();
    lemma_pow2_pos(ex);
    if ex == ey {
        assert(sx < sy);
        assert(sx * pow2(ex) < sy * pow2(ex)) by (nonlinear_arith)
            requires
                sx < sy,
                0 < pow2(ex),
        ;
    } else {
        let d = (ey - ex - 1) as nat;
        lemma2_to64();
        lemma_pow2_adds(1, ex);
        lemma_pow2_adds(d, ex + 1);
        lemma_pow2_pos(d);
        let p = pow2(ex) as int;
        let q = pow2(d) as int;
        assert(pow2(ey) == q * (2 * p));
        assert(sx * p < sy * (q * (2 * p))) by (nonlinear_arith)
            requires
                0 < p,
                0 < q,
                0 <= sx < 0x20_0000_0000_0000,
                0x10_0000_0000_0000 <= sy,
        ;
    }
}

} // verus!
