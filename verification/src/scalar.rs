//! IEEE 754 doubles by their bit pattern: comparison, sign and selection.

use vstd::arithmetic::power2::{
    lemma2_to64, lemma2_to64_rest, lemma_pow2_adds, lemma_pow2_pos, lemma_pow2_strictly_increases, lemma_pow2_unfold,
    pow2,
};
use vstd::prelude::*;

verus! {

/// Weight of the sign bit.
pub const SIGN_BIT: u64 = 0x8000_0000_0000_0000;

/// Bit pattern of positive infinity; a magnitude above it is a NaN.
pub const INFINITY_BITS: u64 = 0x7FF0_0000_0000_0000;

/// Weight of the lowest exponent bit: `2^52`.
pub const EXPONENT_UNIT: u64 = 0x0010_0000_0000_0000;

/// A double-precision number held as its bits.
///
/// `==` on this type compares the bits; [`Scalar::same`] compares the numbers.
#[derive(Clone, Copy, Debug, PartialEq, Eq, Structural)]
pub struct Scalar {
    pub bits: u64,
}

/// The number with the given pattern.
pub open spec fn lit(bits: u64) -> Scalar {
    Scalar { bits }
}

impl Scalar {
    /// The pattern without its sign bit.
    pub open spec fn magnitude(self) -> int {
        self.bits as int % SIGN_BIT as int
    }

    pub open spec fn negative(self) -> bool {
        self.bits >= SIGN_BIT
    }

    pub open spec fn nan(self) -> bool {
        self.magnitude() > INFINITY_BITS
    }

    pub open spec fn finite(self) -> bool {
        self.magnitude() < INFINITY_BITS
    }

    /// Signed magnitude: both zeros have rank 0, and the infinities the two
    /// extreme ranks among numbers.
    pub open spec fn rank(self) -> int {
        if self.negative() {
            -self.magnitude()
        } else {
            self.magnitude()
        }
    }

    /// `self < other`: false whenever either side is a NaN.
    pub open spec fn below(self, other: Scalar) -> bool {
        !self.nan() && !other.nan() && self.rank() < other.rank()
    }

    /// `self <= other`: false whenever either side is a NaN.
    pub open spec fn at_most(self, other: Scalar) -> bool {
        !self.nan() && !other.nan() && self.rank() <= other.rank()
    }

    /// `self == other` as numbers: false whenever either side is a NaN.
    pub open spec fn equals(self, other: Scalar) -> bool {
        !self.nan() && !other.nan() && self.rank() == other.rank()
    }

    /// Biased exponent field.
    pub open spec fn exponent(self) -> int {
        self.magnitude() / EXPONENT_UNIT as int
    }

    /// Fraction field.
    pub open spec fn fraction(self) -> int {
        self.magnitude() % EXPONENT_UNIT as int
    }

    /// Absolute value of a finite number, in units of `2^-1074`.
    pub open spec fn scaled_magnitude(self) -> int {
        if self.exponent() == 0 {
            self.fraction()
        } else {
            (EXPONENT_UNIT + self.fraction()) * pow2((self.exponent() - 1) as nat)
        }
    }

    /// Value of a finite number, in units of `2^-1074`.
    pub open spec fn scaled(self) -> int {
        if self.negative() {
            -self.scaled_magnitude()
        } else {
            self.scaled_magnitude()
        }
    }

    /// The larger of two numbers; a NaN yields the other operand, and of two
    /// equal numbers the first is taken.
    pub open spec fn larger(self, other: Scalar) -> Scalar {
        if self.nan() || self.below(other) {
            other
        } else {
            self
        }
    }

    /// The smaller of two numbers; a NaN yields the other operand, and of two
    /// equal numbers the first is taken.
    pub open spec fn smaller(self, other: Scalar) -> Scalar {
        if self.nan() || other.below(self) {
            other
        } else {
            self
        }
    }

    /// The pattern with its sign bit cleared.
    pub open spec fn absolute(self) -> Scalar {
        Scalar { bits: (self.bits as int % SIGN_BIT as int) as u64 }
    }

    pub fn from_bits(bits: u64) -> (r: Scalar)
        ensures
            r == lit(bits),
    {
        Scalar { bits }
    }

    pub fn is_nan(self) -> (r: bool)
        ensures
            r == self.nan(),
    {
        self.bits % SIGN_BIT > INFINITY_BITS
    }

    pub fn is_finite(self) -> (r: bool)
        ensures
            r == self.finite(),
    {
        self.bits % SIGN_BIT < INFINITY_BITS
    }

    /// Integer whose order is the order of the numbers.
    pub fn key(self) -> (r: i64)
        ensures
            r == self.rank(),
    {
        if self.bits < SIGN_BIT {
            self.bits as i64
        } else {
            -((self.bits - SIGN_BIT) as i64)
        }
    }

    /// `self < other`.
    pub fn lt(self, other: Scalar) -> (r: bool)
        ensures
            r == self.below(other),
    {
        !self.is_nan() && !other.is_nan() && self.key() < other.key()
    }

    /// `self <= other`.
    pub fn le(self, other: Scalar) -> (r: bool)
        ensures
            r == self.at_most(other),
    {
        !self.is_nan() && !other.is_nan() && self.key() <= other.key()
    }

    /// `self > other`.
    pub fn gt(self, other: Scalar) -> (r: bool)
        ensures
            r == other.below(self),
    {
        other.lt(self)
    }

    /// `self >= other`.
    pub fn ge(self, other: Scalar) -> (r: bool)
        ensures
            r == other.at_most(self),
    {
        other.le(self)
    }

    /// `self == other` as numbers.
    pub fn same(self, other: Scalar) -> (r: bool)
        ensures
            r == self.equals(other),
    {
        !self.is_nan() && !other.is_nan() && self.key() == other.key()
    }

    /// The number without its sign; a NaN keeps its payload.
    pub fn abs(self) -> (r: Scalar)
        ensures
            r == self.absolute(),
            !r.negative(),
            r.nan() == self.nan(),
            r.rank() == if self.rank() < 0 { -self.rank() } else { self.rank() },
    {
        Scalar { bits: self.bits % SIGN_BIT }
    }

    /// The larger of two numbers. A NaN yields the other operand, and of two
    /// equal numbers the first is taken.
    pub fn max(self, other: Scalar) -> (r: Scalar)
        ensures
            r == self.larger(other),
    {
        if self.is_nan() || self.lt(other) {
            other
        } else {
            self
        }
    }

    /// The smaller of two numbers. A NaN yields the other operand, and of two
    /// equal numbers the first is taken.
    pub fn min(self, other: Scalar) -> (r: Scalar)
        ensures
            r == self.smaller(other),
    {
        if self.is_nan() || other.lt(self) {
            other
        } else {
            self
        }
    }
}

/// A larger magnitude pattern denotes a larger number: comparing patterns as
/// integers compares exponent first and fraction second.
proof fn lemma_magnitude_strictly_increases(a: Scalar, b: Scalar)
    requires
        a.magnitude() < b.magnitude(),
    ensures
        a.scaled_magnitude() < b.scaled_magnitude(),
{
    let unit = EXPONENT_UNIT as int;
    let (ea, fa) = (a.exponent(), a.fraction());
    let (eb, fb) = (b.exponent(), b.fraction());
    assert(a.magnitude() == ea * unit + fa && 0 <= fa < unit && ea >= 0);
    assert(b.magnitude() == eb * unit + fb && 0 <= fb < unit && eb >= 0);
    assert(ea < eb || (ea == eb && fa < fb)) by (nonlinear_arith)
        requires
            ea * unit + fa < eb * unit + fb,
            0 <= fa < unit,
            0 <= fb < unit,
    ;
    if ea == eb {
        if ea > 0 {
            let p = pow2((ea - 1) as nat) as int;
            lemma_pow2_pos((ea - 1) as nat);
            assert((unit + fa) * p < (unit + fb) * p) by (nonlinear_arith)
                requires
                    fa < fb,
                    p > 0,
            ;
        }
    } else {
        let q = pow2((eb - 1) as nat) as int;
        lemma_pow2_pos((eb - 1) as nat);
        assert((unit + fb) * q >= unit * q) by (nonlinear_arith)
            requires
                fb >= 0,
                q > 0,
        ;
        if ea == 0 {
            assert(unit * q >= unit) by (nonlinear_arith)
                requires
                    q >= 1,
                    unit > 0,
            ;
        } else {
            let p = pow2((ea - 1) as nat) as int;
            lemma_pow2_pos((ea - 1) as nat);
            lemma_pow2_adds(1, (ea - 1) as nat);
            lemma2_to64();
            if ea < eb - 1 {
                lemma_pow2_strictly_increases(ea as nat, (eb - 1) as nat);
            }
            assert(q >= 2 * p);
            assert((unit + fa) * p < unit * q) by (nonlinear_arith)
                requires
                    q >= 2 * p,
                    p > 0,
                    0 <= fa < unit,
            ;
        }
    }
}

/// On finite numbers the comparisons are those of the numbers that the bit
/// patterns denote.
pub proof fn comparison_is_numeric(a: Scalar, b: Scalar)
    requires
        a.finite(),
        b.finite(),
    ensures
        a.below(b) <==> a.scaled() < b.scaled(),
        a.at_most(b) <==> a.scaled() <= b.scaled(),
        a.equals(b) <==> a.scaled() == b.scaled(),
{
    lemma_magnitude_nonnegative(a);
    lemma_magnitude_nonnegative(b);
    if a.magnitude() < b.magnitude() {
        lemma_magnitude_strictly_increases(a, b);
    } else if b.magnitude() < a.magnitude() {
        lemma_magnitude_strictly_increases(b, a);
    }
}

/// A magnitude denotes a number that is not negative, and zero only by the
/// zero pattern.
proof fn lemma_magnitude_nonnegative(a: Scalar)
    ensures
        a.scaled_magnitude() >= 0,
        a.scaled_magnitude() == 0 <==> a.magnitude() == 0,
{
    let zero = Scalar { bits: 0 };
    assert(zero.scaled_magnitude() == 0);
    if a.magnitude() > 0 {
        lemma_magnitude_strictly_increases(zero, a);
    }
}

/// Comparison of numbers is a total order, and a NaN compares with nothing.
pub proof fn comparison_is_total(a: Scalar, b: Scalar, c: Scalar)
    ensures
        a.nan() || b.nan() ==> !a.below(b) && !a.at_most(b) && !a.equals(b),
        !a.nan() && !b.nan() ==> (a.below(b) <==> !b.at_most(a)),
        a.at_most(b) <==> a.below(b) || a.equals(b),
        a.at_most(b) && b.at_most(a) ==> a.equals(b),
        a.at_most(b) && b.at_most(c) ==> a.at_most(c),
        a.below(b) && b.at_most(c) ==> a.below(c),
{
}

/// The larger of two is one of them and no smaller than either that is a number, and
/// the smaller one of them and no larger; a NaN gives way to the other.
pub proof fn larger_and_smaller_bound_both(a: Scalar, b: Scalar)
    ensures
        a.larger(b) == a || a.larger(b) == b,
        a.smaller(b) == a || a.smaller(b) == b,
        !a.nan() ==> a.at_most(a.larger(b)) && a.smaller(b).at_most(a),
        !b.nan() ==> b.at_most(a.larger(b)) && a.smaller(b).at_most(b),
        a.nan() ==> a.larger(b) == b && a.smaller(b) == b,
        b.nan() && !a.nan() ==> a.larger(b) == a && a.smaller(b) == a,
        a.equals(b) ==> a.larger(b) == a && a.smaller(b) == a,
{
}

/// The absolute value keeps a number that is not negative, turns round one that is,
/// and is itself never negative.
pub proof fn absolute_drops_the_sign(a: Scalar)
    ensures
        !a.negative() ==> a.absolute() == a,
        !a.absolute().negative(),
        a.absolute().nan() == a.nan(),
        a.absolute().scaled() == (if a.scaled() < 0 {
            -a.scaled()
        } else {
            a.scaled()
        }),
        a.absolute().absolute() == a.absolute(),
{
    lemma_magnitude_nonnegative(a);
    assert(a.absolute().magnitude() == a.magnitude());
    assert(a.absolute().scaled_magnitude() == a.scaled_magnitude());
}

impl Scalar {
    /// The number is `num / den`, to within two units in its last place.
    pub open spec fn is_about(self, num: int, den: int) -> bool {
        let digits = if self.negative() {
            -(EXPONENT_UNIT + self.fraction())
        } else {
            EXPONENT_UNIT + self.fraction()
        };
        &&& 0 < self.exponent() <= 1_075
        &&& -2 * den <= digits * den - num * pow2((1_075 - self.exponent()) as nat) <= 2 * den
    }
}

/// Powers of two, as far as the numbers of this crate need them.
pub proof fn lemma_powers_of_two()
    ensures
        pow2(35) == 34_359_738_368,
        pow2(36) == 68_719_476_736,
        pow2(37) == 137_438_953_472,
        pow2(38) == 274_877_906_944,
        pow2(39) == 549_755_813_888,
        pow2(40) == 1_099_511_627_776,
        pow2(41) == 2_199_023_255_552,
        pow2(42) == 4_398_046_511_104,
        pow2(43) == 8_796_093_022_208,
        pow2(44) == 17_592_186_044_416,
        pow2(45) == 35_184_372_088_832,
        pow2(46) == 70_368_744_177_664,
        pow2(47) == 140_737_488_355_328,
        pow2(49) == 562_949_953_421_312,
        pow2(50) == 1_125_899_906_842_624,
        pow2(51) == 2_251_799_813_685_248,
        pow2(52) == 4_503_599_627_370_496,
        pow2(53) == 9_007_199_254_740_992,
        pow2(54) == 18_014_398_509_481_984,
        pow2(56) == 72_057_594_037_927_936,
        pow2(57) == 144_115_188_075_855_872,
        pow2(58) == 288_230_376_151_711_744,
        pow2(59) == 576_460_752_303_423_488,
        pow2(60) == 1_152_921_504_606_846_976,
        pow2(61) == 2_305_843_009_213_693_952,
        pow2(62) == 4_611_686_018_427_387_904,
        pow2(63) == 9_223_372_036_854_775_808,
        pow2(66) == 73_786_976_294_838_206_464,
        pow2(68) == 295_147_905_179_352_825_856,
        pow2(71) == 2_361_183_241_434_822_606_848,
        pow2(72) == 4_722_366_482_869_645_213_696,
        pow2(79) == 604_462_909_807_314_587_353_088,
        pow2(82) == 4_835_703_278_458_516_698_824_704,
        pow2(86) == 77_371_252_455_336_267_181_195_264,
        pow2(92) == 4_951_760_157_141_521_099_596_496_896,
        pow2(109) == 649_037_107_316_853_453_566_312_041_152_512,
        pow2(152) == 5_708_990_770_823_839_524_233_143_877_797_980_545_530_986_496,
{
    lemma2_to64();
    lemma2_to64_rest();
    lemma_pow2_unfold(65);
    lemma_pow2_unfold(66);
    lemma_pow2_unfold(67);
    lemma_pow2_unfold(68);
    lemma_pow2_unfold(69);
    lemma_pow2_unfold(70);
    lemma_pow2_unfold(71);
    lemma_pow2_unfold(72);
    lemma_pow2_unfold(73);
    lemma_pow2_unfold(74);
    lemma_pow2_unfold(75);
    lemma_pow2_unfold(76);
    lemma_pow2_unfold(77);
    lemma_pow2_unfold(78);
    lemma_pow2_unfold(79);
    lemma_pow2_unfold(80);
    lemma_pow2_unfold(81);
    lemma_pow2_unfold(82);
    lemma_pow2_unfold(83);
    lemma_pow2_unfold(84);
    lemma_pow2_unfold(85);
    lemma_pow2_unfold(86);
    lemma_pow2_unfold(87);
    lemma_pow2_unfold(88);
    lemma_pow2_unfold(89);
    lemma_pow2_unfold(90);
    lemma_pow2_unfold(91);
    lemma_pow2_unfold(92);
    lemma_pow2_unfold(93);
    lemma_pow2_unfold(94);
    lemma_pow2_unfold(95);
    lemma_pow2_unfold(96);
    lemma_pow2_unfold(97);
    lemma_pow2_unfold(98);
    lemma_pow2_unfold(99);
    lemma_pow2_unfold(100);
    lemma_pow2_unfold(101);
    lemma_pow2_unfold(102);
    lemma_pow2_unfold(103);
    lemma_pow2_unfold(104);
    lemma_pow2_unfold(105);
    lemma_pow2_unfold(106);
    lemma_pow2_unfold(107);
    lemma_pow2_unfold(108);
    lemma_pow2_unfold(109);
    lemma_pow2_unfold(110);
    lemma_pow2_unfold(111);
    lemma_pow2_unfold(112);
    lemma_pow2_unfold(113);
    lemma_pow2_unfold(114);
    lemma_pow2_unfold(115);
    lemma_pow2_unfold(116);
    lemma_pow2_unfold(117);
    lemma_pow2_unfold(118);
    lemma_pow2_unfold(119);
    lemma_pow2_unfold(120);
    lemma_pow2_unfold(121);
    lemma_pow2_unfold(122);
    lemma_pow2_unfold(123);
    lemma_pow2_unfold(124);
    lemma_pow2_unfold(125);
    lemma_pow2_unfold(126);
    lemma_pow2_unfold(127);
    lemma_pow2_unfold(128);
    lemma_pow2_unfold(129);
    lemma_pow2_unfold(130);
    lemma_pow2_unfold(131);
    lemma_pow2_unfold(132);
    lemma_pow2_unfold(133);
    lemma_pow2_unfold(134);
    lemma_pow2_unfold(135);
    lemma_pow2_unfold(136);
    lemma_pow2_unfold(137);
    lemma_pow2_unfold(138);
    lemma_pow2_unfold(139);
    lemma_pow2_unfold(140);
    lemma_pow2_unfold(141);
    lemma_pow2_unfold(142);
    lemma_pow2_unfold(143);
    lemma_pow2_unfold(144);
    lemma_pow2_unfold(145);
    lemma_pow2_unfold(146);
    lemma_pow2_unfold(147);
    lemma_pow2_unfold(148);
    lemma_pow2_unfold(149);
    lemma_pow2_unfold(150);
    lemma_pow2_unfold(151);
    lemma_pow2_unfold(152);
}

} // verus!
