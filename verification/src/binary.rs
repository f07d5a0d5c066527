//! Real numbers at the edge of the rules.
//!
//! The rules never compute with real numbers. Where they carry one (a pose, a
//! drive command) they hold its IEEE 754 binary64 pattern, and where they
//! test one they test the pattern.
use vstd::prelude::*;

verus! {

/// Patterns of numbers of one sign; the sign is the first bit.
pub const SIGN: u64 = 0x8000_0000_0000_0000;

/// The pattern of infinity. The patterns of not-a-numbers lie above it.
pub const INFINITY: u64 = 0x7ff0_0000_0000_0000;

/// The pattern of 1.
pub const ONE: u64 = 0x3ff0_0000_0000_0000;

/// The pattern of 1.6.
pub const ONE_POINT_SIX: u64 = 0x3ff9_9999_9999_999a;

/// The pattern of 3.
pub const THREE: u64 = 0x4008_0000_0000_0000;

/// The pattern of -3.
pub const MINUS_THREE: u64 = 0xc008_0000_0000_0000;

/// The pattern of 4.
pub const FOUR: u64 = 0x4010_0000_0000_0000;

/// The pattern of 5.
pub const FIVE: u64 = 0x4014_0000_0000_0000;

/// The pattern of 6.
pub const SIX: u64 = 0x4018_0000_0000_0000;

/// A pattern without its sign.
pub open spec fn magnitude(bits: u64) -> int {
    bits as int % SIGN as int
}

/// Whether a pattern stands for a finite number.
pub open spec fn finite(bits: u64) -> bool {
    magnitude(bits) < INFINITY
}

/// Whether a pattern stands for no number.
pub open spec fn nan(bits: u64) -> bool {
    magnitude(bits) > INFINITY
}

/// Patterns ordered as the numbers they stand for; both zeros are equal.
pub open spec fn rank(bits: u64) -> int {
    if bits >= SIGN {
        -magnitude(bits)
    } else {
        magnitude(bits)
    }
}

/// Whether the number of `a` is at most that of `b`; no claim of a
/// not-a-number holds.
pub open spec fn at_most(a: u64, b: u64) -> bool {
    !nan(a) && !nan(b) && rank(a) <= rank(b)
}

/// Whether two patterns stand for the same number: both zeros do, and no
/// not-a-number is the same as anything.
pub open spec fn same_number(a: u64, b: u64) -> bool {
    !nan(a) && !nan(b) && rank(a) == rank(b)
}

/// Whether the number of `a` is greater than that of `b`.
pub open spec fn exceeds(a: u64, b: u64) -> bool {
    !nan(a) && !nan(b) && rank(a) > rank(b)
}

/// The pattern of the number with the other sign.
pub open spec fn negated(bits: u64) -> u64 {
    if bits >= SIGN {
        (bits - SIGN) as u64
    } else {
        (bits + SIGN) as u64
    }
}

/// Whether the absolute value of `a` is at most the number of `b`.
pub open spec fn abs_at_most(a: u64, b: u64) -> bool {
    at_most(magnitude(a) as u64, b)
}

/// Whether a pattern stands for a finite number.
pub fn is_finite(bits: u64) -> (r: bool)
    ensures
        r == finite(bits),
{
    bits % SIGN < INFINITY
}

/// Whether two patterns stand for the same number.
pub fn is_same_number(a: u64, b: u64) -> (r: bool)
    ensures
        r == same_number(a, b),
{
    is_at_most(a, b) && is_at_most(b, a)
}

/// Whether the number of `a` is greater than that of `b`.
pub fn is_greater(a: u64, b: u64) -> (r: bool)
    ensures
        r == exceeds(a, b),
{
    is_at_most(b, a) && !is_at_most(a, b)
}

/// The pattern of the number with the other sign.
pub fn negate(bits: u64) -> (r: u64)
    ensures
        r == negated(bits),
{
    if bits >= SIGN {
        bits - SIGN
    } else {
        bits + SIGN
    }
}

/// Whether the number of `a` is at most that of `b`.
pub fn is_at_most(a: u64, b: u64) -> (r: bool)
    ensures
        r == at_most(a, b),
{
    let ma: u64 = a % SIGN;
    let mb: u64 = b % SIGN;
    if ma > INFINITY || mb > INFINITY {
        return false;
    }
    if a >= SIGN {
        if b >= SIGN {
            mb <= ma
        } else {
            true
        }
    } else if b >= SIGN {
        ma == 0 && mb == 0
    } else {
        ma <= mb
    }
}

/// Whether the absolute value of `a` is at most the number of `b`.
pub fn is_abs_at_most(a: u64, b: u64) -> (r: bool)
    ensures
        r == abs_at_most(a, b),
{
    is_at_most(a % SIGN, b)
}

/// A position and a rotation, each coordinate as its binary64 pattern.
#[derive(Clone, Copy, Debug, PartialEq, Eq)]
pub struct Pose {
    /// Position in metres.
    pub translation_m: [u64; 3],
    /// Rotation quaternion, scalar first.
    pub rotation_wxyz: [u64; 4],
}

impl Pose {
    /// Every coordinate is finite.
    pub open spec fn finite(&self) -> bool {
        &&& forall|i: int| 0 <= i < 3 ==> finite(#[trigger] self.translation_m[i])
        &&& forall|i: int| 0 <= i < 4 ==> finite(#[trigger] self.rotation_wxyz[i])
    }

    /// Every coordinate is the same number.
    pub open spec fn same(&self, other: Pose) -> bool {
        &&& forall|i: int|
            0 <= i < 3 ==> same_number(#[trigger] self.translation_m[i], other.translation_m[i])
        &&& forall|i: int|
            0 <= i < 4 ==> same_number(#[trigger] self.rotation_wxyz[i], other.rotation_wxyz[i])
    }

    /// Whether every coordinate is the same number.
    pub fn is_same(&self, other: &Pose) -> (r: bool)
        ensures
            r == self.same(*other),
    {
        let mut i: usize = 0;
        while i < 3
            invariant
                i <= 3,
                forall|j: int|
                    0 <= j < i ==> same_number(
                        #[trigger] self.translation_m[j],
                        other.translation_m[j],
                    ),
            decreases 3 - i,
        {
            if !is_same_number(self.translation_m[i], other.translation_m[i]) {
                return false;
            }
            i += 1;
        }
        let mut k: usize = 0;
        while k < 4
            invariant
                k <= 4,
                forall|j: int|
                    0 <= j < k ==> same_number(
                        #[trigger] self.rotation_wxyz[j],
                        other.rotation_wxyz[j],
                    ),
            decreases 4 - k,
        {
            if !is_same_number(self.rotation_wxyz[k], other.rotation_wxyz[k]) {
                return false;
            }
            k += 1;
        }
        true
    }

    /// Whether every coordinate is finite.
    pub fn is_finite(&self) -> (r: bool)
        ensures
            r == self.finite(),
    {
        let mut i: usize = 0;
        while i < 3
            invariant
                i <= 3,
                forall|j: int| 0 <= j < i ==> finite(#[trigger] self.translation_m[j]),
            decreases 3 - i,
        {
            if !is_finite(self.translation_m[i]) {
                return false;
            }
            i += 1;
        }
        let mut k: usize = 0;
        while k < 4
            invariant
                k <= 4,
                forall|j: int| 0 <= j < k ==> finite(#[trigger] self.rotation_wxyz[j]),
            decreases 4 - k,
        {
            if !is_finite(self.rotation_wxyz[k]) {
                return false;
            }
            k += 1;
        }
        true
    }
}

/// Eleven bits of exponent tell finite numbers from the rest, and what has them
/// all set and a fraction beside them is no number.
pub proof fn exponents_tell_what_is_finite(bits: u64)
    ensures
        finite(bits) <==> bits / 0x10_0000_0000_0000 % 0x800 != 0x7ff,
        nan(bits) <==> bits / 0x10_0000_0000_0000 % 0x800 == 0x7ff && bits % 0x10_0000_0000_0000
            != 0,
{
}

/// Numbers are ordered: of any two one is at most the other, both only where
/// they are the same, and exceeding is the contrary. No not-a-number takes part.
pub proof fn numbers_are_ordered(a: u64, b: u64, c: u64)
    ensures
        !nan(a) && !nan(b) ==> at_most(a, b) || at_most(b, a),
        at_most(a, b) && at_most(b, c) ==> at_most(a, c),
        at_most(a, b) && at_most(b, a) <==> same_number(a, b),
        !nan(a) && !nan(b) ==> (exceeds(a, b) <==> !at_most(a, b)),
        nan(a) ==> !at_most(a, b) && !at_most(b, a) && !same_number(a, a) && !exceeds(a, b)
            && !exceeds(b, a),
{
}

/// Positive numbers are ordered as their patterns, negative ones the other way
/// round, a negative number lies below a positive one, and both zeros are the
/// same.
pub proof fn patterns_are_ordered_by_sign(a: u64, b: u64)
    requires
        !nan(a),
        !nan(b),
    ensures
        a < 0x8000_0000_0000_0000 && b < 0x8000_0000_0000_0000 ==> (at_most(a, b) <==> a <= b),
        a >= 0x8000_0000_0000_0000 && b >= 0x8000_0000_0000_0000 ==> (at_most(a, b) <==> b <= a),
        a >= 0x8000_0000_0000_0000 && b < 0x8000_0000_0000_0000 ==> at_most(a, b),
        same_number(a, b) && a != b ==> (a == 0 && b == 0x8000_0000_0000_0000) || (a
            == 0x8000_0000_0000_0000 && b == 0),
{
}

/// Turning the sign over reverses the order, and doing so twice changes
/// nothing. An absolute value does not know the sign.
pub proof fn signs_turn_over(a: u64, b: u64)
    ensures
        at_most(a, b) <==> at_most(negated(b), negated(a)),
        negated(negated(a)) == a,
        negated(a) != a,
        nan(negated(a)) == nan(a),
        finite(negated(a)) == finite(a),
        abs_at_most(a, b) == abs_at_most(negated(a), b),
        abs_at_most(a, b) <==> at_most(a, b) && at_most(negated(a), b),
{
}

/// The numbers that are named: one, three and its negative, four, five and six
/// stand by their powers of two, and 1.6 by its nearest pattern.
pub proof fn names_stand_for_their_numbers()
    ensures
        ONE == 1023 * 0x10_0000_0000_0000,
        THREE == 1024 * 0x10_0000_0000_0000 + 0x8_0000_0000_0000,
        MINUS_THREE == negated(THREE),
        FOUR == 1025 * 0x10_0000_0000_0000,
        FIVE == 1025 * 0x10_0000_0000_0000 + 0x4_0000_0000_0000,
        SIX == 1025 * 0x10_0000_0000_0000 + 0x8_0000_0000_0000,
        ONE_POINT_SIX == 0x3ff9_9999_9999_999a,
{
}

/// A pose is finite, and the same as another, in all seven coordinates.
pub proof fn poses_have_seven_coordinates(a: Pose, b: Pose)
    ensures
        a.finite() ==> {
            &&& finite(a.translation_m[0]) && finite(a.translation_m[1]) && finite(
                a.translation_m[2],
            )
            &&& finite(a.rotation_wxyz[0]) && finite(a.rotation_wxyz[1]) && finite(
                a.rotation_wxyz[2],
            ) && finite(a.rotation_wxyz[3])
        },
        a.same(b) ==> {
            &&& same_number(a.translation_m[0], b.translation_m[0])
            &&& same_number(a.translation_m[1], b.translation_m[1])
            &&& same_number(a.translation_m[2], b.translation_m[2])
            &&& same_number(a.rotation_wxyz[0], b.rotation_wxyz[0])
            &&& same_number(a.rotation_wxyz[1], b.rotation_wxyz[1])
            &&& same_number(a.rotation_wxyz[2], b.rotation_wxyz[2])
            &&& same_number(a.rotation_wxyz[3], b.rotation_wxyz[3])
        },
        a.finite() ==> a.same(a),
{
}

} // verus!
