use vstd::prelude::*;

verus! {

/// Two to the power 32: the raw representation of the fixed-point number one.
pub const PLANAR64_ONE: i64 = 0x1_0000_0000;

/// The greatest common divisor of `a` and `b`, by Euclid's recurrence.
pub open spec fn gcd(a: nat, b: nat) -> nat
    decreases b,
{
    if b == 0 {
        a
    } else {
        gcd(b, a % b)
    }
}

/// The quotient of `a` by `b`, rounded toward zero.
pub open spec fn div_toward_zero(a: int, b: int) -> int
    recommends
        b != 0,
{
    if a >= 0 {
        a / b
    } else {
        -((-a) / b)
    }
}

/// A point in time, or a duration, in whole nanoseconds.
#[derive(Clone, Copy, Debug, Hash, PartialEq, Eq, Structural)]
pub struct Time(pub i64);

impl Time {
    /// One second.
    pub fn one_second() -> (r: Self)
        ensures
            r.0 == 1_000_000_000,
    {
        Time(1_000_000_000)
    }

    /// The duration of `num` microseconds.
    pub fn from_micros(num: i64) -> (r: Self)
        requires
            i64::MIN <= num * 1000 <= i64::MAX,
        ensures
            r.0 == num * 1000,
    {
        Time(num * 1000)
    }

    /// The number of nanoseconds.
    pub fn nanos(&self) -> (r: i64)
        ensures
            r == self.0,
    {
        self.0
    }
}

/// A signed fixed-point number with 32 fractional bits: it stands for `self.0 / 2^32`.
#[derive(Clone, Copy, Debug, Hash, PartialEq, Eq, Structural)]
pub struct Planar64(pub i64);

/// The fixed-point number that stands for the whole number `n`.
pub open spec fn whole(n: int) -> Planar64 {
    Planar64((n * 0x1_0000_0000) as i64)
}

impl Planar64 {
    /// The whole number `num`.
    pub fn from_int(num: i32) -> (r: Self)
        ensures
            r == whole(num as int),
            r.0 == num * 0x1_0000_0000,
    {
        let wide: i64 = num as i64;
        assert(i64::MIN <= wide * 0x1_0000_0000 <= i64::MAX) by (nonlinear_arith)
            requires
                -0x8000_0000 <= wide <= 0x7fff_ffff,
        ;
        Planar64(PLANAR64_ONE * wide)
    }

    /// The number whose raw representation is `num`.
    pub fn raw(num: i64) -> (r: Self)
        ensures
            r.0 == num,
    {
        Planar64(num)
    }

    /// The raw representation.
    pub fn get(&self) -> (r: i64)
        ensures
            r == self.0,
    {
        self.0
    }
}

impl vstd::std_specs::ops::DivSpecImpl<i64> for Planar64 {
    open spec fn obeys_div_spec() -> bool {
        true
    }

    open spec fn div_req(self, rhs: i64) -> bool {
        rhs != 0 && !(self.0 == i64::MIN && rhs == -1)
    }

    open spec fn div_spec(self, rhs: i64) -> Planar64 {
        Planar64(div_toward_zero(self.0 as int, rhs as int) as i64)
    }
}

impl core::ops::Div<i64> for Planar64 {
    type Output = Planar64;

    /// Divides the raw representation by `rhs` and rounds toward zero.
    fn div(self, rhs: i64) -> (r: Planar64) {
        Planar64(self.0 / rhs)
    }
}

impl vstd::std_specs::ops::MulSpecImpl<i64> for Planar64 {
    open spec fn obeys_mul_spec() -> bool {
        true
    }

    open spec fn mul_req(self, rhs: i64) -> bool {
        i64::MIN <= self.0 * rhs <= i64::MAX
    }

    open spec fn mul_spec(self, rhs: i64) -> Planar64 {
        Planar64((self.0 * rhs) as i64)
    }
}

impl core::ops::Mul<i64> for Planar64 {
    type Output = Planar64;

    /// Multiplies the raw representation by `rhs`.
    fn mul(self, rhs: i64) -> (r: Planar64) {
        Planar64(self.0 * rhs)
    }
}

/// `r` is the square root of `n`, rounded down.
pub open spec fn is_floor_sqrt(n: int, r: int) -> bool {
    0 <= r && r * r <= n < (r + 1) * (r + 1)
}

impl Planar64 {
    /// The square root, rounded down to the next representable number.
    pub fn sqrt(&self) -> (r: Planar64)
        requires
            self.0 >= 0,
        ensures
            is_floor_sqrt(self.0 * PLANAR64_ONE, r.0 as int),
    {
        let n: u128 = (self.0 as u128) * 0x1_0000_0000u128;
        let mut lo: u128 = 0;
        let mut hi: u128 = 0x1_0000_0000_0000u128;
        assert(n < hi * hi) by (nonlinear_arith)
            requires
                n < 0x8000_0000_0000_0000 * 0x1_0000_0000,
                hi == 0x1_0000_0000_0000u128,
        ;
        while hi - lo > 1
            invariant
                lo < hi <= 0x1_0000_0000_0000u128,
                lo * lo <= n < hi * hi,
            decreases hi - lo,
        {
            let mid: u128 = lo + (hi - lo) / 2;
            assert(mid * mid <= 0x1_0000_0000_0000 * 0x1_0000_0000_0000) by (nonlinear_arith)
                requires
                    mid <= 0x1_0000_0000_0000,
            ;
            if mid * mid <= n {
                lo = mid;
            } else {
                hi = mid;
            }
        }
        Planar64(lo as i64)
    }
}

/// A fraction of a signed numerator over a positive denominator.
#[derive(Clone, Copy, Debug, Hash, PartialEq, Eq, Structural)]
pub struct Ratio64 {
    pub num: i64,
    pub den: u64,
}

/// The absolute value of `a`.
pub open spec fn magnitude(a: int) -> nat {
    if a >= 0 {
        a as nat
    } else {
        (-a) as nat
    }
}

/// The greatest common divisor is positive unless both numbers are zero.
pub proof fn lemma_gcd_positive(a: nat, b: nat)
    requires
        a > 0 || b > 0,
    ensures
        gcd(a, b) > 0,
    decreases b,
{
    if b != 0 {
        lemma_gcd_positive(b, a % b);
    }
}

fn gcd_u64(a: u64, b: u64) -> (d: u64)
    ensures
        d == gcd(a as nat, b as nat),
{
    let mut x: u64 = a;
    let mut y: u64 = b;
    while y != 0
        invariant
            gcd(x as nat, y as nat) == gcd(a as nat, b as nat),
        decreases y,
    {
        let t: u64 = x % y;
        x = y;
        y = t;
    }
    x
}

impl Ratio64 {
    /// The fraction `num / den` in lowest terms; none where `den` is zero.
    pub fn new(num: i64, den: u64) -> (r: Option<Ratio64>)
        ensures
            den == 0 ==> r is None,
            den != 0 ==> r == Some(
                (Ratio64 {
                    num: div_toward_zero(num as int, gcd(magnitude(num as int), den as nat) as int) as i64,
                    den: (den as nat / gcd(magnitude(num as int), den as nat)) as u64,
                }),
            ),
    {
        if den == 0 {
            return None;
        }
        let a: u64 = if num >= 0 {
            num as u64
        } else if num == i64::MIN {
            0x8000_0000_0000_0000u64
        } else {
            (-num) as u64
        };
        let d: u64 = gcd_u64(a, den);
        proof {
            lemma_gcd_positive(a as nat, den as nat);
        }
        let q: u64 = a / d;
        assert(q <= a) by (nonlinear_arith)
            requires
                q == a / d,
                d >= 1,
        ;
        let n: i64 = if num >= 0 {
            q as i64
        } else if q == 0x8000_0000_0000_0000u64 {
            i64::MIN
        } else {
            -(q as i64)
        };
        Some(Ratio64 { num: n, den: den / d })
    }
}

/// A vector of three fixed-point numbers.
#[derive(Clone, Copy, Debug, Hash, PartialEq, Eq, Structural)]
pub struct Planar64Vec3 {
    pub x: Planar64,
    pub y: Planar64,
    pub z: Planar64,
}

/// The vector that stands for the whole numbers `x`, `y` and `z`.
pub open spec fn whole_vec3(x: int, y: int, z: int) -> Planar64Vec3 {
    Planar64Vec3 { x: whole(x), y: whole(y), z: whole(z) }
}

impl Planar64Vec3 {
    /// The vector of the whole numbers `x`, `y` and `z`.
    pub fn from_int(x: i32, y: i32, z: i32) -> (r: Self)
        ensures
            r == whole_vec3(x as int, y as int, z as int),
    {
        Planar64Vec3 { x: Planar64::from_int(x), y: Planar64::from_int(y), z: Planar64::from_int(z) }
    }

    /// The vector whose raw representations are `x`, `y` and `z`.
    pub fn raw(x: i64, y: i64, z: i64) -> (r: Self)
        ensures
            r == (Planar64Vec3 { x: Planar64(x), y: Planar64(y), z: Planar64(z) }),
    {
        Planar64Vec3 { x: Planar64(x), y: Planar64(y), z: Planar64(z) }
    }
}

impl vstd::std_specs::ops::DivSpecImpl<i64> for Planar64Vec3 {
    open spec fn obeys_div_spec() -> bool {
        true
    }

    open spec fn div_req(self, rhs: i64) -> bool {
        &&& rhs != 0
        &&& rhs == -1 ==> self.x.0 != i64::MIN && self.y.0 != i64::MIN && self.z.0 != i64::MIN
    }

    open spec fn div_spec(self, rhs: i64) -> Planar64Vec3 {
        Planar64Vec3 {
            x: Planar64(div_toward_zero(self.x.0 as int, rhs as int) as i64),
            y: Planar64(div_toward_zero(self.y.0 as int, rhs as int) as i64),
            z: Planar64(div_toward_zero(self.z.0 as int, rhs as int) as i64),
        }
    }
}

impl core::ops::Div<i64> for Planar64Vec3 {
    type Output = Planar64Vec3;

    /// Divides each component by `rhs` and rounds toward zero.
    fn div(self, rhs: i64) -> (r: Planar64Vec3) {
        Planar64Vec3 { x: self.x / rhs, y: self.y / rhs, z: self.z / rhs }
    }
}

impl vstd::std_specs::ops::SubSpecImpl<Planar64Vec3> for Planar64Vec3 {
    open spec fn obeys_sub_spec() -> bool {
        true
    }

    open spec fn sub_req(self, rhs: Planar64Vec3) -> bool {
        &&& i64::MIN <= self.x.0 - rhs.x.0 <= i64::MAX
        &&& i64::MIN <= self.y.0 - rhs.y.0 <= i64::MAX
        &&& i64::MIN <= self.z.0 - rhs.z.0 <= i64::MAX
    }

    open spec fn sub_spec(self, rhs: Planar64Vec3) -> Planar64Vec3 {
        Planar64Vec3 {
            x: Planar64((self.x.0 - rhs.x.0) as i64),
            y: Planar64((self.y.0 - rhs.y.0) as i64),
            z: Planar64((self.z.0 - rhs.z.0) as i64),
        }
    }
}

impl core::ops::Sub<Planar64Vec3> for Planar64Vec3 {
    type Output = Planar64Vec3;

    /// Subtracts component by component.
    fn sub(self, rhs: Planar64Vec3) -> (r: Planar64Vec3) {
        Planar64Vec3 {
            x: Planar64(self.x.0 - rhs.x.0),
            y: Planar64(self.y.0 - rhs.y.0),
            z: Planar64(self.z.0 - rhs.z.0),
        }
    }
}

/// A matrix of three fixed-point column vectors.
#[derive(Clone, Copy, Debug, Hash, PartialEq, Eq, Structural)]
pub struct Planar64Mat3 {
    pub x_axis: Planar64Vec3,
    pub y_axis: Planar64Vec3,
    pub z_axis: Planar64Vec3,
}

/// An affine transform: a linear part and a translation.
#[derive(Clone, Copy, Debug, Hash, PartialEq, Eq, Structural)]
pub struct Planar64Affine3 {
    pub matrix3: Planar64Mat3,
    pub translation: Planar64Vec3,
}

impl Planar64Affine3 {
    /// The transform with the linear part `matrix3` and the translation `translation`.
    pub fn new(matrix3: Planar64Mat3, translation: Planar64Vec3) -> (r: Self)
        ensures
            r == (Planar64Affine3 { matrix3, translation }),
    {
        Planar64Affine3 { matrix3, translation }
    }
}

} // verus!
