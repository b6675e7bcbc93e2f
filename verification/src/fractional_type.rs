//! A deterministic signed fixed-point scalar with 16 integer bits and 16
//! fractional bits, stored in an `i32`. A stored value `bits` stands for the
//! real number `bits / 65536`. All arithmetic wraps on overflow, consistently
//! with the 32-bit storage, so results are reproducible on every host.

use std::cmp::Ordering;
use vstd::prelude::*;
use vstd::std_specs::cmp::PartialOrdSpec;

verus! {

/// Whether a raw value fits the 32-bit storage.
pub open spec fn fx_in_range(v: int) -> bool {
    -0x8000_0000 <= v < 0x8000_0000
}

/// Wrap an unbounded raw value into the 32-bit storage, two's-complement
/// style.
pub open spec fn fx_wrap(v: int) -> int {
    if v % 0x1_0000_0000 >= 0x8000_0000 {
        v % 0x1_0000_0000 - 0x1_0000_0000
    } else {
        v % 0x1_0000_0000
    }
}

/// Raw value of the sum of two raw values.
pub open spec fn fx_add(a: int, b: int) -> int {
    fx_wrap(a + b)
}

/// Raw value of the difference of two raw values.
pub open spec fn fx_sub(a: int, b: int) -> int {
    fx_wrap(a - b)
}

/// Raw value of the negation of a raw value.
pub open spec fn fx_neg(a: int) -> int {
    fx_wrap(-a)
}

/// Raw value of the product of two raw values: the exact product keeps its
/// low 16 fractional bits, rounding toward negative infinity.
pub open spec fn fx_mul(a: int, b: int) -> int {
    fx_wrap((a * b) / 65536)
}

/// Division truncating toward zero, as the hardware division does.
pub open spec fn trunc_div(n: int, d: int) -> int {
    let na = if n >= 0 { n } else { -n };
    let da = if d >= 0 { d } else { -d };
    if (n >= 0) == (d >= 0) {
        na / da
    } else {
        -(na / da)
    }
}

/// Raw value of the quotient of two raw values, truncating toward zero.
pub open spec fn fx_div(a: int, b: int) -> int {
    fx_wrap(trunc_div(a * 65536, b))
}

/// Raw value rounded down to the nearest whole number.
pub open spec fn fx_floor(v: int) -> int {
    v - (v % 65536)
}

/// Raw value rounded up to the nearest whole number.
pub open spec fn fx_ceil(v: int) -> int {
    fx_wrap(v + ((65536 - (v % 65536)) % 65536))
}

/// Raw value rounded to the nearest whole number, ties away from zero.
pub open spec fn fx_round(v: int) -> int {
    let r = v % 65536;
    if r > 32768 {
        fx_wrap(v - r + 65536)
    } else if r < 32768 {
        fx_wrap(v - r)
    } else if v >= 0 {
        fx_wrap(v - r + 65536)
    } else {
        fx_wrap(v - r)
    }
}

/// Whole part of a raw value: the fraction bits drop away, so the result
/// rounds toward negative infinity.
pub open spec fn fx_to_int(v: int) -> int {
    v / 65536
}

/// The fixed-point scalar. Its view is the raw stored value: the represented
/// real number is the view divided by 65536.
#[derive(Clone, Copy, Debug)]
pub struct FractionalType {
    bits: i32,
}

impl PartialEq for FractionalType {
    fn eq(&self, other: &Self) -> bool {
        self.bits == other.bits
    }
}

impl vstd::std_specs::cmp::PartialEqSpecImpl for FractionalType {
    open spec fn obeys_eq_spec() -> bool {
        true
    }

    open spec fn eq_spec(&self, other: &Self) -> bool {
        self@ == other@
    }
}

impl View for FractionalType {
    type V = int;

    closed spec fn view(&self) -> int {
        self.bits as int
    }
}

impl FractionalType {
    /// Build a value from its raw 32-bit representation.
    pub fn from_fixed(fixed: i32) -> (r: Self)
        ensures
            r@ == fixed as int,
    {
        FractionalType { bits: fixed }
    }

    /// Build a value from a whole number. Only whole numbers within the
    /// 16-integer-bit range are representable.
    pub fn from_num(num: i32) -> (r: Self)
        requires
            -32768 <= num <= 32767,
        ensures
            r@ == num * 65536,
    {
        FractionalType { bits: num * 65536 }
    }

    /// The raw 32-bit representation.
    pub fn to_fixed(&self) -> (r: i32)
        ensures
            r as int == self@,
    {
        self.bits
    }

    /// The whole part of the value: the fraction bits are discarded, so the
    /// result rounds toward negative infinity.
    pub fn to_num(&self) -> (r: i32)
        ensures
            r as int == fx_to_int(self@),
    {
        let q: i64 = floor_div_scale(self.bits as i64);
        proof {
            vstd::arithmetic::div_mod::lemma_div_is_ordered(
                -0x8000_0000,
                self.bits as int,
                65536,
            );
            vstd::arithmetic::div_mod::lemma_div_is_ordered(
                self.bits as int,
                0x7FFF_FFFF,
                65536,
            );
        }
        q as i32
    }

    /// The zero value.
    pub fn zero() -> (r: Self)
        ensures
            r@ == 0,
    {
        FractionalType { bits: 0 }
    }

    /// Whether this is the zero value.
    pub fn is_zero(&self) -> (r: bool)
        ensures
            r == (self@ == 0),
    {
        let z = Self::zero();
        *self == z
    }

    /// Wrapping fixed-point addition.
    pub fn add(self, other: Self) -> (r: Self)
        ensures
            r@ == fx_add(self@, other@),
    {
        wrap_i64(self.bits as i64 + other.bits as i64)
    }

    /// Wrapping fixed-point subtraction.
    pub fn sub(self, other: Self) -> (r: Self)
        ensures
            r@ == fx_sub(self@, other@),
    {
        wrap_i64(self.bits as i64 - other.bits as i64)
    }

    /// Wrapping fixed-point negation.
    pub fn neg(self) -> (r: Self)
        ensures
            r@ == fx_neg(self@),
    {
        wrap_i64(-(self.bits as i64))
    }

    /// Wrapping fixed-point multiplication: the exact product is scaled back
    /// down, rounding toward negative infinity.
    pub fn mul(self, other: Self) -> (r: Self)
        ensures
            r@ == fx_mul(self@, other@),
    {
        proof {
            let a = self.bits as int;
            let b = other.bits as int;
            assert(-0x4000_0000_0000_0000 <= a * b <= 0x4000_0000_0000_0000)
                by (nonlinear_arith)
                requires
                    -0x8000_0000 <= a < 0x8000_0000,
                    -0x8000_0000 <= b < 0x8000_0000,
            ;
        }
        let p: i64 = (self.bits as i64) * (other.bits as i64);
        let q: i64 = floor_div_scale(p);
        wrap_i64(q)
    }

    /// Wrapping fixed-point division, truncating toward zero. The zero
    /// divisor is excluded: callers must test for it first.
    pub fn div(self, other: Self) -> (r: Self)
        requires
            other@ != 0,
        ensures
            r@ == fx_div(self@, other@),
    {
        let n: i64 = (self.bits as i64) * 65536;
        let q: i64 = trunc_div_i64(n, other.bits as i64);
        wrap_i64(q)
    }

    /// Largest whole value not above this one. Never overflows: the lowest
    /// representable value is itself whole.
    pub fn floor(&self) -> (r: Self)
        ensures
            r@ == fx_floor(self@),
    {
        let m: i32 = frac_part(self.bits);
        proof {
            vstd::arithmetic::div_mod::lemma_fundamental_div_mod(self.bits as int, 65536);
            vstd::arithmetic::div_mod::lemma_div_is_ordered(
                -0x8000_0000,
                self.bits as int,
                65536,
            );
        }
        FractionalType { bits: self.bits - m }
    }

    /// Smallest whole value not below this one, wrapping at the top of the
    /// range.
    pub fn ceil(&self) -> (r: Self)
        ensures
            r@ == fx_ceil(self@),
    {
        let m: i32 = frac_part(self.bits);
        let t: i32 = if m == 0 { 0 } else { 65536 - m };
        proof {
            if m == 0 {
                vstd::arithmetic::div_mod::lemma_mod_self_0(65536);
            } else {
                vstd::arithmetic::div_mod::lemma_small_mod((65536 - m) as nat, 65536nat);
            }
        }
        wrap_i64(self.bits as i64 + t as i64)
    }

    /// Nearest whole value, ties away from zero, wrapping at the top of the
    /// range.
    pub fn round(&self) -> (r: Self)
        ensures
            r@ == fx_round(self@),
    {
        let m: i32 = frac_part(self.bits);
        let base: i64 = self.bits as i64 - m as i64;
        if m > 32768 {
            wrap_i64(base + 65536)
        } else if m < 32768 {
            wrap_i64(base)
        } else if self.bits >= 0 {
            wrap_i64(base + 65536)
        } else {
            wrap_i64(base)
        }
    }
}

impl PartialOrd for FractionalType {
    fn partial_cmp(&self, other: &Self) -> Option<Ordering> {
        if self.bits < other.bits {
            Some(Ordering::Less)
        } else if self.bits > other.bits {
            Some(Ordering::Greater)
        } else {
            Some(Ordering::Equal)
        }
    }
}

impl vstd::std_specs::cmp::PartialOrdSpecImpl for FractionalType {
    open spec fn obeys_partial_cmp_spec() -> bool {
        true
    }

    open spec fn partial_cmp_spec(&self, other: &Self) -> Option<Ordering> {
        if self@ < other@ {
            Some(Ordering::Less)
        } else if self@ > other@ {
            Some(Ordering::Greater)
        } else {
            Some(Ordering::Equal)
        }
    }
}

/// Floor division of a bounded raw product by the scale factor.
fn floor_div_scale(p: i64) -> (q: i64)
    requires
        -0x4000_0000_0000_0000 <= p <= 0x4000_0000_0000_0000,
    ensures
        q as int == (p as int) / 65536,
        -0x1_0000_0000_0000 <= q <= 0x1_0000_0000_0000,
{
    if p >= 0 {
        let q: u64 = (p as u64) / 65536;
        proof {
            vstd::arithmetic::div_mod::lemma_div_is_ordered(
                p as int,
                0x4000_0000_0000_0000,
                65536,
            );
        }
        q as i64
    } else {
        let n: u64 = (-p) as u64;
        let q: u64 = (n + 65535) / 65536;
        proof {
            let nn = n as int;
            let qq = q as int;
            vstd::arithmetic::div_mod::lemma_fundamental_div_mod(nn + 65535, 65536);
            let rr = (nn + 65535) % 65536;
            assert(nn + 65535 == 65536 * qq + rr);
            assert(-nn == (-qq) * 65536 + (65535 - rr));
            vstd::arithmetic::div_mod::lemma_fundamental_div_mod_converse_div(
                -nn,
                65536,
                -qq,
                65535 - rr,
            );
            assert(-qq == (p as int) / 65536);
            vstd::arithmetic::div_mod::lemma_div_is_ordered(
                nn + 65535,
                0x4000_0000_0000_0000int + 65535,
                65536,
            );
        }
        -(q as i64)
    }
}

/// Division of bounded values truncating toward zero, through nonnegative
/// magnitudes.
fn trunc_div_i64(n: i64, d: i64) -> (q: i64)
    requires
        d != 0,
        -0x4000_0000_0000_0000 < n < 0x4000_0000_0000_0000,
        -0x8000_0000 <= d < 0x8000_0000,
    ensures
        q as int == trunc_div(n as int, d as int),
        -0x4000_0000_0000_0000 < q < 0x4000_0000_0000_0000,
{
    let na: u64 = if n >= 0 { n as u64 } else { (-n) as u64 };
    let da: u64 = if d >= 0 { d as u64 } else { (-d) as u64 };
    let qa: u64 = na / da;
    proof {
        assert(qa as int <= na as int) by {
            vstd::arithmetic::div_mod::lemma_fundamental_div_mod(na as int, da as int);
            assert(na as int == (da as int) * (qa as int) + (na as int) % (da as int));
            assert((da as int) * (qa as int) >= qa as int) by (nonlinear_arith)
                requires
                    da as int >= 1,
                    qa as int >= 0,
            ;
        }
    }
    if (n >= 0) == (d >= 0) {
        qa as i64
    } else {
        -(qa as i64)
    }
}

/// Euclidean remainder of a raw value by the scale factor: the fractional
/// bits, always nonnegative.
fn frac_part(v: i32) -> (m: i32)
    ensures
        m as int == (v as int) % 65536,
        0 <= m < 65536,
{
    let shifted: u64 = (v as i64 + 0x8000_0000) as u64;
    let m: u64 = shifted % 65536;
    proof {
        vstd::arithmetic::div_mod::lemma_mod_multiples_vanish(0x8000, v as int, 65536);
        assert(shifted as int == 65536 * 0x8000 + v as int);
    }
    m as i32
}

/// Wrap a raw value held in an `i64` into the 32-bit storage.
fn wrap_i64(v: i64) -> (r: FractionalType)
    requires
        -0x4000_0000_0000_0000 <= v < 0x4000_0000_0000_0000,
    ensures
        r@ == fx_wrap(v as int),
{
    let shifted: u64 = (v + 0x4000_0000_0000_0000) as u64;
    let m: u64 = shifted % 0x1_0000_0000;
    proof {
        vstd::arithmetic::div_mod::lemma_mod_multiples_vanish(
            0x4000_0000,
            v as int,
            0x1_0000_0000,
        );
        assert(shifted as int == 0x1_0000_0000 * 0x4000_0000 + v as int);
        assert(m as int == (v as int) % 0x1_0000_0000);
    }
    if m >= 0x8000_0000 {
        FractionalType { bits: (m as i64 - 0x1_0000_0000) as i32 }
    } else {
        FractionalType { bits: m as i64 as i32 }
    }
}

/// Wrapping always lands in the 32-bit range.
pub proof fn lemma_wrap_in_range(v: int)
    ensures
        fx_in_range(fx_wrap(v)),
{
}

/// Wrapping a value already in range changes nothing.
pub proof fn lemma_wrap_id(v: int)
    requires
        fx_in_range(v),
    ensures
        fx_wrap(v) == v,
{
    if v >= 0 {
        vstd::arithmetic::div_mod::lemma_small_mod(v as nat, 0x1_0000_0000nat);
    } else {
        vstd::arithmetic::div_mod::lemma_mod_multiples_vanish(1, v, 0x1_0000_0000);
        vstd::arithmetic::div_mod::lemma_small_mod((v + 0x1_0000_0000) as nat, 0x1_0000_0000nat);
    }
}

/// A wrapped value is congruent to the original modulo the storage size.
pub proof fn lemma_wrap_congruent(v: int)
    ensures
        fx_wrap(v) % 0x1_0000_0000 == v % 0x1_0000_0000,
{
    vstd::arithmetic::div_mod::lemma_mod_sub_multiples_vanish(v % 0x1_0000_0000, 0x1_0000_0000);
    vstd::arithmetic::div_mod::lemma_mod_twice(v, 0x1_0000_0000);
}

/// The view of every value lies in the 32-bit range.
pub broadcast proof fn lemma_view_in_range(a: FractionalType)
    ensures
        fx_in_range(#[trigger] a@),
{
}

/// Two distinct representable values have a nonzero wrapped difference.
pub proof fn lemma_sub_nonzero(a: int, b: int)
    requires
        fx_in_range(a),
        fx_in_range(b),
        a != b,
    ensures
        fx_sub(a, b) != 0,
{
    let v = a - b;
    if v > 0 {
        vstd::arithmetic::div_mod::lemma_small_mod(v as nat, 0x1_0000_0000nat);
    } else {
        vstd::arithmetic::div_mod::lemma_mod_multiples_vanish(1, v, 0x1_0000_0000);
        vstd::arithmetic::div_mod::lemma_small_mod((v + 0x1_0000_0000) as nat, 0x1_0000_0000nat);
    }
}

/// Adding a value and then subtracting it again returns the original
/// exactly, for every pair of representable raw values: addition and
/// subtraction drift by nothing.
pub proof fn lemma_add_sub_exact(a: int, b: int)
    requires
        fx_in_range(a),
        fx_in_range(b),
    ensures
        fx_sub(fx_add(a, b), b) == a,
{
    let w = fx_wrap(a + b);
    lemma_wrap_congruent(a + b);
    vstd::arithmetic::div_mod::lemma_sub_mod_noop(w, b, 0x1_0000_0000);
    vstd::arithmetic::div_mod::lemma_sub_mod_noop(a + b, b, 0x1_0000_0000);
    assert((w - b) % 0x1_0000_0000 == a % 0x1_0000_0000);
    lemma_wrap_id(a);
}

/// Multiplying by one is exact.
pub proof fn lemma_mul_one_exact(a: int)
    requires
        fx_in_range(a),
    ensures
        fx_mul(a, 65536) == a,
{
    vstd::arithmetic::div_mod::lemma_div_multiples_vanish(a, 65536);
    assert(a * 65536 == 65536 * a);
    lemma_wrap_id(a);
}

/// Dividing a nonzero value by itself gives exactly one.
pub proof fn lemma_div_self_one(a: int)
    requires
        fx_in_range(a),
        a != 0,
    ensures
        fx_div(a, a) == 65536,
{
    let na = if a >= 0 { a } else { -a };
    assert(trunc_div(a * 65536, a) == (na * 65536) / na);
    vstd::arithmetic::div_mod::lemma_div_multiples_vanish(65536, na);
    assert(na * 65536 == na * 65536);
    lemma_wrap_id(65536);
}

/// The ordering is total, antisymmetric and transitive, and agrees with the
/// real-number interpretation of the stored value: the represented number is
/// the view divided by 65536, so the views order exactly as the represented
/// numbers do.
pub proof fn lemma_order_is_total(a: FractionalType, b: FractionalType, c: FractionalType)
    ensures
        (a.partial_cmp_spec(&b) == Some(Ordering::Less)) <==> a@ < b@,
        (a.partial_cmp_spec(&b) == Some(Ordering::Equal)) <==> a == b,
        (a.partial_cmp_spec(&b) == Some(Ordering::Greater)) <==> (b.partial_cmp_spec(&a)
            == Some(Ordering::Less)),
        a.partial_cmp_spec(&b) == Some(Ordering::Less) && b.partial_cmp_spec(&c) == Some(
            Ordering::Less,
        ) ==> a.partial_cmp_spec(&c) == Some(Ordering::Less),
{
    assert(a@ == b@ ==> a == b);
}

} // verus!
