//! Value filters: each takes one value at a time and returns the filtered
//! value.

use vstd::prelude::*;
use std::marker::PhantomData;

verus! {

/// A filter of a stream of values.
pub trait Filter: Sized {
    type Item;

    /// `after` and `out` are the filter state and the result once `value`
    /// has been added to a filter in state `before`.
    spec fn added(before: Self, after: Self, value: Self::Item, out: Option<Self::Item>) -> bool;

    /// Takes `value` and returns the filtered value.
    fn add(&mut self, value: Self::Item) -> (out: Option<Self::Item>)
        ensures
            Self::added(*old(self), *final(self), value, out),
    ;
}

/// `n / d` rounded to the nearest integer, halves away from zero.
pub open spec fn round_ratio(n: int, d: int) -> int {
    if n >= 0 {
        (2 * n + d) / (2 * d)
    } else {
        -((2 * (-n) + d) / (2 * d))
    }
}

/// `a / d` rounded toward zero.
pub open spec fn trunc_div(a: int, d: int) -> int {
    if a >= 0 {
        a / d
    } else {
        -((-a) / d)
    }
}

proof fn lemma_round_half_up_between(m: int, d: int, lo: int, hi: int)
    requires
        d > 0,
        m >= 0,
        lo * d <= m <= hi * d,
    ensures
        lo <= (2 * m + d) / (2 * d) <= hi,
{
    let q = (2 * m + d) / (2 * d);
    let r = (2 * m + d) % (2 * d);
    vstd::arithmetic::div_mod::lemma_fundamental_div_mod(2 * m + d, 2 * d);
    vstd::arithmetic::div_mod::lemma_mod_bound(2 * m + d, 2 * d);
    assert(lo <= q <= hi) by (nonlinear_arith)
        requires
            2 * m + d == 2 * d * q + r,
            0 <= r < 2 * d,
            d > 0,
            m >= 0,
            lo * d <= m <= hi * d,
    ;
}

/// A value rounded from a fraction that lies between two integers lies
/// between them too.
proof fn lemma_round_ratio_between(n: int, d: int, lo: int, hi: int)
    requires
        d > 0,
        lo * d <= n <= hi * d,
    ensures
        lo <= round_ratio(n, d) <= hi,
{
    if n >= 0 {
        lemma_round_half_up_between(n, d, lo, hi);
    } else {
        assert((-hi) * d <= -n <= (-lo) * d) by (nonlinear_arith)
            requires
                lo * d <= n <= hi * d,
        ;
        lemma_round_half_up_between(-n, d, -hi, -lo);
    }
}

proof fn lemma_trunc_div_between(a: int, d: int, lo: int, hi: int)
    requires
        d > 0,
        lo * d <= a <= hi * d,
    ensures
        lo <= trunc_div(a, d) <= hi,
{
    if a >= 0 {
        let q = a / d;
        let r = a % d;
        vstd::arithmetic::div_mod::lemma_fundamental_div_mod(a, d);
        vstd::arithmetic::div_mod::lemma_mod_bound(a, d);
        assert(lo <= q <= hi) by (nonlinear_arith)
            requires
                a == d * q + r,
                0 <= r < d,
                a >= 0,
                lo * d <= a <= hi * d,
        ;
    } else {
        let b = -a;
        let q = b / d;
        let r = b % d;
        vstd::arithmetic::div_mod::lemma_fundamental_div_mod(b, d);
        vstd::arithmetic::div_mod::lemma_mod_bound(b, d);
        assert(-hi <= q <= -lo) by (nonlinear_arith)
            requires
                b == d * q + r,
                0 <= r < d,
                b > 0,
                lo * d <= -b <= hi * d,
        ;
    }
}

/// Passes every value through unchanged.
#[derive(Debug)]
pub struct FilterEmpty<T> {
    phantom: PhantomData<T>,
}

impl<T> FilterEmpty<T> {
    /// A new pass-through filter.
    pub fn new() -> (r: Self) {
        FilterEmpty { phantom: PhantomData }
    }
}

impl Filter for FilterEmpty<i32> {
    type Item = i32;

    open spec fn added(before: Self, after: Self, value: i32, out: Option<i32>) -> bool {
        out == Some(value)
    }

    fn add(&mut self, value: i32) -> (out: Option<i32>) {
        Some(value)
    }
}

impl Filter for FilterEmpty<u16> {
    type Item = u16;

    open spec fn added(before: Self, after: Self, value: u16, out: Option<u16>) -> bool {
        out == Some(value)
    }

    fn add(&mut self, value: u16) -> (out: Option<u16>) {
        Some(value)
    }
}


/// The smoothed value: `prev + (value - prev) / factor`, rounded to the
/// nearest integer with halves away from zero.
pub open spec fn smooth(prev: int, value: int, factor: int) -> int {
    round_ratio(prev * (factor - 1) + value, factor)
}

proof fn lemma_weighted_between(p: int, v: int, f: int)
    requires
        f >= 1,
    ensures
        (if p <= v { p } else { v }) * f <= p * (f - 1) + v <= (if p <= v { v } else { p }) * f,
{
    if p <= v {
        assert(p * f <= p * (f - 1) + v <= v * f) by (nonlinear_arith)
            requires
                p <= v,
                f >= 1,
        ;
    } else {
        assert(v * f <= p * (f - 1) + v <= p * f) by (nonlinear_arith)
            requires
                v < p,
                f >= 1,
        ;
    }
}

/// Exponential smoothing: each new value moves the output `1 / factor` of
/// the way from the previous output toward the value.
#[derive(Debug)]
pub struct FilterSmooth<T> {
    prev: Option<T>,
    factor: u32,
}

impl<T> FilterSmooth<T> {
    #[verifier::type_invariant]
    spec fn inv(self) -> bool {
        self.factor >= 1
    }
}

impl<T: Copy> FilterSmooth<T> {
    /// The last output, or the initial value before the first one.
    pub closed spec fn previous(self) -> Option<T> {
        self.prev
    }

    /// The smoothing factor.
    pub closed spec fn smoothing(self) -> u32 {
        self.factor
    }

    /// A new smoothing filter that starts from `initial`; with `None` the
    /// first value passes unchanged.
    pub fn new(initial: Option<T>, factor: u32) -> (r: Self)
        requires
            factor >= 1,
        ensures
            r.previous() == initial,
            r.smoothing() == factor,
    {
        FilterSmooth { prev: initial, factor }
    }
}

fn smooth_u16(p: u16, v: u16, f: u32) -> (r: u16)
    requires
        f >= 1,
    ensures
        r == smooth(p as int, v as int, f as int),
{
    proof {
        lemma_weighted_between(p as int, v as int, f as int);
        lemma_round_ratio_between(p * (f - 1) + v, f as int, if p <= v { p as int } else { v as int }, if p <= v { v as int } else { p as int });
    }
    let pp = p as u64;
    let fm = (f - 1) as u64;
    assert(pp * fm <= 0xffff * 0xffff_ffff) by (nonlinear_arith)
        requires
            pp <= 0xffff,
            fm <= 0xffff_ffff,
    ;
    let n = pp * fm + v as u64;
    ((2 * n + f as u64) / (2 * f as u64)) as u16
}

fn smooth_i32(p: i32, v: i32, f: u32) -> (r: i32)
    requires
        f >= 1,
    ensures
        r == smooth(p as int, v as int, f as int),
{
    proof {
        lemma_weighted_between(p as int, v as int, f as int);
        lemma_round_ratio_between(p * (f - 1) + v, f as int, if p <= v { p as int } else { v as int }, if p <= v { v as int } else { p as int });
    }
    assert(-0x8000_0000 * 0xffff_ffff <= (p as i128) * ((f - 1) as i128) <= 0x8000_0000 * 0xffff_ffff) by (nonlinear_arith)
        requires
            -0x8000_0000 <= p <= 0x7fff_ffff,
            0 <= f - 1 < 0xffff_ffff,
    ;
    let n = (p as i128) * ((f - 1) as i128) + v as i128;
    let d = f as u128;
    if n >= 0 {
        let m = n as u128;
        ((2 * m + d) / (2 * d)) as i32
    } else {
        let m = (-n) as u128;
        let q = (2 * m + d) / (2 * d);
        (-(q as i128)) as i32
    }
}

impl Filter for FilterSmooth<u16> {
    type Item = u16;

    open spec fn added(before: Self, after: Self, value: u16, out: Option<u16>) -> bool {
        let next = match before.previous() {
            Some(p) => smooth(p as int, value as int, before.smoothing() as int) as u16,
            None => value,
        };
        &&& out == Some(next)
        &&& after.previous() == Some(next)
        &&& after.smoothing() == before.smoothing()
    }

    fn add(&mut self, value: u16) -> (out: Option<u16>) {
        proof {
            use_type_invariant(&*self);
        }
        let next = match self.prev {
            Some(p) => smooth_u16(p, value, self.factor),
            None => value,
        };
        self.prev = Some(next);
        Some(next)
    }
}

impl Filter for FilterSmooth<i32> {
    type Item = i32;

    open spec fn added(before: Self, after: Self, value: i32, out: Option<i32>) -> bool {
        let next = match before.previous() {
            Some(p) => smooth(p as int, value as int, before.smoothing() as int) as i32,
            None => value,
        };
        &&& out == Some(next)
        &&& after.previous() == Some(next)
        &&& after.smoothing() == before.smoothing()
    }

    fn add(&mut self, value: i32) -> (out: Option<i32>) {
        proof {
            use_type_invariant(&*self);
        }
        let next = match self.prev {
            Some(p) => smooth_i32(p, value, self.factor),
            None => value,
        };
        self.prev = Some(next);
        Some(next)
    }
}


/// The sum of a sequence of values.
pub open spec fn seq_sum(s: Seq<i32>) -> int
    decreases s.len(),
{
    if s.len() == 0 {
        0
    } else {
        seq_sum(s.drop_last()) + s.last() as int
    }
}

/// `s` with `v` appended, keeping at most `cap` values: when full the oldest
/// value leaves; with no capacity nothing is kept.
pub open spec fn push_capped<T>(s: Seq<T>, v: T, cap: nat) -> Seq<T> {
    if cap == 0 {
        s
    } else if s.len() >= cap {
        s.subrange(1, s.len() as int).push(v)
    } else {
        s.push(v)
    }
}

/// Averages each new value with the last `N` outputs, rounding toward zero,
/// and returns the oldest output still held.
#[derive(Debug)]
pub struct FilterLowPass<const N: usize, T> {
    buffer: Vec<T>,
}

impl<const N: usize, T> FilterLowPass<N, T> {
    /// The outputs held, oldest first.
    pub closed spec fn window(self) -> Seq<T> {
        self.buffer@
    }
}

impl<T: Copy, const N: usize> FilterLowPass<N, T> {
    /// A new low-pass filter holding `initial`, if given and `N > 0`.
    pub fn new(initial: Option<T>) -> (r: Self)
        ensures
            r.window() == match initial {
                Some(v) => push_capped(Seq::<T>::empty(), v, N as nat),
                None => Seq::<T>::empty(),
            },
    {
        let mut buffer: Vec<T> = Vec::new();
        if let Some(v) = initial {
            if N > 0 {
                buffer.push(v);
            }
        }
        proof {
            if let Some(v) = initial {
                assert(N > 0 ==> buffer@ =~= Seq::<T>::empty().push(v));
            }
        }
        FilterLowPass { buffer }
    }
}

impl<const N: usize> Filter for FilterLowPass<N, i32> {
    type Item = i32;

    open spec fn added(before: Self, after: Self, value: i32, out: Option<i32>) -> bool {
        let w = before.window();
        let average = trunc_div(seq_sum(w) + value, w.len() + 1int) as i32;
        &&& after.window() == push_capped(w, average, N as nat)
        &&& out == if after.window().len() > 0 {
            Some(after.window()[0])
        } else {
            None::<i32>
        }
    }

    fn add(&mut self, value: i32) -> (out: Option<i32>) {
        let len = self.buffer.len();
        let mut sum: i128 = 0;
        let mut i: usize = 0;
        while i < len
            invariant
                len == self.buffer@.len(),
                i <= len,
                sum == seq_sum(self.buffer@.subrange(0, i as int)),
                -0x8000_0000 * i <= sum <= 0x7fff_ffff * i,
            decreases len - i,
        {
            assert(self.buffer@.subrange(0, i as int + 1).drop_last() =~= self.buffer@.subrange(
                0,
                i as int,
            ));
            sum = sum + self.buffer[i] as i128;
            i = i + 1;
        }
        assert(self.buffer@.subrange(0, len as int) =~= self.buffer@);
        let total = sum + value as i128;
        let d = (len as u128) + 1;
        proof {
            lemma_trunc_div_between(total as int, d as int, -0x8000_0000, 0x7fff_ffff);
        }
        let average: i32 = if total >= 0 {
            ((total as u128) / d) as i32
        } else {
            (-((((-total) as u128) / d) as i128)) as i32
        };
        if N > 0 {
            if len >= N {
                self.buffer.remove(0);
            }
            self.buffer.push(average);
        }
        proof {
            let w = old(self).window();
            if N > 0 && w.len() >= N {
                assert(self.buffer@ =~= w.subrange(1, w.len() as int).push(average));
            }
        }
        if self.buffer.len() > 0 {
            Some(self.buffer[0])
        } else {
            None
        }
    }
}

} // verus!
