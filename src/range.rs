//! A bounded value such as health, stamina or mana.
//!
//! A `Range` keeps its current value between a start and an end limit. Setting
//! or modifying it clamps the value to the nearest limit and reports when a
//! limit was reached, which callers use to trigger actions like dying or
//! being fully healed. The value can change by itself at a fixed rate per
//! second, and reading it rounds it to the nearest multiple of a step.
//!
//! Values are integers in thousandths of a whole value (`UNITS_PER_WHOLE`
//! units make one); elapsed time is given in microseconds. The part of a
//! change too small to move the value by a unit is carried to the next
//! update, so slow rates still add up.
use vstd::prelude::*;

verus! {

/// Microseconds in one second.
pub const MICROS_PER_SECOND: i128 = 1_000_000;

/// Units in one whole value: values are in thousandths.
pub const UNITS_PER_WHOLE: i64 = 1000;

/// The magnitude of `x`.
pub open spec fn abs_spec(x: int) -> int {
    if x >= 0 {
        x
    } else {
        -x
    }
}

/// The multiple of `step` nearest to a non-negative `value`; a value halfway
/// between two multiples goes to the larger one.
pub open spec fn round_magnitude(value: int, step: int) -> int
    recommends
        value >= 0,
        step > 0,
{
    if 2 * (value % step) >= step {
        (value / step + 1) * step
    } else {
        (value / step) * step
    }
}

/// The multiple of `step` nearest to `value`; a value halfway between two
/// multiples goes to the one farther from zero. The sign of the step does
/// not matter.
pub open spec fn quantize_spec(value: int, step: int) -> int
    recommends
        step != 0,
{
    if value >= 0 {
        round_magnitude(value, abs_spec(step))
    } else {
        -round_magnitude(-value, abs_spec(step))
    }
}

/// Quantize `value` to the nearest multiple of `step`, halfway values going
/// away from zero.
pub fn quantize(value: i64, step: i64) -> (r: i128)
    requires
        step != 0,
    ensures
        r == quantize_spec(value as int, step as int),
{
    let v: i128 = value as i128;
    let s: i128 = if step > 0 {
        step as i128
    } else {
        -(step as i128)
    };
    let m: i128 = if v >= 0 {
        v
    } else {
        -v
    };
    let q: i128 = m / s;
    let rem: i128 = m % s;
    proof {
        assert(m == (if value >= 0 { value as int } else { -value }));
        assert(q * s <= m) by (nonlinear_arith)
            requires
                q == m / s,
                m >= 0,
                s > 0,
        ;
        assert(q >= 0) by (nonlinear_arith)
            requires
                q == m / s,
                m >= 0,
                s > 0,
        ;
    }
    let rounded: i128 = if 2 * rem >= s {
        proof {
            assert((q + 1) * s == q * s + s) by (nonlinear_arith);
        }
        (q + 1) * s
    } else {
        q * s
    };
    if v >= 0 {
        rounded
    } else {
        -rounded
    }
}

/// The change a range makes over `elapsed_micros` microseconds at
/// `per_second` units per second, with `carry` unit-microseconds left over
/// from earlier updates: the whole units of the total, truncated toward zero.
pub open spec fn change_spec(per_second: int, elapsed_micros: int, carry: int) -> int {
    let p = per_second * elapsed_micros + carry;
    if p >= 0 {
        p / MICROS_PER_SECOND as int
    } else {
        -((-p) / MICROS_PER_SECOND as int)
    }
}

/// What is left over of that total, in unit-microseconds, for the next
/// update: less than one unit, with the sign of the total.
pub open spec fn carry_spec(per_second: int, elapsed_micros: int, carry: int) -> int {
    let p = per_second * elapsed_micros + carry;
    if p >= 0 {
        p % MICROS_PER_SECOND as int
    } else {
        -((-p) % MICROS_PER_SECOND as int)
    }
}

/// The result of setting or modifying a range.
#[derive(Debug, Clone, Copy, PartialEq, Eq, Structural)]
pub enum ModifyRangeResult {
    /// The value lies strictly between the limits.
    Within,
    /// The value was at or below the start; the range now holds the start.
    StartLimitReached { low_limit: i64, value: i64 },
    /// The value was at or above the end; the range now holds the end.
    EndLimitReached { high_limit: i64, value: i64 },
}

/// The mathematical content of a `Range`.
pub struct RangeView {
    pub start: int,
    pub end: int,
    pub current: int,
    pub quantize: int,
    pub change_per_second: int,
    /// Unit-microseconds of change not yet applied.
    pub carry: int,
}

/// What setting a range with limits `start` and `end` to `value` reports.
pub open spec fn set_result_spec(start: int, end: int, value: int) -> ModifyRangeResult
    recommends
        i64::MIN <= start <= i64::MAX,
        i64::MIN <= end <= i64::MAX,
        i64::MIN <= value <= i64::MAX,
{
    if value <= start {
        ModifyRangeResult::StartLimitReached { low_limit: start as i64, value: value as i64 }
    } else if value >= end {
        ModifyRangeResult::EndLimitReached { high_limit: end as i64, value: value as i64 }
    } else {
        ModifyRangeResult::Within
    }
}

/// The value a range with limits `start` and `end` holds after being set to
/// `value`: the value itself, or the limit it reached.
pub open spec fn clamped_spec(start: int, end: int, value: int) -> int {
    if value <= start {
        start
    } else if value >= end {
        end
    } else {
        value
    }
}

/// A value kept between a start and an end limit.
///
/// The type parameter tells apart ranges of different meaning (health,
/// stamina) that an entity may carry side by side.
pub struct Range<T> {
    start: i64,
    end: i64,
    current: i64,
    quantize: i64,
    change_per_second: i64,
    carry: i64,
    _phantom: std::marker::PhantomData<T>,
}

impl<T> View for Range<T> {
    type V = RangeView;

    closed spec fn view(&self) -> RangeView {
        RangeView {
            start: self.start as int,
            end: self.end as int,
            current: self.current as int,
            quantize: self.quantize as int,
            change_per_second: self.change_per_second as int,
            carry: self.carry as int,
        }
    }
}

impl<T> Range<T> {
    /// The quantization step is not zero.
    pub open spec fn wf(&self) -> bool {
        self@.quantize != 0
    }

    /// A range from `start` to `end` whose current value is the end, with a
    /// step of one whole value and no change over time.
    pub fn new(start: i64, end: i64) -> (r: Range<T>)
        ensures
            r@ == (RangeView {
                start: start as int,
                end: end as int,
                current: end as int,
                quantize: UNITS_PER_WHOLE as int,
                change_per_second: 0,
                carry: 0,
            }),
            r.wf(),
    {
        Range {
            start,
            end,
            current: end,
            quantize: UNITS_PER_WHOLE,
            change_per_second: 0,
            carry: 0,
            _phantom: std::marker::PhantomData,
        }
    }

    /// The same range with another start limit.
    pub fn with_start(self, start: i64) -> (r: Range<T>)
        ensures
            r@ == (RangeView { start: start as int, ..self@ }),
    {
        Range { start, ..self }
    }

    /// The same range with another end limit.
    pub fn with_end(self, end: i64) -> (r: Range<T>)
        ensures
            r@ == (RangeView { end: end as int, ..self@ }),
    {
        Range { end, ..self }
    }

    /// The same range with another current value, taken as it is.
    pub fn with_current(self, current: i64) -> (r: Range<T>)
        ensures
            r@ == (RangeView { current: current as int, ..self@ }),
    {
        Range { current, ..self }
    }

    /// The same range with another quantization step.
    pub fn with_quantize(self, quantize: i64) -> (r: Range<T>)
        requires
            quantize != 0,
        ensures
            r@ == (RangeView { quantize: quantize as int, ..self@ }),
            r.wf(),
    {
        Range { quantize, ..self }
    }

    /// The same range with another change per second.
    pub fn with_change_per_second(self, change_per_second: i64) -> (r: Range<T>)
        ensures
            r@ == (RangeView { change_per_second: change_per_second as int, ..self@ }),
    {
        Range { change_per_second, ..self }
    }

    /// Set the quantization step.
    pub fn set_quantize(&mut self, quantize: i64)
        requires
            quantize != 0,
        ensures
            final(self)@ == (RangeView { quantize: quantize as int, ..old(self)@ }),
            final(self).wf(),
    {
        self.quantize = quantize;
    }

    /// The quantization step.
    pub fn get_quantize(&self) -> (r: i64)
        ensures
            r == self@.quantize,
    {
        self.quantize
    }

    /// The start limit.
    pub fn get_start(&self) -> (r: i64)
        ensures
            r == self@.start,
    {
        self.start
    }

    /// The end limit.
    pub fn get_end(&self) -> (r: i64)
        ensures
            r == self@.end,
    {
        self.end
    }

    /// Set the change per second.
    pub fn set_change_per_second(&mut self, change_per_second: i64)
        ensures
            final(self)@ == (RangeView {
                change_per_second: change_per_second as int,
                ..old(self)@
            }),
    {
        self.change_per_second = change_per_second;
    }

    /// The change per second.
    pub fn get_change_per_second(&self) -> (r: i64)
        ensures
            r == self@.change_per_second,
    {
        self.change_per_second
    }

    /// Set the current value, clamped to the limits.
    ///
    /// A value at or below the start gives `StartLimitReached` and leaves the
    /// start as the current value; otherwise a value at or above the end gives
    /// `EndLimitReached` and leaves the end; any other value is kept and gives
    /// `Within`.
    pub fn set(&mut self, value: i64) -> (r: ModifyRangeResult)
        ensures
            r == set_result_spec(old(self)@.start, old(self)@.end, value as int),
            final(self)@ == (RangeView {
                current: clamped_spec(old(self)@.start, old(self)@.end, value as int),
                ..old(self)@
            }),
    {
        if value <= self.start {
            self.current = self.start;
            ModifyRangeResult::StartLimitReached { low_limit: self.start, value }
        } else if value >= self.end {
            self.current = self.end;
            ModifyRangeResult::EndLimitReached { high_limit: self.end, value }
        } else {
            self.current = value;
            ModifyRangeResult::Within
        }
    }

    /// The current value, quantized to the step.
    pub fn get(&self) -> (r: i128)
        requires
            self.wf(),
        ensures
            r == quantize_spec(self@.current, self@.quantize),
    {
        quantize(self.current, self.quantize)
    }

    /// Add `delta` to the current value, as `set` does with the sum.
    pub fn modify(&mut self, delta: i64) -> (r: ModifyRangeResult)
        requires
            i64::MIN <= old(self)@.current + delta <= i64::MAX,
        ensures
            r == set_result_spec(
                old(self)@.start,
                old(self)@.end,
                old(self)@.current + delta,
            ),
            final(self)@ == (RangeView {
                current: clamped_spec(
                    old(self)@.start,
                    old(self)@.end,
                    old(self)@.current + delta,
                ),
                ..old(self)@
            }),
    {
        let value = self.current + delta;
        self.set(value)
    }

    /// The whole units by which `update` with `elapsed_micros` changes the
    /// current value, and what it carries to the next update.
    pub fn change_over(&self, elapsed_micros: u32) -> (r: (i128, i128))
        ensures
            r.0 == change_spec(self@.change_per_second, elapsed_micros as int, self@.carry),
            r.1 == carry_spec(self@.change_per_second, elapsed_micros as int, self@.carry),
            -MICROS_PER_SECOND < r.1 < MICROS_PER_SECOND,
    {
        let c: i128 = self.change_per_second as i128;
        let e: i128 = elapsed_micros as i128;
        proof {
            assert(-0x8000_0000_0000_0000_0000_0000 < c * e < 0x8000_0000_0000_0000_0000_0000)
                by (nonlinear_arith)
                requires
                    i64::MIN <= c <= i64::MAX,
                    0 <= e <= u32::MAX,
            ;
        }
        let p: i128 = c * e + self.carry as i128;
        if p >= 0 {
            (p / MICROS_PER_SECOND, p % MICROS_PER_SECOND)
        } else {
            (-((-p) / MICROS_PER_SECOND), -((-p) % MICROS_PER_SECOND))
        }
    }

    /// Whether `update` with `elapsed_micros` keeps every value in `i64`.
    pub fn can_update(&self, elapsed_micros: u32) -> (r: bool)
        ensures
            r == (i64::MIN <= change_spec(
                self@.change_per_second,
                elapsed_micros as int,
                self@.carry,
            ) <= i64::MAX && i64::MIN <= self@.current + change_spec(
                self@.change_per_second,
                elapsed_micros as int,
                self@.carry,
            ) <= i64::MAX),
    {
        let (c, _) = self.change_over(elapsed_micros);
        if c < i64::MIN as i128 || c > i64::MAX as i128 {
            return false;
        }
        let v: i128 = self.current as i128 + c;
        i64::MIN as i128 <= v && v <= i64::MAX as i128
    }

    /// Let `elapsed_micros` microseconds pass: modify the current value by
    /// the whole units of its change over that time plus the carried part,
    /// and carry what is left.
    pub fn update(&mut self, elapsed_micros: u32) -> (r: ModifyRangeResult)
        requires
            i64::MIN <= change_spec(
                old(self)@.change_per_second,
                elapsed_micros as int,
                old(self)@.carry,
            ) <= i64::MAX,
            i64::MIN <= old(self)@.current + change_spec(
                old(self)@.change_per_second,
                elapsed_micros as int,
                old(self)@.carry,
            ) <= i64::MAX,
        ensures
            ({
                let cps = old(self)@.change_per_second;
                let carry = old(self)@.carry;
                let value = old(self)@.current + change_spec(cps, elapsed_micros as int, carry);
                &&& r == set_result_spec(old(self)@.start, old(self)@.end, value)
                &&& final(self)@ == (RangeView {
                    current: clamped_spec(old(self)@.start, old(self)@.end, value),
                    carry: carry_spec(cps, elapsed_micros as int, carry),
                    ..old(self)@
                })
            }),
    {
        let (delta, rest) = self.change_over(elapsed_micros);
        let r = self.modify(delta as i64);
        self.carry = rest as i64;
        r
    }
}

impl<T> Default for Range<T> {
    /// A range from zero to one whole value, holding one whole value.
    fn default() -> (r: Range<T>)
        ensures
            r@ == (RangeView {
                start: 0,
                end: UNITS_PER_WHOLE as int,
                current: UNITS_PER_WHOLE as int,
                quantize: UNITS_PER_WHOLE as int,
                change_per_second: 0,
                carry: 0,
            }),
            r.wf(),
    {
        Range::new(0, UNITS_PER_WHOLE)
    }
}

} // verus!
