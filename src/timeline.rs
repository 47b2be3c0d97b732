use vstd::prelude::*;
use crate::cell::{SensorCell, latest};
use crate::display::{DisplayActuator, blink_pixels, BLINK_X, BLINK_Y};
use crate::indicator::IndicatorSequencer;
use crate::sampler::{Conversion, Sampler};

verus! {

/// The periods of the three tasks, in time units.
#[derive(Clone, Copy, Debug, PartialEq, Eq, Structural)]
pub struct Periods {
    pub sample: u64,
    pub blink_half: u64,
    pub indicator: u64,
}

/// What the tasks have done by the horizon of a run.
#[derive(Clone, Copy, Debug, PartialEq, Eq, Structural)]
pub struct TimelineReport {
    /// Samples written to the cell.
    pub samples_written: u64,
    /// Frames handed to the renderer, one per blink phase.
    pub renders: u64,
    /// Full on/off cycles of the blink.
    pub blink_cycles: u64,
    /// Transitions of the indicator.
    pub indicator_steps: u64,
    /// The index that the indicator's next transition activates.
    pub indicator_index: usize,
    /// What a read of the cell returns at the horizon.
    pub latest_sample: i16,
    /// Whether the blinking pixel is lit in the last rendered frame.
    pub pixel_lit: bool,
}

/// `count` is the number of wake-ups at times 0, `period`, 2 `period`, ...
/// that fall strictly before `horizon`.
pub open spec fn wakeups_before(period: int, horizon: int, count: int) -> bool {
    &&& count * period >= horizon
    &&& (count == 0 || (count - 1) * period < horizon)
}

/// Time from `t` to `horizon`, or zero once it is reached.
pub open spec fn left_until(t: int, horizon: int) -> int {
    if t >= horizon {
        0
    } else {
        horizon - t
    }
}

proof fn lemma_count_step(c: int, p: int, next: int)
    requires
        next == c * p,
        p > 0,
        c >= 0,
    ensures
        (c + 1) * p == next + p,
        c <= next,
{
    assert((c + 1) * p == c * p + p) by (nonlinear_arith);
    assert(c <= c * p) by (nonlinear_arith)
        requires
            p > 0,
            c >= 0,
    ;
}

proof fn lemma_count_done(c: int, p: int, next: int, horizon: int)
    requires
        next == c * p,
        p > 0,
        c >= 0,
        next >= horizon,
        c == 0 || next < horizon + p,
    ensures
        wakeups_before(p, horizon, c),
{
    assert((c - 1) * p == c * p - p) by (nonlinear_arith);
}

proof fn lemma_reading_exists(c: int, p: int, len: int, horizon: int)
    requires
        c * p < horizon,
        len * p >= horizon,
        p > 0,
        c >= 0,
    ensures
        c < len,
{
    if c >= len {
        assert(c * p >= len * p) by (nonlinear_arith)
            requires
                c >= len,
                p > 0,
        ;
    }
}

/// Runs the three tasks on a cooperative timeline with no scheduling
/// overhead, from time 0 up to `horizon`. Each task wakes at 0 and then
/// once per period; at each instant the earliest wake-up runs first, the
/// sampler before the display and the display before the indicator. The
/// `k`-th sample taken is `readings[k]`.
pub fn run_timeline(periods: Periods, horizon: u64, readings: &Vec<i16>) -> (r: TimelineReport)
    requires
        0 < periods.sample,
        0 < periods.blink_half,
        0 < periods.indicator,
        horizon + periods.sample <= u64::MAX,
        horizon + periods.blink_half <= u64::MAX,
        horizon + periods.indicator <= u64::MAX,
        readings@.len() * periods.sample >= horizon,
    ensures
        wakeups_before(periods.sample as int, horizon as int, r.samples_written as int),
        wakeups_before(periods.blink_half as int, horizon as int, r.renders as int),
        wakeups_before(periods.indicator as int, horizon as int, r.indicator_steps as int),
        r.samples_written == (horizon + periods.sample - 1) / periods.sample as int,
        r.renders == (horizon + periods.blink_half - 1) / periods.blink_half as int,
        r.indicator_steps == (horizon + periods.indicator - 1) / periods.indicator as int,
        r.blink_cycles == r.renders / 2,
        r.indicator_index == r.indicator_steps % 3,
        horizon % periods.indicator == 0 ==> r.indicator_index == (horizon / periods.indicator) % 3,
        r.latest_sample == latest(readings@.take(r.samples_written as int)),
        r.pixel_lit == (r.renders % 2 == 1),
{
    let mut cell = SensorCell::new();
    let sampler = Sampler::new(periods.sample);
    let mut display = DisplayActuator::new();
    let mut indicator = IndicatorSequencer::new();
    let mut next_sample: u64 = 0;
    let mut next_render: u64 = 0;
    let mut next_step: u64 = 0;
    let mut samples: u64 = 0;
    let mut renders: u64 = 0;
    let mut steps: u64 = 0;
    proof {
        assert(readings@.take(0) =~= Seq::<i16>::empty());
    }
    while next_sample < horizon || next_render < horizon || next_step < horizon
        invariant
            0 < periods.sample,
            0 < periods.blink_half,
            0 < periods.indicator,
            horizon + periods.sample <= u64::MAX,
            horizon + periods.blink_half <= u64::MAX,
            horizon + periods.indicator <= u64::MAX,
            readings@.len() * periods.sample >= horizon,
            sampler.interval() == periods.sample,
            cell.wf(),
            display.wf(),
            indicator.wf(),
            next_sample == samples * periods.sample,
            next_render == renders * periods.blink_half,
            next_step == steps * periods.indicator,
            samples <= next_sample,
            renders <= next_render,
            steps <= next_step,
            samples == 0 || next_sample < horizon + periods.sample,
            renders == 0 || next_render < horizon + periods.blink_half,
            steps == 0 || next_step < horizon + periods.indicator,
            samples <= readings@.len(),
            cell.writes() == readings@.take(samples as int),
            display.next_on() == (renders % 2 == 0),
            renders == 0 ==> display.pixels() == Set::<(int, int)>::empty(),
            renders > 0 ==> display.pixels() == blink_pixels(!display.next_on()),
            indicator.current() == steps % 3,
        decreases
            left_until(next_sample as int, horizon as int) + left_until(
                next_render as int,
                horizon as int,
            ) + left_until(next_step as int, horizon as int),
    {
        if next_sample <= next_render && next_sample <= next_step {
            proof {
                lemma_reading_exists(
                    samples as int,
                    periods.sample as int,
                    readings@.len() as int,
                    horizon as int,
                );
                lemma_count_step(samples as int, periods.sample as int, next_sample as int);
            }
            let count: usize = readings.len();
            assert(samples < count);
            let v = readings[samples as usize];
            sampler.on_conversion(&mut cell, Conversion::Done(v));
            proof {
                assert(readings@.take(samples as int).push(v) =~= readings@.take(samples + 1));
            }
            samples = samples + 1;
            next_sample = next_sample + periods.sample;
        } else if next_render <= next_step {
            proof {
                lemma_count_step(renders as int, periods.blink_half as int, next_render as int);
            }
            let _frame = display.step();
            renders = renders + 1;
            next_render = next_render + periods.blink_half;
        } else {
            proof {
                lemma_count_step(steps as int, periods.indicator as int, next_step as int);
            }
            indicator.step();
            steps = steps + 1;
            next_step = next_step + periods.indicator;
        }
    }
    proof {
        lemma_count_done(samples as int, periods.sample as int, next_sample as int, horizon as int);
        lemma_count_done(renders as int, periods.blink_half as int, next_render as int, horizon as int);
        lemma_count_done(steps as int, periods.indicator as int, next_step as int, horizon as int);
        lemma_wakeups_closed_form(periods.sample as int, horizon as int, samples as int);
        lemma_wakeups_closed_form(periods.blink_half as int, horizon as int, renders as int);
        lemma_wakeups_closed_form(periods.indicator as int, horizon as int, steps as int);
    }
    let latest_sample = cell.read();
    let pixel_lit = display.pixel_lit();
    TimelineReport {
        samples_written: samples,
        renders,
        blink_cycles: renders / 2,
        indicator_steps: steps,
        indicator_index: indicator.current_index(),
        latest_sample,
        pixel_lit,
    }
}

/// The number of wake-ups before `horizon` has the closed form
/// `ceil(horizon / period)`; when `period` divides `horizon` it is
/// `horizon / period`.
pub proof fn lemma_wakeups_closed_form(period: int, horizon: int, count: int)
    requires
        period > 0,
        horizon >= 0,
        count >= 0,
        wakeups_before(period, horizon, count),
    ensures
        count == (horizon + period - 1) / period,
        horizon % period == 0 ==> count == horizon / period,
{
    let q = (horizon + period - 1) / period;
    vstd::arithmetic::div_mod::lemma_fundamental_div_mod(horizon + period - 1, period);
    vstd::arithmetic::div_mod::lemma_fundamental_div_mod(horizon, period);
    let r = (horizon + period - 1) % period;
    assert(0 <= r < period);
    assert(q * period + r == horizon + period - 1);
    if count > q {
        assert((count - 1) * period >= q * period) by (nonlinear_arith)
            requires
                count - 1 >= q,
                period > 0,
        ;
    }
    if count < q {
        assert(count * period <= (q - 1) * period) by (nonlinear_arith)
            requires
                count <= q - 1,
                period > 0,
        ;
        assert((q - 1) * period == q * period - period) by (nonlinear_arith);
    }
    if horizon % period == 0 {
        let h = horizon / period;
        assert(h * period == horizon);
        if count > h {
            assert((count - 1) * period >= h * period) by (nonlinear_arith)
                requires
                    count - 1 >= h,
                    period > 0,
            ;
        }
        if count < h {
            assert(count * period <= (h - 1) * period) by (nonlinear_arith)
                requires
                    count <= h - 1,
                    period > 0,
            ;
            assert((h - 1) * period == h * period - period) by (nonlinear_arith);
        }
    }
}

} // verus!
