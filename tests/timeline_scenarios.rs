use microbit_tasks::display::BLINK_HALF_PERIOD_MS;
use microbit_tasks::indicator::INDICATOR_PERIOD_MS;
use microbit_tasks::sampler::SAMPLE_PERIOD_MS;
use microbit_tasks::timeline::{run_timeline, Periods};

fn configured() -> Periods {
    Periods { sample: SAMPLE_PERIOD_MS, blink_half: BLINK_HALF_PERIOD_MS, indicator: INDICATOR_PERIOD_MS }
}

#[test]
fn one_second_of_the_configured_tasks() {
    let readings: Vec<i16> = (1..=10).map(|k| k * 11).collect();
    let r = run_timeline(configured(), 1000, &readings);
    assert_eq!(r.samples_written, 10);
    assert_eq!(r.renders, 2);
    assert_eq!(r.blink_cycles, 1);
    assert_eq!(r.indicator_steps, 2);
    assert_eq!(r.indicator_index, 2);
    assert_eq!(r.latest_sample, 110);
    assert!(!r.pixel_lit);
}

#[test]
fn nothing_runs_before_time_zero_ends() {
    let readings: Vec<i16> = Vec::new();
    let r = run_timeline(configured(), 0, &readings);
    assert_eq!(r.samples_written, 0);
    assert_eq!(r.renders, 0);
    assert_eq!(r.indicator_steps, 0);
    assert_eq!(r.indicator_index, 0);
    assert_eq!(r.latest_sample, 0);
    assert!(!r.pixel_lit);
}

#[test]
fn every_task_runs_at_time_zero() {
    let readings: Vec<i16> = vec![-3];
    let r = run_timeline(configured(), 1, &readings);
    assert_eq!(r.samples_written, 1);
    assert_eq!(r.renders, 1);
    assert_eq!(r.indicator_steps, 1);
    assert_eq!(r.indicator_index, 1);
    assert_eq!(r.latest_sample, -3);
    assert!(r.pixel_lit);
}

#[test]
fn indicator_with_a_third_of_the_time() {
    let readings: Vec<i16> = (0..15).collect();
    let periods = Periods { sample: 100, blink_half: 500, indicator: 333 };
    let r = run_timeline(periods, 1500, &readings);
    assert_eq!(r.samples_written, 15);
    assert_eq!(r.renders, 3);
    assert_eq!(r.blink_cycles, 1);
    assert_eq!(r.indicator_steps, 5);
    assert_eq!(r.indicator_index, 2);
    assert_eq!(r.latest_sample, 14);
    assert!(r.pixel_lit);
}

#[test]
fn indicator_completes_a_cycle_in_one_second() {
    let readings: Vec<i16> = vec![0; 10];
    let periods = Periods { sample: 100, blink_half: 500, indicator: 334 };
    let r = run_timeline(periods, 1000, &readings);
    assert_eq!(r.samples_written, 10);
    assert_eq!(r.blink_cycles, 1);
    assert_eq!(r.indicator_steps, 3);
    assert_eq!(r.indicator_index, 0);
}

#[test]
fn very_long_periods_do_not_overflow() {
    let long: u64 = 1 << 62;
    let readings: Vec<i16> = vec![9, 8];
    let periods = Periods { sample: long, blink_half: long, indicator: long };
    let r = run_timeline(periods, long + 1, &readings);
    assert_eq!(r.samples_written, 2);
    assert_eq!(r.renders, 2);
    assert_eq!(r.blink_cycles, 1);
    assert_eq!(r.indicator_steps, 2);
    assert_eq!(r.indicator_index, 2);
    assert_eq!(r.latest_sample, 8);
    assert!(!r.pixel_lit);
}
