use microbit_tasks::cell::{SensorCell, INITIAL_SAMPLE};
use microbit_tasks::sampler::{Conversion, Sampler, SamplerAction, SAMPLE_PERIOD_MS};

#[test]
fn read_before_first_write_is_default() {
    let cell = SensorCell::new();
    assert_eq!(cell.read(), INITIAL_SAMPLE);
    assert_eq!(cell.read(), 0);
}

#[test]
fn read_returns_last_write() {
    let mut cell = SensorCell::new();
    cell.write(1234);
    assert_eq!(cell.read(), 1234);
    cell.write(-7);
    assert_eq!(cell.read(), -7);
}

#[test]
fn repeated_reads_see_same_value() {
    let mut cell = SensorCell::new();
    cell.write(42);
    assert_eq!(cell.read(), 42);
    assert_eq!(cell.read(), 42);
}

#[test]
fn extreme_samples_round_trip() {
    let mut cell = SensorCell::new();
    cell.write(i16::MAX);
    assert_eq!(cell.read(), i16::MAX);
    cell.write(i16::MIN);
    assert_eq!(cell.read(), i16::MIN);
}

#[test]
fn sampler_publishes_and_sleeps() {
    let sampler = Sampler::new(SAMPLE_PERIOD_MS);
    let mut cell = SensorCell::new();
    let action = sampler.on_conversion(&mut cell, Conversion::Done(8191));
    assert_eq!(action, SamplerAction::Sleep(100));
    assert_eq!(cell.read(), 8191);
    assert_eq!(sampler.interval_ms(), 100);
}

#[test]
fn sampler_halts_on_failure_without_writing() {
    let sampler = Sampler::new(SAMPLE_PERIOD_MS);
    let mut cell = SensorCell::new();
    sampler.on_conversion(&mut cell, Conversion::Done(55));
    let action = sampler.on_conversion(&mut cell, Conversion::Failed);
    assert_eq!(action, SamplerAction::Halt);
    assert_eq!(cell.read(), 55);
}
