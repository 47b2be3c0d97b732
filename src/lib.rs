//! Verified core of a small board's cooperative firmware: the shared sensor
//! cell, the sampler's decisions, the display blinker, the three-way
//! indicator sequencer and a zero-overhead model of the cooperative timeline
//! that composes them.

pub mod cell;
pub mod indicator;
pub mod display;
pub mod sampler;
pub mod timeline;
