//! Clock-tree control for the RP2040: the legal source table of each clock
//! domain, the divisor-ordering configuration protocols, and plain-value models
//! of the timer, watchdog and crystal-oscillator register logic.

pub mod clocks;
pub mod configure;
pub mod domain;
pub mod timer;
pub mod watchdog;
pub mod xosc;
