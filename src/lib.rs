//! A sunrise light alarm: it computes the next fade window before a wake
//! time and drives a set of lights from dim and warm to bright and cool in a
//! fixed number of even steps, stopping when the alarm is deactivated.
pub mod schedule;
pub mod light;
pub mod controller;
pub mod clock;
