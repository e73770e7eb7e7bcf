//! Decision core of a screen-watching assistant for a fixed-layout game window.
//!
//! A sampler reads the colours of a few known pixels (the markers) from each
//! captured frame and publishes them; independent consumers read the latest
//! published markers and decide whether to press a healing key or to sound an
//! alert. This crate holds the data model and every decision; capturing the
//! screen, injecting keys, beeping and sleeping are left to the caller.

pub mod color;
pub mod frame;
pub mod markers;
pub mod healing;
pub mod timing;
pub mod cooldown;
pub mod focus;
pub mod startup;
