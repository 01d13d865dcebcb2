//! Decision logic of a two-switch USB keyboard: report encoding, the
//! per-tick poll cycle, the clock plan and the USB bring-up order.
pub mod bringup;
pub mod clock;
pub mod poll;
pub mod report;
