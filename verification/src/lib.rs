//! Hand-tracking pointer control: the per-frame pipeline that turns hand
//! landmarks into pointer motion and clicks.
//!
//! Real-valued quantities are fixed-point integers counting millionths (see
//! `fixed`). Capturing frames, running the predictor and injecting events
//! are left to the caller; this crate decides what is fed to the predictor,
//! how its output is read and which events the pointer device receives.

pub mod app;
pub mod cli;
pub mod fixed;
pub mod gesture;
pub mod input;
pub mod logic;
pub mod vision;

pub use crate::app::{AppContext, ScreenConfig};
pub use crate::cli::TrackingMode;
pub use crate::input::MouseManager;
