//! The verified core of an audio visualiser.
//!
//! A capture supervisor keeps one audio stream open on the device that the
//! user selected, a processing engine turns the captured samples into bar
//! magnitudes, and a render poller pulls those magnitudes on a fixed timer
//! and paints them. This library holds the decisions of that arrangement,
//! with their proofs; the program around it performs them.
//!
//! - [`audio`]: device selectors, the device catalog, and the supervisor's
//!   states and transitions.
//! - [`supervision`]: what holds of the supervisor over whole runs.
//! - [`ui::bars`]: the frame of bars, its mirroring transform and the state
//!   of its rasterization cache.
//! - [`ui::settings`], [`ui::sliders`]: the two settings panels.
//! - [`engine`]: the engine's configuration as the panels see it.
//! - [`theme`]: the themes, and the looks of the light theme.
//! - [`visual`]: the visualiser as a whole.

pub mod audio;
pub mod engine;
pub mod supervision;
pub mod theme;
pub mod ui;
pub mod visual;
