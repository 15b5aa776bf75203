//! The state behind the visualiser's panels.

pub mod bars;
pub mod settings;
pub mod sliders;
