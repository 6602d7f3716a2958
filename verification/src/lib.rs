//! Status-line generator core: a themed, colorized template pipeline.
//!
//! The library holds the verified logic of the bar: color and theme
//! validation, configuration loading with layered defaults, icon selection,
//! and the per-tick substitution of provider fragments into the configured
//! format string.  Sampling of system state (battery, mixer, Wi-Fi) and the
//! write to the display server live outside the library.

pub mod config;
pub mod hexcolor;
pub mod icons;
pub mod property;
pub mod text;
