//! Palette quantization and dithering for 256-color indexed images.
//!
//! The engine turns a continuous-color image into a byte buffer of indices
//! into a fixed 256-entry palette, under one of several dithering
//! strategies: none, two noise-based ones, or eight error-diffusion
//! kernels, with a transparency rule applied uniformly. Color channels are
//! held in signed fixed-point form (`fx::ONE` stands for the normalized
//! channel value 1.0), so every arithmetic step of the engine is exact
//! integer arithmetic with a stated contract.

pub mod buffer;
pub mod data;
pub mod diffusion;
pub mod engine;
pub mod error;
pub mod fx;
pub mod kernel;
pub mod laws;
pub mod noise;
pub mod palette;
pub mod quantize;
