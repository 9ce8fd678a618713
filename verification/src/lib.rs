//! The discrete core of an interactive escape-time fractal viewer: which
//! fractal is shown, how many iterations and colour divisions are used, how
//! the keyboard drives those settings, in which order pixels are visited and
//! which colour a pixel gets from its escape count.

pub mod fractal;
pub mod settings;
pub mod controls;
pub mod pixels;
