//! Core of a desktop statusbar: typed metric snapshots, a broadcast
//! latest-value cell, piecewise-linear colormaps, and the geometric layout of
//! fixed-width segments across screen regions.

pub mod bar;
pub mod bytes;
pub mod cell;
pub mod clockbar;
pub mod color;
pub mod colormap;
pub mod config;
pub mod cpubar;
pub mod draw;
pub mod layout;
pub mod numfmt;
pub mod producer;
pub mod rainbow;
pub mod screen;
pub mod segment;
pub mod stdinbar;
pub mod statusbar;
pub mod tick;
pub mod volumebar;

pub use color::Color;
pub use color::ParseError;
pub use colormap::ColorMap;
