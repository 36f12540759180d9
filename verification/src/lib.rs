//! Exact core of a live waveform display.
//!
//! At every display refresh a window of audio samples is taken over, mapped
//! to a polyline on the canvas and painted. This crate holds what is decided
//! and computed along the way, and leaves the capture device, the canvas and
//! the refresh callback to its host:
//!
//! - [`sample`]: amplitudes as exact dyadic numbers, decoded from
//!   single-precision words;
//! - [`sampler`]: the frame sampler, owner of the window of samples;
//! - [`projector`]: the waveform projector, from samples to pixel points;
//! - [`renderer`]: the frame renderer, from pixel points to drawing commands;
//! - [`scheduler`]: the render scheduler, the state machine of the loop;
//! - [`frame`]: one frame from end to end;
//! - [`geometry`]: canvas sizes and exact pixel coordinates.
//!
//! No coordinate is rounded here: a host that draws in floating point
//! divides a numerator by its denominator, or scales a mantissa by its power
//! of two, once per coordinate.

pub mod frame;
pub mod geometry;
pub mod projector;
pub mod renderer;
pub mod sample;
pub mod sampler;
pub mod scheduler;
