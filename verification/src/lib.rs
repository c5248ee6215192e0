//! The core of a theremin that is played by moving a fiducial marker in
//! front of a camera: which detections are markers, where the tracked marker
//! is in the frame, what pitch and loudness that position stands for, and the
//! tone generator with the parameters that it shares with its controller.
//!
//! Nothing here touches a camera, a screen or an audio device, and nothing
//! here computes in floating point. Numbers with a fraction are fixed-point
//! integers:
//!
//! - pixel coordinates and lengths are in thousandths of a pixel;
//! - normalised positions, amplitudes, tolerances and pitch factors are in
//!   thousandths;
//! - frequencies are in millihertz;
//! - sine values and samples are in millionths.
//!
//! The one thing that the tone generator does not do is take the sine: it
//! hands out the phase, and takes the sine value back to make the sample.

pub mod aruco;
pub mod commands;
pub mod controller;
pub mod debug;
pub mod keys;
pub mod mapper;
pub mod marker;
pub mod numeric;
pub mod oscillator;
pub mod overlay;
pub mod palm;
pub mod playback;
pub mod position;
pub mod processor;
pub mod source;
pub mod validator;
