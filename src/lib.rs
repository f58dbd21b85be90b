//! An unattended field recorder: converts captured audio into a 16-bit PCM
//! container, derives the shareable link of the uploaded object, and drives
//! the telemetry publish and the edge-triggered control loop.

pub mod sample;
pub mod error;
pub mod sink;
pub mod upload;
pub mod telemetry;
pub mod control;
pub mod naming;
pub mod cycle;
