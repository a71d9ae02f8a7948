//! A live-subtitle pipeline: captured audio is cut into fixed windows, silent
//! windows are dropped, and each remaining window is carried through a
//! one- or two-stage remote translation whose outcome becomes subtitle text.
//!
//! Everything here is pure decision logic with machine-checked contracts.
//! Devices, files, the network and threads live with the caller, which feeds
//! this library plain values and acts on the plain values it gets back.

pub mod accumulator;
pub mod capture;
pub mod encoder;
pub mod json;
pub mod lifecycle;
pub mod meetings;
pub mod pipeline;
pub mod queue;
pub mod session;
pub mod subtitle;
pub mod text;
