//! A unifying camera capture abstraction: enumerate devices, open a camera,
//! start and stop streaming, and pull frames through one blocking retrieval
//! point, independently of which backend realizes the capture session.
//!
//! The crate is organized around the capability contract in [`camera`]
//! (what every backend must provide), the canonical pixel view in [`frame`],
//! the at-most-one-pending handoff in [`slot`], the device hot-swap order in
//! [`cycle`], and a deterministic in-process realization of the contract in
//! [`synth`].

pub mod camera;
pub mod cycle;
pub mod frame;
pub mod slot;
pub mod synth;
