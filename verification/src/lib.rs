//! A minimal real-time rendering engine core.
//!
//! GPU resources are owned by a central asset bank and addressed through
//! opaque handles. A fixed-step frame clock decouples simulation ticks from
//! display frames, a double-buffered keyboard state supports edge queries,
//! and cameras are closed tagged variants over fixed-point parameters.
//! Everything the engine decides — validation, handle bookkeeping, clamping,
//! the recorded draw sequence — lives here; the windowing and GPU layers
//! consume the decisions.

pub mod error;
pub mod fixed;
pub mod handle;
pub mod input;
pub mod time;
pub mod camera;
pub mod resources;
pub mod assets_bank;
pub mod frame;
pub mod application;
pub mod config;
