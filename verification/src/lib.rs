//! Coordination core of a minimal browser chrome: address canonicalization,
//! geometry of the embedded web surface, its creation lifecycle, and the
//! bridge between the address bar and the surface.
//!
//! The library decides and computes; the host carries out. It hands the
//! library plain values (window size, scale factor, typed text, the outcome
//! of a creation attempt) and gets back what to do.

pub mod bridge;
pub mod canonical;
pub mod config;
pub mod geometry;
pub mod lifecycle;
pub mod percent;
pub mod whitespace;

pub use bridge::{init_script, Navigation, HOTKEY_MESSAGE};
pub use canonical::{canonicalize, canonicalize_with, resolve};
pub use config::Config;
pub use geometry::{Bounds, HostWindowMetrics, Scale};
pub use lifecycle::{
    Coordinator, CreationOutcome, CreationRequest, OutcomeAction, Phase, RetryAction,
};
