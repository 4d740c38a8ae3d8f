//! A privileged physical-page-frame classification and statistics engine.
//!
//! The library decodes the two raw kernel tables that describe every
//! physical memory frame (per-frame reference counts and per-frame flag
//! words), classifies each frame into mutually exclusive primary
//! categories plus independent overlay categories, accumulates aggregate
//! statistics, renders the textual summary that the collector service
//! reports, and models the privileged service lifecycle (start as the
//! superuser, open the protected streams, irreversibly downgrade, serve).

pub mod classify;
pub mod collector;
pub mod decode;
pub mod dispatch;
pub mod errors;
pub mod laws;
pub mod lifecycle;
pub mod page_flags;
pub mod render;
pub mod stats;
