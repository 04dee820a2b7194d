//! Cancellable streaming pipeline for transport-stream capture: failure
//! diagnostics, cancellation, the chunked copy engine and the mode
//! orchestrator, each as verified logic that a thin driver connects to
//! devices, files and signals.

pub mod cancel;
pub mod diagnostics;
pub mod engine;
pub mod mode;
pub mod orchestrator;
