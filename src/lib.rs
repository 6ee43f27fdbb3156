//! Core of a touch-typing trainer: lesson generation from ranked n-grams,
//! per-keystroke editing of the typed text, and lesson scoring.

pub mod keys;
pub mod lesson;
pub mod metrics;
pub mod session;
