//! Daily dream-challenge generation: constrained word selection, the
//! per-challenge build state machine, bounded retry, day assembly and the
//! reconciliation of day identifiers against the published index.

pub mod ai;
pub mod app;
pub mod audit;
pub mod cdn;
pub mod challenge;
pub mod error;
pub mod image;
pub mod json;
pub mod models;
pub mod pipeline;
pub mod prompts;
pub mod reconcile;
pub mod retry;
pub mod run;
pub mod text;
pub mod words;

pub use error::Error;
