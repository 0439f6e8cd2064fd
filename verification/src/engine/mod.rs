//! The decisions: what to keep, whether to remux, and how.

pub mod analyzer;
pub mod batch;
pub mod command;
pub mod filtering;
pub mod laws;
pub mod necessity;
pub mod retention;
pub mod transfer;

pub use analyzer::{MkvAnalyzer, PlannedAction, ProcessingPlan};
pub use batch::{BatchProcessor, BatchResult};
pub use command::{build, ExternalCommand};
pub use necessity::is_necessary;
pub use retention::{select, RetentionDecision};
