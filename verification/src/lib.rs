//! Verified core of a gRPC client for the Senzing SDK: errors and retry
//! policy, the reading of the server's replies, configuration state, the
//! factory's lifecycle, and the bookkeeping of batch, redo and export runs.
pub mod duration;
pub mod json;
pub mod status;
pub mod szabstractfactory;
pub mod szconfig;
pub mod szconfigmanager;
pub mod szdiagnostic;
pub mod szengine;
pub mod szerrortypes;
pub mod szproduct;
pub mod text;

pub use duration::Duration;
pub use szerrortypes::{is_retryable, SzError, SzErrorKind};
