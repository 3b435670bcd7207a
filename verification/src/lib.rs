//! A registry of remote download sources with cached integrity metadata.
//!
//! The library keeps, for each tracked source, a content hash, the HTTP
//! validators (`ETag`, `Last-Modified`) seen when the hash was taken, and a
//! classification of the content as a single file or an archive.  Its core is
//! the refresh protocol: decide from cached validators whether the remote
//! resource changed, and if so re-derive the hash and classification while
//! avoiding redundant downloads.  All network and process work is left to the
//! caller; the library plans each step and interprets its result.

pub mod classify;
pub mod error;
pub mod filename;
pub mod pipeline;
pub mod probe;
pub mod refresh;
pub mod registry;
pub mod source;
pub mod text;
pub mod timestamp;

pub use error::Error;
pub use probe::{ProbeOutcome, ProbeRequest, ProbeResponse};
pub use refresh::{FetchPlan, PendingValidators, RefreshStep};
pub use registry::Registry;
pub use source::{Source, SourceType};
pub use timestamp::Timestamp;
