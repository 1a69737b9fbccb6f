//! Bulk synchronisation of a music catalogue from a document store into a
//! search index.
//!
//! Tracks, albums and artists are read from the store, reduced to the
//! documents that the search index keeps, and written to the index in
//! batches, one kind after the other. The library decides; it performs no
//! input or output itself. Its driver opens cursors, pulls records and sends
//! bulk writes, and tells the library what came of each.
//!
//! - [`music_struct`]: the records and their projections.
//! - [`record`]: what the pipeline needs to know of a record kind.
//! - [`batch`]: how a stream is cut into batches, and the buffer of one batch.
//! - [`progress`]: the count of indexed records and its notification.
//! - [`pipeline`]: the state machine of one record kind.
//! - [`index`]: what the writes of a run leave in the search index.
//! - [`orchestrator`]: the three kinds in their order.
//! - [`config`]: the settings of a run.
//! - [`error`]: the failures that end a run.

pub mod batch;
pub mod config;
pub mod error;
pub mod index;
pub mod music_struct;
pub mod orchestrator;
pub mod pipeline;
pub mod progress;
pub mod record;
