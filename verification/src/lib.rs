//! A single-threaded, backpressure-aware stream of byte chunks.
//!
//! A producer feeds chunks, an end-of-stream mark or an error into a shared
//! buffer; a consumer pulls them out in order. The buffer tells the producer
//! when to pause, and each side can leave a wake handle for the other to fire.
pub mod chunk;
pub mod wake;
pub mod model;
pub mod inner;
pub mod payload;
pub mod laws;

pub use inner::{Inner, MAX_BUFFER_SIZE};
pub use model::{Async, PayloadStatus};
pub use payload::{Payload, PayloadSender, PayloadWriter, Pool};
