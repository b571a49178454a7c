//! A thread-safe, lock-free ring buffer core with a two-stage
//! reserve/commit protocol.
//!
//! The ring is a borrowed, power-of-two-length entries slice addressed
//! through two shared 32-bit counters, `head` and `tail`. A producer hands
//! out exclusive write slots ahead of the tail and publishes them in order;
//! a consumer claims published slots from the head and frees them in order.
//! Either counter may also be advanced by an external party (for example an
//! operating-system kernel) that shares the ring.

pub mod consumer;
pub mod errors;
pub mod layout;
pub mod producer;
pub mod protocol;
pub mod reserved;
pub mod wrap;

pub use consumer::RingBufferConsumer;
pub use errors::RingBufferError;
pub use producer::RingBufferProducer;
pub use reserved::ReservedEntry;
