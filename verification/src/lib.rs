//! An in-process FIFO message queue.
//!
//! Producers submit string payloads and receive a fresh identifier for each;
//! consumers remove messages in first-in-first-out order. The queue itself is
//! a verified sequential structure; a lock-protected handle makes it safe to
//! share between concurrent request handlers.

mod ids;
pub mod queue;
pub mod shared;
