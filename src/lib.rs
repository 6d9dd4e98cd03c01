//! Cross-platform audio I/O core: driver helpers, stream configuration and the
//! duplex bridge that joins an input stream and an output stream.
pub mod backends;
pub mod config;
pub mod duplex;
pub mod mailbox;
pub mod stream;
