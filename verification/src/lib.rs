//! Backend command/response engine of a chat client.
//!
//! The engine accepts user-intent commands, resolves each into a protocol
//! call, and reports results back to a controller, while bounding resource
//! usage (a counting semaphore for background downloads) and avoiding
//! redundant network work (a single-flight identity cache).

pub mod appop;
pub mod backend;
pub mod clock;
pub mod credentials;
pub mod identity;
pub mod reply;
pub mod roomlist;
pub mod strutil;
pub mod throttle;
pub mod types;
