//! Clients of the host's auxiliary services, reached through raw calls that
//! return a status code and hand over a host-allocated buffer.
//!
//! Each operation takes the raw call as a closure: the closure performs it and
//! returns the status with the buffer adopted from the out-pointer (`None`
//! where the host left the pointer null). The decision on what came back is
//! made here.

pub mod dictionary;
pub mod key_value;
pub mod secret;
pub mod utils;
