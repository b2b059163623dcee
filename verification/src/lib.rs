//! A single mutable optional price value and the handler logic around it.
//!
//! The library models the service's one piece of state — a cell that is
//! either absent or holds an unsigned 64-bit price — together with the
//! read, replace and clear operations on it and the HTTP responses each
//! operation owes. The network layer around it only acquires the lock,
//! calls these functions, and serializes the result.

pub mod cell;
pub mod handlers;
