//! What the collision systems decide once geometry has spoken.

pub mod cache;
pub mod damages;
