//! The hosting services that groups are discovered on.

pub mod gitlab;
