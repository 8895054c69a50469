pub mod mongo;
pub mod redis;
pub mod serde_helpers;
