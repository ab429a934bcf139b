//! A pool of reusable values: a value taken from the pool comes back to it,
//! cleaned, when its handle is released.
mod pool;
mod sanitize;

pub use pool::{reduce_to, ArenaCity, Citizen};
pub use sanitize::Sanitize;
