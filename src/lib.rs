//! Helpers for doing something special on the first or last repetition of a
//! loop (or in between).
//!
//! - [`IterStatusExt::with_status`] wraps an iterator so that each item comes
//!   paired with a [`Status`] telling whether it is the first and/or the last.
//! - [`SkipFirst`] runs an action every time except the first.

pub mod skip;
pub mod status;
pub mod with_status;

pub use skip::SkipFirst;
pub use status::Status;
pub use with_status::{IterStatusExt, WithStatus};
