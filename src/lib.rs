//! Per-thread values attached to a type.
//!
//! An association binds an owner type, a tag type and a value type to one
//! storage cell per thread. A thread holds its cell as a [`ThreadLocal`]
//! handle: the handle is owned by that thread, starts out untouched, takes
//! its initial value on first access, and is overwritten in place by writes.

pub mod assoc;
pub mod cell;
pub mod lemmas;

pub use assoc::AssocThreadLocal;
pub use cell::{MakeSync, ThreadLocal};
