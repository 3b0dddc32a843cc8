//! A counter record that only its owner may change, and the five operations that create, change and release it.

pub mod accounts;
pub mod counter;
pub mod identity;
pub mod laws;
pub mod model;
pub mod outcome;
pub mod record;

pub use crate::accounts::{Initialize, Terminate, Update};
pub use crate::identity::Identity;
pub use crate::outcome::{ErrorCode, Event, Failure};
pub use crate::record::{Counter, Record, Slot};
