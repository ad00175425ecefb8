//! Systems that declare the resources they touch, and a wrapper that runs a
//! system only while a control resource holds a chosen value.

pub mod system;
pub mod system_extra;

pub use system::System;
pub use system_extra::{guard_matches, Pausable, SystemExtra};
