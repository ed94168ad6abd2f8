//! Configuration panels of a text-mode installer wizard.
//!
//! Each wizard step offers its choices in a select view, pre-highlighted
//! from the session's configuration store; what the user picks becomes a
//! write into that store, and a final write lets the wizard advance.

pub mod data;
pub mod fs_select;
pub mod networking;
pub mod raid;
pub mod select;
pub mod store;
pub mod text;
pub mod wizard;
