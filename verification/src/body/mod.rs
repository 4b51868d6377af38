//! Request bodies that borrow from what was received.

pub mod home;
