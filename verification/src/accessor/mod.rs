//! Cache-aside access to entities: each operation is a machine that asks for
//! one request at a time and moves on the reply.

pub mod create;
pub mod delete;
pub mod get;
pub mod list;
pub mod machine;
pub mod request;
pub mod update;
