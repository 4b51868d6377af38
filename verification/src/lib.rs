//! Core of a small sensor registry: homes hold applications, applications hold
//! sensors, sensors hold data containers, and data containers collect sensor
//! data and subscribers that want to hear about it.
//!
//! The crate decides; it never performs I/O.  Every operation on an entity is
//! a small state machine that names the next request to the store or the
//! cache and consumes the reply, so a driver only has to carry requests out.
//! The dispatcher likewise says which delivery starts on which worker and
//! what follows from the end of an attempt; posting and waiting are the
//! driver's.
//!
//! - [`accessor`]: cache-aside create, get, update, delete and list.
//! - [`model`] and [`laws`]: a reference model of store and cache, and what
//!   the accessor is proved to do against it.
//! - [`dispatcher`]: fan-out of readings to subscribers under a ceiling, with
//!   retries, and the proofs that nothing is lost, held up or overrun.
//! - [`entities`], [`entity`], [`body`]: the entity types and their rules.
//! - [`utils`], [`ident`], [`url`], [`json`], [`error`]: cache keys and
//!   options, identifiers, URLs, JSON text and failures.

pub mod accessor;
pub mod body;
pub mod dispatcher;
pub mod entities;
pub mod entity;
pub mod error;
pub mod ident;
pub mod json;
pub mod laws;
pub mod model;
pub mod url;
pub mod utils;
