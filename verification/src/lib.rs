//! Normalises images that arrive in object storage: every object named by a
//! batch of storage notifications is fetched, decoded, written again as PNG
//! and stored under a key derived from its own.
//!
//! The crate holds the decisions of that pipeline and proves them. Storage
//! itself stays with the caller: the batch driver hands out one request at a
//! time and is resumed with the answer.

pub mod key_mapper;
pub mod codec;
pub mod config;
pub mod record;
pub mod batch;
pub mod run;
