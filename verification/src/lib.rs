//! A client core for a bucket-oriented object store and a download benchmark on
//! top of it.
//!
//! The library decides what is sent and what a reply means; it performs no
//! input or output itself. A caller sends each [`exchange::Request`] that the
//! library builds and hands back what happened as an [`exchange::Outcome`].

pub mod backblaze_api;
pub mod bench;
pub mod config;
pub mod consts;
pub mod digest;
pub mod error;
pub mod exchange;
pub mod json;
pub mod models;
pub mod timing;
