//! Point-of-sale payment gateway core: quote lifecycle management over a
//! durable key-value store, with request validation and settlement logic.

pub mod codec;
pub mod config;
pub mod db;
pub mod error;
pub mod pos_server;
pub mod types;
pub mod validate;
