//! Log records: what a record holds, how it is written, where it goes, and
//! when the buffered records are flushed.

pub mod buffer;
pub mod config;
pub mod model;
pub mod service;

pub use self::service::init_logger;
