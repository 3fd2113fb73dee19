//! Tails a replica set's operation log: decodes each logged entry into a
//! typed operation and drives the stream that yields them in log order.
pub mod builder;
pub mod entry;
pub mod operation;
pub mod stream;
