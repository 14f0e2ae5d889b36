//! Builds typed, protocol-specific chain connection settings from a loosely
//! typed configuration tree, collecting every problem it meets on the way.

pub mod path;
pub mod error;
pub mod text;
pub mod uint;
pub mod value;
pub mod urls;
pub mod common;
pub mod ethereum;
pub mod cosmos;
pub mod sealevel;
pub mod fuel;
pub mod chain_conf;
pub mod connection;
pub mod laws;
pub mod txn;
