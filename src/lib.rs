pub mod backoff;
pub mod client;
pub mod common;
pub mod connection;
pub mod drivers;
pub mod error;
pub mod handle;
pub mod protocol;
pub mod query;
pub mod remote_manager;

pub use client::{Client, CreateOptions, GetOptions, GetOrCreateOptions, GetWithIdOptions};
pub use common::{EncodingKind, TransportKind};
pub use error::{ClientError, ControlOp};
