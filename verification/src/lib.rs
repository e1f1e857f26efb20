//! A typed, verified core for a MISP (threat-intelligence sharing platform)
//! client: the platform's peculiar JSON scalar encodings, the identifier
//! model, the entity records, the lazily-resolved request handles and the
//! search query builder. Transport (HTTP) and JSON text parsing live outside
//! this crate; the core consumes and produces already-parsed JSON values.

pub mod codec;
pub mod date;
pub mod error;
pub mod fields;
pub mod identifier;
pub mod json;
pub mod model;
pub mod requests;
pub mod uid;

pub use error::{MispError, MispResult};
