//! Models of the platform's objects — events, attributes, objects,
//! organizations, server metadata — and the codecs that read and write
//! their JSON wire forms.

pub mod analysis;
pub mod attribute;
pub mod distribution;
pub mod event;
pub mod object;
pub mod organization;
pub mod server_info;
pub mod threat_level;
