//! The credential-refreshing facade in front of a drive-backed music catalogue:
//! the stored credential and its record format, startup reconciliation, the
//! renewal loop, the swappable provider handle and rotation.

pub mod clock;
pub mod credential;
pub mod error;
pub mod handle;
pub mod info;
pub mod record;
pub mod renewal;
pub mod rotation;
pub mod store;
