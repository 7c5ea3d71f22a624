//! Decision logic of a fingerprint enrollment utility: the fingers that can be
//! enrolled, validation of user names, errors shown to the user, the
//! application model that reacts to messages, and the step machines that drive
//! the fingerprint daemon over D-Bus.

pub mod config;
pub mod device;
pub mod device_laws;
pub mod error;
pub mod finger;
pub mod handler_laws;
pub mod i18n;
pub mod job_laws;
pub mod laws;
pub mod message;
pub mod outcome_laws;
pub mod model;
pub mod status;
pub mod tasks;
pub mod username;
