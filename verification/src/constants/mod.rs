//! The fixed values of the wire format.
pub mod command;
pub mod get_settings_flags;
pub mod mode_flags;
pub mod response;
