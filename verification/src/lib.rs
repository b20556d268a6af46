//! Incremental decoder and encoder for the SmartAudio video-transmitter
//! serial protocol.
//!
//! Bytes are pushed one at a time into a [`SmartAudioParser`], which assembles
//! them into checksum-validated frames inside a fixed buffer. A completed frame
//! is classified into a typed [`Response`]. In the other direction each command
//! type writes its wire frame into a caller-supplied buffer.
pub mod checksum;
pub mod commands;
pub mod constants;
pub mod laws;

pub mod parser;
pub mod responses;

pub use commands::GetSettingsCommand;
pub use commands::SetChannelCommand;
pub use commands::SetFrequencyCommand;
pub use commands::SetModeCommand;
pub use commands::SetPowerCommand;
pub use commands::SmartAudioCommand;

pub use responses::Response;
pub use responses::SetChannelResponse;
pub use responses::SetFrequencyResponse;
pub use responses::SetModeResponse;
pub use responses::SetPowerResponse;
pub use responses::Settings;
pub use responses::SmartAudioReponse;

pub use parser::RawSmartAudioFrame;
pub use parser::SmartAudioError;
pub use parser::SmartAudioParser;
