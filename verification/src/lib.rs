//! Protocol core of a bridge between a Linux host and the idun cartridge:
//! PETSCII transcoding, the command wire format of the local control
//! channel, the discovery banner of the C64 Ultimate and the choice of
//! its REST endpoints.

pub mod bytestring;
pub mod channel;
pub mod command;
pub mod discovery;
pub mod petscii;
pub mod text;
pub mod ultimate;
