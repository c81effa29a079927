//! Driver logic for a LoRa-E5 radio modem spoken to in its AT dialect over a
//! serial line.
//!
//! A command is encoded into bytes, the bytes go out over the line one at a
//! time, the reply comes back one byte at a time, and is decoded against the
//! command that asked for it. The crate decides each of these steps and
//! leaves the line itself to the caller.

pub mod buffers;
pub mod commands;
pub mod driver;
pub mod laws;
pub mod protocol;
pub mod responses;
pub mod utils;

pub use crate::commands::Command;
pub use crate::driver::LoRaE5;
pub use crate::protocol::{Action, Event, Phase};
pub use crate::responses::Reply;
pub use crate::utils::{CodecError, CommandWriter, Error, FromPayload, ToPayload};
