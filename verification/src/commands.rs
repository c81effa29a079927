//! The commands the modem takes, and their wire form.

use crate::utils::{CodecError, CommandWriter, ToPayload};
use vstd::prelude::*;
use vstd::string::is_ascii;

verus! {

broadcast use vstd::string::is_ascii_spec_bytes;

/// The byte that ends a command line, and a reply line.
pub const LINE_FEED: u8 = 0x0A;

/// The byte that may come before a line feed in a reply, and is dropped.
pub const CARRIAGE_RETURN: u8 = 0x0D;

/// Commands that one can send to the LoRa-E5.
#[allow(non_camel_case_types)]
#[derive(Debug, PartialEq, Eq)]
pub enum Command {
    /// `AT`: asks the modem whether it is there.
    CheckAlive,
    /// `AT+ID`: asks the modem for its identifiers.
    AT_ID_READ,
    /// Sets the device identifier. Has no wire form yet.
    AT_ID_SET_DEV_EUI { dev_eui: [u8; 8] },
    /// Sets the application identifier. Has no wire form yet.
    AT_ID_SET_APP_EUI { app_eui: [u8; 8] },
    /// Sets the application key. Has no wire form yet.
    AT_ID_SET_APP_KEY { app_key: [u8; 16] },
}

impl Command {
    /// The command's text in the AT dialect, in ASCII, without the line feed.
    pub open spec fn text(self) -> Option<Seq<u8>> {
        match self {
            // "AT"
            Command::CheckAlive => Some(seq![0x41u8, 0x54u8]),
            // "AT+ID"
            Command::AT_ID_READ => Some(seq![0x41u8, 0x54u8, 0x2Bu8, 0x49u8, 0x44u8]),
            _ => None,
        }
    }

    /// The command as it goes over the line: its text and one line feed.
    pub open spec fn encoding(self) -> Option<Seq<u8>> {
        match self.text() {
            Some(text) => Some(text.push(LINE_FEED)),
            None => None,
        }
    }
}

impl ToPayload for Command {
    open spec fn payload(&self) -> Option<Seq<u8>> {
        self.encoding()
    }

    fn to_payload<W: CommandWriter>(&self, writer: &mut W) -> (r: Result<(), CodecError>) {
        match self {
            Command::CheckAlive => {
                let text = "AT\n";
                let line = text.as_bytes();
                proof {
                    reveal_strlit("AT\n");
                    assert(is_ascii(text));
                    assert(line@ =~= seq![0x41u8, 0x54u8].push(LINE_FEED));
                }
                writer.write_cmd_bytes(line)
            },
            Command::AT_ID_READ => {
                let text = "AT+ID\n";
                let line = text.as_bytes();
                proof {
                    reveal_strlit("AT+ID\n");
                    assert(is_ascii(text));
                    assert(line@ =~= seq![0x41u8, 0x54u8, 0x2Bu8, 0x49u8, 0x44u8].push(LINE_FEED));
                }
                writer.write_cmd_bytes(line)
            },
            _ => Err(CodecError::UnimplementedCommand),
        }
    }
}

} // verus!
