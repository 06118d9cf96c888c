//! The local channel to the control process: how a command is framed, how
//! the answer is read, and how redirected output is made printable.

use vstd::prelude::*;
use vstd::slice::{slice_subrange, slice_to_vec};
use bstr::BString;
use crate::petscii::{standard_bytes, PetString};
use crate::text::{chars_of, text_prefix};

verus! {

/// The path of the socket on which the control process listens.
pub const LUAPORT: &'static str = "/tmp/idunmm-lua";

/// Why a command did not go through.
pub enum ChannelError {
    /// The control process could not be reached.
    Unavailable,
    /// The control process refused the command, with this message.
    Rejected(String),
}

/// The bytes that go over the socket for a command: its text, closed by
/// one line feed.
pub open spec fn framed_bytes(message: Seq<char>) -> Seq<u8> {
    vstd::utf8::encode_utf8(message).push(0x0Au8)
}

/// Frames a command for the socket.
pub fn framed(message: &str) -> (bytes: Vec<u8>)
    ensures
        bytes@ == framed_bytes(message@),
{
    let mut bytes = message.as_bytes_vec();
    bytes.push(0x0A);
    bytes
}

/// The message of a refusal, where the answer is one: an answer refuses
/// when it is not empty and its first byte is not zero, and its message is
/// the text of the native bytes that follow.
pub open spec fn refusal(response: Seq<u8>) -> Option<Seq<char>> {
    if response.len() > 0 && response[0] != 0 {
        Some(text_prefix(standard_bytes(response.skip(1))))
    } else {
        None
    }
}

/// Reads the whole answer of the control process. An empty answer and one
/// that starts with a zero byte mean success, whatever follows the zero.
pub fn status_of(response: &[u8]) -> (r: Result<(), ChannelError>)
    ensures
        match refusal(response@) {
            None => r is Ok,
            Some(m) => r matches Err(ChannelError::Rejected(msg)) && msg@ == m,
        },
{
    if response.len() > 0 && response[0] > 0 {
        let rest = slice_subrange(response, 1, response.len());
        assert(rest@ =~= response@.skip(1));
        let native = PetString::new(&BString::new(slice_to_vec(rest)));
        Err(ChannelError::Rejected(native.into_string()))
    } else {
        Ok(())
    }
}

/// A text with each carriage return turned into a line feed.
pub open spec fn unix_lines(text: Seq<char>) -> Seq<char> {
    Seq::new(text.len(), |i: int| if text[i] == '\r' { '\n' } else { text[i] })
}

/// Makes a chunk of redirected output printable: the native bytes are
/// decoded, read as text up to the first byte that breaks UTF-8, and the
/// line ends of the Commodore become line feeds.
pub fn decode_output(chunk: &[u8]) -> (s: String)
    ensures
        s@ == unix_lines(text_prefix(standard_bytes(chunk@))),
{
    let native = PetString::new(&BString::new(slice_to_vec(chunk)));
    let text = native.into_string();
    let chars = chars_of(text.as_str());
    let mut s = String::new();
    let mut i: usize = 0;
    while i < chars.len()
        invariant
            i <= chars@.len(),
            s@ == unix_lines(chars@.take(i as int)),
        decreases chars@.len() - i,
    {
        let c = chars[i];
        if c == '\r' {
            s.push('\n');
        } else {
            s.push(c);
        }
        i = i + 1;
        assert(s@ =~= unix_lines(chars@.take(i as int)));
    }
    assert(chars@.take(chars@.len() as int) =~= chars@);
    s
}

impl ChannelError {
    /// The text shown for the error.
    pub open spec fn message_text(self) -> Seq<char> {
        match self {
            ChannelError::Unavailable => "Local channel unavailable"@,
            ChannelError::Rejected(m) => "Remote sys.shell() fail: "@ + m@,
        }
    }

    /// The text to show for the error.
    pub fn message(&self) -> (s: String)
        ensures
            s@ == self.message_text(),
    {
        match self {
            ChannelError::Unavailable => String::from_str("Local channel unavailable"),
            ChannelError::Rejected(m) => {
                let mut s = String::from_str("Remote sys.shell() fail: ");
                s.append(m.as_str());
                s
            },
        }
    }
}

} // verus!
