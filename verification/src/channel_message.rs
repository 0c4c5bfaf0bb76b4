//! `OP_CommonMessage` (channel chat). Two NUL-terminated strings, an 8-byte
//! skip, three `u32`s with a `u32` + `u8` skip between the second and
//! third, and the NUL-terminated message body:
//!
//! ```text
//!   sender   : NUL-terminated text
//!   target   : NUL-terminated text
//!   skip     : 8 bytes
//!   language : u32 LE
//!   chan_num : u32 LE
//!   skip     : 4 bytes, then 1 byte
//!   skill    : u32 LE (skill in language)
//!   message  : NUL-terminated text, links reduced to their names
//! ```
use vstd::prelude::*;

use crate::links::{clean, clean_links};
use crate::text::latin1_seq;
use crate::wire::{find_nul, latin1_range, le_u32, nul_from, rd_u32};

verus! {

/// One chat line.
#[derive(Debug, Clone, PartialEq, Eq)]
pub struct ChannelMessage {
    pub sender: String,
    pub target: String,
    pub language: u32,
    pub chan_num: u32,
    pub skill_in_language: u32,
    pub message: String,
}

/// The abstract content of a [`ChannelMessage`].
pub struct ChatLine {
    pub sender: Seq<char>,
    pub target: Seq<char>,
    pub language: u32,
    pub chan_num: u32,
    pub skill_in_language: u32,
    pub message: Seq<char>,
}

impl View for ChannelMessage {
    type V = ChatLine;

    open spec fn view(&self) -> ChatLine {
        ChatLine {
            sender: self.sender@,
            target: self.target@,
            language: self.language,
            chan_num: self.chan_num,
            skill_in_language: self.skill_in_language,
            message: self.message@,
        }
    }
}

/// Why a chat payload was rejected.
#[derive(Debug, Clone, Copy, PartialEq, Eq)]
pub enum ChannelMessageError {
    /// The payload (of this length) ends before a fixed field of this many
    /// bytes.
    Truncated(usize, usize),
    /// The named string has no terminator within the payload.
    UnterminatedText(&'static str),
}

/// The fixed block between the target and the message: skip 8, language,
/// channel, skip 4 + 1, skill. The first field that does not fit decides the
/// error.
pub open spec fn fixed_block(b: Seq<u8>, p: int) -> Result<(u32, u32, u32), ChannelMessageError> {
    let n = b.len();
    if n < p + 8 {
        Err(ChannelMessageError::Truncated(n as usize, 8))
    } else if n < p + 12 {
        Err(ChannelMessageError::Truncated(n as usize, 4))
    } else if n < p + 16 {
        Err(ChannelMessageError::Truncated(n as usize, 4))
    } else if n < p + 20 {
        Err(ChannelMessageError::Truncated(n as usize, 4))
    } else if n < p + 21 {
        Err(ChannelMessageError::Truncated(n as usize, 1))
    } else if n < p + 25 {
        Err(ChannelMessageError::Truncated(n as usize, 4))
    } else {
        Ok((le_u32(b, p + 8), le_u32(b, p + 12), le_u32(b, p + 21)))
    }
}

/// What a chat payload decodes to.
pub open spec fn channel_message_of(b: Seq<u8>) -> Result<ChatLine, ChannelMessageError> {
    match nul_from(b, 0) {
        None => Err(ChannelMessageError::UnterminatedText("sender")),
        Some(e1) => match nul_from(b, e1 + 1) {
            None => Err(ChannelMessageError::UnterminatedText("target")),
            Some(e2) => match fixed_block(b, e2 + 1) {
                Err(e) => Err(e),
                Ok(f) => match nul_from(b, e2 + 26) {
                    None => Err(ChannelMessageError::UnterminatedText("message")),
                    Some(e3) => Ok(
                        ChatLine {
                            sender: latin1_seq(b.subrange(0, e1)),
                            target: latin1_seq(b.subrange(e1 + 1, e2)),
                            language: f.0,
                            chan_num: f.1,
                            skill_in_language: f.2,
                            message: clean(latin1_seq(b.subrange(e2 + 26, e3))),
                        },
                    ),
                },
            },
        },
    }
}

/// Decode one chat line.
pub fn parse_channel_message(bytes: &[u8]) -> (r: Result<ChannelMessage, ChannelMessageError>)
    ensures
        match channel_message_of(bytes@) {
            Ok(v) => r matches Ok(m) && m@ == v,
            Err(e) => r == Err::<ChannelMessage, ChannelMessageError>(e),
        },
{
    let n = bytes.len();
    let e1 = match find_nul(bytes, 0) {
        Some(k) => k,
        None => return Err(ChannelMessageError::UnterminatedText("sender")),
    };
    let sender = latin1_range(bytes, 0, e1);
    let e2 = match find_nul(bytes, e1 + 1) {
        Some(k) => k,
        None => return Err(ChannelMessageError::UnterminatedText("target")),
    };
    let target = latin1_range(bytes, e1 + 1, e2);
    let p = e2 + 1;
    // skip 8 (unknown), language, channel, skip 4 + 1 (unknown), skill.
    if n - p < 8 {
        return Err(ChannelMessageError::Truncated(n, 8));
    }
    if n - p < 12 {
        return Err(ChannelMessageError::Truncated(n, 4));
    }
    let language = rd_u32(bytes, p + 8);
    if n - p < 16 {
        return Err(ChannelMessageError::Truncated(n, 4));
    }
    let chan_num = rd_u32(bytes, p + 12);
    if n - p < 20 {
        return Err(ChannelMessageError::Truncated(n, 4));
    }
    if n - p < 21 {
        return Err(ChannelMessageError::Truncated(n, 1));
    }
    if n - p < 25 {
        return Err(ChannelMessageError::Truncated(n, 4));
    }
    let skill_in_language = rd_u32(bytes, p + 21);
    let q = p + 25;
    let e3 = match find_nul(bytes, q) {
        Some(k) => k,
        None => return Err(ChannelMessageError::UnterminatedText("message")),
    };
    let raw = latin1_range(bytes, q, e3);
    let message = clean_links(raw.as_str());
    Ok(ChannelMessage { sender, target, language, chan_num, skill_in_language, message })
}

} // verus!
