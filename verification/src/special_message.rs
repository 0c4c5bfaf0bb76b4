//! `OP_SpecialMesg`: two NUL-terminated strings separated by a 12-byte
//! padding block.
//!
//! ```text
//!   offset 0  : unknown [u8; 3]
//!   offset 3  : messageColor u32
//!   offset 7  : target u16
//!   offset 9  : padding u16
//!   offset 11 : source — NUL-terminated string
//!   then      : unknown [u32; 3] (12 bytes)
//!   then      : message — NUL-terminated string
//! ```
use vstd::prelude::*;

use crate::text::latin1_seq;
use crate::wire::{find_nul, latin1_range, le_u16, le_u32, nul_from, rd_u16, rd_u32};

verus! {

/// Bytes before the source string.
pub const HEADER_LEN: usize = 11;

/// Padding between the source's terminator and the message.
pub const MID_PADDING: usize = 12;

/// One special message: the speaker and the body.
#[derive(Debug, Clone, PartialEq, Eq)]
pub struct SpecialMessage {
    pub message_color: u32,
    pub target: u16,
    pub source: String,
    pub message: String,
}

/// The abstract content of a [`SpecialMessage`].
pub struct SpecialLine {
    pub message_color: u32,
    pub target: u16,
    pub source: Seq<char>,
    pub message: Seq<char>,
}

impl View for SpecialMessage {
    type V = SpecialLine;

    open spec fn view(&self) -> SpecialLine {
        SpecialLine {
            message_color: self.message_color,
            target: self.target,
            source: self.source@,
            message: self.message@,
        }
    }
}

/// Why a special message was rejected.
#[derive(Debug, Clone, Copy, PartialEq, Eq, Structural)]
pub enum SpecialMessageError {
    /// The payload (of this length) is this many bytes short.
    Truncated(usize, usize),
    /// The source has no terminator.
    SourceUnterminated,
    /// The message has no terminator.
    MessageUnterminated,
}

/// What a special-message payload decodes to.
pub open spec fn special_message_of(b: Seq<u8>) -> Result<SpecialLine, SpecialMessageError> {
    let n = b.len();
    if n < HEADER_LEN {
        Err(SpecialMessageError::Truncated(n as usize, HEADER_LEN))
    } else {
        match nul_from(b, HEADER_LEN as int) {
            None => Err(SpecialMessageError::SourceUnterminated),
            Some(se) => {
                let ms = se + 1 + MID_PADDING;
                if n < ms {
                    Err(SpecialMessageError::Truncated(n as usize, (ms - n) as usize))
                } else {
                    match nul_from(b, ms) {
                        None => Err(SpecialMessageError::MessageUnterminated),
                        Some(me) => Ok(
                            SpecialLine {
                                message_color: le_u32(b, 3),
                                target: le_u16(b, 7),
                                source: latin1_seq(b.subrange(HEADER_LEN as int, se)),
                                message: latin1_seq(b.subrange(ms, me)),
                            },
                        ),
                    }
                }
            },
        }
    }
}

/// Decode a special message.
pub fn parse_special_message(bytes: &[u8]) -> (r: Result<SpecialMessage, SpecialMessageError>)
    ensures
        match special_message_of(bytes@) {
            Ok(v) => r matches Ok(m) && m@ == v,
            Err(e) => r == Err::<SpecialMessage, SpecialMessageError>(e),
        },
{
    let n = bytes.len();
    if n < HEADER_LEN {
        return Err(SpecialMessageError::Truncated(n, HEADER_LEN));
    }
    let message_color = rd_u32(bytes, 3);
    let target = rd_u16(bytes, 7);
    let source_end = match find_nul(bytes, HEADER_LEN) {
        Some(k) => k,
        None => return Err(SpecialMessageError::SourceUnterminated),
    };
    let source = latin1_range(bytes, HEADER_LEN, source_end);
    if n - source_end < 1 + MID_PADDING {
        return Err(SpecialMessageError::Truncated(n, 1 + MID_PADDING - (n - source_end)));
    }
    let message_start = source_end + 1 + MID_PADDING;
    let message_end = match find_nul(bytes, message_start) {
        Some(k) => k,
        None => return Err(SpecialMessageError::MessageUnterminated),
    };
    let message = latin1_range(bytes, message_start, message_end);
    Ok(SpecialMessage { message_color, target, source, message })
}

} // verus!
