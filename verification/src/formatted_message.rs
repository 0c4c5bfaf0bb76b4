//! `OP_FormattedMessage`: a format-string id and its positional arguments.
//!
//! ```text
//!   u32 @0    always 0
//!   u8  @4    always 0
//!   u32 @5    formatId   — format-string id
//!   u32 @9    msgType    — message type / chat colour
//!   @13       args       — length-prefixed [u32 len][len bytes] slots; unused
//!                          trailing slots carry len=0
//! ```
//!
//! `%N` interpolation stays with the consumer, which owns the string table;
//! empty slots are dropped exactly as it drops them, so `%N` stays aligned.
use vstd::prelude::*;

use crate::links::{clean, clean_links};
use crate::text::latin1_seq;
use crate::wire::{latin1_range, le_u32, rd_u32};

verus! {

/// Fixed header length; the length-prefixed argument blob starts here.
pub const HEADER_LEN: usize = 13;

/// One formatted message.
#[derive(Debug, Clone, PartialEq, Eq)]
pub struct FormattedMessage {
    /// Format-string id at @5.
    pub format_id: u32,
    /// Message type / chat colour at @9.
    pub msg_color: u32,
    /// Positional substitution arguments (%1..%N), in order, empty slots
    /// dropped and links reduced to their display name.
    pub args: Vec<String>,
}

/// Why a formatted message was rejected.
#[derive(Debug, Clone, Copy, PartialEq, Eq, Structural)]
pub enum FormattedMessageError {
    /// Shorter than the header; carries the payload length.
    BadLength(usize),
}

/// The arguments in the blob from `pos` on: each non-empty slot in order;
/// a slot whose length runs past the payload ends the list.
pub open spec fn args_from(b: Seq<u8>, pos: int) -> Seq<Seq<char>>
    decreases b.len() - pos,
{
    if pos < 0 || pos + 4 > b.len() {
        Seq::empty()
    } else {
        let len = le_u32(b, pos) as int;
        let p = pos + 4;
        if len == 0 {
            args_from(b, p)
        } else if p + len > b.len() {
            Seq::empty()
        } else {
            seq![clean(latin1_seq(b.subrange(p, p + len)))] + args_from(b, p + len)
        }
    }
}

/// The views of a list of strings.
pub open spec fn strings_view(v: Seq<String>) -> Seq<Seq<char>> {
    v.map_values(|s: String| s@)
}

/// Split the length-prefixed argument blob starting at `start`.
fn split_args(b: &[u8], start: usize) -> (r: Vec<String>)
    requires
        start <= b@.len(),
    ensures
        strings_view(r@) == args_from(b@, start as int),
{
    let n = b.len();
    let mut out: Vec<String> = Vec::new();
    let mut pos = start;
    let mut done = false;
    assert(strings_view(out@) =~= Seq::<Seq<char>>::empty());
    while !done && n - pos >= 4
        invariant
            start <= pos <= n,
            n == b@.len(),
            !done ==> strings_view(out@) + args_from(b@, pos as int) == args_from(
                b@,
                start as int,
            ),
            done ==> strings_view(out@) == args_from(b@, start as int),
        decreases n - pos,
    {
        let ghost at = pos as int;
        let len = rd_u32(b, pos) as usize;
        pos = pos + 4;
        if len == 0 {
            // An unused slot.
        } else if len > n - pos {
            // Truncated or corrupt: nothing after this slot is read.
            done = true;
            assert(strings_view(out@) =~= args_from(b@, start as int));
        } else {
            let text = latin1_range(b, pos, pos + len);
            let arg = clean_links(text.as_str());
            let ghost before = strings_view(out@);
            out.push(arg);
            assert(strings_view(out@) =~= before.push(arg@));
            pos = pos + len;
            assert(strings_view(out@) + args_from(b@, pos as int) =~= before + args_from(b@, at));
        }
    }
    if !done {
        assert(strings_view(out@) =~= args_from(b@, start as int));
    }
    out
}

/// Decode a formatted message.
pub fn parse_formatted_message(bytes: &[u8]) -> (r: Result<FormattedMessage, FormattedMessageError>)
    ensures
        bytes@.len() < HEADER_LEN ==> r == Err::<FormattedMessage, FormattedMessageError>(
            FormattedMessageError::BadLength(bytes@.len() as usize),
        ),
        bytes@.len() >= HEADER_LEN ==> (r matches Ok(m) && m.format_id == le_u32(bytes@, 5)
            && m.msg_color == le_u32(bytes@, 9) && strings_view(m.args@) == args_from(
            bytes@,
            HEADER_LEN as int,
        )),
{
    if bytes.len() < HEADER_LEN {
        return Err(FormattedMessageError::BadLength(bytes.len()));
    }
    let format_id = rd_u32(bytes, 5);
    let msg_color = rd_u32(bytes, 9);
    let args = split_args(bytes, HEADER_LEN);
    Ok(FormattedMessage { format_id, msg_color, args })
}

} // verus!
