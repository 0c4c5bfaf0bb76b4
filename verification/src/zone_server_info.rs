//! `OP_ZoneServerInfo` — the world-to-zone handoff.
//!
//! ```text
//! /*0000*/ char     host[128]   NUL-terminated zone server hostname
//! /*0128*/ uint16_t port        little-endian UDP port
//! /*0130*/
//! ```
//!
//! This is a report, not a routing input: it lets a client display where
//! the session went. The host is fixed-width and NUL-padded, so trailing
//! garbage after the terminator is normal.
use vstd::prelude::*;

use crate::text::latin1_seq;
use crate::wire::{find_nul_in, latin1_range, le_u16, nul_in, rd_u16};

verus! {

/// `char host[128]` + `uint16 port`.
pub const PAYLOAD_LEN: usize = 130;

/// Where the port sits, right after the host field.
pub const PORT_OFFSET: usize = 128;

/// Where the session went.
#[derive(Debug, Clone, PartialEq, Eq, Default)]
pub struct ZoneServerInfo {
    pub host: String,
    pub port: u16,
}

/// The abstract content of a [`ZoneServerInfo`].
pub struct ZoneServer {
    pub host: Seq<char>,
    pub port: u16,
}

impl View for ZoneServerInfo {
    type V = ZoneServer;

    open spec fn view(&self) -> ZoneServer {
        ZoneServer { host: self.host@, port: self.port }
    }
}

/// Why a handoff payload was rejected.
#[derive(Debug, Clone, Copy, PartialEq, Eq, Structural)]
pub enum ZoneServerInfoError {
    /// The payload is not exactly [`PAYLOAD_LEN`] bytes.
    BadLen(usize),
    /// The host is empty or holds a non-printable byte.
    InvalidHost,
    /// The port is zero.
    InvalidPort,
}


/// Where the host text ends: its terminator, or the end of the field.
pub open spec fn host_end(b: Seq<u8>) -> int {
    match nul_in(b, 0, PORT_OFFSET as int) {
        Some(k) => k,
        None => PORT_OFFSET as int,
    }
}

/// Printable ASCII.
pub open spec fn printable_ascii(c: u8) -> bool {
    0x20 <= c <= 0x7e
}

/// A host is non-empty printable ASCII.
pub open spec fn valid_host(h: Seq<u8>) -> bool {
    h.len() > 0 && forall|i: int| 0 <= i < h.len() ==> printable_ascii(#[trigger] h[i])
}

/// Decode the handoff. Errors, in order: wrong length, bad host, zero port.
pub fn parse_zone_server_info(b: &[u8]) -> (r: Result<ZoneServerInfo, ZoneServerInfoError>)
    ensures
        b@.len() != PAYLOAD_LEN ==> r == Err::<ZoneServerInfo, ZoneServerInfoError>(
            ZoneServerInfoError::BadLen(b@.len() as usize),
        ),
        b@.len() == PAYLOAD_LEN ==> {
            let h = b@.subrange(0, host_end(b@));
            if !valid_host(h) {
                r == Err::<ZoneServerInfo, ZoneServerInfoError>(ZoneServerInfoError::InvalidHost)
            } else if le_u16(b@, PORT_OFFSET as int) == 0 {
                r == Err::<ZoneServerInfo, ZoneServerInfoError>(ZoneServerInfoError::InvalidPort)
            } else {
                r matches Ok(z) && z@ == (ZoneServer {
                    host: latin1_seq(h),
                    port: le_u16(b@, PORT_OFFSET as int),
                })
            }
        },
{
    if b.len() != PAYLOAD_LEN {
        return Err(ZoneServerInfoError::BadLen(b.len()));
    }
    let end = match find_nul_in(b, 0, PORT_OFFSET) {
        Some(k) => k,
        None => PORT_OFFSET,
    };
    assert(host_end(b@) == end as int);
    let ghost h = b@.subrange(0, end as int);
    if end == 0 {
        assert(h.len() == 0);
        return Err(ZoneServerInfoError::InvalidHost);
    }
    let mut i: usize = 0;
    while i < end
        invariant
            i <= end <= PORT_OFFSET,
            b@.len() == PAYLOAD_LEN,
            h == b@.subrange(0, end as int),
            host_end(b@) == end as int,
            forall|j: int| 0 <= j < i ==> printable_ascii(#[trigger] h[j]),
        decreases end - i,
    {
        if !(0x20 <= b[i] && b[i] <= 0x7e) {
            assert(!printable_ascii(h[i as int]));
            return Err(ZoneServerInfoError::InvalidHost);
        }
        i = i + 1;
    }
    let port = rd_u16(b, PORT_OFFSET);
    if port == 0 {
        return Err(ZoneServerInfoError::InvalidPort);
    }
    Ok(ZoneServerInfo { host: latin1_range(b, 0, end), port })
}

} // verus!
