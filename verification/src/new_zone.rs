//! EQ Legends `OP_NewZone`: three NUL-terminated names (short, long, zone
//! file), a 3-byte gap between the long name and the zone file, then a fixed
//! 306-byte environment tail.
//!
//! The tail's scalars that are IEEE-754 `f32` on the wire are surfaced as
//! their raw bit patterns; `f32::from_bits` gives the value.
use vstd::prelude::*;
use vstd::utf8::encode_utf8;

use crate::text::{utf8_lossy, utf8_lossy_range};
use crate::wire::{find_nul, le_u32, nul_from, rd_u32};

verus! {

/// Bytes between the long name's terminator and the zone file.
pub const NAME_GAP: usize = 3;
/// Fixed environment block after the zone file's terminator.
pub const TAIL_LEN: usize = 306;
/// Offset of the classic zone id in the tail.
pub const ZONE_ID: usize = 5;
/// Offset of the experience multiplier in the tail.
pub const EXP_MULT: usize = 9;
/// Offset of the safe point (y, x, z) in the tail.
pub const SAFE_Y: usize = 123;

/// The zone being entered.
#[derive(Debug, Clone, PartialEq, Eq, Default)]
pub struct NewZone {
    pub short_name: String,
    pub long_name: String,
    pub zonefile: String,
    /// Bits of the `f32` experience multiplier.
    pub zone_exp_multiplier_bits: u32,
    /// Bits of the `f32` safe point, y then x then z.
    pub safe_y_bits: u32,
    pub safe_x_bits: u32,
    pub safe_z_bits: u32,
    /// Classic zone id (fearplane 72, guktop 65, gukbottom 66).
    pub zone_id: u32,
}

/// The abstract content of a [`NewZone`].
pub struct ZoneEntry {
    pub short_name: Seq<char>,
    pub long_name: Seq<char>,
    pub zonefile: Seq<char>,
    pub zone_exp_multiplier_bits: u32,
    pub safe_y_bits: u32,
    pub safe_x_bits: u32,
    pub safe_z_bits: u32,
    pub zone_id: u32,
}

impl View for NewZone {
    type V = ZoneEntry;

    open spec fn view(&self) -> ZoneEntry {
        ZoneEntry {
            short_name: self.short_name@,
            long_name: self.long_name@,
            zonefile: self.zonefile@,
            zone_exp_multiplier_bits: self.zone_exp_multiplier_bits,
            safe_y_bits: self.safe_y_bits,
            safe_x_bits: self.safe_x_bits,
            safe_z_bits: self.safe_z_bits,
            zone_id: self.zone_id,
        }
    }
}

/// Why a zone-in payload was rejected.
#[derive(Debug, Clone, Copy, PartialEq, Eq)]
pub enum NewZoneError {
    /// The payload (of this length) is this many bytes short.
    Truncated(usize, usize),
    /// The named text has no terminator.
    UnterminatedText(&'static str),
    /// The named text is not a plausible zone name.
    ImplausibleName(&'static str),
}

/// Empty is legal; text that is present must be printable ASCII and at most
/// `max` bytes.
pub open spec fn plausible_name(name: Seq<char>, max: int) -> bool {
    let b = encode_utf8(name);
    name.len() == 0 || (b.len() <= max && forall|i: int|
        0 <= i < b.len() ==> 0x20 <= #[trigger] b[i] <= 0x7e)
}

/// What a zone-in payload decodes to.
pub open spec fn new_zone_of(b: Seq<u8>) -> Result<ZoneEntry, NewZoneError> {
    let n = b.len() as int;
    match nul_from(b, 0) {
        None => Err(NewZoneError::UnterminatedText("short_name")),
        Some(e0) => match nul_from(b, e0 + 1) {
            None => Err(NewZoneError::UnterminatedText("long_name")),
            Some(e1) => {
                let short = utf8_lossy(b.subrange(0, e0));
                let long = utf8_lossy(b.subrange(e0 + 1, e1));
                let gap = e1 + 1 + NAME_GAP;
                if !plausible_name(short, 64) {
                    Err(NewZoneError::ImplausibleName("short_name"))
                } else if !plausible_name(long, 128) {
                    Err(NewZoneError::ImplausibleName("long_name"))
                } else if n < gap {
                    Err(NewZoneError::Truncated(n as usize, (gap - n) as usize))
                } else {
                    match nul_from(b, gap) {
                        None => Err(NewZoneError::UnterminatedText("zonefile")),
                        Some(e2) => {
                            let zonefile = utf8_lossy(b.subrange(gap, e2));
                            let t = e2 + 1;
                            if !plausible_name(zonefile, 128) {
                                Err(NewZoneError::ImplausibleName("zonefile"))
                            } else if n < t + TAIL_LEN {
                                Err(NewZoneError::Truncated(n as usize, (t + TAIL_LEN - n) as usize))
                            } else {
                                Ok(
                                    ZoneEntry {
                                        short_name: short,
                                        long_name: long,
                                        zonefile,
                                        zone_exp_multiplier_bits: le_u32(b, t + EXP_MULT),
                                        safe_y_bits: le_u32(b, t + SAFE_Y),
                                        safe_x_bits: le_u32(b, t + SAFE_Y + 4),
                                        safe_z_bits: le_u32(b, t + SAFE_Y + 8),
                                        zone_id: le_u32(b, t + ZONE_ID),
                                    },
                                )
                            }
                        },
                    }
                }
            },
        },
    }
}

/// Whether `name` is a plausible zone name of at most `max` bytes.
pub fn plausible(name: &str, max: usize) -> (r: bool)
    ensures
        r == plausible_name(name@, max as int),
{
    if name.is_empty() {
        return true;
    }
    let b = name.as_bytes();
    if b.len() > max {
        return false;
    }
    let mut i: usize = 0;
    while i < b.len()
        invariant
            i <= b@.len(),
            b@ == encode_utf8(name@),
            forall|j: int| 0 <= j < i ==> 0x20 <= #[trigger] b@[j] <= 0x7e,
        decreases b@.len() - i,
    {
        if !(0x20 <= b[i] && b[i] <= 0x7e) {
            return false;
        }
        i = i + 1;
    }
    true
}

/// Decode a zone-in payload.
pub fn parse_new_zone(bytes: &[u8]) -> (r: Result<NewZone, NewZoneError>)
    ensures
        match new_zone_of(bytes@) {
            Ok(v) => r matches Ok(z) && z@ == v,
            Err(e) => r == Err::<NewZone, NewZoneError>(e),
        },
{
    let n = bytes.len();
    let e0 = match find_nul(bytes, 0) {
        Some(k) => k,
        None => return Err(NewZoneError::UnterminatedText("short_name")),
    };
    let short_name = utf8_lossy_range(bytes, 0, e0);
    let e1 = match find_nul(bytes, e0 + 1) {
        Some(k) => k,
        None => return Err(NewZoneError::UnterminatedText("long_name")),
    };
    let long_name = utf8_lossy_range(bytes, e0 + 1, e1);
    if !plausible(short_name.as_str(), 64) {
        return Err(NewZoneError::ImplausibleName("short_name"));
    }
    if !plausible(long_name.as_str(), 128) {
        return Err(NewZoneError::ImplausibleName("long_name"));
    }
    let p = e1 + 1;
    if n - p < NAME_GAP {
        return Err(NewZoneError::Truncated(n, NAME_GAP - (n - p)));
    }
    let gap = p + NAME_GAP;
    let e2 = match find_nul(bytes, gap) {
        Some(k) => k,
        None => return Err(NewZoneError::UnterminatedText("zonefile")),
    };
    let zonefile = utf8_lossy_range(bytes, gap, e2);
    if !plausible(zonefile.as_str(), 128) {
        return Err(NewZoneError::ImplausibleName("zonefile"));
    }
    let t = e2 + 1;
    if n - t < TAIL_LEN {
        return Err(NewZoneError::Truncated(n, TAIL_LEN - (n - t)));
    }
    Ok(NewZone {
        short_name,
        long_name,
        zonefile,
        zone_exp_multiplier_bits: rd_u32(bytes, t + EXP_MULT),
        safe_y_bits: rd_u32(bytes, t + SAFE_Y),
        safe_x_bits: rd_u32(bytes, t + SAFE_Y + 4),
        safe_z_bits: rd_u32(bytes, t + SAFE_Y + 8),
        zone_id: rd_u32(bytes, t + ZONE_ID),
    })
}

} // verus!
