//! `OP_NpcMoveUpdate`: a 13..24 byte payload packed MSB-first into a bit
//! stream (not the packed-struct bitfield convention used elsewhere).
//!
//! ```text
//!   16 bits — spawnId
//!   16 bits — reserved
//!    6 bits — fieldSpecifier bitmask
//!   19 bits — y (signed, sign-magnitude — NOT two's complement)
//!   19 bits — x (signed)
//!   19 bits — z (signed)
//!   12 bits — heading (signed)
//!   [optional, in this order if the corresponding mask bit is set]
//!     0x01  → 12 bits pitch (read but unused)
//!     0x02  → 10 bits deltaHeading (signed)
//!     0x04  → 10 bits velocity / animation (signed)
//!     0x08  → 13 bits deltaY (signed)
//!     0x10  → 13 bits deltaX (signed)
//!     0x20  → 13 bits deltaZ (signed)
//! ```
//!
//! Coordinates are shifted right by 3 and deltas by 2 (fixed point), so the
//! fields drop straight into a spawn update. A read past the end of the
//! stream yields 0 and consumes nothing, as the reference reader does.
use vstd::prelude::*;

verus! {

/// Mask bit: a pitch follows.
pub const MASK_PITCH: u8 = 0x01;
/// Mask bit: a heading delta follows.
pub const MASK_DELTA_HEADING: u8 = 0x02;
/// Mask bit: an animation value follows.
pub const MASK_ANIMATION: u8 = 0x04;
/// Mask bit: a Y delta follows.
pub const MASK_DELTA_Y: u8 = 0x08;
/// Mask bit: an X delta follows.
pub const MASK_DELTA_X: u8 = 0x10;
/// Mask bit: a Z delta follows.
pub const MASK_DELTA_Z: u8 = 0x20;

/// One decoded movement update.
#[derive(Debug, Clone, Copy, PartialEq, Eq, Structural)]
pub struct NpcMoveUpdate {
    pub spawn_id: u16,
    pub x: i16,
    pub y: i16,
    pub z: i16,
    pub heading: i16,
    pub delta_x: i16,
    pub delta_y: i16,
    pub delta_z: i16,
    pub delta_heading: i8,
    pub animation: i16,
    pub has_delta_x: bool,
    pub has_delta_y: bool,
    pub has_delta_z: bool,
    pub has_delta_heading: bool,
    pub has_animation: bool,
}

/// Why a movement update was rejected.
#[derive(Debug, Clone, Copy, PartialEq, Eq, Structural)]
pub enum NpcMoveUpdateError {
    /// Not 13..=24 bytes; carries the length.
    BadLength(usize),
    /// The stream ran out after this many bits.
    Truncated(usize),
}

/// Bit `i` of the stream, most significant bit of each byte first.
pub open spec fn bit_at(data: Seq<u8>, i: int) -> nat {
    ((data[i / 8] >> ((7 - i % 8) as u8)) & 1u8) as nat
}

/// The `n` bits from `start`, most significant first, as a number.
pub open spec fn bits_value(data: Seq<u8>, start: int, n: nat) -> nat
    decreases n,
{
    if n == 0 {
        0
    } else {
        2 * bits_value(data, start, (n - 1) as nat) + bit_at(data, start + n - 1)
    }
}

/// An unsigned read of `n` bits at `cur` in a stream of `total` bits: the
/// value and the cursor after it. A read past the end is 0 and leaves the
/// cursor.
pub open spec fn uint_read(data: Seq<u8>, cur: int, total: int, n: nat) -> (nat, int) {
    if cur + n > total {
        (0, cur)
    } else {
        (bits_value(data, cur, n), cur + n)
    }
}

/// A sign-magnitude read: one sign bit, then `n - 1` magnitude bits.
pub open spec fn int_read(data: Seq<u8>, cur: int, total: int, n: nat) -> (int, int) {
    let s = uint_read(data, cur, total, 1);
    let m = uint_read(data, s.1, total, (n - 1) as nat);
    (
        if s.0 != 0 {
            -(m.0 as int)
        } else {
            m.0 as int
        },
        m.1,
    )
}

proof fn lemma_bits_value_bound(data: Seq<u8>, start: int, n: nat)
    ensures
        bits_value(data, start, n) < vstd::arithmetic::power2::pow2(n),
    decreases n,
{
    vstd::arithmetic::power2::lemma2_to64();
    if n > 0 {
        lemma_bits_value_bound(data, start, (n - 1) as nat);
        vstd::arithmetic::power2::lemma_pow2_unfold(n);
        let b = data[(start + n - 1) / 8];
        let k = ((7 - (start + n - 1) % 8) as u8);
        assert((b >> k) & 1u8 <= 1) by (bit_vector);
        assert(bit_at(data, start + n - 1) <= 1);
    }
}

/// The MSB-first bit reader of the reference client.
pub struct BitStream<'a> {
    pub data: &'a [u8],
    /// Index of the next bit to read.
    pub cur: usize,
    /// Bit length of the buffer.
    pub total: usize,
}

impl<'a> BitStream<'a> {
    /// Whether the cursor and length describe `data`.
    pub open spec fn wf(&self) -> bool {
        &&& self.total == self.data@.len() * 8
        &&& self.cur <= self.total
    }

    /// A reader at the first bit of `data`.
    pub fn new(data: &'a [u8]) -> (s: Self)
        requires
            data@.len() * 8 <= usize::MAX,
        ensures
            s.wf(),
            s.data == data,
            s.cur == 0,
    {
        BitStream { data, cur: 0, total: data.len() * 8 }
    }

    /// Read `bit_count` bits as an unsigned number; 0 without consuming
    /// anything when fewer remain.
    pub fn read_uint(&mut self, bit_count: usize) -> (r: u32)
        requires
            old(self).wf(),
            bit_count <= 32,
        ensures
            final(self).wf(),
            final(self).data == old(self).data,
            (r as nat, final(self).cur as int) == uint_read(
                old(self).data@,
                old(self).cur as int,
                old(self).total as int,
                bit_count as nat,
            ),
    {
        if bit_count > self.total - self.cur {
            return 0;
        }
        let mut out: u32 = 0;
        let mut i: usize = 0;
        while i < bit_count
            invariant
                self.wf(),
                self.cur + bit_count <= self.total,
                i <= bit_count <= 32,
                out as nat == bits_value(self.data@, self.cur as int, i as nat),
            decreases bit_count - i,
        {
            proof {
                lemma_bits_value_bound(self.data@, self.cur as int, i as nat);
                vstd::arithmetic::power2::lemma_pow2_strictly_increases(i as nat, 32);
                vstd::arithmetic::power2::lemma2_to64();
            }
            let pos = self.cur + i;
            let byte = self.data[pos / 8];
            let bit = (byte >> ((7 - pos % 8) as u8)) & 1u8;
            assert(bit <= 1) by (bit_vector)
                requires
                    bit == (byte >> ((7 - pos % 8) as u8)) & 1u8,
            ;
            assert(bit as nat == bit_at(self.data@, pos as int));
            out = out * 2 + bit as u32;
            i = i + 1;
        }
        self.cur = self.cur + bit_count;
        out
    }

    /// Read a sign-magnitude number: one sign bit, then `bit_count - 1`
    /// magnitude bits.
    pub fn read_int(&mut self, bit_count: usize) -> (r: i32)
        requires
            old(self).wf(),
            1 <= bit_count <= 32,
        ensures
            final(self).wf(),
            final(self).data == old(self).data,
            (r as int, final(self).cur as int) == int_read(
                old(self).data@,
                old(self).cur as int,
                old(self).total as int,
                bit_count as nat,
            ),
    {
        let sign = self.read_uint(1);
        let ghost mid = self.cur;
        let mag32 = self.read_uint(bit_count - 1);
        proof {
            let m = uint_read(old(self).data@, mid as int, old(self).total as int, (bit_count
                - 1) as nat);
            if mid + (bit_count - 1) <= old(self).total {
                lemma_bits_value_bound(old(self).data@, mid as int, (bit_count - 1) as nat);
                if bit_count - 1 < 31 {
                    vstd::arithmetic::power2::lemma_pow2_strictly_increases(
                        (bit_count - 1) as nat,
                        31,
                    );
                }
                vstd::arithmetic::power2::lemma2_to64();
            }
        }
        let mag = mag32 as i32;
        if sign != 0 {
            -mag
        } else {
            mag
        }
    }
}

/// Whether mask bit `m` is set in the field specifier.
pub open spec fn has(fs: nat, m: u8) -> bool {
    (fs as u8) & m != 0
}

/// The update a 13..24-byte payload decodes to.
pub open spec fn npc_move_of(b: Seq<u8>) -> NpcMoveUpdate {
    let t = (b.len() * 8) as int;
    let sid = uint_read(b, 0, t, 16);
    let garbage = uint_read(b, sid.1, t, 16);
    let fs = uint_read(b, garbage.1, t, 6);
    let y = int_read(b, fs.1, t, 19);
    let x = int_read(b, y.1, t, 19);
    let z = int_read(b, x.1, t, 19);
    let h = int_read(b, z.1, t, 12);
    let p0 = h.1;
    let p1 = if has(fs.0, MASK_PITCH) {
        int_read(b, p0, t, 12).1
    } else {
        p0
    };
    let dh = int_read(b, p1, t, 10);
    let p2 = if has(fs.0, MASK_DELTA_HEADING) {
        dh.1
    } else {
        p1
    };
    let an = int_read(b, p2, t, 10);
    let p3 = if has(fs.0, MASK_ANIMATION) {
        an.1
    } else {
        p2
    };
    let dy = int_read(b, p3, t, 13);
    let p4 = if has(fs.0, MASK_DELTA_Y) {
        dy.1
    } else {
        p3
    };
    let dx = int_read(b, p4, t, 13);
    let p5 = if has(fs.0, MASK_DELTA_X) {
        dx.1
    } else {
        p4
    };
    let dz = int_read(b, p5, t, 13);
    NpcMoveUpdate {
        spawn_id: sid.0 as u16,
        x: (x.0 / 8) as i16,
        y: (y.0 / 8) as i16,
        z: (z.0 / 8) as i16,
        heading: h.0 as i16,
        delta_x: if has(fs.0, MASK_DELTA_X) {
            (dx.0 / 4) as i16
        } else {
            0
        },
        delta_y: if has(fs.0, MASK_DELTA_Y) {
            (dy.0 / 4) as i16
        } else {
            0
        },
        delta_z: if has(fs.0, MASK_DELTA_Z) {
            (dz.0 / 4) as i16
        } else {
            0
        },
        delta_heading: if has(fs.0, MASK_DELTA_HEADING) {
            (dh.0 / 4) as i8
        } else {
            0
        },
        animation: if has(fs.0, MASK_ANIMATION) {
            (an.0 / 4) as i16
        } else {
            0
        },
        has_delta_x: has(fs.0, MASK_DELTA_X),
        has_delta_y: has(fs.0, MASK_DELTA_Y),
        has_delta_z: has(fs.0, MASK_DELTA_Z),
        has_delta_heading: has(fs.0, MASK_DELTA_HEADING),
        has_animation: has(fs.0, MASK_ANIMATION),
    }
}

/// `v >> k` on a sign-magnitude value read from the stream: floor division
/// by `2^k`.
fn shr_floor(v: i32, k: u32) -> (r: i32)
    requires
        k == 2 || k == 3,
    ensures
        k == 2 ==> r as int == v as int / 4,
        k == 3 ==> r as int == v as int / 8,
{
    if k == 2 {
        assert(v >> 2u32 == v / 4) by (bit_vector);
        v >> 2u32
    } else {
        assert(v >> 3u32 == v / 8) by (bit_vector);
        v >> 3u32
    }
}

/// Decode a movement update of 13..=24 bytes.
pub fn parse_npc_move_update(bytes: &[u8]) -> (r: Result<NpcMoveUpdate, NpcMoveUpdateError>)
    ensures
        (bytes@.len() < 13 || bytes@.len() > 24) ==> r == Err::<
            NpcMoveUpdate,
            NpcMoveUpdateError,
        >(NpcMoveUpdateError::BadLength(bytes@.len() as usize)),
        13 <= bytes@.len() <= 24 ==> r == Ok::<NpcMoveUpdate, NpcMoveUpdateError>(
            npc_move_of(bytes@),
        ),
{
    if bytes.len() < 13 || bytes.len() > 24 {
        return Err(NpcMoveUpdateError::BadLength(bytes.len()));
    }
    let mut s = BitStream::new(bytes);
    let spawn_id = s.read_uint(16) as u16;
    let _garbage = s.read_uint(16);
    let fs32 = s.read_uint(6);
    proof {
        vstd::arithmetic::power2::lemma2_to64();
        lemma_bits_value_bound(bytes@, 32, 6);
    }
    let field_specifier = fs32 as u8;
    let y = shr_floor(s.read_int(19), 3) as i16;
    let x = shr_floor(s.read_int(19), 3) as i16;
    let z = shr_floor(s.read_int(19), 3) as i16;
    let heading = s.read_int(12) as i16;
    let mut delta_x: i16 = 0;
    let mut delta_y: i16 = 0;
    let mut delta_z: i16 = 0;
    let mut delta_heading: i8 = 0;
    let mut animation: i16 = 0;
    if field_specifier & MASK_PITCH != 0 {
        let _pitch = s.read_int(12);
    }
    if field_specifier & MASK_DELTA_HEADING != 0 {
        delta_heading = shr_floor(s.read_int(10), 2) as i8;
    }
    if field_specifier & MASK_ANIMATION != 0 {
        animation = shr_floor(s.read_int(10), 2) as i16;
    }
    if field_specifier & MASK_DELTA_Y != 0 {
        delta_y = shr_floor(s.read_int(13), 2) as i16;
    }
    if field_specifier & MASK_DELTA_X != 0 {
        delta_x = shr_floor(s.read_int(13), 2) as i16;
    }
    if field_specifier & MASK_DELTA_Z != 0 {
        delta_z = shr_floor(s.read_int(13), 2) as i16;
    }
    if s.cur > s.total {
        return Err(NpcMoveUpdateError::Truncated(s.cur));
    }
    Ok(NpcMoveUpdate {
        spawn_id,
        x,
        y,
        z,
        heading,
        delta_x,
        delta_y,
        delta_z,
        delta_heading,
        animation,
        has_delta_x: field_specifier & MASK_DELTA_X != 0,
        has_delta_y: field_specifier & MASK_DELTA_Y != 0,
        has_delta_z: field_specifier & MASK_DELTA_Z != 0,
        has_delta_heading: field_specifier & MASK_DELTA_HEADING != 0,
        has_animation: field_specifier & MASK_ANIMATION != 0,
    })
}

/// The sign-magnitude field of `n` bits at bit `pos`: a sign bit, then the
/// magnitude, most significant bit first.
pub open spec fn sign_magnitude_at(b: Seq<u8>, pos: int, n: nat) -> int {
    let m = bits_value(b, pos + 1, (n - 1) as nat) as int;
    if bit_at(b, pos) == 1 {
        -m
    } else {
        m
    }
}

/// Whether bit `k` of the field specifier `f` is set.
pub open spec fn flag(f: nat, k: nat) -> bool {
    (f / vstd::arithmetic::power2::pow2(k)) % 2 == 1
}

/// Where the velocity fields start: after the 107 fixed bits and whichever
/// of pitch (12), heading change (10) and animation (10) are present.
pub open spec fn velocity_start(f: nat) -> int {
    107 + (if flag(f, 0) {
        12int
    } else {
        0
    }) + (if flag(f, 1) {
        10int
    } else {
        0
    }) + (if flag(f, 2) {
        10int
    } else {
        0
    })
}

proof fn lemma_int_read_in_range(b: Seq<u8>, cur: int, t: int, n: nat)
    requires
        n >= 1,
        cur + n <= t,
    ensures
        int_read(b, cur, t, n) == (sign_magnitude_at(b, cur, n), cur + n),
{
    lemma_bits_value_bound(b, cur, 1);
    vstd::arithmetic::power2::lemma2_to64();
    assert(bits_value(b, cur, 1) == bit_at(b, cur));
}

proof fn lemma_flags(f: nat)
    requires
        f < 64,
    ensures
        has(f, MASK_PITCH) == flag(f, 0),
        has(f, MASK_DELTA_HEADING) == flag(f, 1),
        has(f, MASK_ANIMATION) == flag(f, 2),
        has(f, MASK_DELTA_Y) == flag(f, 3),
        has(f, MASK_DELTA_X) == flag(f, 4),
        has(f, MASK_DELTA_Z) == flag(f, 5),
{
    vstd::arithmetic::power2::lemma2_to64();
    let v = f as u8;
    assert(v & 1 != 0 <==> v % 2 == 1) by (bit_vector);
    assert(v & 2 != 0 <==> (v / 2) % 2 == 1) by (bit_vector);
    assert(v & 4 != 0 <==> (v / 4) % 2 == 1) by (bit_vector);
    assert(v & 8 != 0 <==> (v / 8) % 2 == 1) by (bit_vector);
    assert(v & 16 != 0 <==> (v / 16) % 2 == 1) by (bit_vector);
    assert(v & 32 != 0 <==> (v / 32) % 2 == 1) by (bit_vector);
}

/// The velocity fields follow each other on the wire as Y, X, Z, each 13
/// sign-magnitude bits in quarter units, starting right after the optional
/// animation: a present field's value is the one at its place, and each
/// present field moves the next one 13 bits on.
pub proof fn law_velocity_fields_in_wire_order(b: Seq<u8>)
    ensures
        ({
            let t = b.len() * 8;
            let f = bits_value(b, 32, 6);
            let py = velocity_start(f);
            let px = py + if flag(f, 3) {
                13int
            } else {
                0
            };
            let pz = px + if flag(f, 4) {
                13int
            } else {
                0
            };
            let u = npc_move_of(b);
            &&& flag(f, 3) && py + 13 <= t ==> u.delta_y == (sign_magnitude_at(b, py, 13) / 4) as i16
            &&& flag(f, 4) && px + 13 <= t ==> u.delta_x == (sign_magnitude_at(b, px, 13) / 4) as i16
            &&& flag(f, 5) && pz + 13 <= t ==> u.delta_z == (sign_magnitude_at(b, pz, 13) / 4) as i16
            &&& t >= 38 ==> u.has_delta_y == flag(f, 3) && u.has_delta_x == flag(f, 4)
                && u.has_delta_z == flag(f, 5)
        }),
{
    let t = (b.len() * 8) as int;
    let f = bits_value(b, 32, 6);
    lemma_bits_value_bound(b, 32, 6);
    vstd::arithmetic::power2::lemma2_to64();
    lemma_flags(f);
    if t >= 38 {
        assert(uint_read(b, 0, t, 16).1 == 16);
        assert(uint_read(b, 16, t, 16).1 == 32);
        assert(uint_read(b, 32, t, 6) == (f, 38int));
    }
    if t >= velocity_start(f) + 13 {
        lemma_int_read_in_range(b, 38, t, 19);
        lemma_int_read_in_range(b, 57, t, 19);
        lemma_int_read_in_range(b, 76, t, 19);
        lemma_int_read_in_range(b, 95, t, 12);
        let p1 = if flag(f, 0) {
            119int
        } else {
            107int
        };
        if flag(f, 0) {
            lemma_int_read_in_range(b, 107, t, 12);
        }
        let p2 = p1 + if flag(f, 1) {
            10int
        } else {
            0
        };
        if flag(f, 1) {
            lemma_int_read_in_range(b, p1, t, 10);
        }
        let p3 = p2 + if flag(f, 2) {
            10int
        } else {
            0
        };
        if flag(f, 2) {
            lemma_int_read_in_range(b, p2, t, 10);
        }
        assert(p3 == velocity_start(f));
        lemma_int_read_in_range(b, p3, t, 13);
        let p4 = p3 + if flag(f, 3) {
            13int
        } else {
            0
        };
        if p4 + 13 <= t {
            lemma_int_read_in_range(b, p4, t, 13);
            let p5 = p4 + if flag(f, 4) {
                13int
            } else {
                0
            };
            if p5 + 13 <= t {
                lemma_int_read_in_range(b, p5, t, 13);
            }
        }
    }
}

} // verus!
