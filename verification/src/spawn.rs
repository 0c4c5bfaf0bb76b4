//! `OP_ZoneSpawns` on EQ Legends: one spawn record, walked front to back.
//!
//! A NUL-terminated name, then a block whose length depends on three counts
//! carried inside it (character properties, appearance entries, and the
//! NUL-terminated last name), then the equipment block, whose size depends on
//! whether the spawn is a player or a humanoid NPC, then six 32-bit position
//! words:
//!
//! ```text
//!     w0  pad
//!     w1  { z:19 low | deltaZ:13 }   -> world Z
//!     w2  { heading:12 low | padding:20 }
//!     w3  { y:19 low | deltaY:13 }   -> world X
//!     w4  { x:19 low | deltaX:13 }   -> world Y
//!     w5  trailing
//! ```
//!
//! Each coordinate is a signed 19-bit ×8 fixed-point value in the low bits
//! of its word. The heading is left at 0 until it is measured.
//!
//! Titles: the record ends with 4 fixed bytes, a `u8` mercenary flag, an
//! ASCII `0` run and 53 fixed bytes; up to seven strings sit before that
//! anchor, the first two of which are the title and the suffix. Every
//! overrun ends the walk with `BadLength` rather than a panic.
use vstd::prelude::*;

use crate::decode::DecodeError;
use crate::text::latin1_seq;
use crate::wire::{latin1_range, le_u32, nul_from, rd_u32};

verus! {

/// The spawn fields a decoded record carries.
#[derive(Debug, Clone, PartialEq, Eq, Default)]
pub struct ZoneSpawn {
    pub id: u16,
    pub name: String,
    pub last_name: String,
    pub title: String,
    pub suffix: String,
    pub x: i16,
    pub y: i16,
    pub z: i16,
    /// h2048 heading; not located on this wire, so 0.
    pub heading: u16,
    pub level: u8,
    /// Current HP as a percentage.
    pub cur_hp: u8,
    /// The percentage base, always 100.
    pub max_hp: u8,
    pub race: u32,
    pub class_: u32,
    /// Multiclass bitmask (bit N = class N).
    pub class_mask: u32,
    pub deity: u32,
    pub guild_id: u32,
    pub guild_server_id: u32,
    pub pet_owner_id: u32,
    pub npc: u8,
    pub body_type: u32,
    pub holding: u8,
    pub state: u8,
    pub light: u8,
}

/// The abstract content of a [`ZoneSpawn`].
pub struct SpawnView {
    pub id: u16,
    pub name: Seq<char>,
    pub last_name: Seq<char>,
    pub title: Seq<char>,
    pub suffix: Seq<char>,
    pub x: i16,
    pub y: i16,
    pub z: i16,
    pub heading: u16,
    pub level: u8,
    pub cur_hp: u8,
    pub max_hp: u8,
    pub race: u32,
    pub class_: u32,
    pub class_mask: u32,
    pub deity: u32,
    pub guild_id: u32,
    pub guild_server_id: u32,
    pub pet_owner_id: u32,
    pub npc: u8,
    pub body_type: u32,
    pub holding: u8,
    pub state: u8,
    pub light: u8,
}

impl View for ZoneSpawn {
    type V = SpawnView;

    open spec fn view(&self) -> SpawnView {
        SpawnView {
            id: self.id,
            name: self.name@,
            last_name: self.last_name@,
            title: self.title@,
            suffix: self.suffix@,
            x: self.x,
            y: self.y,
            z: self.z,
            heading: self.heading,
            level: self.level,
            cur_hp: self.cur_hp,
            max_hp: self.max_hp,
            race: self.race,
            class_: self.class_,
            class_mask: self.class_mask,
            deity: self.deity,
            guild_id: self.guild_id,
            guild_server_id: self.guild_server_id,
            pet_owner_id: self.pet_owner_id,
            npc: self.npc,
            body_type: self.body_type,
            holding: self.holding,
            state: self.state,
            light: self.light,
        }
    }
}

/// The signed 19-bit ×8 fixed-point coordinate in the low bits of a word,
/// in whole units.
pub open spec fn pos19(w: u32) -> i16 {
    let v = (w as int) % 0x8_0000;
    let raw = if v >= 0x4_0000 {
        v - 0x8_0000
    } else {
        v
    };
    (raw / 8) as i16
}

/// Whether the equipment block has the full nine-slot layout: players and
/// a few humanoid NPC races.
pub open spec fn full_equipment(npc: u8, race: u32) -> bool {
    npc == 0 || race <= 12 || race == 128 || race == 130 || race == 330 || race == 522
}

/// Start of the run of ASCII `0` bytes that ends at `end`.
pub open spec fn zero_run_start(b: Seq<u8>, end: int) -> int
    decreases end,
{
    if end <= 0 || b[end - 1] != 0x30 {
        end
    } else {
        zero_run_start(b, end - 1)
    }
}

/// The strings of the title block from `pos`, read while `pos < text_end`,
/// at most seven; `None` when one is unterminated.
pub open spec fn title_walk(b: Seq<u8>, pos: int, text_end: int, k: nat) -> Option<
    Seq<Seq<char>>,
>
    decreases 7 - k,
{
    if k > 6 || pos >= text_end {
        Some(Seq::empty())
    } else {
        match nul_from(b, pos) {
            None => None,
            Some(e) => match title_walk(b, e + 1, text_end, k + 1) {
                None => None,
                Some(rest) => Some(seq![latin1_seq(b.subrange(pos, e))] + rest),
            },
        }
    }
}

/// The `i`-th string read, or empty.
pub open spec fn nth_or_empty(s: Seq<Seq<char>>, i: int) -> Seq<char> {
    if i < s.len() {
        s[i]
    } else {
        Seq::empty()
    }
}

/// The strings of the title block of a record whose position words end at
/// `end`; `None` when one is unterminated.
pub open spec fn titles(b: Seq<u8>, end: int) -> Option<Seq<Seq<char>>> {
    let n = b.len() as int;
    if n < 55 {
        Some(Seq::empty())
    } else {
        let d_start = zero_run_start(b, n - 54);
        if d_start < 5 {
            Some(Seq::empty())
        } else {
            title_walk(b, end, d_start - 5, 0)
        }
    }
}

/// What a spawn record decodes to.
pub open spec fn spawn_of(b: Seq<u8>) -> Result<SpawnView, DecodeError> {
    let n = b.len() as int;
    let bad = DecodeError::BadLength(n as usize);
    match nul_from(b, 0) {
        None => Err(bad),
        Some(e0) => if e0 == 0 {
            Err(DecodeError::Short(n as usize))
        } else {
            let p0 = e0 + 1;
            if p0 + 36 > n {
                Err(bad)
            } else {
                let npc = b[p0 + 21];
                let cp = b[p0 + 35] as int;
                let a = p0 + 36;
                let bb = a + 4 * cp;
                if bb + 9 > n {
                    Err(bad)
                } else {
                    let ac = b[bb + 3] as int;
                    let c = bb + 42 + 4 * ac;
                    if c + 29 > n {
                        Err(bad)
                    } else {
                        let race = le_u32(b, c);
                        match nul_from(b, c + 29) {
                            None => Err(bad),
                            Some(e1) => {
                                let g = e1 + 7 + if npc == 1 {
                                    49int
                                } else {
                                    37int
                                };
                                let h = g + if full_equipment(npc, race) {
                                    216int
                                } else {
                                    60int
                                };
                                if h + 24 > n {
                                    Err(bad)
                                } else {
                                    match titles(b, h + 24) {
                                        None => Err(bad),
                                        Some(ts) => Ok(
                                            SpawnView {
                                                id: le_u32(b, p0) as u16,
                                                name: latin1_seq(b.subrange(0, e0)),
                                                last_name: latin1_seq(b.subrange(c + 29, e1)),
                                                title: nth_or_empty(ts, 0),
                                                suffix: nth_or_empty(ts, 1),
                                                x: pos19(le_u32(b, h + 12)),
                                                y: pos19(le_u32(b, h + 16)),
                                                z: pos19(le_u32(b, h + 4)),
                                                heading: 0,
                                                level: b[p0 + 4],
                                                cur_hp: b[bb + 8],
                                                max_hp: 100,
                                                race,
                                                class_: le_u32(b, c + 17),
                                                class_mask: le_u32(b, c + 21),
                                                deity: le_u32(b, c + 5),
                                                guild_id: le_u32(b, c + 9),
                                                guild_server_id: le_u32(b, c + 13),
                                                pet_owner_id: le_u32(b, e1 + 3),
                                                npc,
                                                body_type: if cp != 0 {
                                                    le_u32(b, a)
                                                } else {
                                                    0
                                                },
                                                holding: b[c + 4],
                                                state: b[c + 26],
                                                light: b[c + 27],
                                            },
                                        ),
                                    }
                                }
                            },
                        }
                    }
                }
            }
        },
    }
}

/// Bounds-checked sequential reader: little-endian scalars and
/// NUL-terminated latin-1 text.
struct Walk<'a> {
    b: &'a [u8],
    p: usize,
}

impl<'a> Walk<'a> {
    spec fn wf(&self) -> bool {
        self.p <= self.b@.len()
    }

    fn need(&self, n: usize) -> (r: Result<(), DecodeError>)
        requires
            self.wf(),
        ensures
            r is Ok <==> self.p + n <= self.b@.len(),
            r matches Err(e) ==> e == DecodeError::BadLength(self.b@.len() as usize),
    {
        if n > self.b.len() - self.p {
            Err(DecodeError::BadLength(self.b.len()))
        } else {
            Ok(())
        }
    }

    fn skip(&mut self, n: usize) -> (r: Result<(), DecodeError>)
        requires
            old(self).wf(),
        ensures
            final(self).wf(),
            final(self).b == old(self).b,
            r is Ok <==> old(self).p + n <= old(self).b@.len(),
            r is Ok ==> final(self).p == old(self).p + n,
            r matches Err(e) ==> e == DecodeError::BadLength(old(self).b@.len() as usize),
    {
        let len = self.b.len();
        match self.need(n) {
            Ok(()) => {},
            Err(e) => return Err(e),
        }
        self.p = self.p + n;
        Ok(())
    }

    fn u8(&mut self) -> (r: Result<u8, DecodeError>)
        requires
            old(self).wf(),
        ensures
            final(self).wf(),
            final(self).b == old(self).b,
            r is Ok <==> old(self).p + 1 <= old(self).b@.len(),
            r matches Ok(v) ==> v == old(self).b@[old(self).p as int] && final(self).p == old(
                self,
            ).p + 1,
            r matches Err(e) ==> e == DecodeError::BadLength(old(self).b@.len() as usize),
    {
        let len = self.b.len();
        match self.need(1) {
            Ok(()) => {},
            Err(e) => return Err(e),
        }
        let v = self.b[self.p];
        self.p = self.p + 1;
        Ok(v)
    }

    fn u32(&mut self) -> (r: Result<u32, DecodeError>)
        requires
            old(self).wf(),
        ensures
            final(self).wf(),
            final(self).b == old(self).b,
            r is Ok <==> old(self).p + 4 <= old(self).b@.len(),
            r matches Ok(v) ==> v == le_u32(old(self).b@, old(self).p as int) && final(self).p
                == old(self).p + 4,
            r matches Err(e) ==> e == DecodeError::BadLength(old(self).b@.len() as usize),
    {
        let len = self.b.len();
        match self.need(4) {
            Ok(()) => {},
            Err(e) => return Err(e),
        }
        let v = rd_u32(self.b, self.p);
        self.p = self.p + 4;
        Ok(v)
    }

    /// NUL-terminated latin-1 text; advances past the NUL.
    fn text(&mut self) -> (r: Result<String, DecodeError>)
        requires
            old(self).wf(),
        ensures
            final(self).wf(),
            final(self).b == old(self).b,
            match nul_from(old(self).b@, old(self).p as int) {
                Some(e) => r matches Ok(s) && s@ == latin1_seq(
                    old(self).b@.subrange(old(self).p as int, e),
                ) && final(self).p == e + 1 && old(self).p <= e < old(self).b@.len(),
                None => r == Err::<String, DecodeError>(
                    DecodeError::BadLength(old(self).b@.len() as usize),
                ),
            },
    {
        let len = self.b.len();
        match crate::wire::find_nul(self.b, self.p) {
            None => Err(DecodeError::BadLength(self.b.len())),
            Some(e) => {
                let s = latin1_range(self.b, self.p, e);
                self.p = e + 1;
                Ok(s)
            },
        }
    }
}

/// The coordinate in the low 19 bits of a position word.
fn pos19_word(w: u32) -> (r: i16)
    ensures
        r == pos19(w),
{
    let v = w & 0x7_FFFF;
    assert(w & 0x7_FFFF == w % 0x8_0000) by (bit_vector);
    let raw: i32 = if v & 0x4_0000 != 0 {
        assert(v & 0x4_0000 != 0 ==> v >= 0x4_0000) by (bit_vector)
            requires
                v < 0x8_0000,
        ;
        (v as i32) - 0x8_0000
    } else {
        assert(v & 0x4_0000 == 0 ==> v < 0x4_0000) by (bit_vector)
            requires
                v < 0x8_0000,
        ;
        v as i32
    };
    assert(raw >> 3i32 == raw / 8) by (bit_vector);
    (raw >> 3i32) as i16
}

/// The title and suffix: the first two of up to seven strings read while
/// the cursor is before `text_end`.
fn read_titles(w: &mut Walk, text_end: usize) -> (r: Result<(String, String), DecodeError>)
    requires
        old(w).wf(),
    ensures
        final(w).wf(),
        final(w).b == old(w).b,
        match title_walk(old(w).b@, old(w).p as int, text_end as int, 0) {
            None => r == Err::<(String, String), DecodeError>(
                DecodeError::BadLength(old(w).b@.len() as usize),
            ),
            Some(ts) => r matches Ok((t, u)) && t@ == nth_or_empty(ts, 0) && u@ == nth_or_empty(
                ts,
                1,
            ),
        },
{
    let ghost b = w.b@;
    let ghost start = w.p as int;
    let ghost mut got: Seq<Seq<char>> = Seq::empty();
    let mut title = String::new();
    let mut suffix = String::new();
    let mut str_index: usize = 0;
    while str_index <= 6 && w.p < text_end
        invariant
            w.wf(),
            w.b@ == b,
            b == old(w).b@,
            start == old(w).p as int,
            w.b == old(w).b,
            str_index == got.len(),
            str_index <= 7,
            title_walk(b, start, text_end as int, 0) == match title_walk(
                b,
                w.p as int,
                text_end as int,
                str_index as nat,
            ) {
                None => None,
                Some(rest) => Some(got + rest),
            },
            title@ == nth_or_empty(got, 0),
            suffix@ == nth_or_empty(got, 1),
        decreases 7 - str_index,
    {
        let ghost at = w.p as int;
        let s = match w.text() {
            Ok(v) => v,
            Err(e) => {
                assert(title_walk(b, at, text_end as int, str_index as nat) is None);
                return Err(e);
            },
        };
        proof {
            got = got.push(s@);
        }
        if str_index == 0 {
            title = s;
        } else if str_index == 1 {
            suffix = s;
        }
        str_index = str_index + 1;
        proof {
            let t = title_walk(b, w.p as int, text_end as int, str_index as nat);
            assert(title_walk(b, at, text_end as int, (str_index - 1) as nat) == match t {
                None => None,
                Some(rest) => Some(seq![s@] + rest),
            });
            if let Some(rest) = t {
                assert(got.drop_last() + (seq![s@] + rest) =~= got + rest);
            }
        }
    }
    assert(got + Seq::<Seq<char>>::empty() =~= got);
    Ok((title, suffix))
}

/// Decode one spawn record.
#[verifier::spinoff_prover]
#[verifier::rlimit(60)]
pub fn parse_spawn(b: &[u8]) -> (r: Result<ZoneSpawn, DecodeError>)
    ensures
        match spawn_of(b@) {
            Ok(v) => r matches Ok(s) && s@ == v,
            Err(e) => r == Err::<ZoneSpawn, DecodeError>(e),
        },
{
    let n = b.len();
    let mut w = Walk { b, p: 0 };
    let name = match w.text() {
        Ok(v) => v,
        Err(e) => return Err(e),
    };
    if name.as_str().is_empty() {
        assert(nul_from(b@, 0) == Some(0int));
        return Err(DecodeError::Short(b.len()));
    }
    let ghost p0 = w.p as int;
    let id = match w.u32() {
        Ok(v) => v,
        Err(e) => return Err(e),
    } as u16;
    let level = match w.u8() {
        Ok(v) => v,
        Err(e) => return Err(e),
    };
    match w.skip(16) {
        Ok(()) => {},
        Err(e) => return Err(e),
    }
    let npc = match w.u8() {
        Ok(v) => v,
        Err(e) => return Err(e),
    };
    let _misc_data = match w.u32() {
        Ok(v) => v,
        Err(e) => return Err(e),
    };
    let _other_data = match w.u8() {
        Ok(v) => v,
        Err(e) => return Err(e),
    };
    match w.skip(8) {
        Ok(()) => {},
        Err(e) => return Err(e),
    }
    // The first character property is the body type.
    let char_properties = match w.u8() {
        Ok(v) => v,
        Err(e) => return Err(e),
    };
    let ghost a = w.p as int;
    let mut body_type = 0u32;
    match w.need(4 * (char_properties as usize)) {
        Ok(()) => {},
        Err(e) => return Err(e),
    }
    let mut i: u8 = 0;
    while i < char_properties
        invariant
            w.wf(),
            w.b == b,
            n == b@.len(),
            i <= char_properties,
            w.p == a + 4 * i,
            a + 4 * char_properties <= n,
            body_type == if i > 0 {
                le_u32(b@, a)
            } else {
                0
            },
        decreases char_properties - i,
    {
        let v = rd_u32(w.b, w.p);
        w.p = w.p + 4;
        if i == 0 {
            body_type = v;
        }
        i = i + 1;
    }
    let ghost bb = w.p as int;
    // The HP percent sits 8 bytes past the stock slot.
    match w.skip(3) {
        Ok(()) => {},
        Err(e) => return Err(e),
    }
    let appearance_count = w.u8()? as usize;
    match w.skip(4) {
        Ok(()) => {},
        Err(e) => return Err(e),
    }
    let cur_hp = match w.u8() {
        Ok(v) => v,
        Err(e) => return Err(e),
    };
    match w.skip(33 + 4 * appearance_count) {
        Ok(()) => {},
        Err(e) => return Err(e),
    }
    let ghost c = w.p as int;
    let race = match w.u32() {
        Ok(v) => v,
        Err(e) => return Err(e),
    };
    let holding = match w.u8() {
        Ok(v) => v,
        Err(e) => return Err(e),
    };
    let deity = match w.u32() {
        Ok(v) => v,
        Err(e) => return Err(e),
    };
    let guild_id = match w.u32() {
        Ok(v) => v,
        Err(e) => return Err(e),
    };
    let guild_server_id = match w.u32() {
        Ok(v) => v,
        Err(e) => return Err(e),
    };
    let class_ = match w.u32() {
        Ok(v) => v,
        Err(e) => return Err(e),
    };
    let class_mask = match w.u32() {
        Ok(v) => v,
        Err(e) => return Err(e),
    };
    match w.skip(1) {
        Ok(()) => {},
        Err(e) => return Err(e),
    }
    let state = match w.u8() {
        Ok(v) => v,
        Err(e) => return Err(e),
    };
    let light = match w.u8() {
        Ok(v) => v,
        Err(e) => return Err(e),
    };
    match w.skip(1) {
        Ok(()) => {},
        Err(e) => return Err(e),
    }
    let last_name = match w.text() {
        Ok(v) => v,
        Err(e) => return Err(e),
    };
    let ghost e1 = w.p - 1;
    match w.skip(2) {
        Ok(()) => {},
        Err(e) => return Err(e),
    }
    let pet_owner_id = match w.u32() {
        Ok(v) => v,
        Err(e) => return Err(e),
    };
    // NPCs carry 12 extra bytes.
    let extra: usize = if npc == 1 {
        49
    } else {
        37
    };
    match w.skip(extra) {
        Ok(()) => {},
        Err(e) => return Err(e),
    }
    // Equipment: the full nine-slot layout for players and a few humanoid
    // NPC races, two slots otherwise.
    if npc == 0 || race <= 12 || race == 128 || race == 130 || race == 330 || race == 522 {
        match w.skip(36 + 9 * 5 * 4) {
            Ok(()) => {},
            Err(e) => return Err(e),
        }
    } else {
        match w.skip(20 + 2 * 5 * 4) {
            Ok(()) => {},
            Err(e) => return Err(e),
        }
    }
    let ghost h = w.p as int;
    let _pad = match w.u32() {
        Ok(v) => v,
        Err(e) => return Err(e),
    };
    let w1 = match w.u32() {
        Ok(v) => v,
        Err(e) => return Err(e),
    };
    let _w2 = match w.u32() {
        Ok(v) => v,
        Err(e) => return Err(e),
    };
    let w3 = match w.u32() {
        Ok(v) => v,
        Err(e) => return Err(e),
    };
    let w4 = match w.u32() {
        Ok(v) => v,
        Err(e) => return Err(e),
    };
    let _trail = match w.u32() {
        Ok(v) => v,
        Err(e) => return Err(e),
    };
    let x = pos19_word(w3);
    let y = pos19_word(w4);
    let z = pos19_word(w1);
    let heading = 0u16;
    let mut title = String::new();
    let mut suffix = String::new();
    if n >= 55 {
        let d_end = n - 54;
        let mut d_start = d_end;
        while d_start > 0 && b[d_start - 1] == 0x30
            invariant
                d_start <= d_end < n,
                n == b@.len(),
                zero_run_start(b@, d_start as int) == zero_run_start(b@, d_end as int),
            decreases d_start,
        {
            d_start = d_start - 1;
        }
        if d_start >= 5 {
            let (t, u) = match read_titles(&mut w, d_start - 5) {
                Ok(v) => v,
                Err(e) => return Err(e),
            };
            title = t;
            suffix = u;
        }
    }
    Ok(ZoneSpawn {
        id,
        name,
        last_name,
        title,
        suffix,
        x,
        y,
        z,
        heading,
        level,
        cur_hp,
        max_hp: 100,
        race,
        class_,
        class_mask,
        deity,
        guild_id,
        guild_server_id,
        pet_owner_id,
        npc,
        body_type,
        holding,
        state,
        light,
    })
}

/// The playable humanoid races: Human, Barbarian, Erudite, Wood Elf, High
/// Elf, Dark Elf, Half Elf, Dwarf, Troll, Ogre, Halfling, Gnome, Iksar, Vah
/// Shir, Froglok and Drakkin.
pub open spec fn playable_race(race: u32) -> bool {
    race == 1 || race == 2 || race == 3 || race == 4 || race == 5 || race == 6 || race == 7
        || race == 8 || race == 9 || race == 10 || race == 11 || race == 12 || race == 128
        || race == 130 || race == 330 || race == 522
}

/// A record's equipment block is the full nine-slot one (216 bytes: a
/// 36-byte head and nine slots of five `u32`s) for every player and for every NPC of a
/// playable humanoid race; an NPC of a race above 12 outside that table
/// carries the short two-slot block.
pub proof fn law_humanoids_carry_full_equipment(npc: u8, race: u32)
    ensures
        npc == 0 || playable_race(race) ==> full_equipment(npc, race),
        npc != 0 && race > 12 && !playable_race(race) ==> !full_equipment(npc, race),
{
}

/// Where a record's equipment block begins, with the NPC flag and race:
/// after the name, the fixed head, the buff and appearance counts, the
/// race-led block with the last name, and the NPC (49) or player (37)
/// bytes that precede the gear.
pub open spec fn gear_start(b: Seq<u8>) -> Option<(int, u8, u32)> {
    match nul_from(b, 0) {
        None => None,
        Some(e0) => {
            let p0 = e0 + 1;
            let bb = p0 + 36 + 4 * (b[p0 + 35] as int);
            let c = bb + 42 + 4 * (b[bb + 3] as int);
            match nul_from(b, c + 29) {
                None => None,
                Some(e1) => {
                    let npc = b[p0 + 21];
                    Some((e1 + 7 + if npc == 1 { 49int } else { 37int }, npc, le_u32(b, c)))
                },
            }
        },
    }
}

/// The bytes of the equipment block: 216 for the full nine slots (players,
/// the playable races and the unset race 0), else 60.
pub open spec fn gear_bytes(npc: u8, race: u32) -> int {
    if npc == 0 || race == 0 || playable_race(race) {
        216
    } else {
        60
    }
}

/// A decoded record's position words sit right after its equipment block,
/// whose size the NPC flag and race decide: z at 4, x at 12 and y at 16
/// bytes past it.
pub proof fn law_position_follows_the_equipment(b: Seq<u8>)
    ensures
        spawn_of(b) matches Ok(v) ==> gear_start(b) matches Some((g, npc, race)) && npc == v.npc
            && race == v.race && {
            let h = g + gear_bytes(npc, race);
            &&& v.z == pos19(le_u32(b, h + 4))
            &&& v.x == pos19(le_u32(b, h + 12))
            &&& v.y == pos19(le_u32(b, h + 16))
        },
{
}

} // verus!
