//! The format decoder: a byte buffer in, a sequence of areas out.
//!
//! The wire layout is stated once, as the spec-level grammar around
//! [`spec_decode`]: every record parser maps a buffer and a position to the
//! decoded value and the position after it, or to the exact cursor error of
//! the first read that runs out of buffer. The executable decoder is proved
//! to return exactly what that grammar describes, error payloads included.

use vstd::prelude::*;

use crate::cursor::BitCursor;
use crate::cursor::CursorError;
use crate::cursor::p_skip;
use crate::cursor::p_u16;
use crate::cursor::p_u32;
use crate::cursor::p_u8;
use crate::navmesh::ApproachArea;
use crate::navmesh::Connections;
use crate::navmesh::ConnectionsV;
use crate::navmesh::EncounterPath;
use crate::navmesh::EncounterPathV;
use crate::navmesh::EncounterSpot;
use crate::navmesh::LadderConnections;
use crate::navmesh::LadderConnectionsV;
use crate::navmesh::LightIntensity;
use crate::navmesh::NavArea;
use crate::navmesh::NavAreaId;
use crate::navmesh::NavAreaV;
use crate::navmesh::NavHidingSpot;
use crate::navmesh::Vector3;
use crate::navmesh::VisibleArea;
use crate::navmesh::views_of;

verus! {

/// Errors that can occur when decoding a navigation-mesh buffer.
#[derive(Debug, Clone, Copy, PartialEq, Eq, Structural)]
pub enum ParseError {
    /// The buffer ran out while a field was being read.
    ReadError(CursorError),
    /// The first four bytes are not the format's magic number; the buffer is
    /// probably not a navigation-mesh file at all.
    InvalidMagicNumber(u32),
    /// A known format family, but a major version outside the supported
    /// window of 6 through 16.
    UnsupportedVersion(u32),
}

/// Which optional fields a file of a given major version carries, and how
/// wide its per-area flags field is.
///
/// The version gates of the format are evaluated once per file into this
/// table; every conditional of the grammar and of the decoder reads it
/// rather than re-deriving the comparison.
#[derive(Debug, Clone, Copy, PartialEq, Eq, Structural)]
pub struct FormatCfg {
    /// A minor version follows the major version (major version 10 and up).
    pub has_minor_version: bool,
    /// Width of the per-area flags field in bytes: 1, 2 or 4.
    pub flags_bytes: u8,
    /// An analyzed marker byte follows the file size (14 and up).
    pub has_is_analyzed: bool,
    /// An unnamed-areas marker byte follows the place table (12 and up).
    pub has_unnamed_areas_flag: bool,
    /// Areas carry approach-area lists (below 15).
    pub has_approach_areas: bool,
    /// Areas carry four light-intensity corners (11 and up).
    pub has_light_intensity: bool,
    /// Areas carry visible-area lists (16).
    pub has_visible_areas: bool,
}

/// The field-presence table of a major version.
pub open spec fn spec_cfg(major: u32) -> FormatCfg {
    FormatCfg {
        has_minor_version: major >= 10,
        flags_bytes: if major <= 8 {
            1u8
        } else if major <= 12 {
            2u8
        } else {
            4u8
        },
        has_is_analyzed: major >= 14,
        has_unnamed_areas_flag: major >= 12,
        has_approach_areas: major < 15,
        has_light_intensity: major >= 11,
        has_visible_areas: major >= 16,
    }
}

/// Evaluates the field-presence table of a major version.
pub fn cfg_of(major: u32) -> (r: FormatCfg)
    ensures
        r == spec_cfg(major),
{
    FormatCfg {
        has_minor_version: major >= 10,
        flags_bytes: if major <= 8 {
            1u8
        } else if major <= 12 {
            2u8
        } else {
            4u8
        },
        has_is_analyzed: major >= 14,
        has_unnamed_areas_flag: major >= 12,
        has_approach_areas: major < 15,
        has_light_intensity: major >= 11,
        has_visible_areas: major >= 16,
    }
}

/// A record of the wire format: its grammar as a spec function, and a reader
/// proved to follow that grammar.
pub trait ReadItem: View + Sized {
    /// The record starting at byte `pos` of `d`, and the position after it,
    /// or the exact error of the first read that runs out of buffer.
    spec fn sp(cfg: FormatCfg, d: Seq<u8>, pos: int) -> Result<(Self::V, int), CursorError>;

    /// Reads one record at the cursor.
    fn read(c: &mut BitCursor, cfg: &FormatCfg) -> (r: Result<Self, CursorError>)
        requires
            old(c).wf(),
        ensures
            final(c).wf(),
            final(c).bytes() == old(c).bytes(),
            match Self::sp(*cfg, old(c).bytes(), old(c).byte_pos()) {
                Ok((v, p)) => r is Ok && r->Ok_0@ == v && final(c).byte_pos() == p,
                Err(e) => r == Err::<Self, CursorError>(e),
            },
    ;
}

/// `count` consecutive records, and the position after the last.
pub open spec fn p_many<T: ReadItem>(cfg: FormatCfg, d: Seq<u8>, pos: int, count: nat) -> Result<
    (Seq<T::V>, int),
    CursorError,
>
    decreases count,
{
    if count == 0 {
        Ok((Seq::empty(), pos))
    } else {
        match T::sp(cfg, d, pos) {
            Ok((v, p)) => match p_many::<T>(cfg, d, p, (count - 1) as nat) {
                Ok((s, q)) => Ok((seq![v] + s, q)),
                Err(e) => Err(e),
            },
            Err(e) => Err(e),
        }
    }
}

/// Unfolding a record sequence from its far end: `count + 1` records are
/// `count` records followed by one more at the position they end on.
proof fn lemma_p_many_step<T: ReadItem>(cfg: FormatCfg, d: Seq<u8>, pos: int, n: nat)
    ensures
        p_many::<T>(cfg, d, pos, n + 1) == (match p_many::<T>(cfg, d, pos, n) {
            Ok((s, p)) => match T::sp(cfg, d, p) {
                Ok((v, q)) => Ok((s.push(v), q)),
                Err(e) => Err::<(Seq<T::V>, int), CursorError>(e),
            },
            Err(e) => Err::<(Seq<T::V>, int), CursorError>(e),
        }),
    decreases n,
{
    if n == 0 {
        match T::sp(cfg, d, pos) {
            Ok((v, p)) => {
                assert(p_many::<T>(cfg, d, pos, 0) == Ok::<(Seq<T::V>, int), CursorError>((Seq::<T::V>::empty(), pos)));
                assert(p_many::<T>(cfg, d, p, 0) == Ok::<(Seq<T::V>, int), CursorError>((Seq::<T::V>::empty(), p)));
                assert(p_many::<T>(cfg, d, pos, 1) == Ok::<(Seq<T::V>, int), CursorError>((seq![v] + Seq::<T::V>::empty(), p)));
                assert(seq![v] + Seq::<T::V>::empty() =~= Seq::<T::V>::empty().push(v));
                assert(p_many::<T>(cfg, d, pos, 1) == Ok::<(Seq<T::V>, int), CursorError>((Seq::<T::V>::empty().push(v), p)));
            },
            Err(_) => {},
        }
    } else {
        match T::sp(cfg, d, pos) {
            Ok((v, p)) => {
                lemma_p_many_step::<T>(cfg, d, p, (n - 1) as nat);
                match p_many::<T>(cfg, d, p, (n - 1) as nat) {
                    Ok((s, q)) => {
                        assert(p_many::<T>(cfg, d, pos, n) == Ok::<(Seq<T::V>, int), CursorError>((seq![v] + s, q)));
                        match T::sp(cfg, d, q) {
                            Ok((v2, q2)) => {
                                assert(p_many::<T>(cfg, d, p, n) == Ok::<(Seq<T::V>, int), CursorError>((s.push(v2), q2)));
                                assert(p_many::<T>(cfg, d, pos, n + 1) == Ok::<(Seq<T::V>, int), CursorError>(
                                    (seq![v] + s.push(v2), q2),
                                ));
                                assert(seq![v] + s.push(v2) =~= (seq![v] + s).push(v2));
                                assert(p_many::<T>(cfg, d, pos, n + 1) == Ok::<(Seq<T::V>, int), CursorError>(
                                    ((seq![v] + s).push(v2), q2),
                                ));
                            },
                            Err(e2) => {
                                assert(p_many::<T>(cfg, d, p, n) == Err::<(Seq<T::V>, int), CursorError>(e2));
                                assert(p_many::<T>(cfg, d, pos, n + 1) == Err::<(Seq<T::V>, int), CursorError>(e2));
                            },
                        }
                    },
                    Err(e2) => {
                        assert(p_many::<T>(cfg, d, p, n) == Err::<(Seq<T::V>, int), CursorError>(e2));
                        assert(p_many::<T>(cfg, d, pos, n + 1) == Err::<(Seq<T::V>, int), CursorError>(e2));
                    },
                }
            },
            Err(_) => {},
        }
    }
}

/// Once the buffer has run out for `n` records, any longer sequence fails
/// with the very same error.
proof fn lemma_p_many_err<T: ReadItem>(cfg: FormatCfg, d: Seq<u8>, pos: int, n: nat, m: nat)
    requires
        n <= m,
        p_many::<T>(cfg, d, pos, n) is Err,
    ensures
        p_many::<T>(cfg, d, pos, m) == p_many::<T>(cfg, d, pos, n),
    decreases m,
{
    if n == 0 {
        assert(p_many::<T>(cfg, d, pos, 0) is Ok);
    } else {
        match T::sp(cfg, d, pos) {
            Ok((v, p)) => {
                lemma_p_many_err::<T>(cfg, d, p, (n - 1) as nat, (m - 1) as nat);
            },
            Err(_) => {},
        }
    }
}

/// A decoded record sequence has exactly as many records as were asked for:
/// in particular, a buffer that decodes yields exactly as many areas as its
/// header's area count declares, never a partial sequence.
pub proof fn lemma_p_many_len<T: ReadItem>(cfg: FormatCfg, d: Seq<u8>, pos: int, n: nat)
    ensures
        p_many::<T>(cfg, d, pos, n) matches Ok((s, p)) ==> s.len() == n,
    decreases n,
{
    if n > 0 {
        match T::sp(cfg, d, pos) {
            Ok((v, p)) => {
                lemma_p_many_len::<T>(cfg, d, p, (n - 1) as nat);
            },
            Err(_) => {},
        }
    }
}

/// Reads `count` consecutive records at the cursor.
#[verifier::loop_isolation(false)]
fn read_many<T: ReadItem>(c: &mut BitCursor, cfg: &FormatCfg, count: u32) -> (r: Result<
    Vec<T>,
    CursorError,
>)
    requires
        old(c).wf(),
    ensures
        final(c).wf(),
        final(c).bytes() == old(c).bytes(),
        match p_many::<T>(*cfg, old(c).bytes(), old(c).byte_pos(), count as nat) {
            Ok((s, p)) => r is Ok && views_of(r->Ok_0@) == s && final(c).byte_pos() == p,
            Err(e) => r == Err::<Vec<T>, CursorError>(e),
        },
{
    let ghost d0 = old(c).bytes();
    let ghost pos0 = old(c).byte_pos();
    let mut out: Vec<T> = Vec::new();
    let mut i: u32 = 0;
    proof {
        assert(views_of(out@) =~= Seq::<T::V>::empty());
    }
    while i < count
        invariant
            c.wf(),
            c.bytes() == d0,
            i <= count,
            p_many::<T>(*cfg, d0, pos0, i as nat) == Ok::<(Seq<T::V>, int), CursorError>((views_of(out@), c.byte_pos())),
        decreases count - i,
    {
        let ghost pre = views_of(out@);
        proof {
            lemma_p_many_step::<T>(*cfg, d0, pos0, i as nat);
        }
        match T::read(c, cfg) {
            Ok(t) => {
                let ghost tv = t@;
                out.push(t);
                i = i + 1;
                proof {
                    assert(views_of(out@) =~= pre.push(tv));
                }
            },
            Err(e) => {
                proof {
                    lemma_p_many_err::<T>(*cfg, d0, pos0, (i + 1) as nat, count as nat);
                }
                return Err(e);
            },
        }
    }
    Ok(out)
}

impl ReadItem for NavAreaId {
    open spec fn sp(cfg: FormatCfg, d: Seq<u8>, pos: int) -> Result<(NavAreaId, int), CursorError> {
        match p_u32(d, pos) {
            Ok((v, p)) => Ok((NavAreaId(v), p)),
            Err(e) => Err(e),
        }
    }

    fn read(c: &mut BitCursor, cfg: &FormatCfg) -> (r: Result<NavAreaId, CursorError>) {
        match c.read_u32() {
            Ok(v) => Ok(NavAreaId(v)),
            Err(e) => Err(e),
        }
    }
}

impl ReadItem for Vector3 {
    open spec fn sp(cfg: FormatCfg, d: Seq<u8>, pos: int) -> Result<(Vector3, int), CursorError> {
        match p_u32(d, pos) {
            Ok((x, p1)) => match p_u32(d, p1) {
                Ok((y, p2)) => match p_u32(d, p2) {
                    Ok((z, p3)) => Ok((Vector3(x, y, z), p3)),
                    Err(e) => Err(e),
                },
                Err(e) => Err(e),
            },
            Err(e) => Err(e),
        }
    }

    fn read(c: &mut BitCursor, cfg: &FormatCfg) -> (r: Result<Vector3, CursorError>) {
        let x = match c.read_u32() {
            Ok(v) => v,
            Err(e) => return Err(e),
        };
        let y = match c.read_u32() {
            Ok(v) => v,
            Err(e) => return Err(e),
        };
        let z = match c.read_u32() {
            Ok(v) => v,
            Err(e) => return Err(e),
        };
        Ok(Vector3(x, y, z))
    }
}

impl ReadItem for NavHidingSpot {
    open spec fn sp(cfg: FormatCfg, d: Seq<u8>, pos: int) -> Result<(NavHidingSpot, int), CursorError> {
        match p_u32(d, pos) {
            Ok((id, p1)) => match Vector3::sp(cfg, d, p1) {
                Ok((location, p2)) => match p_u8(d, p2) {
                    Ok((flags, p3)) => Ok((NavHidingSpot { id, location, flags }, p3)),
                    Err(e) => Err(e),
                },
                Err(e) => Err(e),
            },
            Err(e) => Err(e),
        }
    }

    fn read(c: &mut BitCursor, cfg: &FormatCfg) -> (r: Result<NavHidingSpot, CursorError>) {
        let id = match c.read_u32() {
            Ok(v) => v,
            Err(e) => return Err(e),
        };
        let location = match Vector3::read(c, cfg) {
            Ok(v) => v,
            Err(e) => return Err(e),
        };
        let flags = match c.read_u8() {
            Ok(v) => v,
            Err(e) => return Err(e),
        };
        Ok(NavHidingSpot { id, location, flags })
    }
}

impl ReadItem for ApproachArea {
    open spec fn sp(cfg: FormatCfg, d: Seq<u8>, pos: int) -> Result<(ApproachArea, int), CursorError> {
        match p_u32(d, pos) {
            Ok((approach_here, p1)) => match p_u32(d, p1) {
                Ok((approach_pre, p2)) => match p_u8(d, p2) {
                    Ok((approach_type, p3)) => match p_u32(d, p3) {
                        Ok((approach_next, p4)) => match p_u8(d, p4) {
                            Ok((approach_how, p5)) => Ok(
                                (
                                    ApproachArea {
                                        approach_here,
                                        approach_pre,
                                        approach_type,
                                        approach_next,
                                        approach_how,
                                    },
                                    p5,
                                ),
                            ),
                            Err(e) => Err(e),
                        },
                        Err(e) => Err(e),
                    },
                    Err(e) => Err(e),
                },
                Err(e) => Err(e),
            },
            Err(e) => Err(e),
        }
    }

    fn read(c: &mut BitCursor, cfg: &FormatCfg) -> (r: Result<ApproachArea, CursorError>) {
        let approach_here = match c.read_u32() {
            Ok(v) => v,
            Err(e) => return Err(e),
        };
        let approach_pre = match c.read_u32() {
            Ok(v) => v,
            Err(e) => return Err(e),
        };
        let approach_type = match c.read_u8() {
            Ok(v) => v,
            Err(e) => return Err(e),
        };
        let approach_next = match c.read_u32() {
            Ok(v) => v,
            Err(e) => return Err(e),
        };
        let approach_how = match c.read_u8() {
            Ok(v) => v,
            Err(e) => return Err(e),
        };
        Ok(ApproachArea { approach_here, approach_pre, approach_type, approach_next, approach_how })
    }
}

impl ReadItem for EncounterSpot {
    open spec fn sp(cfg: FormatCfg, d: Seq<u8>, pos: int) -> Result<(EncounterSpot, int), CursorError> {
        match p_u32(d, pos) {
            Ok((order, p1)) => match p_u8(d, p1) {
                Ok((distance, p2)) => Ok((EncounterSpot { order, distance }, p2)),
                Err(e) => Err(e),
            },
            Err(e) => Err(e),
        }
    }

    fn read(c: &mut BitCursor, cfg: &FormatCfg) -> (r: Result<EncounterSpot, CursorError>) {
        let order = match c.read_u32() {
            Ok(v) => v,
            Err(e) => return Err(e),
        };
        let distance = match c.read_u8() {
            Ok(v) => v,
            Err(e) => return Err(e),
        };
        Ok(EncounterSpot { order, distance })
    }
}

impl ReadItem for EncounterPath {
    open spec fn sp(cfg: FormatCfg, d: Seq<u8>, pos: int) -> Result<(EncounterPathV, int), CursorError> {
        match NavAreaId::sp(cfg, d, pos) {
            Ok((from_area_id, p1)) => match p_u8(d, p1) {
                Ok((from_direction, p2)) => match NavAreaId::sp(cfg, d, p2) {
                    Ok((to_area_id, p3)) => match p_u8(d, p3) {
                        Ok((to_direction, p4)) => match p_u8(d, p4) {
                            Ok((spot_count, p5)) => match p_many::<EncounterSpot>(
                                cfg,
                                d,
                                p5,
                                spot_count as nat,
                            ) {
                                Ok((spots, p6)) => Ok(
                                    (
                                        EncounterPathV {
                                            from_area_id,
                                            from_direction,
                                            to_area_id,
                                            to_direction,
                                            spots,
                                        },
                                        p6,
                                    ),
                                ),
                                Err(e) => Err(e),
                            },
                            Err(e) => Err(e),
                        },
                        Err(e) => Err(e),
                    },
                    Err(e) => Err(e),
                },
                Err(e) => Err(e),
            },
            Err(e) => Err(e),
        }
    }

    fn read(c: &mut BitCursor, cfg: &FormatCfg) -> (r: Result<EncounterPath, CursorError>) {
        let from_area_id = match NavAreaId::read(c, cfg) {
            Ok(v) => v,
            Err(e) => return Err(e),
        };
        let from_direction = match c.read_u8() {
            Ok(v) => v,
            Err(e) => return Err(e),
        };
        let to_area_id = match NavAreaId::read(c, cfg) {
            Ok(v) => v,
            Err(e) => return Err(e),
        };
        let to_direction = match c.read_u8() {
            Ok(v) => v,
            Err(e) => return Err(e),
        };
        let spot_count = match c.read_u8() {
            Ok(v) => v,
            Err(e) => return Err(e),
        };
        let spots = match read_many::<EncounterSpot>(c, cfg, spot_count as u32) {
            Ok(v) => v,
            Err(e) => return Err(e),
        };
        Ok(EncounterPath { from_area_id, from_direction, to_area_id, to_direction, spots })
    }
}

impl ReadItem for VisibleArea {
    open spec fn sp(cfg: FormatCfg, d: Seq<u8>, pos: int) -> Result<(VisibleArea, int), CursorError> {
        match p_u32(d, pos) {
            Ok((id, p1)) => match p_u8(d, p1) {
                Ok((attributes, p2)) => Ok((VisibleArea { id, attributes }, p2)),
                Err(e) => Err(e),
            },
            Err(e) => Err(e),
        }
    }

    fn read(c: &mut BitCursor, cfg: &FormatCfg) -> (r: Result<VisibleArea, CursorError>) {
        let id = match c.read_u32() {
            Ok(v) => v,
            Err(e) => return Err(e),
        };
        let attributes = match c.read_u8() {
            Ok(v) => v,
            Err(e) => return Err(e),
        };
        Ok(VisibleArea { id, attributes })
    }
}

/// One entry of the place table: a length-prefixed name, consumed only to
/// advance the cursor and then discarded.
#[derive(Debug, Clone, Copy, PartialEq, Eq, Structural)]
pub struct PlaceEntry {}

impl View for PlaceEntry {
    type V = PlaceEntry;

    open spec fn view(&self) -> PlaceEntry {
        *self
    }
}

impl ReadItem for PlaceEntry {
    open spec fn sp(cfg: FormatCfg, d: Seq<u8>, pos: int) -> Result<(PlaceEntry, int), CursorError> {
        match p_u16(d, pos) {
            Ok((name_length, p1)) => match p_skip(d, p1, name_length as int) {
                Ok((unit, p2)) => Ok((PlaceEntry {}, p2)),
                Err(e) => Err(e),
            },
            Err(e) => Err(e),
        }
    }

    fn read(c: &mut BitCursor, cfg: &FormatCfg) -> (r: Result<PlaceEntry, CursorError>) {
        let name_length = match c.read_u16() {
            Ok(v) => v,
            Err(e) => return Err(e),
        };
        match c.read_bytes(name_length as usize) {
            Ok(_) => Ok(PlaceEntry {}),
            Err(e) => Err(e),
        }
    }
}

impl ReadItem for Connections {
    open spec fn sp(cfg: FormatCfg, d: Seq<u8>, pos: int) -> Result<(ConnectionsV, int), CursorError> {
        match p_counted_ids(cfg, d, pos) {
            Ok((north, p1)) => match p_counted_ids(cfg, d, p1) {
                Ok((east, p2)) => match p_counted_ids(cfg, d, p2) {
                    Ok((south, p3)) => match p_counted_ids(cfg, d, p3) {
                        Ok((west, p4)) => Ok((ConnectionsV { north, east, south, west }, p4)),
                        Err(e) => Err(e),
                    },
                    Err(e) => Err(e),
                },
                Err(e) => Err(e),
            },
            Err(e) => Err(e),
        }
    }

    fn read(c: &mut BitCursor, cfg: &FormatCfg) -> (r: Result<Connections, CursorError>) {
        let north = match read_counted_ids(c, cfg) {
            Ok(v) => v,
            Err(e) => return Err(e),
        };
        let east = match read_counted_ids(c, cfg) {
            Ok(v) => v,
            Err(e) => return Err(e),
        };
        let south = match read_counted_ids(c, cfg) {
            Ok(v) => v,
            Err(e) => return Err(e),
        };
        let west = match read_counted_ids(c, cfg) {
            Ok(v) => v,
            Err(e) => return Err(e),
        };
        Ok(Connections { north, east, south, west })
    }
}

impl ReadItem for LadderConnections {
    open spec fn sp(cfg: FormatCfg, d: Seq<u8>, pos: int) -> Result<(LadderConnectionsV, int), CursorError> {
        match p_counted_ids(cfg, d, pos) {
            Ok((up, p1)) => match p_counted_ids(cfg, d, p1) {
                Ok((down, p2)) => Ok((LadderConnectionsV { up, down }, p2)),
                Err(e) => Err(e),
            },
            Err(e) => Err(e),
        }
    }

    fn read(c: &mut BitCursor, cfg: &FormatCfg) -> (r: Result<LadderConnections, CursorError>) {
        let up = match read_counted_ids(c, cfg) {
            Ok(v) => v,
            Err(e) => return Err(e),
        };
        let down = match read_counted_ids(c, cfg) {
            Ok(v) => v,
            Err(e) => return Err(e),
        };
        Ok(LadderConnections { up, down })
    }
}

/// A 32-bit count followed by that many area ids.
pub open spec fn p_counted_ids(cfg: FormatCfg, d: Seq<u8>, pos: int) -> Result<
    (Seq<NavAreaId>, int),
    CursorError,
> {
    match p_u32(d, pos) {
        Ok((count, p)) => p_many::<NavAreaId>(cfg, d, p, count as nat),
        Err(e) => Err(e),
    }
}

/// Reads a 32-bit count followed by that many area ids.
fn read_counted_ids(c: &mut BitCursor, cfg: &FormatCfg) -> (r: Result<Vec<NavAreaId>, CursorError>)
    requires
        old(c).wf(),
    ensures
        final(c).wf(),
        final(c).bytes() == old(c).bytes(),
        match p_counted_ids(*cfg, old(c).bytes(), old(c).byte_pos()) {
            Ok((s, p)) => r is Ok && views_of(r->Ok_0@) == s && final(c).byte_pos() == p,
            Err(e) => r == Err::<Vec<NavAreaId>, CursorError>(e),
        },
{
    let count = match c.read_u32() {
        Ok(v) => v,
        Err(e) => return Err(e),
    };
    read_many::<NavAreaId>(c, cfg, count)
}

/// The per-area flags field, whose width the version table gives; the value
/// is widened to 32 bits.
pub open spec fn p_flags(cfg: FormatCfg, d: Seq<u8>, pos: int) -> Result<(u32, int), CursorError> {
    if cfg.flags_bytes == 1 {
        match p_u8(d, pos) {
            Ok((v, p)) => Ok((v as u32, p)),
            Err(e) => Err(e),
        }
    } else if cfg.flags_bytes == 2 {
        match p_u16(d, pos) {
            Ok((v, p)) => Ok((v as u32, p)),
            Err(e) => Err(e),
        }
    } else {
        p_u32(d, pos)
    }
}

/// Reads the per-area flags field at its version-given width.
fn read_flags(c: &mut BitCursor, cfg: &FormatCfg) -> (r: Result<u32, CursorError>)
    requires
        old(c).wf(),
    ensures
        final(c).wf(),
        final(c).bytes() == old(c).bytes(),
        match p_flags(*cfg, old(c).bytes(), old(c).byte_pos()) {
            Ok((v, p)) => r == Ok::<u32, CursorError>(v) && final(c).byte_pos() == p,
            Err(e) => r == Err::<u32, CursorError>(e),
        },
{
    if cfg.flags_bytes == 1 {
        match c.read_u8() {
            Ok(v) => Ok(v as u32),
            Err(e) => Err(e),
        }
    } else if cfg.flags_bytes == 2 {
        match c.read_u16() {
            Ok(v) => Ok(v as u32),
            Err(e) => Err(e),
        }
    } else {
        c.read_u32()
    }
}

/// The approach-area block: a counted list below major version 15, absent
/// without consuming bits from 15 on.
pub open spec fn p_approach_block(cfg: FormatCfg, d: Seq<u8>, pos: int) -> Result<
    (Seq<ApproachArea>, int),
    CursorError,
> {
    if cfg.has_approach_areas {
        match p_u8(d, pos) {
            Ok((count, p)) => p_many::<ApproachArea>(cfg, d, p, count as nat),
            Err(e) => Err(e),
        }
    } else {
        Ok((Seq::empty(), pos))
    }
}

/// The light-intensity block: four float bit patterns from major version 11
/// on, all-zero defaults below it without consuming bits.
pub open spec fn p_light_block(cfg: FormatCfg, d: Seq<u8>, pos: int) -> Result<
    (LightIntensity, int),
    CursorError,
> {
    if cfg.has_light_intensity {
        match p_u32(d, pos) {
            Ok((north_west, p1)) => match p_u32(d, p1) {
                Ok((north_east, p2)) => match p_u32(d, p2) {
                    Ok((south_west, p3)) => match p_u32(d, p3) {
                        Ok((south_east, p4)) => Ok(
                            (LightIntensity { north_west, north_east, south_west, south_east }, p4),
                        ),
                        Err(e) => Err(e),
                    },
                    Err(e) => Err(e),
                },
                Err(e) => Err(e),
            },
            Err(e) => Err(e),
        }
    } else {
        Ok((LightIntensity { north_west: 0, north_east: 0, south_west: 0, south_east: 0 }, pos))
    }
}

/// The visible-area block: a counted list from major version 16 on, absent
/// without consuming bits below it.
pub open spec fn p_visible_block(cfg: FormatCfg, d: Seq<u8>, pos: int) -> Result<
    (Seq<VisibleArea>, int),
    CursorError,
> {
    if cfg.has_visible_areas {
        match p_u32(d, pos) {
            Ok((count, p)) => p_many::<VisibleArea>(cfg, d, p, count as nat),
            Err(e) => Err(e),
        }
    } else {
        Ok((Seq::empty(), pos))
    }
}

impl ReadItem for NavArea {
    open spec fn sp(cfg: FormatCfg, d: Seq<u8>, pos: int) -> Result<(NavAreaV, int), CursorError> {
        match NavAreaId::sp(cfg, d, pos) {
            Ok((id, p1)) => match p_flags(cfg, d, p1) {
                Ok((flags, p2)) => match Vector3::sp(cfg, d, p2) {
                    Ok((north_west, p3)) => match Vector3::sp(cfg, d, p3) {
                        Ok((south_east, p4)) => match p_u32(d, p4) {
                            Ok((north_east_z, p5)) => match p_u32(d, p5) {
                                Ok((south_west_z, p6)) => match Connections::sp(cfg, d, p6) {
                                    Ok((connections, p7)) => match p_u8(d, p7) {
                                        Ok((hs_count, p8)) => match p_many::<NavHidingSpot>(
                                            cfg,
                                            d,
                                            p8,
                                            hs_count as nat,
                                        ) {
                                            Ok((hiding_spots, p9)) => match p_approach_block(
                                                cfg,
                                                d,
                                                p9,
                                            ) {
                                                Ok((approach_areas, p10)) => match p_u32(
                                                    d,
                                                    p10,
                                                ) {
                                                    Ok((ep_count, p11)) => match p_many::<
                                                        EncounterPath,
                                                    >(cfg, d, p11, ep_count as nat) {
                                                        Ok((encounter_paths, p12)) => match p_u16(
                                                            d,
                                                            p12,
                                                        ) {
                                                            Ok((place, p13)) => match LadderConnections::sp(
                                                                cfg,
                                                                d,
                                                                p13,
                                                            ) {
                                                                Ok((ladder_connections, p14)) => match p_u32(
                                                                    d,
                                                                    p14,
                                                                ) {
                                                                    Ok((eo_first, p15)) => match p_u32(
                                                                        d,
                                                                        p15,
                                                                    ) {
                                                                        Ok((eo_second, p16)) => match p_light_block(
                                                                            cfg,
                                                                            d,
                                                                            p16,
                                                                        ) {
                                                                            Ok(
                                                                                (
                                                                                    light_intensity,
                                                                                    p17,
                                                                                ),
                                                                            ) => match p_visible_block(
                                                                                cfg,
                                                                                d,
                                                                                p17,
                                                                            ) {
                                                                                Ok(
                                                                                    (
                                                                                        visible_areas,
                                                                                        p18,
                                                                                    ),
                                                                                ) => match p_u32(
                                                                                    d,
                                                                                    p18,
                                                                                ) {
                                                                                    Ok(
                                                                                        (
                                                                                            inherit,
                                                                                            p19,
                                                                                        ),
                                                                                    ) => match p_skip(
                                                                                        d,
                                                                                        p19,
                                                                                        4,
                                                                                    ) {
                                                                                        Ok(
                                                                                            (
                                                                                                unit,
                                                                                                p20,
                                                                                            ),
                                                                                        ) => Ok(
                                                                                            (
                                                                                                NavAreaV {
                                                                                                    id,
                                                                                                    north_west,
                                                                                                    south_east,
                                                                                                    north_east_z,
                                                                                                    south_west_z,
                                                                                                    flags,
                                                                                                    connections,
                                                                                                    hiding_spots,
                                                                                                    approach_areas,
                                                                                                    encounter_paths,
                                                                                                    place,
                                                                                                    light_intensity,
                                                                                                    ladder_connections,
                                                                                                    earliest_occupy_first_team: eo_first,
                                                                                                    earliest_occupy_second_team: eo_second,
                                                                                                    visible_areas,
                                                                                                    inherit_visibility_from_area_id: inherit,
                                                                                                },
                                                                                                p20,
                                                                                            ),
                                                                                        ),
                                                                                        Err(e) => Err(e),
                                                                                    },
                                                                                    Err(e) => Err(e),
                                                                                },
                                                                                Err(e) => Err(e),
                                                                            },
                                                                            Err(e) => Err(e),
                                                                        },
                                                                        Err(e) => Err(e),
                                                                    },
                                                                    Err(e) => Err(e),
                                                                },
                                                                Err(e) => Err(e),
                                                            },
                                                            Err(e) => Err(e),
                                                        },
                                                        Err(e) => Err(e),
                                                    },
                                                    Err(e) => Err(e),
                                                },
                                                Err(e) => Err(e),
                                            },
                                            Err(e) => Err(e),
                                        },
                                        Err(e) => Err(e),
                                    },
                                    Err(e) => Err(e),
                                },
                                Err(e) => Err(e),
                            },
                            Err(e) => Err(e),
                        },
                        Err(e) => Err(e),
                    },
                    Err(e) => Err(e),
                },
                Err(e) => Err(e),
            },
            Err(e) => Err(e),
        }
    }

    fn read(c: &mut BitCursor, cfg: &FormatCfg) -> (r: Result<NavArea, CursorError>) {
        let ghost d0 = c.bytes();
        let ghost q0 = c.byte_pos();
        let id = match NavAreaId::read(c, cfg) {
            Ok(v) => v,
            Err(e) => return Err(e),
        };
        let flags = match read_flags(c, cfg) {
            Ok(v) => v,
            Err(e) => return Err(e),
        };
        let north_west = match Vector3::read(c, cfg) {
            Ok(v) => v,
            Err(e) => return Err(e),
        };
        let south_east = match Vector3::read(c, cfg) {
            Ok(v) => v,
            Err(e) => return Err(e),
        };
        let north_east_z = match c.read_u32() {
            Ok(v) => v,
            Err(e) => return Err(e),
        };
        let south_west_z = match c.read_u32() {
            Ok(v) => v,
            Err(e) => return Err(e),
        };
        let connections = match Connections::read(c, cfg) {
            Ok(v) => v,
            Err(e) => return Err(e),
        };
        let hs_count = match c.read_u8() {
            Ok(v) => v,
            Err(e) => return Err(e),
        };
        let hiding_spots = match read_many::<NavHidingSpot>(c, cfg, hs_count as u32) {
            Ok(v) => v,
            Err(e) => return Err(e),
        };
        let approach_areas = if cfg.has_approach_areas {
            let aa_count = match c.read_u8() {
                Ok(v) => v,
                Err(e) => return Err(e),
            };
            match read_many::<ApproachArea>(c, cfg, aa_count as u32) {
                Ok(v) => v,
                Err(e) => return Err(e),
            }
        } else {
            Vec::new()
        };
        let ep_count = match c.read_u32() {
            Ok(v) => v,
            Err(e) => return Err(e),
        };
        let encounter_paths = match read_many::<EncounterPath>(c, cfg, ep_count) {
            Ok(v) => v,
            Err(e) => return Err(e),
        };
        let place = match c.read_u16() {
            Ok(v) => v,
            Err(e) => return Err(e),
        };
        let ladder_connections = match LadderConnections::read(c, cfg) {
            Ok(v) => v,
            Err(e) => return Err(e),
        };
        let earliest_occupy_first_team = match c.read_u32() {
            Ok(v) => v,
            Err(e) => return Err(e),
        };
        let earliest_occupy_second_team = match c.read_u32() {
            Ok(v) => v,
            Err(e) => return Err(e),
        };
        let light_intensity = if cfg.has_light_intensity {
            let north_west_light = match c.read_u32() {
                Ok(v) => v,
                Err(e) => return Err(e),
            };
            let north_east_light = match c.read_u32() {
                Ok(v) => v,
                Err(e) => return Err(e),
            };
            let south_west_light = match c.read_u32() {
                Ok(v) => v,
                Err(e) => return Err(e),
            };
            let south_east_light = match c.read_u32() {
                Ok(v) => v,
                Err(e) => return Err(e),
            };
            LightIntensity {
                north_west: north_west_light,
                north_east: north_east_light,
                south_west: south_west_light,
                south_east: south_east_light,
            }
        } else {
            LightIntensity { north_west: 0, north_east: 0, south_west: 0, south_east: 0 }
        };
        let visible_areas = if cfg.has_visible_areas {
            let va_count = match c.read_u32() {
                Ok(v) => v,
                Err(e) => return Err(e),
            };
            match read_many::<VisibleArea>(c, cfg, va_count) {
                Ok(v) => v,
                Err(e) => return Err(e),
            }
        } else {
            Vec::new()
        };
        let inherit_visibility_from_area_id = match c.read_u32() {
            Ok(v) => v,
            Err(e) => return Err(e),
        };
        match c.skip_bits(32) {
            Ok(_) => {},
            Err(e) => return Err(e),
        };
        let area = NavArea {
            id,
            north_west,
            south_east,
            north_east_z,
            south_west_z,
            flags,
            connections,
            hiding_spots,
            approach_areas,
            encounter_paths,
            place,
            light_intensity,
            ladder_connections,
            earliest_occupy_first_team,
            earliest_occupy_second_team,
            visible_areas,
            inherit_visibility_from_area_id,
        };
        proof {
            match NavArea::sp(*cfg, d0, q0) {
                Ok((v, p)) => {
                    assert(area@.id == v.id);
                    assert(area@.flags == v.flags);
                    assert(area@.north_west == v.north_west);
                    assert(area@.south_east == v.south_east);
                    assert(area@.north_east_z == v.north_east_z);
                    assert(area@.south_west_z == v.south_west_z);
                    assert(area@.connections == v.connections);
                    assert(area@.hiding_spots == v.hiding_spots);
                    assert(area@.approach_areas == v.approach_areas);
                    assert(area@.encounter_paths == v.encounter_paths);
                    assert(area@.place == v.place);
                    assert(area@.light_intensity == v.light_intensity);
                    assert(area@.ladder_connections == v.ladder_connections);
                    assert(area@.earliest_occupy_first_team == v.earliest_occupy_first_team);
                    assert(area@.earliest_occupy_second_team == v.earliest_occupy_second_team);
                    assert(area@.visible_areas == v.visible_areas);
                    assert(area@.inherit_visibility_from_area_id
                        == v.inherit_visibility_from_area_id);
                    assert(area@ == v);
                },
                Err(_) => {
                    assert(false);
                },
            }
        }
        Ok(area)
    }
}

/// What a whole buffer decodes to.
///
/// `Areas` carries the decoded area sequence and the byte position after the
/// last area; the other arms give the error the decoder reports, payload
/// included, so a decode failure is pinned down to its exact detail.
pub enum DecodeOutcome {
    /// The buffer decodes; the sequence of areas and the end position.
    Areas(Seq<NavAreaV>, int),
    /// The first four bytes held this value instead of the magic number.
    BadMagic(u32),
    /// The major version read is outside the supported window.
    BadVersion(u32),
    /// The buffer ran out while a field was being read: the exact error of
    /// that first failing read.
    OutOfData(CursorError),
}

/// The file body after the version fields: the remaining header, the place
/// table, and the areas.
pub open spec fn p_body(cfg: FormatCfg, d: Seq<u8>, pos: int) -> Result<(Seq<NavAreaV>, int), CursorError> {
    let minor_bytes: int = if cfg.has_minor_version {
        4
    } else {
        0
    };
    match p_skip(d, pos, minor_bytes) {
        Ok((unit0, p1)) => match p_skip(d, p1, 4) {
            Ok((unit1, p2)) => match p_skip(
                d,
                p2,
                if cfg.has_is_analyzed {
                    1
                } else {
                    0
                },
            ) {
                Ok((unit2, p3)) => match p_u16(d, p3) {
                    Ok((place_count, p4)) => match p_many::<PlaceEntry>(
                        cfg,
                        d,
                        p4,
                        place_count as nat,
                    ) {
                        Ok((places, p5)) => match p_skip(
                            d,
                            p5,
                            if cfg.has_unnamed_areas_flag {
                                1
                            } else {
                                0
                            },
                        ) {
                            Ok((unit3, p6)) => match p_u32(d, p6) {
                                Ok((area_count, p7)) => p_many::<NavArea>(
                                    cfg,
                                    d,
                                    p7,
                                    area_count as nat,
                                ),
                                Err(e) => Err(e),
                            },
                            Err(e) => Err(e),
                        },
                        Err(e) => Err(e),
                    },
                    Err(e) => Err(e),
                },
                Err(e) => Err(e),
            },
            Err(e) => Err(e),
        },
        Err(e) => Err(e),
    }
}

/// What a buffer decodes to: the magic number, the gated version window, and
/// the file body.
pub open spec fn spec_decode(d: Seq<u8>) -> DecodeOutcome {
    match p_u32(d, 0) {
        Ok((magic, p1)) => if magic != 0xFEED_FACE {
            DecodeOutcome::BadMagic(magic)
        } else {
            match p_u32(d, p1) {
                Ok((major, p2)) => if major < 6 || major > 16 {
                    DecodeOutcome::BadVersion(major)
                } else {
                    match p_body(spec_cfg(major), d, p2) {
                        Ok((areas, end)) => DecodeOutcome::Areas(areas, end),
                        Err(e) => DecodeOutcome::OutOfData(e),
                    }
                },
                Err(e) => DecodeOutcome::OutOfData(e),
            }
        },
        Err(e) => DecodeOutcome::OutOfData(e),
    }
}

/// Decodes a navigation-mesh buffer and also reports how many bits of it
/// were left unread, which a well-formed file keeps at 32 or below.
pub fn read_areas_with_bits_left(data: Vec<u8>) -> (r: Result<(Vec<NavArea>, usize), ParseError>)
    requires
        8 * data@.len() <= usize::MAX,
    ensures
        match spec_decode(data@) {
            DecodeOutcome::Areas(s, end) => r is Ok && views_of(r->Ok_0.0@) == s && r->Ok_0.1 == 8
                * (data@.len() - end),
            DecodeOutcome::BadMagic(m) => r == Err::<(Vec<NavArea>, usize), ParseError>(
                ParseError::InvalidMagicNumber(m),
            ),
            DecodeOutcome::BadVersion(v) => r == Err::<(Vec<NavArea>, usize), ParseError>(
                ParseError::UnsupportedVersion(v),
            ),
            DecodeOutcome::OutOfData(e) => r == Err::<(Vec<NavArea>, usize), ParseError>(
                ParseError::ReadError(e),
            ),
        },
{
    let mut c = BitCursor::new(data);
    let magic = match c.read_u32() {
        Ok(v) => v,
        Err(e) => return Err(ParseError::ReadError(e)),
    };
    if magic != 0xFEED_FACE {
        return Err(ParseError::InvalidMagicNumber(magic));
    }
    let major = match c.read_u32() {
        Ok(v) => v,
        Err(e) => return Err(ParseError::ReadError(e)),
    };
    if major < 6 || major > 16 {
        return Err(ParseError::UnsupportedVersion(major));
    }
    let cfg = cfg_of(major);
    if cfg.has_minor_version {
        match c.skip_bits(32) {
            Ok(_) => {},
            Err(e) => return Err(ParseError::ReadError(e)),
        };
    }
    match c.skip_bits(32) {
        Ok(_) => {},
        Err(e) => return Err(ParseError::ReadError(e)),
    };
    if cfg.has_is_analyzed {
        match c.skip_bits(8) {
            Ok(_) => {},
            Err(e) => return Err(ParseError::ReadError(e)),
        };
    }
    let place_count = match c.read_u16() {
        Ok(v) => v,
        Err(e) => return Err(ParseError::ReadError(e)),
    };
    match read_many::<PlaceEntry>(&mut c, &cfg, place_count as u32) {
        Ok(_) => {},
        Err(e) => return Err(ParseError::ReadError(e)),
    };
    if cfg.has_unnamed_areas_flag {
        match c.skip_bits(8) {
            Ok(_) => {},
            Err(e) => return Err(ParseError::ReadError(e)),
        };
    }
    let area_count = match c.read_u32() {
        Ok(v) => v,
        Err(e) => return Err(ParseError::ReadError(e)),
    };
    let areas = match read_many::<NavArea>(&mut c, &cfg, area_count) {
        Ok(v) => v,
        Err(e) => return Err(ParseError::ReadError(e)),
    };
    let bits_left = c.bits_left();
    Ok((areas, bits_left))
}

/// Parses all navigation areas from a navigation-mesh buffer.
pub fn read_areas(data: Vec<u8>) -> (r: Result<Vec<NavArea>, ParseError>)
    requires
        8 * data@.len() <= usize::MAX,
    ensures
        match spec_decode(data@) {
            DecodeOutcome::Areas(s, end) => r is Ok && views_of(r->Ok_0@) == s,
            DecodeOutcome::BadMagic(m) => r == Err::<Vec<NavArea>, ParseError>(
                ParseError::InvalidMagicNumber(m),
            ),
            DecodeOutcome::BadVersion(v) => r == Err::<Vec<NavArea>, ParseError>(
                ParseError::UnsupportedVersion(v),
            ),
            DecodeOutcome::OutOfData(e) => r == Err::<Vec<NavArea>, ParseError>(
                ParseError::ReadError(e),
            ),
        },
{
    match read_areas_with_bits_left(data) {
        Ok((areas, bits_left)) => Ok(areas),
        Err(e) => Err(e),
    }
}

} // verus!
