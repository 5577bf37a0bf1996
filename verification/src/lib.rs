//! Decoder and spatial index for the Source engine's navigation-mesh file
//! format.
//!
//! A byte buffer is decoded into a sequence of [`NavArea`] records by
//! [`read_areas`], following the versioned, little-endian wire layout of the
//! format. [`get_area_tree`] builds a [`NavTree`] over the decoded areas,
//! which answers axis-aligned overlap queries on their horizontal footprints.
//!
//! Elevations and coordinates are 32-bit IEEE-754 floats on the wire. Verified
//! code carries them untouched as their raw bit patterns (`u32`); ordering
//! comparisons on those patterns are done with the sign-magnitude order that
//! agrees with the float order on non-NaN values. Interpolating an elevation
//! from the four corner heights is floating-point arithmetic and is left to
//! the unverified shell around this crate.

use vstd::prelude::*;

mod cursor;
mod navmesh;
mod parser;

pub use cursor::BitCursor;
pub use cursor::CursorError;
pub use navmesh::ApproachArea;
pub use navmesh::Connections;
pub use navmesh::ConnectionsV;
pub use navmesh::EncounterPath;
pub use navmesh::EncounterPathV;
pub use navmesh::EncounterSpot;
pub use navmesh::LadderConnections;
pub use navmesh::LadderConnectionsV;
pub use navmesh::LadderDirection;
pub use navmesh::LightIntensity;
pub use navmesh::NavArea;
pub use navmesh::NavAreaId;
pub use navmesh::NavAreaV;
pub use navmesh::NavDirection;
pub use navmesh::NavHidingSpot;
pub use navmesh::NavMesh;
pub use navmesh::NavPlace;
pub use navmesh::Vector3;
pub use navmesh::views_of;
pub use parser::DecodeOutcome;
pub use parser::FormatCfg;
pub use parser::ParseError;
pub use parser::cfg_of;
pub use parser::read_areas;
pub use parser::read_areas_with_bits_left;
pub use parser::spec_cfg;
pub use parser::spec_decode;

verus! {

/// Sign-magnitude order key of an IEEE-754 32-bit float bit pattern.
///
/// For two patterns that encode non-NaN floats, comparing the keys agrees
/// with comparing the floats themselves, with `-0.0` and `+0.0` mapped to the
/// same key. NaN patterns are ordered by magnitude like any other pattern,
/// where the float comparison would have been false in every direction.
pub open spec fn f32_order_key(bits: u32) -> int {
    if bits >= 0x8000_0000 {
        0x1_0000_0000 - bits
    } else {
        0x8000_0000 + bits
    }
}

/// Whether the float encoded by `a` is strictly below the one encoded by `b`,
/// decided on the raw bit patterns (exact for non-NaN values).
pub open spec fn f32_bits_lt(a: u32, b: u32) -> bool {
    f32_order_key(a) < f32_order_key(b)
}

/// Compares two float bit patterns in the sign-magnitude order.
pub fn f32_bits_lt_exec(a: u32, b: u32) -> (r: bool)
    ensures
        r == f32_bits_lt(a, b),
{
    let ka: u64 = if a >= 0x8000_0000 {
        0x1_0000_0000u64 - a as u64
    } else {
        0x8000_0000u64 + a as u64
    };
    let kb: u64 = if b >= 0x8000_0000 {
        0x1_0000_0000u64 - b as u64
    } else {
        0x8000_0000u64 + b as u64
    };
    ka < kb
}

/// Whether an area's horizontal footprint overlaps the open box whose
/// corners are the float bit patterns `(x0, y0)` and `(x1, y1)`.
///
/// The test is strict on every edge, as an axis-aligned rectangle
/// intersection is: the footprint's north-west corner must lie below the
/// box's far corner and the box's near corner below the footprint's
/// south-east corner, on both axes.
pub open spec fn footprint_overlaps(a: NavAreaV, x0: u32, y0: u32, x1: u32, y1: u32) -> bool {
    &&& f32_bits_lt(a.north_west.0, x1)
    &&& f32_bits_lt(x0, a.south_east.0)
    &&& f32_bits_lt(a.north_west.1, y1)
    &&& f32_bits_lt(y0, a.south_east.1)
}

/// The subsequence of `s` whose footprints overlap the box, in the order of
/// `s`.
pub open spec fn matching_areas(s: Seq<NavAreaV>, x0: u32, y0: u32, x1: u32, y1: u32) -> Seq<
    NavAreaV,
> {
    s.filter(|a: NavAreaV| footprint_overlaps(a, x0, y0, x1, y1))
}

/// An index of all navigation areas of one decoded file, answering overlap
/// queries on their horizontal footprints.
///
/// The index owns every area; it is built once over a finished decode and
/// never changed, and its traversal order is the file order of the areas.
pub struct NavTree {
    areas: Vec<NavArea>,
}

impl View for NavTree {
    type V = Seq<NavAreaV>;

    closed spec fn view(&self) -> Seq<NavAreaV> {
        views_of(self.areas@)
    }
}

impl NavTree {
    /// Every indexed area, in file order.
    pub fn areas(&self) -> (r: &Vec<NavArea>)
        ensures
            views_of(r@) == self@,
    {
        &self.areas
    }

    /// Every area whose footprint overlaps the box with corners `(x0, y0)`
    /// and `(x1, y1)` given as float bit patterns, in file order.
    #[verifier::loop_isolation(false)]
    pub fn query(&self, x0: u32, y0: u32, x1: u32, y1: u32) -> (r: Vec<&NavArea>)
        ensures
            views_of(r@) == matching_areas(self@, x0, y0, x1, y1),
    {
        let mut out: Vec<&NavArea> = Vec::new();
        let mut i: usize = 0;
        while i < self.areas.len()
            invariant
                i <= self.areas.len(),
                views_of(out@) == matching_areas(self@.take(i as int), x0, y0, x1, y1),
            decreases self.areas.len() - i,
        {
            let a = &self.areas[i];
            let ghost pre = views_of(out@);
            let hit = f32_bits_lt_exec(a.north_west.0, x1) && f32_bits_lt_exec(x0, a.south_east.0)
                && f32_bits_lt_exec(a.north_west.1, y1) && f32_bits_lt_exec(y0, a.south_east.1);
            if hit {
                out.push(a);
            }
            proof {
                let s = self@;
                let pred = (|a: NavAreaV| footprint_overlaps(a, x0, y0, x1, y1));
                reveal(Seq::filter);
                assert(s.take(i + 1).drop_last() =~= s.take(i as int));
                assert(s.take(i + 1).last() == s[i as int]);
                assert(hit == pred(s[i as int]));
                if hit {
                    assert(views_of(out@) =~= pre.push(s[i as int]));
                }
            }
            i = i + 1;
        }
        proof {
            assert(self@.take(self.areas@.len() as int) =~= self@);
        }
        out
    }
}

/// Parses all navigation areas from a navigation-mesh buffer and indexes
/// them: on success the index holds exactly the decoded areas, in file
/// order.
pub fn get_area_tree(data: Vec<u8>) -> (r: Result<NavTree, ParseError>)
    requires
        8 * data@.len() <= usize::MAX,
    ensures
        match spec_decode(data@) {
            DecodeOutcome::Areas(s, end) => r is Ok && r->Ok_0@ == s,
            DecodeOutcome::BadMagic(m) => r == Err::<NavTree, ParseError>(
                ParseError::InvalidMagicNumber(m),
            ),
            DecodeOutcome::BadVersion(v) => r == Err::<NavTree, ParseError>(
                ParseError::UnsupportedVersion(v),
            ),
            DecodeOutcome::OutOfData(e) => r == Err::<NavTree, ParseError>(
                ParseError::ReadError(e),
            ),
        },
{
    match read_areas(data) {
        Ok(areas) => Ok(NavTree { areas }),
        Err(e) => Err(e),
    }
}

/// Decoding is a function of the byte buffer alone: two decodes of the same
/// buffer describe structurally identical area sequences, so a decoder run
/// has no hidden state.
pub proof fn lemma_decode_deterministic(
    d: Seq<u8>,
    s1: Seq<NavAreaV>,
    e1: int,
    s2: Seq<NavAreaV>,
    e2: int,
)
    requires
        spec_decode(d) == DecodeOutcome::Areas(s1, e1),
        spec_decode(d) == DecodeOutcome::Areas(s2, e2),
    ensures
        s1 == s2,
        e1 == e2,
{
}

/// Building an index over a decoded area sequence and listing its areas
/// gives back the same count and the same ids, in the same stable order:
/// the round trip through [`get_area_tree`] and [`NavTree::areas`] loses
/// nothing. The two premises are what those functions' contracts give of a
/// buffer that decodes and the tree built over it.
pub proof fn lemma_round_trip(d: Seq<u8>, s: Seq<NavAreaV>, end: int, tree: NavTree)
    requires
        spec_decode(d) == DecodeOutcome::Areas(s, end),
        tree@ == s,
    ensures
        tree@.len() == s.len(),
        forall|i: int| 0 <= i < s.len() ==> tree@[i].id == s[i].id,
{
}

/// A box that overlaps no indexed footprint is answered by the empty
/// sequence.
pub proof fn lemma_query_outside_is_empty(s: Seq<NavAreaV>, x0: u32, y0: u32, x1: u32, y1: u32)
    requires
        forall|i: int| 0 <= i < s.len() ==> !footprint_overlaps(s[i], x0, y0, x1, y1),
    ensures
        matching_areas(s, x0, y0, x1, y1).len() == 0,
    decreases s.len(),
{
    reveal(Seq::filter);
    if s.len() > 0 {
        assert(!footprint_overlaps(s[s.len() - 1], x0, y0, x1, y1));
        assert(forall|i: int|
            0 <= i < s.drop_last().len() ==> s.drop_last()[i] == s[i]);
        lemma_query_outside_is_empty(s.drop_last(), x0, y0, x1, y1);
    }
}

} // verus!
