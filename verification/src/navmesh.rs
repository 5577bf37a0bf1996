//! The in-memory model of a decoded navigation mesh: areas and the auxiliary
//! records attached to them.
//!
//! Wire floats (coordinates, elevations, light, occupancy times) are kept as
//! their raw IEEE-754 bit patterns in `u32` fields; the decoder never
//! interprets them.

use vstd::prelude::*;

verus! {

/// The views of a sequence of viewable values, in the same order.
pub open spec fn views_of<T: View>(s: Seq<T>) -> Seq<T::V> {
    s.map_values(|t: T| t@)
}

/// A 3-dimensional coordinate; each component is the raw bit pattern of an
/// IEEE-754 32-bit float.
#[derive(Debug, Clone, Copy, PartialEq, Eq, Structural)]
pub struct Vector3(pub u32, pub u32, pub u32);

impl View for Vector3 {
    type V = Vector3;

    open spec fn view(&self) -> Vector3 {
        *self
    }
}

/// A unique identifier for a navigation area.
#[derive(Debug, Clone, Copy, PartialEq, Eq, Structural, Hash)]
pub struct NavAreaId(pub u32);

impl View for NavAreaId {
    type V = NavAreaId;

    open spec fn view(&self) -> NavAreaId {
        *self
    }
}

/// The directions in which two areas can be connected.
#[derive(Debug, Clone, Copy, PartialEq, Eq, Structural)]
pub enum NavDirection {
    North,
    East,
    South,
    West,
}

/// The directions in which two areas can be connected by ladder.
#[derive(Debug, Clone, Copy, PartialEq, Eq, Structural)]
pub enum LadderDirection {
    Up,
    Down,
}

/// The connections from a navigation area into its neighbours: one list of
/// area ids per [`NavDirection`], in file order.
#[derive(Debug, PartialEq)]
pub struct Connections {
    pub north: Vec<NavAreaId>,
    pub east: Vec<NavAreaId>,
    pub south: Vec<NavAreaId>,
    pub west: Vec<NavAreaId>,
}

/// Mathematical image of [`Connections`]: a sequence of ids per direction.
pub struct ConnectionsV {
    pub north: Seq<NavAreaId>,
    pub east: Seq<NavAreaId>,
    pub south: Seq<NavAreaId>,
    pub west: Seq<NavAreaId>,
}

impl View for Connections {
    type V = ConnectionsV;

    open spec fn view(&self) -> ConnectionsV {
        ConnectionsV {
            north: views_of(self.north@),
            east: views_of(self.east@),
            south: views_of(self.south@),
            west: views_of(self.west@),
        }
    }
}

impl Connections {
    /// The neighbour list for one direction.
    pub fn get(&self, dir: NavDirection) -> (r: &Vec<NavAreaId>)
        ensures
            r == match dir {
                NavDirection::North => &self.north,
                NavDirection::East => &self.east,
                NavDirection::South => &self.south,
                NavDirection::West => &self.west,
            },
    {
        match dir {
            NavDirection::North => &self.north,
            NavDirection::East => &self.east,
            NavDirection::South => &self.south,
            NavDirection::West => &self.west,
        }
    }
}

impl Default for Connections {
    /// Empty neighbour lists in every direction.
    fn default() -> (r: Connections)
        ensures
            r.north@ == Seq::<NavAreaId>::empty(),
            r.east@ == Seq::<NavAreaId>::empty(),
            r.south@ == Seq::<NavAreaId>::empty(),
            r.west@ == Seq::<NavAreaId>::empty(),
    {
        Connections { north: Vec::new(), east: Vec::new(), south: Vec::new(), west: Vec::new() }
    }
}

/// The ladder connections from a navigation area into its neighbours: one
/// list of area ids per [`LadderDirection`], in file order.
#[derive(Debug, PartialEq)]
pub struct LadderConnections {
    pub up: Vec<NavAreaId>,
    pub down: Vec<NavAreaId>,
}

/// Mathematical image of [`LadderConnections`].
pub struct LadderConnectionsV {
    pub up: Seq<NavAreaId>,
    pub down: Seq<NavAreaId>,
}

impl View for LadderConnections {
    type V = LadderConnectionsV;

    open spec fn view(&self) -> LadderConnectionsV {
        LadderConnectionsV { up: views_of(self.up@), down: views_of(self.down@) }
    }
}

impl LadderConnections {
    /// The neighbour list for one ladder direction.
    pub fn get(&self, dir: LadderDirection) -> (r: &Vec<NavAreaId>)
        ensures
            r == match dir {
                LadderDirection::Up => &self.up,
                LadderDirection::Down => &self.down,
            },
    {
        match dir {
            LadderDirection::Up => &self.up,
            LadderDirection::Down => &self.down,
        }
    }
}

impl Default for LadderConnections {
    /// Empty neighbour lists in both ladder directions.
    fn default() -> (r: LadderConnections)
        ensures
            r.up@ == Seq::<NavAreaId>::empty(),
            r.down@ == Seq::<NavAreaId>::empty(),
    {
        LadderConnections { up: Vec::new(), down: Vec::new() }
    }
}

/// A hiding spot within an area.
#[derive(Debug, Clone, Copy, PartialEq, Eq, Structural)]
pub struct NavHidingSpot {
    pub id: u32,
    pub location: Vector3,
    pub flags: u8,
}

impl View for NavHidingSpot {
    type V = NavHidingSpot;

    open spec fn view(&self) -> NavHidingSpot {
        *self
    }
}

/// An area that can be used for approach; no longer present in newer files.
#[derive(Debug, Clone, Copy, PartialEq, Eq, Structural)]
pub struct ApproachArea {
    pub approach_here: u32,
    pub approach_pre: u32,
    pub approach_type: u8,
    pub approach_next: u32,
    pub approach_how: u8,
}

impl View for ApproachArea {
    type V = ApproachArea;

    open spec fn view(&self) -> ApproachArea {
        *self
    }
}

/// One spot along an encounter path; `distance` is raw, a caller divides by
/// 255 for a 0-to-1 fraction.
#[derive(Debug, Clone, Copy, PartialEq, Eq, Structural)]
pub struct EncounterSpot {
    pub order: u32,
    pub distance: u8,
}

impl View for EncounterSpot {
    type V = EncounterSpot;

    open spec fn view(&self) -> EncounterSpot {
        *self
    }
}

/// A path that can be used to approach an area.
#[derive(Debug, PartialEq)]
pub struct EncounterPath {
    pub from_area_id: NavAreaId,
    pub from_direction: u8,
    pub to_area_id: NavAreaId,
    pub to_direction: u8,
    pub spots: Vec<EncounterSpot>,
}

/// Mathematical image of [`EncounterPath`].
pub struct EncounterPathV {
    pub from_area_id: NavAreaId,
    pub from_direction: u8,
    pub to_area_id: NavAreaId,
    pub to_direction: u8,
    pub spots: Seq<EncounterSpot>,
}

impl View for EncounterPath {
    type V = EncounterPathV;

    open spec fn view(&self) -> EncounterPathV {
        EncounterPathV {
            from_area_id: self.from_area_id,
            from_direction: self.from_direction,
            to_area_id: self.to_area_id,
            to_direction: self.to_direction,
            spots: views_of(self.spots@),
        }
    }
}

/// The light intensity at the four corners of an area, as float bit patterns.
#[derive(Debug, Clone, Copy, PartialEq, Eq, Structural)]
pub struct LightIntensity {
    pub north_west: u32,
    pub north_east: u32,
    pub south_west: u32,
    pub south_east: u32,
}

impl View for LightIntensity {
    type V = LightIntensity;

    open spec fn view(&self) -> LightIntensity {
        *self
    }
}

impl Default for LightIntensity {
    /// All four corners dark, as for file versions that carry no light data.
    fn default() -> (r: LightIntensity)
        ensures
            r == (LightIntensity { north_west: 0, north_east: 0, south_west: 0, south_east: 0 }),
    {
        LightIntensity { north_west: 0, north_east: 0, south_west: 0, south_east: 0 }
    }
}

/// An area that is visible from the owning area.
#[derive(Debug, Clone, Copy, PartialEq, Eq, Structural)]
pub struct VisibleArea {
    pub id: u32,
    pub attributes: u8,
}

impl View for VisibleArea {
    type V = VisibleArea;

    open spec fn view(&self) -> VisibleArea {
        *self
    }
}

/// A navigation area: a rectangular patch of walkable space with four
/// independently heighted corners and its auxiliary records, exactly as
/// decoded.
///
/// `north_west` and `south_east` are opposite corners of the horizontal
/// footprint; their `z` components and `north_east_z` / `south_west_z` give
/// the four corner elevations. A file in which `south_east` is not beyond
/// `north_west` yields a footprint of negative extent; the decoder keeps it
/// as read.
#[derive(Debug, PartialEq)]
pub struct NavArea {
    pub id: NavAreaId,
    pub north_west: Vector3,
    pub south_east: Vector3,
    pub north_east_z: u32,
    pub south_west_z: u32,
    pub flags: u32,
    pub connections: Connections,
    pub hiding_spots: Vec<NavHidingSpot>,
    pub approach_areas: Vec<ApproachArea>,
    pub encounter_paths: Vec<EncounterPath>,
    pub place: u16,
    pub light_intensity: LightIntensity,
    pub ladder_connections: LadderConnections,
    pub earliest_occupy_first_team: u32,
    pub earliest_occupy_second_team: u32,
    pub visible_areas: Vec<VisibleArea>,
    pub inherit_visibility_from_area_id: u32,
}

/// Mathematical image of [`NavArea`].
pub struct NavAreaV {
    pub id: NavAreaId,
    pub north_west: Vector3,
    pub south_east: Vector3,
    pub north_east_z: u32,
    pub south_west_z: u32,
    pub flags: u32,
    pub connections: ConnectionsV,
    pub hiding_spots: Seq<NavHidingSpot>,
    pub approach_areas: Seq<ApproachArea>,
    pub encounter_paths: Seq<EncounterPathV>,
    pub place: u16,
    pub light_intensity: LightIntensity,
    pub ladder_connections: LadderConnectionsV,
    pub earliest_occupy_first_team: u32,
    pub earliest_occupy_second_team: u32,
    pub visible_areas: Seq<VisibleArea>,
    pub inherit_visibility_from_area_id: u32,
}

impl View for NavArea {
    type V = NavAreaV;

    open spec fn view(&self) -> NavAreaV {
        NavAreaV {
            id: self.id,
            north_west: self.north_west,
            south_east: self.south_east,
            north_east_z: self.north_east_z,
            south_west_z: self.south_west_z,
            flags: self.flags,
            connections: self.connections@,
            hiding_spots: views_of(self.hiding_spots@),
            approach_areas: views_of(self.approach_areas@),
            encounter_paths: views_of(self.encounter_paths@),
            place: self.place,
            light_intensity: self.light_intensity,
            ladder_connections: self.ladder_connections@,
            earliest_occupy_first_team: self.earliest_occupy_first_team,
            earliest_occupy_second_team: self.earliest_occupy_second_team,
            visible_areas: views_of(self.visible_areas@),
            inherit_visibility_from_area_id: self.inherit_visibility_from_area_id,
        }
    }
}

/// A named region grouping several areas; the decoder reads the place table
/// only to advance past it, so no decoded value ever carries one.
#[derive(Debug)]
pub struct NavPlace {
    pub id: u32,
    pub name: String,
}

/// A whole navigation mesh; a marker for callers that want to speak of one.
#[derive(Debug)]
pub struct NavMesh {}

} // verus!
