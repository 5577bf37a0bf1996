use sourcenav::LadderDirection;
use sourcenav::NavDirection;
use sourcenav::ParseError;
use sourcenav::cfg_of;
use sourcenav::read_areas;
use sourcenav::read_areas_with_bits_left;

fn push_u16(buf: &mut Vec<u8>, v: u16) {
    buf.extend_from_slice(&v.to_le_bytes());
}

fn push_u32(buf: &mut Vec<u8>, v: u32) {
    buf.extend_from_slice(&v.to_le_bytes());
}

fn push_f32(buf: &mut Vec<u8>, v: f32) {
    push_u32(buf, v.to_bits());
}

const MAGIC: u32 = 0xFEED_FACE;

/// Header for a version-6 file with no places: magic, major version,
/// file size, empty place table, then the area count.
fn header_v6(area_count: u32) -> Vec<u8> {
    let mut buf = Vec::new();
    push_u32(&mut buf, MAGIC);
    push_u32(&mut buf, 6);
    push_u32(&mut buf, 0); // file size, discarded
    push_u16(&mut buf, 0); // place count
    push_u32(&mut buf, area_count);
    buf
}

/// One version-6 area with the given id and footprint corners and no
/// auxiliary records.
fn push_area_v6(buf: &mut Vec<u8>, id: u32, nw: (f32, f32, f32), se: (f32, f32, f32)) {
    push_u32(buf, id);
    buf.push(0x05); // flags, one byte below version 9
    push_f32(buf, nw.0);
    push_f32(buf, nw.1);
    push_f32(buf, nw.2);
    push_f32(buf, se.0);
    push_f32(buf, se.1);
    push_f32(buf, se.2);
    push_f32(buf, 1.5); // north_east_z
    push_f32(buf, 2.5); // south_west_z
    for _ in 0..4 {
        push_u32(buf, 0); // no connections in any direction
    }
    buf.push(0); // no hiding spots
    buf.push(0); // no approach areas (present below version 15)
    push_u32(buf, 0); // no encounter paths
    push_u16(buf, 7); // place index
    for _ in 0..2 {
        push_u32(buf, 0); // no ladder connections
    }
    push_f32(buf, 0.25); // earliest occupy, first team
    push_f32(buf, 0.75); // earliest occupy, second team
    push_u32(buf, 42); // inherit visibility
    push_u32(buf, 0xDEAD_BEEF); // trailing reserved field, skipped
}

#[test]
fn rejects_bad_magic() {
    let mut buf = Vec::new();
    push_u32(&mut buf, 0x1234_5678);
    push_u32(&mut buf, 16);
    match read_areas(buf) {
        Err(ParseError::InvalidMagicNumber(m)) => assert_eq!(m, 0x1234_5678),
        other => panic!("expected InvalidMagicNumber, got {:?}", other),
    }
}

#[test]
fn rejects_version_below_window() {
    let mut buf = Vec::new();
    push_u32(&mut buf, MAGIC);
    push_u32(&mut buf, 5);
    match read_areas(buf) {
        Err(ParseError::UnsupportedVersion(v)) => assert_eq!(v, 5),
        other => panic!("expected UnsupportedVersion, got {:?}", other),
    }
}

#[test]
fn rejects_version_above_window() {
    let mut buf = Vec::new();
    push_u32(&mut buf, MAGIC);
    push_u32(&mut buf, 17);
    match read_areas(buf) {
        Err(ParseError::UnsupportedVersion(v)) => assert_eq!(v, 17),
        other => panic!("expected UnsupportedVersion, got {:?}", other),
    }
}

#[test]
fn version_9_reads_no_minor_version() {
    // A buffer sized exactly for the version-9 layout: magic, major, file
    // size, empty place table, zero areas. If the decoder read a minor
    // version here it would run past the end or misread the area count.
    let mut buf = Vec::new();
    push_u32(&mut buf, MAGIC);
    push_u32(&mut buf, 9);
    push_u32(&mut buf, 0); // file size
    push_u16(&mut buf, 0); // place count
    push_u32(&mut buf, 0); // area count
    let (areas, bits_left) = read_areas_with_bits_left(buf).unwrap();
    assert_eq!(areas.len(), 0);
    assert_eq!(bits_left, 0);
    assert!(bits_left <= 32);
}

#[test]
fn version_16_header_consumes_every_gated_field() {
    let mut buf = Vec::new();
    push_u32(&mut buf, MAGIC);
    push_u32(&mut buf, 16);
    push_u32(&mut buf, 3); // minor version, read and discarded
    push_u32(&mut buf, 0); // file size
    buf.push(1); // is-analyzed marker
    push_u16(&mut buf, 1); // one place
    push_u16(&mut buf, 4); // name length
    buf.extend_from_slice(b"mine");
    buf.push(0); // unnamed-areas marker
    push_u32(&mut buf, 0); // area count
    let (areas, bits_left) = read_areas_with_bits_left(buf).unwrap();
    assert_eq!(areas.len(), 0);
    assert_eq!(bits_left, 0);
}

#[test]
fn version_10_reads_a_minor_version() {
    // From major version 10 on a minor version sits between the major
    // version and the file size; a buffer sized exactly for that layout
    // decodes with nothing left over.
    let mut buf = Vec::new();
    push_u32(&mut buf, MAGIC);
    push_u32(&mut buf, 10);
    push_u32(&mut buf, 8); // minor version, read and discarded
    push_u32(&mut buf, 0); // file size
    push_u16(&mut buf, 0); // place count
    push_u32(&mut buf, 0); // area count
    let (areas, bits_left) = read_areas_with_bits_left(buf).unwrap();
    assert_eq!(areas.len(), 0);
    assert_eq!(bits_left, 0);
}

#[test]
fn place_table_is_walked_and_discarded() {
    let mut buf = Vec::new();
    push_u32(&mut buf, MAGIC);
    push_u32(&mut buf, 6);
    push_u32(&mut buf, 0); // file size
    push_u16(&mut buf, 3); // three places
    for name in [&b"spawn"[..], &b""[..], &b"mid point"[..]] {
        push_u16(&mut buf, name.len() as u16);
        buf.extend_from_slice(name);
    }
    push_u32(&mut buf, 1); // area count
    push_area_v6(&mut buf, 9, (0.0, 0.0, 0.0), (1.0, 1.0, 0.0));
    let (areas, bits_left) = read_areas_with_bits_left(buf).unwrap();
    assert_eq!(areas.len(), 1);
    assert_eq!(areas[0].id.0, 9);
    assert_eq!(bits_left, 0);
}

#[test]
fn trailing_padding_is_reported_as_bits_left() {
    let mut buf = header_v6(1);
    push_area_v6(&mut buf, 4, (0.0, 0.0, 0.0), (2.0, 2.0, 0.0));
    push_u32(&mut buf, 0); // four bytes of trailing padding
    let (areas, bits_left) = read_areas_with_bits_left(buf).unwrap();
    assert_eq!(areas.len(), 1);
    assert_eq!(bits_left, 32);
    assert!(bits_left <= 32);
}

#[test]
fn version_6_area_fields_decode_exactly() {
    let mut buf = header_v6(1);
    push_area_v6(&mut buf, 77, (1.0, -2.0, 3.0), (4.0, 5.0, -6.0));
    let areas = read_areas(buf).unwrap();
    assert_eq!(areas.len(), 1);
    let a = &areas[0];
    assert_eq!(a.id.0, 77);
    assert_eq!(a.flags, 0x05); // widened from one byte
    assert_eq!(a.north_west.0, 1.0f32.to_bits());
    assert_eq!(a.north_west.1, (-2.0f32).to_bits());
    assert_eq!(a.north_west.2, 3.0f32.to_bits());
    assert_eq!(a.south_east.0, 4.0f32.to_bits());
    assert_eq!(a.south_east.1, 5.0f32.to_bits());
    assert_eq!(a.south_east.2, (-6.0f32).to_bits());
    assert_eq!(a.north_east_z, 1.5f32.to_bits());
    assert_eq!(a.south_west_z, 2.5f32.to_bits());
    assert_eq!(a.place, 7);
    assert_eq!(a.earliest_occupy_first_team, 0.25f32.to_bits());
    assert_eq!(a.earliest_occupy_second_team, 0.75f32.to_bits());
    assert_eq!(a.inherit_visibility_from_area_id, 42);
    // Below version 11 no light data is on the wire; all corners default.
    assert_eq!(a.light_intensity.north_west, 0);
    assert_eq!(a.light_intensity.south_east, 0);
    assert!(a.hiding_spots.is_empty());
    assert!(a.approach_areas.is_empty());
    assert!(a.encounter_paths.is_empty());
    assert!(a.visible_areas.is_empty());
    for dir in [
        NavDirection::North,
        NavDirection::East,
        NavDirection::South,
        NavDirection::West,
    ] {
        assert!(a.connections.get(dir).is_empty());
    }
    for dir in [LadderDirection::Up, LadderDirection::Down] {
        assert!(a.ladder_connections.get(dir).is_empty());
    }
}

#[test]
fn version_16_area_with_every_record_kind() {
    let mut buf = Vec::new();
    push_u32(&mut buf, MAGIC);
    push_u32(&mut buf, 16);
    push_u32(&mut buf, 0); // minor version
    push_u32(&mut buf, 0); // file size
    buf.push(0); // is-analyzed marker
    push_u16(&mut buf, 0); // place count
    buf.push(1); // unnamed-areas marker
    push_u32(&mut buf, 1); // area count

    push_u32(&mut buf, 900); // id
    push_u32(&mut buf, 0x0001_0002); // flags, four bytes from version 13 on
    push_f32(&mut buf, 0.0);
    push_f32(&mut buf, 0.0);
    push_f32(&mut buf, 10.0);
    push_f32(&mut buf, 8.0);
    push_f32(&mut buf, 8.0);
    push_f32(&mut buf, 10.5);
    push_f32(&mut buf, 11.0); // north_east_z
    push_f32(&mut buf, 9.0); // south_west_z
    // connections: two north, none east, one south, none west
    push_u32(&mut buf, 2);
    push_u32(&mut buf, 11);
    push_u32(&mut buf, 12);
    push_u32(&mut buf, 0);
    push_u32(&mut buf, 1);
    push_u32(&mut buf, 13);
    push_u32(&mut buf, 0);
    // one hiding spot
    buf.push(1);
    push_u32(&mut buf, 501);
    push_f32(&mut buf, 1.0);
    push_f32(&mut buf, 2.0);
    push_f32(&mut buf, 3.0);
    buf.push(0x0F);
    // no approach areas on the wire from version 15 on
    // one encounter path with two spots
    push_u32(&mut buf, 1);
    push_u32(&mut buf, 900);
    buf.push(0); // from direction
    push_u32(&mut buf, 13);
    buf.push(2); // to direction
    buf.push(2); // spot count
    push_u32(&mut buf, 1);
    buf.push(100);
    push_u32(&mut buf, 2);
    buf.push(200);
    push_u16(&mut buf, 3); // place index
    // ladders: one up, none down
    push_u32(&mut buf, 1);
    push_u32(&mut buf, 14);
    push_u32(&mut buf, 0);
    push_f32(&mut buf, 0.0);
    push_f32(&mut buf, 0.0);
    // light intensity, present from version 11 on
    push_f32(&mut buf, 0.1);
    push_f32(&mut buf, 0.2);
    push_f32(&mut buf, 0.3);
    push_f32(&mut buf, 0.4);
    // one visible area, present from version 16 on
    push_u32(&mut buf, 1);
    push_u32(&mut buf, 15);
    buf.push(0x03);
    push_u32(&mut buf, 0); // inherit visibility
    push_u32(&mut buf, 0); // trailing reserved field

    let (areas, bits_left) = read_areas_with_bits_left(buf).unwrap();
    assert_eq!(areas.len(), 1);
    assert_eq!(bits_left, 0);
    let a = &areas[0];
    assert_eq!(a.id.0, 900);
    assert_eq!(a.flags, 0x0001_0002);
    let north = a.connections.get(NavDirection::North);
    assert_eq!(north.len(), 2);
    assert_eq!(north[0].0, 11);
    assert_eq!(north[1].0, 12);
    assert!(a.connections.get(NavDirection::East).is_empty());
    let south = a.connections.get(NavDirection::South);
    assert_eq!(south.len(), 1);
    assert_eq!(south[0].0, 13);
    assert!(a.connections.get(NavDirection::West).is_empty());
    assert_eq!(a.hiding_spots.len(), 1);
    assert_eq!(a.hiding_spots[0].id, 501);
    assert_eq!(a.hiding_spots[0].location.1, 2.0f32.to_bits());
    assert_eq!(a.hiding_spots[0].flags, 0x0F);
    assert!(a.approach_areas.is_empty());
    assert_eq!(a.encounter_paths.len(), 1);
    let ep = &a.encounter_paths[0];
    assert_eq!(ep.from_area_id.0, 900);
    assert_eq!(ep.from_direction, 0);
    assert_eq!(ep.to_area_id.0, 13);
    assert_eq!(ep.to_direction, 2);
    assert_eq!(ep.spots.len(), 2);
    assert_eq!(ep.spots[0].order, 1);
    assert_eq!(ep.spots[0].distance, 100);
    assert_eq!(ep.spots[1].order, 2);
    assert_eq!(ep.spots[1].distance, 200);
    assert_eq!(a.place, 3);
    let up = a.ladder_connections.get(LadderDirection::Up);
    assert_eq!(up.len(), 1);
    assert_eq!(up[0].0, 14);
    assert!(a.ladder_connections.get(LadderDirection::Down).is_empty());
    assert_eq!(a.light_intensity.north_west, 0.1f32.to_bits());
    assert_eq!(a.light_intensity.north_east, 0.2f32.to_bits());
    assert_eq!(a.light_intensity.south_west, 0.3f32.to_bits());
    assert_eq!(a.light_intensity.south_east, 0.4f32.to_bits());
    assert_eq!(a.visible_areas.len(), 1);
    assert_eq!(a.visible_areas[0].id, 15);
    assert_eq!(a.visible_areas[0].attributes, 0x03);
}

#[test]
fn version_6_area_has_approach_areas_on_the_wire() {
    let mut buf = header_v6(1);
    // area with one approach area
    push_u32(&mut buf, 5);
    buf.push(0); // flags
    for _ in 0..8 {
        push_f32(&mut buf, 0.0); // corners and elevations
    }
    for _ in 0..4 {
        push_u32(&mut buf, 0); // connections
    }
    buf.push(0); // hiding spots
    buf.push(1); // one approach area
    push_u32(&mut buf, 21);
    push_u32(&mut buf, 22);
    buf.push(1);
    push_u32(&mut buf, 23);
    buf.push(2);
    push_u32(&mut buf, 0); // encounter paths
    push_u16(&mut buf, 0); // place
    for _ in 0..2 {
        push_u32(&mut buf, 0); // ladders
    }
    push_f32(&mut buf, 0.0);
    push_f32(&mut buf, 0.0);
    push_u32(&mut buf, 0); // inherit visibility
    push_u32(&mut buf, 0); // trailing reserved field
    let areas = read_areas(buf).unwrap();
    assert_eq!(areas.len(), 1);
    let aa = &areas[0].approach_areas;
    assert_eq!(aa.len(), 1);
    assert_eq!(aa[0].approach_here, 21);
    assert_eq!(aa[0].approach_pre, 22);
    assert_eq!(aa[0].approach_type, 1);
    assert_eq!(aa[0].approach_next, 23);
    assert_eq!(aa[0].approach_how, 2);
}

#[test]
fn truncated_buffer_is_a_read_error() {
    let mut buf = header_v6(1);
    push_area_v6(&mut buf, 1, (0.0, 0.0, 0.0), (1.0, 1.0, 0.0));
    buf.truncate(buf.len() - 3); // cut into the trailing reserved field
    match read_areas(buf) {
        Err(ParseError::ReadError(e)) => {
            assert_eq!(e.requested_bits, 32);
            assert_eq!(e.bits_left, 8);
        }
        other => panic!("expected ReadError, got {:?}", other),
    }
}

#[test]
fn empty_buffer_is_a_read_error() {
    match read_areas(Vec::new()) {
        Err(ParseError::ReadError(e)) => {
            assert_eq!(e.requested_bits, 32);
            assert_eq!(e.bits_left, 0);
        }
        other => panic!("expected ReadError, got {:?}", other),
    }
}

#[test]
fn decoding_twice_gives_identical_areas() {
    let mut buf = header_v6(2);
    push_area_v6(&mut buf, 1, (0.0, 0.0, 1.0), (8.0, 8.0, 1.0));
    push_area_v6(&mut buf, 2, (-4.0, -4.0, 2.0), (0.0, 0.0, 2.0));
    let first = read_areas(buf.clone()).unwrap();
    let second = read_areas(buf).unwrap();
    assert_eq!(first, second);
}

#[test]
fn version_gate_table_matches_the_format() {
    let v6 = cfg_of(6);
    assert!(!v6.has_minor_version);
    assert_eq!(v6.flags_bytes, 1);
    assert!(!v6.has_is_analyzed);
    assert!(!v6.has_unnamed_areas_flag);
    assert!(v6.has_approach_areas);
    assert!(!v6.has_light_intensity);
    assert!(!v6.has_visible_areas);

    let v9 = cfg_of(9);
    assert!(!v9.has_minor_version);
    assert_eq!(v9.flags_bytes, 2);

    let v10 = cfg_of(10);
    assert!(v10.has_minor_version);
    assert_eq!(v10.flags_bytes, 2);

    let v11 = cfg_of(11);
    assert!(v11.has_light_intensity);

    let v12 = cfg_of(12);
    assert!(v12.has_unnamed_areas_flag);
    assert_eq!(v12.flags_bytes, 2);

    let v13 = cfg_of(13);
    assert_eq!(v13.flags_bytes, 4);
    assert!(!v13.has_is_analyzed);

    let v14 = cfg_of(14);
    assert!(v14.has_is_analyzed);
    assert!(v14.has_approach_areas);

    let v15 = cfg_of(15);
    assert!(!v15.has_approach_areas);
    assert!(!v15.has_visible_areas);

    let v16 = cfg_of(16);
    assert!(v16.has_visible_areas);
    assert!(v16.has_minor_version);
    assert!(v16.has_is_analyzed);
    assert!(v16.has_unnamed_areas_flag);
    assert!(v16.has_light_intensity);
    assert_eq!(v16.flags_bytes, 4);
}
