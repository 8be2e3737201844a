use quackgis_server::mvt::{
    build_mvt_tile, build_mvt_tile_with_dictionary, encode_mvt_geometry, encode_mvt_value, parse_wkb,
    parses_as_i64, GeomType, MvtFeature, MvtValue, ParsedGeom, TileCoord,
};

fn point_wkb(x: f64, y: f64) -> Vec<u8> {
    let mut wkb = Vec::with_capacity(21);
    wkb.push(1);
    wkb.extend_from_slice(&1_u32.to_le_bytes());
    wkb.extend_from_slice(&x.to_le_bytes());
    wkb.extend_from_slice(&y.to_le_bytes());
    wkb
}

fn contains_bytes(haystack: &[u8], needle: &[u8]) -> bool {
    haystack.windows(needle.len()).any(|window| window == needle)
}

fn to_tile(g: &ParsedGeom<(u64, u64)>) -> ParsedGeom<TileCoord> {
    ParsedGeom {
        geom_type: g.geom_type,
        rings: g
            .rings
            .iter()
            .map(|ring| {
                ring.iter()
                    .map(|&(x, y)| (f64::from_bits(x).round() as i32, f64::from_bits(y).round() as i32))
                    .collect()
            })
            .collect(),
        sub_geom_ring_counts: g.sub_geom_ring_counts.clone(),
        srid: g.srid,
    }
}

fn value(text: &str) -> MvtValue {
    MvtValue { text: text.to_string(), parsed_double: text.parse::<f64>().ok().map(f64::to_bits) }
}

#[test]
fn mvt_dictionary_encodes_feature_tags_keys_and_values() {
    let parsed = parse_wkb(&point_wkb(0.0, 0.0)).expect("parse point WKB");
    let (geom_type, commands) = encode_mvt_geometry(&to_tile(&parsed)).expect("encode point MVT");
    let feature = MvtFeature { geom_type, commands, tags: vec![0, 0, 1, 1], id: Some(7) };
    let keys = vec!["name".to_string(), "kind".to_string()];
    let values = vec![value("origin"), value("poi")];

    let tile = build_mvt_tile_with_dictionary("points", 4096, &keys, &values, &[feature]);

    assert!(contains_bytes(&tile, b"points"));
    assert!(contains_bytes(&tile, b"name"));
    assert!(contains_bytes(&tile, b"kind"));
    assert!(contains_bytes(&tile, b"origin"));
    assert!(contains_bytes(&tile, b"poi"));
}

#[test]
fn point_tile_bytes_are_exact() {
    let feature = MvtFeature { geom_type: 1, commands: vec![9, 2, 4], tags: vec![], id: None };
    let tile = build_mvt_tile("p", 4096, &[feature]);
    // layer { name "p", extent 4096, feature { type 1, geometry [9, 2, 4] } }
    let feature_bytes = [0x18, 0x01, 0x22, 0x03, 0x09, 0x02, 0x04];
    let mut layer = vec![0x7a, 0x01, b'p', 0x08, 0x80, 0x20, 0x12, feature_bytes.len() as u8];
    layer.extend_from_slice(&feature_bytes);
    let mut expected = vec![0x1a, layer.len() as u8];
    expected.extend_from_slice(&layer);
    assert_eq!(tile, expected);
}

#[test]
fn values_keep_integers_as_text_and_doubles_as_doubles() {
    assert_eq!(encode_mvt_value("42", Some(42f64.to_bits())), vec![0x0a, 0x02, b'4', b'2']);
    assert_eq!(encode_mvt_value("abc", None), vec![0x0a, 0x03, b'a', b'b', b'c']);
    let mut double = vec![0x19];
    double.extend_from_slice(&1.5f64.to_le_bytes());
    assert_eq!(encode_mvt_value("1.5", Some(1.5f64.to_bits())), double);
    assert!(parses_as_i64(b"-9223372036854775808"));
    assert!(parses_as_i64(b"+7"));
    assert!(!parses_as_i64(b"9223372036854775808"));
    assert!(!parses_as_i64(b"1.0"));
    assert!(!parses_as_i64(b"-"));
}

#[test]
fn geometry_commands_use_zigzag_deltas() {
    let line = ParsedGeom::<TileCoord> {
        geom_type: GeomType::LineString,
        rings: vec![vec![(2, 2), (2, 10), (10, 10)]],
        sub_geom_ring_counts: None,
        srid: None,
    };
    assert_eq!(encode_mvt_geometry(&line), Some((2, vec![9, 4, 4, 18, 0, 16, 16, 0])));
    let polygon = ParsedGeom::<TileCoord> {
        geom_type: GeomType::Polygon,
        rings: vec![vec![(3, 6), (8, 12), (20, 34), (3, 6)]],
        sub_geom_ring_counts: None,
        srid: None,
    };
    assert_eq!(encode_mvt_geometry(&polygon), Some((3, vec![9, 6, 12, 19, 10, 12, 24, 44, 33, 55, 56])));
    let points = ParsedGeom::<TileCoord> {
        geom_type: GeomType::MultiPoint,
        rings: vec![vec![(5, 7), (3, 2)]],
        sub_geom_ring_counts: None,
        srid: None,
    };
    assert_eq!(encode_mvt_geometry(&points), Some((1, vec![10, 10, 14, 3, 9])));
    let empty = ParsedGeom::<TileCoord> { geom_type: GeomType::Point, rings: vec![vec![]], sub_geom_ring_counts: None, srid: None };
    assert_eq!(encode_mvt_geometry(&empty), None);
    let collection = ParsedGeom::<TileCoord> {
        geom_type: GeomType::GeometryCollection,
        rings: vec![],
        sub_geom_ring_counts: None,
        srid: None,
    };
    assert_eq!(encode_mvt_geometry(&collection), None);
}

#[test]
fn wkb_parses_byte_orders_and_srid_and_writes_back() {
    let mut big = vec![0u8];
    big.extend_from_slice(&2_u32.to_be_bytes());
    big.extend_from_slice(&2_u32.to_be_bytes());
    for v in [1.0f64, 2.0, 3.0, 4.0] {
        big.extend_from_slice(&v.to_be_bytes());
    }
    let line = parse_wkb(&big).expect("big-endian linestring");
    assert_eq!(line.geom_type, GeomType::LineString);
    assert_eq!(line.rings, vec![vec![(1.0f64.to_bits(), 2.0f64.to_bits()), (3.0f64.to_bits(), 4.0f64.to_bits())]]);
    let mut le = vec![1u8];
    le.extend_from_slice(&2_u32.to_le_bytes());
    le.extend_from_slice(&2_u32.to_le_bytes());
    for v in [1.0f64, 2.0, 3.0, 4.0] {
        le.extend_from_slice(&v.to_le_bytes());
    }
    assert_eq!(line.to_wkb(), le);

    let mut ewkb = vec![1u8];
    ewkb.extend_from_slice(&(1_u32 | 0x2000_0000).to_le_bytes());
    ewkb.extend_from_slice(&4326_i32.to_le_bytes());
    ewkb.extend_from_slice(&1.0f64.to_le_bytes());
    ewkb.extend_from_slice(&2.0f64.to_le_bytes());
    let point = parse_wkb(&ewkb).expect("EWKB point");
    assert_eq!(point.srid, Some(4326));
    assert_eq!(point.geom_type, GeomType::Point);
    assert_eq!(point.to_wkb(), point_wkb(1.0, 2.0));

    assert!(parse_wkb(&[1, 1, 0]).is_none());
    assert!(parse_wkb(&point_wkb(1.0, 2.0)[..20]).is_none());
    assert_eq!(GeomType::from_u32(0x0000_1003), GeomType::Polygon);
    assert_eq!(GeomType::from_u32(9), GeomType::Unknown(9));
    assert_eq!(GeomType::MultiPolygon.type_code(), 6);
    assert_eq!(GeomType::MultiPolygon.mvt_type(), Some(3));
}

#[test]
fn wkb_round_trips_through_the_writer() {
    let point = parse_wkb(&point_wkb(-3.25, 8.5)).expect("point");
    let again = parse_wkb(&point.to_wkb()).expect("written point");
    assert_eq!(again.rings, point.rings);
    assert_eq!(again.geom_type, point.geom_type);
}

#[test]
fn multipolygon_draws_each_exterior_ring_and_skips_holes() {
    let multi = ParsedGeom::<TileCoord> {
        geom_type: GeomType::MultiPolygon,
        rings: vec![vec![(0, 0)], vec![(1, 1)], vec![(2, 2)]],
        sub_geom_ring_counts: Some(vec![2, 1]),
        srid: None,
    };
    assert_eq!(encode_mvt_geometry(&multi), Some((3, vec![9, 0, 0, 16, 56, 9, 4, 4, 16, 56])));
    let holed = ParsedGeom::<TileCoord> {
        geom_type: GeomType::Polygon,
        rings: vec![vec![(1, 1), (5, 1), (1, 1)], vec![(2, 2), (3, 2), (2, 2)]],
        sub_geom_ring_counts: None,
        srid: None,
    };
    assert_eq!(encode_mvt_geometry(&holed), Some((3, vec![9, 2, 2, 18, 8, 0, 7, 0, 56])));
    let short = ParsedGeom::<TileCoord> {
        geom_type: GeomType::MultiPolygon,
        rings: vec![vec![(0, 0)]],
        sub_geom_ring_counts: Some(vec![1, 1]),
        srid: None,
    };
    assert_eq!(encode_mvt_geometry(&short), None);
}
