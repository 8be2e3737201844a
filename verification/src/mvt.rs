//! Minimal Mapbox Vector Tile encoder and WKB geometry reader.
//!
//! Coordinates read from WKB are kept as the raw IEEE-754 bit patterns of the
//! doubles they encode, so that reading and writing WKB is exact. Tile
//! geometry is encoded from integer pixel coordinates.
use vstd::prelude::*;
use vstd::string::StringSliceAdditionalSpecFns;
use vstd::utf8::encode_utf8;

verus! {

// ─── Protobuf varint encoding ──────────────────────────────────────────────

/// Protobuf base-128 varint: seven bits per byte, least significant group
/// first, the high bit set on every byte but the last.
pub open spec fn varint(v: nat) -> Seq<u8>
    decreases v,
{
    if v < 128 {
        seq![v as u8]
    } else {
        seq![((v % 128) + 128) as u8] + varint(v / 128)
    }
}

/// Protobuf zig-zag mapping of a signed integer onto the naturals.
pub open spec fn zigzag(n: int) -> nat {
    if n >= 0 {
        (2 * n) as nat
    } else {
        (-2 * n - 1) as nat
    }
}

/// A field key: field number and wire type.
pub open spec fn tag(field: nat, wire_type: nat) -> Seq<u8> {
    varint(field * 8 + wire_type)
}

/// A length-delimited field.
pub open spec fn bytes_field(field: nat, data: Seq<u8>) -> Seq<u8> {
    tag(field, 2) + varint(data.len()) + data
}

/// A varint field.
pub open spec fn varint_field(field: nat, value: nat) -> Seq<u8> {
    tag(field, 0) + varint(value)
}

/// Varints of a sequence of values, one after the other (packed encoding).
pub open spec fn packed(values: Seq<u32>) -> Seq<u8>
    decreases values.len(),
{
    if values.len() == 0 {
        Seq::empty()
    } else {
        packed(values.drop_last()) + varint(values.last() as nat)
    }
}

fn encode_varint(value: u64, buf: &mut Vec<u8>)
    ensures
        final(buf)@ == old(buf)@ + varint(value as nat),
{
    let mut rest = value;
    while rest >= 128
        invariant
            buf@ + varint(rest as nat) == old(buf)@ + varint(value as nat),
        decreases rest,
    {
        let ghost before = buf@;
        buf.push(((rest % 128) + 128) as u8);
        rest = rest / 128;
        assert(buf@ + varint(rest as nat) =~= before + varint((rest * 128 + (buf@.last() - 128)) as nat));
    }
    buf.push(rest as u8);
}

fn encode_zigzag32(n: i32) -> (z: u32)
    ensures
        z == zigzag(n as int),
{
    if n >= 0 {
        (n as u32) * 2
    } else {
        ((-(n as i64)) * 2 - 1) as u32
    }
}

fn encode_tag(field: u32, wire_type: u32, buf: &mut Vec<u8>)
    requires
        wire_type < 8,
    ensures
        final(buf)@ == old(buf)@ + tag(field as nat, wire_type as nat),
{
    encode_varint((field as u64) * 8 + (wire_type as u64), buf);
}

fn push_bytes(data: &[u8], buf: &mut Vec<u8>)
    ensures
        final(buf)@ == old(buf)@ + data@,
{
    let mut i: usize = 0;
    while i < data.len()
        invariant
            i <= data.len(),
            buf@ == old(buf)@ + data@.subrange(0, i as int),
        decreases data.len() - i,
    {
        buf.push(data[i]);
        i = i + 1;
        assert(data@.subrange(0, i as int) =~= data@.subrange(0, i - 1) + seq![data@[i - 1]]);
    }
    assert(data@.subrange(0, i as int) =~= data@);
}

fn encode_bytes_field(field: u32, data: &[u8], buf: &mut Vec<u8>)
    ensures
        final(buf)@ == old(buf)@ + bytes_field(field as nat, data@),
{
    encode_tag(field, 2, buf);
    encode_varint(data.len() as u64, buf);
    push_bytes(data, buf);
    assert(buf@ =~= old(buf)@ + bytes_field(field as nat, data@));
}

fn encode_string_field(field: u32, s: &str, buf: &mut Vec<u8>)
    ensures
        final(buf)@ == old(buf)@ + bytes_field(field as nat, s.spec_bytes()),
{
    encode_bytes_field(field, s.as_bytes(), buf);
}

fn encode_uint64_field(field: u32, val: u64, buf: &mut Vec<u8>)
    ensures
        final(buf)@ == old(buf)@ + varint_field(field as nat, val as nat),
{
    encode_tag(field, 0, buf);
    encode_varint(val, buf);
    assert(buf@ =~= old(buf)@ + varint_field(field as nat, val as nat));
}

fn encode_uint32_field(field: u32, val: u32, buf: &mut Vec<u8>)
    ensures
        final(buf)@ == old(buf)@ + varint_field(field as nat, val as nat),
{
    encode_uint64_field(field, val as u64, buf);
}

fn encode_packed(values: &Vec<u32>) -> (buf: Vec<u8>)
    ensures
        buf@ == packed(values@),
{
    let mut buf: Vec<u8> = Vec::new();
    let mut i: usize = 0;
    while i < values.len()
        invariant
            i <= values.len(),
            buf@ == packed(values@.subrange(0, i as int)),
        decreases values.len() - i,
    {
        let ghost before = values@.subrange(0, i as int);
        encode_varint(values[i] as u64, &mut buf);
        i = i + 1;
        assert(values@.subrange(0, i as int).drop_last() =~= before);
    }
    assert(values@.subrange(0, i as int) =~= values@);
    buf
}


/// Little-endian bytes of a 64-bit value.
pub open spec fn le64(v: u64) -> Seq<u8> {
    seq![
        (v & 0xff) as u8,
        ((v >> 8u64) & 0xff) as u8,
        ((v >> 16u64) & 0xff) as u8,
        ((v >> 24u64) & 0xff) as u8,
        ((v >> 32u64) & 0xff) as u8,
        ((v >> 40u64) & 0xff) as u8,
        ((v >> 48u64) & 0xff) as u8,
        ((v >> 56u64) & 0xff) as u8,
    ]
}

/// Little-endian bytes of a 32-bit value.
pub open spec fn le32(v: u32) -> Seq<u8> {
    seq![
        (v & 0xff) as u8,
        ((v >> 8u32) & 0xff) as u8,
        ((v >> 16u32) & 0xff) as u8,
        ((v >> 24u32) & 0xff) as u8,
    ]
}

fn push_le32(v: u32, buf: &mut Vec<u8>)
    ensures
        final(buf)@ == old(buf)@ + le32(v),
{
    buf.push((v & 0xff) as u8);
    buf.push(((v >> 8u32) & 0xff) as u8);
    buf.push(((v >> 16u32) & 0xff) as u8);
    buf.push(((v >> 24u32) & 0xff) as u8);
    assert(buf@ =~= old(buf)@ + le32(v));
}

fn push_le64(v: u64, buf: &mut Vec<u8>)
    ensures
        final(buf)@ == old(buf)@ + le64(v),
{
    buf.push((v & 0xff) as u8);
    buf.push(((v >> 8u64) & 0xff) as u8);
    buf.push(((v >> 16u64) & 0xff) as u8);
    buf.push(((v >> 24u64) & 0xff) as u8);
    buf.push(((v >> 32u64) & 0xff) as u8);
    buf.push(((v >> 40u64) & 0xff) as u8);
    buf.push(((v >> 48u64) & 0xff) as u8);
    buf.push(((v >> 56u64) & 0xff) as u8);
    assert(buf@ =~= old(buf)@ + le64(v));
}

// ─── Attribute values ──────────────────────────────────────────────────────

/// Whether a byte is an ASCII decimal digit.
pub open spec fn is_digit(b: u8) -> bool {
    48 <= b <= 57
}

/// The value of a run of decimal digits.
pub open spec fn digits_value(d: Seq<u8>) -> nat
    decreases d.len(),
{
    if d.len() == 0 {
        0
    } else {
        digits_value(d.drop_last()) * 10 + (d.last() - 48) as nat
    }
}

/// Length of the optional leading sign of integer text.
pub open spec fn sign_len(text: Seq<u8>) -> int {
    if text.len() > 0 && (text[0] == 45 || text[0] == 43) {
        1
    } else {
        0
    }
}

/// Whether text is what `str::parse::<i64>` accepts: an optional sign, then
/// one or more decimal digits whose value lies in the range of `i64`.
pub open spec fn is_i64_text(text: Seq<u8>) -> bool {
    let digits = text.skip(sign_len(text));
    &&& digits.len() > 0
    &&& forall|i: int| 0 <= i < digits.len() ==> is_digit(#[trigger] digits[i])
    &&& if text.len() > 0 && text[0] == 45 {
        digits_value(digits) <= 0x8000_0000_0000_0000
    } else {
        digits_value(digits) < 0x8000_0000_0000_0000
    }
}

proof fn lemma_digits_value_grows(d: Seq<u8>)
    requires
        d.len() > 0,
        is_digit(d.last()),
    ensures
        digits_value(d) >= digits_value(d.drop_last()),
{
}

/// Whether `text` parses as an `i64`.
pub fn parses_as_i64(text: &[u8]) -> (r: bool)
    ensures
        r == is_i64_text(text@),
{
    let signed = text.len() > 0 && (text[0] == 45 || text[0] == 43);
    let negative = text.len() > 0 && text[0] == 45;
    let start: usize = if signed { 1 } else { 0 };
    let ghost digits = text@.skip(sign_len(text@));
    if start >= text.len() {
        return false;
    }
    let mut value: u128 = 0;
    let mut big = false;
    let mut i: usize = start;
    while i < text.len()
        invariant
            start <= i <= text.len(),
            start < text.len(),
            digits == text@.skip(start as int),
            start == sign_len(text@),
            forall|k: int| start <= k < i ==> is_digit(#[trigger] text@[k]),
            big ==> digits_value(text@.subrange(start as int, i as int)) > 0x1_0000_0000_0000_0000,
            !big ==> value == digits_value(text@.subrange(start as int, i as int)),
            !big ==> value <= 0x1_0000_0000_0000_0000,
        decreases text.len() - i,
    {
        let b = text[i];
        if !(48 <= b && b <= 57) {
            assert(digits[i - start] == b);
            assert(!is_digit(digits[i - start]));
            return false;
        }
        let ghost prefix = text@.subrange(start as int, i as int);
        assert(text@.subrange(start as int, i + 1).drop_last() =~= prefix);
        if !big {
            let next = value * 10 + (b - 48) as u128;
            if next > 0x1_0000_0000_0000_0000 {
                big = true;
            } else {
                value = next;
            }
        } else {
            proof {
                lemma_digits_value_grows(text@.subrange(start as int, i + 1));
            }
        }
        i = i + 1;
    }
    assert(text@.subrange(start as int, i as int) =~= digits);
    if big {
        false
    } else if negative {
        value <= 0x8000_0000_0000_0000
    } else {
        value < 0x8000_0000_0000_0000
    }
}

/// A layer dictionary value: its text and, when the text parses as a double,
/// that double's IEEE-754 bit pattern.
pub struct MvtValue {
    pub text: String,
    pub parsed_double: Option<u64>,
}

/// The MVT `Value` message for a dictionary entry: integer text stays a
/// string value, other text that parses as a double becomes a double value,
/// anything else is a string value.
pub open spec fn value_bytes(text: Seq<u8>, parsed_double: Option<u64>) -> Seq<u8> {
    if is_i64_text(text) || parsed_double is None {
        bytes_field(1, text)
    } else {
        tag(3, 1) + le64(parsed_double->0)
    }
}

/// Encode an MVT `Value` message for `val`, given the bit pattern of `val`
/// parsed as a double when it parses as one.
pub fn encode_mvt_value(val: &str, parsed_double: Option<u64>) -> (buf: Vec<u8>)
    ensures
        buf@ == value_bytes(val.spec_bytes(), parsed_double),
{
    let bytes = val.as_bytes();
    let mut buf: Vec<u8> = Vec::new();
    if parses_as_i64(bytes) {
        encode_string_field(1, val, &mut buf);
    } else {
        match parsed_double {
            Some(bits) => {
                encode_tag(3, 1, &mut buf);
                push_le64(bits, &mut buf);
            },
            None => {
                encode_string_field(1, val, &mut buf);
            },
        }
    }
    buf
}

// ─── Tile encoding ─────────────────────────────────────────────────────────

/// One feature of a tile layer.
pub struct MvtFeature {
    pub geom_type: u32,
    pub commands: Vec<u32>,
    /// Packed `[key_index, value_index, ...]` pairs into the layer dictionary.
    pub tags: Vec<u32>,
    pub id: Option<u64>,
}

/// The `Feature` message of a feature.
pub open spec fn feature_bytes(f: MvtFeature) -> Seq<u8> {
    (match f.id {
        Some(id) => varint_field(1, id as nat),
        None => Seq::empty(),
    }) + (if f.tags@.len() == 0 {
        Seq::empty()
    } else {
        bytes_field(2, packed(f.tags@))
    }) + varint_field(3, f.geom_type as nat) + bytes_field(4, packed(f.commands@))
}

/// The repeated `features` fields of a layer.
pub open spec fn features_bytes(features: Seq<MvtFeature>) -> Seq<u8>
    decreases features.len(),
{
    if features.len() == 0 {
        Seq::empty()
    } else {
        features_bytes(features.drop_last()) + bytes_field(2, feature_bytes(features.last()))
    }
}

/// The repeated `keys` fields of a layer.
pub open spec fn keys_bytes(keys: Seq<String>) -> Seq<u8>
    decreases keys.len(),
{
    if keys.len() == 0 {
        Seq::empty()
    } else {
        keys_bytes(keys.drop_last()) + bytes_field(3, encode_utf8(keys.last()@))
    }
}

/// The repeated `values` fields of a layer.
pub open spec fn values_bytes(values: Seq<MvtValue>) -> Seq<u8>
    decreases values.len(),
{
    if values.len() == 0 {
        Seq::empty()
    } else {
        values_bytes(values.drop_last()) + bytes_field(
            4,
            value_bytes(encode_utf8(values.last().text@), values.last().parsed_double),
        )
    }
}

/// A tile holding one layer.
pub open spec fn tile_bytes(
    layer_name: Seq<u8>,
    extent: u32,
    keys: Seq<String>,
    values: Seq<MvtValue>,
    features: Seq<MvtFeature>,
) -> Seq<u8> {
    bytes_field(
        3,
        bytes_field(15, layer_name) + varint_field(1, extent as nat) + features_bytes(features)
            + keys_bytes(keys) + values_bytes(values),
    )
}

fn encode_feature(feat: &MvtFeature) -> (buf: Vec<u8>)
    ensures
        buf@ == feature_bytes(*feat),
{
    let mut buf: Vec<u8> = Vec::new();
    if let Some(id) = feat.id {
        encode_uint64_field(1, id, &mut buf);
    }
    let ghost after_id = buf@;
    if feat.tags.len() > 0 {
        let tag_buf = encode_packed(&feat.tags);
        encode_bytes_field(2, tag_buf.as_slice(), &mut buf);
    }
    let ghost after_tags = buf@;
    encode_uint32_field(3, feat.geom_type, &mut buf);
    let geom_buf = encode_packed(&feat.commands);
    encode_bytes_field(4, geom_buf.as_slice(), &mut buf);
    assert(buf@ =~= feature_bytes(*feat));
    buf
}

/// Build the final MVT tile bytes from a layer name, extent, and features.
pub fn build_mvt_tile(layer_name: &str, extent: u32, features: &[MvtFeature]) -> (tile: Vec<u8>)
    ensures
        tile@ == tile_bytes(layer_name.spec_bytes(), extent, Seq::empty(), Seq::empty(), features@),
{
    let keys: Vec<String> = Vec::new();
    let values: Vec<MvtValue> = Vec::new();
    build_mvt_tile_with_dictionary(layer_name, extent, keys.as_slice(), values.as_slice(), features)
}

/// Build the final MVT tile bytes with an explicit layer key/value dictionary.
///
/// Feature tags use MVT's packed `[key_index, value_index, ...]` encoding and
/// refer to the `keys` and `values` slices supplied here.
pub fn build_mvt_tile_with_dictionary(
    layer_name: &str,
    extent: u32,
    keys: &[String],
    values: &[MvtValue],
    features: &[MvtFeature],
) -> (tile: Vec<u8>)
    ensures
        tile@ == tile_bytes(layer_name.spec_bytes(), extent, keys@, values@, features@),
{
    let mut layer: Vec<u8> = Vec::new();
    encode_string_field(15, layer_name, &mut layer);
    encode_uint32_field(1, extent, &mut layer);
    let ghost head = layer@;
    let mut i: usize = 0;
    while i < features.len()
        invariant
            i <= features.len(),
            layer@ == head + features_bytes(features@.subrange(0, i as int)),
        decreases features.len() - i,
    {
        let ghost before = features@.subrange(0, i as int);
        let feat = encode_feature(&features[i]);
        encode_bytes_field(2, feat.as_slice(), &mut layer);
        i = i + 1;
        assert(features@.subrange(0, i as int).drop_last() =~= before);
        assert(layer@ =~= head + features_bytes(features@.subrange(0, i as int)));
    }
    assert(features@.subrange(0, i as int) =~= features@);
    let ghost with_features = layer@;
    let mut k: usize = 0;
    while k < keys.len()
        invariant
            k <= keys.len(),
            layer@ == with_features + keys_bytes(keys@.subrange(0, k as int)),
        decreases keys.len() - k,
    {
        let ghost before = keys@.subrange(0, k as int);
        encode_string_field(3, keys[k].as_str(), &mut layer);
        k = k + 1;
        assert(keys@.subrange(0, k as int).drop_last() =~= before);
        assert(layer@ =~= with_features + keys_bytes(keys@.subrange(0, k as int)));
    }
    assert(keys@.subrange(0, k as int) =~= keys@);
    let ghost with_keys = layer@;
    let mut v: usize = 0;
    while v < values.len()
        invariant
            v <= values.len(),
            layer@ == with_keys + values_bytes(values@.subrange(0, v as int)),
        decreases values.len() - v,
    {
        let ghost before = values@.subrange(0, v as int);
        let value = &values[v];
        let encoded = encode_mvt_value(value.text.as_str(), value.parsed_double);
        encode_bytes_field(4, encoded.as_slice(), &mut layer);
        v = v + 1;
        assert(values@.subrange(0, v as int).drop_last() =~= before);
        assert(layer@ =~= with_keys + values_bytes(values@.subrange(0, v as int)));
    }
    assert(values@.subrange(0, v as int) =~= values@);
    let mut tile: Vec<u8> = Vec::new();
    encode_bytes_field(3, layer.as_slice(), &mut tile);
    assert(tile@ =~= tile_bytes(layer_name.spec_bytes(), extent, keys@, values@, features@));
    tile
}


// ─── WKB geometry reading ─────────────────────────────────────────────────

/// Geometry kinds of the WKB type code.
#[derive(Debug, Clone, Copy, PartialEq, Eq, Structural)]
pub enum GeomType {
    Point,
    LineString,
    Polygon,
    MultiPoint,
    MultiLineString,
    MultiPolygon,
    GeometryCollection,
    Unknown(u32),
}

/// The geometry kind named by the low byte of a WKB type code.
pub open spec fn geom_type_of(code: u32) -> GeomType {
    let base = code & 0xFF;
    if base == 1 {
        GeomType::Point
    } else if base == 2 {
        GeomType::LineString
    } else if base == 3 {
        GeomType::Polygon
    } else if base == 4 {
        GeomType::MultiPoint
    } else if base == 5 {
        GeomType::MultiLineString
    } else if base == 6 {
        GeomType::MultiPolygon
    } else if base == 7 {
        GeomType::GeometryCollection
    } else {
        GeomType::Unknown(base)
    }
}

/// The MVT geometry type of a geometry kind, where it has one.
pub open spec fn mvt_type_of(t: GeomType) -> Option<u32> {
    match t {
        GeomType::Point | GeomType::MultiPoint => Some(1),
        GeomType::LineString | GeomType::MultiLineString => Some(2),
        GeomType::Polygon | GeomType::MultiPolygon => Some(3),
        _ => None,
    }
}

/// The WKB type code written for a geometry kind.
pub open spec fn type_code_of(t: GeomType) -> u32 {
    match t {
        GeomType::Point => 1,
        GeomType::LineString => 2,
        GeomType::Polygon => 3,
        GeomType::MultiPoint => 4,
        GeomType::MultiLineString => 5,
        GeomType::MultiPolygon => 6,
        GeomType::GeometryCollection => 7,
        GeomType::Unknown(c) => c,
    }
}

impl GeomType {
    pub fn from_u32(code: u32) -> (t: GeomType)
        ensures
            t == geom_type_of(code),
    {
        let base = code & 0xFF;
        if base == 1 {
            GeomType::Point
        } else if base == 2 {
            GeomType::LineString
        } else if base == 3 {
            GeomType::Polygon
        } else if base == 4 {
            GeomType::MultiPoint
        } else if base == 5 {
            GeomType::MultiLineString
        } else if base == 6 {
            GeomType::MultiPolygon
        } else if base == 7 {
            GeomType::GeometryCollection
        } else {
            GeomType::Unknown(base)
        }
    }

    pub fn mvt_type(&self) -> (m: Option<u32>)
        ensures
            m == mvt_type_of(*self),
    {
        match self {
            GeomType::Point | GeomType::MultiPoint => Some(1),
            GeomType::LineString | GeomType::MultiLineString => Some(2),
            GeomType::Polygon | GeomType::MultiPolygon => Some(3),
            _ => None,
        }
    }

    pub fn type_code(&self) -> (c: u32)
        ensures
            c == type_code_of(*self),
    {
        match self {
            GeomType::Point => 1,
            GeomType::LineString => 2,
            GeomType::Polygon => 3,
            GeomType::MultiPoint => 4,
            GeomType::MultiLineString => 5,
            GeomType::MultiPolygon => 6,
            GeomType::GeometryCollection => 7,
            GeomType::Unknown(c) => *c,
        }
    }
}

/// A WKB coordinate: the bit patterns of its x and y doubles.
pub type WkbCoord = (u64, u64);

/// A tile coordinate in integer pixel space.
pub type TileCoord = (i32, i32);

/// A parsed geometry in a flat coordinate representation.
pub struct ParsedGeom<C> {
    pub geom_type: GeomType,
    /// Flat list of rings, each ring a list of points.
    /// Point/LineString/MultiPoint: one ring. Polygon: outer + inner rings.
    /// MultiLineString/MultiPolygon: rings of all parts concatenated.
    pub rings: Vec<Vec<C>>,
    /// For MultiPolygon: number of rings of each polygon.
    pub sub_geom_ring_counts: Option<Vec<usize>>,
    pub srid: Option<i32>,
}

/// The mathematical content of a parsed geometry.
pub struct GeomModel<C> {
    pub geom_type: GeomType,
    pub rings: Seq<Seq<C>>,
    pub ring_counts: Option<Seq<usize>>,
    pub srid: Option<i32>,
}

/// The rings of a geometry as sequences.
pub open spec fn rings_view<C>(rings: Seq<Vec<C>>) -> Seq<Seq<C>> {
    rings.map_values(|r: Vec<C>| r@)
}

impl<C> View for ParsedGeom<C> {
    type V = GeomModel<C>;

    open spec fn view(&self) -> GeomModel<C> {
        GeomModel {
            geom_type: self.geom_type,
            rings: rings_view(self.rings@),
            ring_counts: match self.sub_geom_ring_counts {
                Some(c) => Some(c@),
                None => None,
            },
            srid: self.srid,
        }
    }
}

/// A 32-bit value read at `off` in the given byte order.
#[verifier::opaque]
pub open spec fn u32_at(b: Seq<u8>, off: int, le: bool) -> u32 {
    if le {
        (b[off] + 0x100 * b[off + 1] + 0x1_0000 * b[off + 2] + 0x100_0000 * b[off + 3]) as u32
    } else {
        (b[off + 3] + 0x100 * b[off + 2] + 0x1_0000 * b[off + 1] + 0x100_0000 * b[off]) as u32
    }
}

/// A 64-bit value read at `off` in the given byte order.
pub open spec fn u64_at(b: Seq<u8>, off: int, le: bool) -> u64 {
    if le {
        (u32_at(b, off, true) + 0x1_0000_0000 * u32_at(b, off + 4, true)) as u64
    } else {
        (u32_at(b, off + 4, false) + 0x1_0000_0000 * u32_at(b, off, false)) as u64
    }
}

/// A coordinate read at `off`.
pub open spec fn coord_at(b: Seq<u8>, off: int, le: bool) -> WkbCoord {
    (u64_at(b, off, le), u64_at(b, off + 8, le))
}

/// Up to `n` coordinates from `off`, each preceded by `skip` header bytes;
/// reading stops at the first coordinate that does not fit in `b`.
pub open spec fn read_coords(b: Seq<u8>, off: int, n: nat, skip: int, le: bool) -> Seq<WkbCoord>
    decreases n,
{
    if n == 0 || off + skip + 16 > b.len() {
        Seq::empty()
    } else {
        seq![coord_at(b, off + skip, le)] + read_coords(b, off + skip + 16, (n - 1) as nat, skip, le)
    }
}

/// Where `read_coords` stops reading.
pub open spec fn coords_end(b: Seq<u8>, off: int, n: nat, skip: int) -> int
    decreases n,
{
    if n == 0 || off + skip + 16 > b.len() {
        off
    } else {
        coords_end(b, off + skip + 16, (n - 1) as nat, skip)
    }
}

/// Up to `n` counted rings from `off`, each preceded by `skip` header bytes,
/// and where reading stops.
pub open spec fn read_rings(b: Seq<u8>, off: int, n: nat, skip: int, le: bool) -> (Seq<Seq<WkbCoord>>, int)
    decreases n,
{
    if n == 0 || off + skip + 4 > b.len() {
        (Seq::empty(), off)
    } else {
        let count = u32_at(b, off + skip, le) as nat;
        let start = off + skip + 4;
        let rest = read_rings(b, coords_end(b, start, count, 0), (n - 1) as nat, skip, le);
        (seq![read_coords(b, start, count, 0, le)] + rest.0, rest.1)
    }
}

/// Up to `n` polygons from `off`: their rings, concatenated, and the ring
/// count each declares.
pub open spec fn read_polygons(b: Seq<u8>, off: int, n: nat, le: bool) -> (Seq<Seq<WkbCoord>>, Seq<usize>)
    decreases n,
{
    if n == 0 || off + 9 > b.len() {
        (Seq::empty(), Seq::empty())
    } else {
        let count = u32_at(b, off + 5, le);
        let rings = read_rings(b, off + 9, count as nat, 0, le);
        let rest = read_polygons(b, rings.1, (n - 1) as nat, le);
        (rings.0 + rest.0, seq![count as usize] + rest.1)
    }
}

/// A geometry with no per-polygon ring counts.
pub open spec fn simple_model(t: GeomType, srid: Option<i32>, rings: Seq<Seq<WkbCoord>>) -> GeomModel<WkbCoord> {
    GeomModel { geom_type: t, rings, ring_counts: None, srid }
}

/// What `parse_wkb` reads from WKB bytes.
#[verifier::opaque]
pub open spec fn wkb_model(b: Seq<u8>) -> Option<GeomModel<WkbCoord>> {
    if b.len() < 5 {
        None
    } else {
        let le = b[0] == 1;
        let code = u32_at(b, 1, le);
        let base = code & 0xFF;
        let has_srid = code & 0x2000_0000 != 0;
        let srid = if has_srid && b.len() >= 9 { Some(u32_at(b, 5, le) as i32) } else { None };
        let off: int = if has_srid { 9 } else { 5 };
        let t = geom_type_of(base);
        if base == 1 {
            if off + 16 > b.len() { None } else { Some(simple_model(t, srid, seq![seq![coord_at(b, off, le)]])) }
        } else if 2 <= base <= 6 {
            if off + 4 > b.len() {
                None
            } else {
                let n = u32_at(b, off, le) as nat;
                if base == 2 {
                    Some(simple_model(t, srid, seq![read_coords(b, off + 4, n, 0, le)]))
                } else if base == 3 {
                    Some(simple_model(t, srid, read_rings(b, off + 4, n, 0, le).0))
                } else if base == 4 {
                    Some(simple_model(t, srid, seq![read_coords(b, off + 4, n, 5, le)]))
                } else if base == 5 {
                    Some(simple_model(t, srid, read_rings(b, off + 4, n, 5, le).0))
                } else {
                    let polys = read_polygons(b, off + 4, n, le);
                    Some(GeomModel {
                        geom_type: GeomType::MultiPolygon,
                        rings: polys.0,
                        ring_counts: Some(polys.1),
                        srid,
                    })
                }
            }
        } else {
            Some(simple_model(t, srid, Seq::empty()))
        }
    }
}

fn read_u32(buf: &[u8], off: usize, le: bool) -> (v: u32)
    requires
        off + 4 <= buf@.len(),
    ensures
        v == u32_at(buf@, off as int, le),
{
    reveal(u32_at);
    let b0 = buf[off] as u32;
    let b1 = buf[off + 1] as u32;
    let b2 = buf[off + 2] as u32;
    let b3 = buf[off + 3] as u32;
    if le {
        b0 + 0x100 * b1 + 0x1_0000 * b2 + 0x100_0000 * b3
    } else {
        b3 + 0x100 * b2 + 0x1_0000 * b1 + 0x100_0000 * b0
    }
}

fn read_u64(buf: &[u8], off: usize, le: bool) -> (v: u64)
    requires
        off + 8 <= buf@.len(),
    ensures
        v == u64_at(buf@, off as int, le),
{
    let len = buf.len();
    assert(off + 8 <= len);
    if le {
        read_u32(buf, off, true) as u64 + 0x1_0000_0000 * (read_u32(buf, off + 4, true) as u64)
    } else {
        read_u32(buf, off + 4, false) as u64 + 0x1_0000_0000 * (read_u32(buf, off, false) as u64)
    }
}

fn read_coords_from(buf: &[u8], off: usize, n: u32, skip: usize, le: bool) -> (r: (Vec<WkbCoord>, usize))
    requires
        off <= buf@.len(),
        skip <= 5,
    ensures
        r.0@ == read_coords(buf@, off as int, n as nat, skip as int, le),
        r.1 == coords_end(buf@, off as int, n as nat, skip as int),
        r.1 <= buf@.len(),
{
    let mut pts: Vec<WkbCoord> = Vec::new();
    let mut at = off;
    let mut i: u32 = 0;
    while i < n
        invariant
            i <= n,
            at <= buf@.len(),
            skip <= 5,
            pts@ + read_coords(buf@, at as int, (n - i) as nat, skip as int, le)
                == read_coords(buf@, off as int, n as nat, skip as int, le),
            coords_end(buf@, at as int, (n - i) as nat, skip as int)
                == coords_end(buf@, off as int, n as nat, skip as int),
        ensures
            read_coords(buf@, at as int, (n - i) as nat, skip as int, le) == Seq::<WkbCoord>::empty(),
            coords_end(buf@, at as int, (n - i) as nat, skip as int) == at,
            at <= buf@.len(),
        decreases n - i,
    {
        if buf.len() - at < skip + 16 {
            break;
        }
        let start = at + skip;
        let c = (read_u64(buf, start, le), read_u64(buf, start + 8, le));
        let ghost before = pts@;
        pts.push(c);
        assert(pts@ + read_coords(buf@, (start + 16) as int, (n - i - 1) as nat, skip as int, le)
            =~= before + read_coords(buf@, at as int, (n - i) as nat, skip as int, le));
        at = start + 16;
        i = i + 1;
    }
    assert(pts@ =~= read_coords(buf@, off as int, n as nat, skip as int, le));
    (pts, at)
}

fn read_rings_from(buf: &[u8], off: usize, n: u32, skip: usize, le: bool) -> (r: (Vec<Vec<WkbCoord>>, usize))
    requires
        off <= buf@.len(),
        skip <= 5,
    ensures
        rings_view(r.0@) == read_rings(buf@, off as int, n as nat, skip as int, le).0,
        r.1 == read_rings(buf@, off as int, n as nat, skip as int, le).1,
        r.1 <= buf@.len(),
{
    let mut rings: Vec<Vec<WkbCoord>> = Vec::new();
    let mut at = off;
    let mut i: u32 = 0;
    while i < n
        invariant
            i <= n,
            at <= buf@.len(),
            skip <= 5,
            rings_view(rings@) + read_rings(buf@, at as int, (n - i) as nat, skip as int, le).0
                == read_rings(buf@, off as int, n as nat, skip as int, le).0,
            read_rings(buf@, at as int, (n - i) as nat, skip as int, le).1
                == read_rings(buf@, off as int, n as nat, skip as int, le).1,
        ensures
            read_rings(buf@, at as int, (n - i) as nat, skip as int, le).0 == Seq::<Seq<WkbCoord>>::empty(),
            read_rings(buf@, at as int, (n - i) as nat, skip as int, le).1 == at,
            at <= buf@.len(),
        decreases n - i,
    {
        if buf.len() - at < skip + 4 {
            break;
        }
        let count = read_u32(buf, at + skip, le);
        let (pts, next) = read_coords_from(buf, at + skip + 4, count, 0, le);
        let ghost before = rings_view(rings@);
        rings.push(pts);
        assert(rings_view(rings@) =~= before.push(pts@));
        assert(rings_view(rings@) + read_rings(buf@, next as int, (n - i - 1) as nat, skip as int, le).0
            =~= before + read_rings(buf@, at as int, (n - i) as nat, skip as int, le).0);
        at = next;
        i = i + 1;
    }
    assert(rings_view(rings@) =~= read_rings(buf@, off as int, n as nat, skip as int, le).0);
    (rings, at)
}

fn read_polygons_from(buf: &[u8], off: usize, n: u32, le: bool) -> (r: (Vec<Vec<WkbCoord>>, Vec<usize>))
    requires
        off <= buf@.len(),
    ensures
        rings_view(r.0@) == read_polygons(buf@, off as int, n as nat, le).0,
        r.1@ == read_polygons(buf@, off as int, n as nat, le).1,
{
    let mut rings: Vec<Vec<WkbCoord>> = Vec::new();
    let mut counts: Vec<usize> = Vec::new();
    let mut at = off;
    let mut i: u32 = 0;
    while i < n
        invariant
            i <= n,
            at <= buf@.len(),
            rings_view(rings@) + read_polygons(buf@, at as int, (n - i) as nat, le).0
                == read_polygons(buf@, off as int, n as nat, le).0,
            counts@ + read_polygons(buf@, at as int, (n - i) as nat, le).1
                == read_polygons(buf@, off as int, n as nat, le).1,
        ensures
            read_polygons(buf@, at as int, (n - i) as nat, le).0 == Seq::<Seq<WkbCoord>>::empty(),
            read_polygons(buf@, at as int, (n - i) as nat, le).1 == Seq::<usize>::empty(),
        decreases n - i,
    {
        if buf.len() - at < 9 {
            break;
        }
        let count = read_u32(buf, at + 5, le);
        let (mut part, next) = read_rings_from(buf, at + 9, count, 0, le);
        let ghost before = rings_view(rings@);
        let ghost before_counts = counts@;
        let ghost part_view = rings_view(part@);
        rings.append(&mut part);
        assert(rings_view(rings@) =~= before + part_view);
        counts.push(count as usize);
        assert(rings_view(rings@) + read_polygons(buf@, next as int, (n - i - 1) as nat, le).0
            =~= before + read_polygons(buf@, at as int, (n - i) as nat, le).0);
        assert(counts@ + read_polygons(buf@, next as int, (n - i - 1) as nat, le).1
            =~= before_counts + read_polygons(buf@, at as int, (n - i) as nat, le).1);
        at = next;
        i = i + 1;
    }
    assert(rings_view(rings@) =~= read_polygons(buf@, off as int, n as nat, le).0);
    assert(counts@ =~= read_polygons(buf@, off as int, n as nat, le).1);
    (rings, counts)
}

/// Parse WKB bytes into a ParsedGeom.
pub fn parse_wkb(wkb: &[u8]) -> (g: Option<ParsedGeom<WkbCoord>>)
    ensures
        match g {
            Some(g) => wkb_model(wkb@) == Some(g@),
            None => wkb_model(wkb@) is None,
        },
{
    proof {
        reveal(wkb_model);
    }
    if wkb.len() < 5 {
        return None;
    }
    let le = wkb[0] == 1;
    let type_code = read_u32(wkb, 1, le);
    let base_type = type_code & 0xFF;
    let has_srid = type_code & 0x2000_0000 != 0;
    let srid = if has_srid && wkb.len() >= 9 {
        Some(read_u32(wkb, 5, le) as i32)
    } else {
        None
    };
    let off: usize = if has_srid { 9 } else { 5 };
    let geom_type = GeomType::from_u32(base_type);
    if base_type == 1 {
        if off > wkb.len() || wkb.len() - off < 16 {
            return None;
        }
        let c = (read_u64(wkb, off, le), read_u64(wkb, off + 8, le));
        let mut ring: Vec<WkbCoord> = Vec::new();
        ring.push(c);
        let mut rings: Vec<Vec<WkbCoord>> = Vec::new();
        rings.push(ring);
        let g = ParsedGeom { geom_type, rings, sub_geom_ring_counts: None, srid };
        assert(g@.rings =~= seq![seq![coord_at(wkb@, off as int, le)]]);
        return Some(g);
    }
    if base_type >= 2 && base_type <= 6 {
        if off > wkb.len() || wkb.len() - off < 4 {
            return None;
        }
        let n = read_u32(wkb, off, le);
        if base_type == 6 {
            let (rings, counts) = read_polygons_from(wkb, off + 4, n, le);
            return Some(ParsedGeom {
                geom_type: GeomType::MultiPolygon,
                rings,
                sub_geom_ring_counts: Some(counts),
                srid,
            });
        }
        let rings = if base_type == 2 || base_type == 4 {
            let skip: usize = if base_type == 4 { 5 } else { 0 };
            let (pts, _) = read_coords_from(wkb, off + 4, n, skip, le);
            let mut rings: Vec<Vec<WkbCoord>> = Vec::new();
            let ghost pts_view = pts@;
            rings.push(pts);
            assert(rings_view(rings@) =~= seq![pts_view]);
            rings
        } else {
            let skip: usize = if base_type == 5 { 5 } else { 0 };
            let (rings, _) = read_rings_from(wkb, off + 4, n, skip, le);
            rings
        };
        return Some(ParsedGeom { geom_type, rings, sub_geom_ring_counts: None, srid });
    }
    let rings: Vec<Vec<WkbCoord>> = Vec::new();
    let g = ParsedGeom { geom_type, rings, sub_geom_ring_counts: None, srid };
    assert(g@.rings =~= Seq::<Seq<WkbCoord>>::empty());
    Some(g)
}


// ─── WKB geometry writing ─────────────────────────────────────────────────

/// The bytes of one coordinate.
pub open spec fn coord_bytes(c: WkbCoord) -> Seq<u8> {
    le64(c.0) + le64(c.1)
}

/// The bytes of coordinates, each preceded by `header`.
pub open spec fn coords_bytes(pts: Seq<WkbCoord>, header: Seq<u8>) -> Seq<u8>
    decreases pts.len(),
{
    if pts.len() == 0 {
        Seq::empty()
    } else {
        coords_bytes(pts.drop_last(), header) + header + coord_bytes(pts.last())
    }
}

/// The bytes of a counted ring.
pub open spec fn ring_bytes(ring: Seq<WkbCoord>) -> Seq<u8> {
    le32(ring.len() as u32) + coords_bytes(ring, Seq::empty())
}

/// The bytes of counted rings, each preceded by `header`.
pub open spec fn rings_bytes(rings: Seq<Seq<WkbCoord>>, header: Seq<u8>) -> Seq<u8>
    decreases rings.len(),
{
    if rings.len() == 0 {
        Seq::empty()
    } else {
        rings_bytes(rings.drop_last(), header) + header + ring_bytes(rings.last())
    }
}

/// The header of a little-endian part of a multi-geometry.
pub open spec fn part_header(code: u32) -> Seq<u8> {
    seq![1u8] + le32(code)
}

/// The sum of ring counts.
pub open spec fn count_sum(counts: Seq<usize>) -> nat
    decreases counts.len(),
{
    if counts.len() == 0 {
        0
    } else {
        count_sum(counts.drop_last()) + counts.last() as nat
    }
}

/// How many rings the first polygons of a MultiPolygon take.
pub open spec fn rings_taken(counts: Seq<usize>, ring_total: nat) -> nat {
    if count_sum(counts) <= ring_total { count_sum(counts) } else { ring_total }
}

/// The polygon parts of a MultiPolygon: each declares its ring count and
/// carries the next rings, as many of them as remain.
pub open spec fn polygons_bytes(counts: Seq<usize>, rings: Seq<Seq<WkbCoord>>) -> Seq<u8>
    decreases counts.len(),
{
    if counts.len() == 0 {
        Seq::empty()
    } else {
        let pre = counts.drop_last();
        let from = rings_taken(pre, rings.len());
        let to = rings_taken(counts, rings.len());
        polygons_bytes(pre, rings) + part_header(3) + le32(counts.last() as u32) + rings_bytes(
            rings.subrange(from as int, to as int),
            Seq::empty(),
        )
    }
}

/// The first ring of a geometry, or no points.
pub open spec fn first_ring<C>(rings: Seq<Seq<C>>) -> Seq<C> {
    if rings.len() > 0 { rings[0] } else { Seq::empty() }
}

/// Little-endian WKB of a geometry, without SRID.
pub open spec fn wkb_bytes(g: GeomModel<WkbCoord>) -> Seq<u8> {
    let body = match g.geom_type {
        GeomType::Point => if g.rings.len() > 0 && g.rings[0].len() > 0 {
            coord_bytes(g.rings[0][0])
        } else {
            Seq::empty()
        },
        GeomType::LineString => ring_bytes(first_ring(g.rings)),
        GeomType::Polygon => le32(g.rings.len() as u32) + rings_bytes(g.rings, Seq::empty()),
        GeomType::MultiPoint => le32(first_ring(g.rings).len() as u32) + coords_bytes(
            first_ring(g.rings),
            part_header(1),
        ),
        GeomType::MultiLineString => le32(g.rings.len() as u32) + rings_bytes(g.rings, part_header(2)),
        GeomType::MultiPolygon => {
            let counts = match g.ring_counts {
                Some(c) => c,
                None => seq![g.rings.len() as usize],
            };
            le32(counts.len() as u32) + polygons_bytes(counts, g.rings)
        },
        _ => le32(0),
    };
    seq![1u8] + le32(type_code_of(g.geom_type)) + body
}

fn push_coord(c: WkbCoord, buf: &mut Vec<u8>)
    ensures
        final(buf)@ == old(buf)@ + coord_bytes(c),
{
    push_le64(c.0, buf);
    push_le64(c.1, buf);
    assert(buf@ =~= old(buf)@ + coord_bytes(c));
}

fn push_coords(pts: &Vec<WkbCoord>, part: Option<u32>, buf: &mut Vec<u8>)
    ensures
        final(buf)@ == old(buf)@ + coords_bytes(
            pts@,
            match part {
                Some(code) => part_header(code),
                None => Seq::empty(),
            },
        ),
{
    let ghost header = match part {
        Some(code) => part_header(code),
        None => Seq::<u8>::empty(),
    };
    let mut i: usize = 0;
    while i < pts.len()
        invariant
            i <= pts.len(),
            header == (match part {
                Some(code) => part_header(code),
                None => Seq::<u8>::empty(),
            }),
            buf@ == old(buf)@ + coords_bytes(pts@.subrange(0, i as int), header),
        decreases pts.len() - i,
    {
        let ghost before = buf@;
        let ghost prefix = pts@.subrange(0, i as int);
        if let Some(code) = part {
            buf.push(1);
            push_le32(code, buf);
        }
        assert(buf@ =~= before + header);
        push_coord(pts[i], buf);
        i = i + 1;
        assert(pts@.subrange(0, i as int).drop_last() =~= prefix);
        assert(buf@ =~= old(buf)@ + coords_bytes(pts@.subrange(0, i as int), header));
    }
    assert(pts@.subrange(0, i as int) =~= pts@);
}

fn push_ring(ring: &Vec<WkbCoord>, buf: &mut Vec<u8>)
    ensures
        final(buf)@ == old(buf)@ + ring_bytes(ring@),
{
    push_le32(ring.len() as u32, buf);
    push_coords(ring, None, buf);
    assert(buf@ =~= old(buf)@ + ring_bytes(ring@));
}

fn push_rings(rings: &Vec<Vec<WkbCoord>>, from: usize, to: usize, part: Option<u32>, buf: &mut Vec<u8>)
    requires
        from <= to <= rings.len(),
    ensures
        final(buf)@ == old(buf)@ + rings_bytes(
            rings_view(rings@).subrange(from as int, to as int),
            match part {
                Some(code) => part_header(code),
                None => Seq::empty(),
            },
        ),
{
    let ghost header = match part {
        Some(code) => part_header(code),
        None => Seq::<u8>::empty(),
    };
    let ghost all = rings_view(rings@);
    let mut i: usize = from;
    while i < to
        invariant
            from <= i <= to <= rings.len(),
            all == rings_view(rings@),
            header == (match part {
                Some(code) => part_header(code),
                None => Seq::<u8>::empty(),
            }),
            buf@ == old(buf)@ + rings_bytes(all.subrange(from as int, i as int), header),
        decreases to - i,
    {
        let ghost before = buf@;
        let ghost prefix = all.subrange(from as int, i as int);
        if let Some(code) = part {
            buf.push(1);
            push_le32(code, buf);
        }
        assert(buf@ =~= before + header);
        push_ring(&rings[i], buf);
        i = i + 1;
        assert(all.subrange(from as int, i as int).drop_last() =~= prefix);
        assert(all.subrange(from as int, i as int).last() == rings@[i - 1]@);
        assert(buf@ =~= old(buf)@ + rings_bytes(all.subrange(from as int, i as int), header));
    }
}

proof fn lemma_rings_taken_step(counts: Seq<usize>, total: nat)
    requires
        counts.len() > 0,
    ensures
        rings_taken(counts, total) == (if rings_taken(counts.drop_last(), total) + counts.last() <= total {
            rings_taken(counts.drop_last(), total) + counts.last()
        } else {
            total as int
        }),
{
}

impl ParsedGeom<WkbCoord> {
    /// Encode back to WKB (little-endian, no SRID flag).
    pub fn to_wkb(&self) -> (wkb: Vec<u8>)
        ensures
            wkb@ == wkb_bytes(self@),
    {
        let type_code = self.geom_type.type_code();
        let mut buf: Vec<u8> = Vec::new();
        buf.push(1);
        push_le32(type_code, &mut buf);
        let ghost head = buf@;
        let ghost g = self@;
        match self.geom_type {
            GeomType::Point => {
                if self.rings.len() > 0 && self.rings[0].len() > 0 {
                    push_coord(self.rings[0][0], &mut buf);
                }
            },
            GeomType::LineString | GeomType::MultiPoint => {
                let empty: Vec<WkbCoord> = Vec::new();
                let ring = if self.rings.len() > 0 { &self.rings[0] } else { &empty };
                assert(ring@ == first_ring(g.rings));
                push_le32(ring.len() as u32, &mut buf);
                let part = if self.geom_type == GeomType::MultiPoint { Some(1u32) } else { None };
                push_coords(ring, part, &mut buf);
            },
            GeomType::Polygon | GeomType::MultiLineString => {
                push_le32(self.rings.len() as u32, &mut buf);
                let part = if self.geom_type == GeomType::MultiLineString { Some(2u32) } else { None };
                push_rings(&self.rings, 0, self.rings.len(), part, &mut buf);
                assert(rings_view(self.rings@).subrange(0, self.rings.len() as int) =~= g.rings);
            },
            GeomType::MultiPolygon => {
                let whole: Vec<usize> = vec![self.rings.len()];
                let counts = match &self.sub_geom_ring_counts {
                    Some(c) => c,
                    None => &whole,
                };
                let ghost cs = counts@;
                assert(cs == (match g.ring_counts {
                    Some(c) => c,
                    None => seq![g.rings.len() as usize],
                }));
                push_le32(counts.len() as u32, &mut buf);
                let ghost with_count = buf@;
                let mut ring_idx: usize = 0;
                let mut p: usize = 0;
                while p < counts.len()
                    invariant
                        p <= counts.len(),
                        cs == counts@,
                        g == self@,
                        ring_idx == rings_taken(cs.subrange(0, p as int), self.rings.len() as nat),
                        ring_idx <= self.rings.len(),
                        buf@ == with_count + polygons_bytes(cs.subrange(0, p as int), g.rings),
                    decreases counts.len() - p,
                {
                    let ring_count = counts[p];
                    let ghost pre = cs.subrange(0, p as int);
                    buf.push(1);
                    push_le32(3, &mut buf);
                    push_le32(ring_count as u32, &mut buf);
                    let from = ring_idx;
                    let to = if ring_count <= self.rings.len() - ring_idx {
                        ring_idx + ring_count
                    } else {
                        self.rings.len()
                    };
                    push_rings(&self.rings, from, to, None, &mut buf);
                    ring_idx = to;
                    p = p + 1;
                    assert(cs.subrange(0, p as int).drop_last() =~= pre);
                    proof {
                        lemma_rings_taken_step(cs.subrange(0, p as int), self.rings.len() as nat);
                    }
                    assert(buf@ =~= with_count + polygons_bytes(cs.subrange(0, p as int), g.rings));
                }
                assert(cs.subrange(0, p as int) =~= cs);
            },
            _ => {
                push_le32(0, &mut buf);
            },
        }
        assert(buf@ =~= wkb_bytes(self@));
        buf
    }
}


// ─── MVT geometry encoding ─────────────────────────────────────────────────

/// A zig-zag encoded parameter integer.
pub open spec fn param(d: int) -> u32 {
    zigzag(d) as u32
}

/// Whether an integer fits in `i32`.
pub open spec fn fits_i32(d: int) -> bool {
    i32::MIN <= d <= i32::MAX
}

/// The point before `pts[k]` in a delta-encoded run that starts at `start`.
pub open spec fn previous(pts: Seq<TileCoord>, k: int, start: TileCoord) -> TileCoord {
    if k == 0 { start } else { pts[k - 1] }
}

/// The parameter pairs of points, each relative to the one before it.
pub open spec fn deltas(pts: Seq<TileCoord>, start: TileCoord) -> Seq<u32>
    decreases pts.len(),
{
    if pts.len() == 0 {
        Seq::empty()
    } else {
        let prev = previous(pts, pts.len() - 1, start);
        deltas(pts.drop_last(), start) + seq![
            param(pts.last().0 - prev.0),
            param(pts.last().1 - prev.1),
        ]
    }
}

/// Whether every step of a delta-encoded run fits in `i32`.
pub open spec fn deltas_fit(pts: Seq<TileCoord>, start: TileCoord) -> bool {
    forall|k: int|
        0 <= k < pts.len() ==> fits_i32(#[trigger] pts[k].0 - previous(pts, k, start).0) && fits_i32(
            pts[k].1 - previous(pts, k, start).1,
        )
}

/// MoveTo the first point of a non-empty ring, then LineTo the others.
pub open spec fn line_commands(ring: Seq<TileCoord>) -> Seq<u32> {
    seq![9u32, param(ring[0].0 as int), param(ring[0].1 as int), 16u32 | ((ring.len() - 1) as u32)]
        + deltas(ring.skip(1), ring[0])
}

/// The commands of every non-empty ring as a line.
pub open spec fn lines_commands(rings: Seq<Seq<TileCoord>>) -> Seq<u32>
    decreases rings.len(),
{
    if rings.len() == 0 {
        Seq::empty()
    } else {
        lines_commands(rings.drop_last()) + if rings.last().len() == 0 {
            Seq::empty()
        } else {
            line_commands(rings.last())
        }
    }
}

/// The ring counts a polygon geometry is drawn by: its own, or one polygon
/// holding every ring.
pub open spec fn polygon_ring_counts(g: GeomModel<TileCoord>) -> Seq<usize> {
    match g.ring_counts {
        Some(c) => c,
        None => seq![g.rings.len() as usize],
    }
}

/// Where polygon `k` starts in the flat ring list: after the rings of every
/// polygon before it.
pub open spec fn polygon_start(counts: Seq<usize>, k: int) -> nat {
    count_sum(counts.take(k))
}

/// The closed outline of each polygon's exterior ring, its holes skipped;
/// `None` when a polygon starts past the last ring.
pub open spec fn polygons_commands(rings: Seq<Seq<TileCoord>>, counts: Seq<usize>) -> Option<Seq<u32>>
    decreases counts.len(),
{
    if counts.len() == 0 {
        Some(Seq::empty())
    } else {
        match polygons_commands(rings, counts.drop_last()) {
            None => None,
            Some(before) => {
                let start = count_sum(counts.drop_last());
                if start >= rings.len() {
                    None
                } else {
                    let outer = rings[start as int];
                    Some(before + if outer.len() == 0 {
                        Seq::empty()
                    } else {
                        line_commands(outer) + seq![56u32]
                    })
                }
            },
        }
    }
}

/// The MVT type and commands of a tile geometry: points as one MoveTo run,
/// lines as MoveTo/LineTo per non-empty ring, polygons as MoveTo/LineTo/
/// ClosePath of each polygon's exterior ring.
pub open spec fn mvt_commands(g: GeomModel<TileCoord>) -> Option<(u32, Seq<u32>)> {
    match mvt_type_of(g.geom_type) {
        None => None,
        Some(t) => if t == 1 {
            if g.rings.len() == 0 || g.rings[0].len() == 0 {
                None
            } else {
                Some((t, seq![8u32 | (g.rings[0].len() as u32)] + deltas(g.rings[0], (0i32, 0i32))))
            }
        } else if t == 2 {
            Some((t, lines_commands(g.rings)))
        } else {
            match polygons_commands(g.rings, polygon_ring_counts(g)) {
                None => None,
                Some(c) => Some((t, c)),
            }
        },
    }
}

/// Whether every coordinate step the encoder takes fits in `i32`.
pub open spec fn mvt_steps_fit(g: GeomModel<TileCoord>) -> bool {
    match mvt_type_of(g.geom_type) {
        Some(t) => if t == 1 {
            g.rings.len() > 0 ==> deltas_fit(g.rings[0], (0i32, 0i32))
        } else if t == 2 {
            forall|i: int|
                0 <= i < g.rings.len() && g.rings[i].len() > 0 ==> deltas_fit(
                    #[trigger] g.rings[i].skip(1),
                    g.rings[i][0],
                )
        } else {
            let counts = polygon_ring_counts(g);
            forall|k: int|
                0 <= k < counts.len() && #[trigger] polygon_start(counts, k) < g.rings.len()
                    && g.rings[polygon_start(counts, k) as int].len() > 0 ==> deltas_fit(
                    g.rings[polygon_start(counts, k) as int].skip(1),
                    g.rings[polygon_start(counts, k) as int][0],
                )
        },
        None => true,
    }
}

proof fn lemma_polygon_start_step(counts: Seq<usize>, k: int)
    requires
        0 <= k < counts.len(),
    ensures
        polygon_start(counts, 0) == 0,
        polygon_start(counts, k + 1) == polygon_start(counts, k) + counts[k],
        counts.take(k + 1).drop_last() == counts.take(k),
{
    assert(counts.take(0) =~= Seq::<usize>::empty());
    assert(counts.take(k + 1).drop_last() =~= counts.take(k));
    assert(counts.take(k + 1).last() == counts[k]);
}

proof fn lemma_polygons_none_extends(rings: Seq<Seq<TileCoord>>, counts: Seq<usize>, k: int)
    requires
        0 <= k <= counts.len(),
        polygons_commands(rings, counts.take(k)) is None,
    ensures
        polygons_commands(rings, counts) is None,
    decreases counts.len() - k,
{
    if k < counts.len() {
        lemma_polygon_start_step(counts, k);
        lemma_polygons_none_extends(rings, counts, k + 1);
    } else {
        assert(counts.take(k) =~= counts);
    }
}

fn push_deltas(pts: &Vec<TileCoord>, from: usize, start: TileCoord, commands: &mut Vec<u32>)
    requires
        from <= pts.len(),
        deltas_fit(pts@.skip(from as int), start),
    ensures
        final(commands)@ == old(commands)@ + deltas(pts@.skip(from as int), start),
{
    let ghost run = pts@.skip(from as int);
    let mut prev = start;
    let mut i: usize = from;
    while i < pts.len()
        invariant
            from <= i <= pts.len(),
            run == pts@.skip(from as int),
            deltas_fit(run, start),
            prev == previous(run, i - from, start),
            commands@ == old(commands)@ + deltas(run.subrange(0, i - from), start),
        decreases pts.len() - i,
    {
        let p = pts[i];
        let k: usize = i - from;
        assert(run[k as int] == p);
        assert(fits_i32(run[k as int].0 - previous(run, k as int, start).0));
        let dx = encode_zigzag32(p.0 - prev.0);
        let dy = encode_zigzag32(p.1 - prev.1);
        let ghost before = run.subrange(0, k as int);
        commands.push(dx);
        commands.push(dy);
        prev = p;
        i = i + 1;
        assert(run.subrange(0, i - from).drop_last() =~= before);
        assert(commands@ =~= old(commands)@ + deltas(run.subrange(0, i - from), start));
    }
    assert(run.subrange(0, i - from) =~= run);
}

fn push_line(ring: &Vec<TileCoord>, commands: &mut Vec<u32>)
    requires
        ring.len() > 0,
        deltas_fit(ring@.skip(1), ring@[0]),
    ensures
        final(commands)@ == old(commands)@ + line_commands(ring@),
{
    let first = ring[0];
    commands.push(9);
    commands.push(encode_zigzag32(first.0));
    commands.push(encode_zigzag32(first.1));
    commands.push(16u32 | ((ring.len() - 1) as u32));
    push_deltas(ring, 1, first, commands);
    assert(commands@ =~= old(commands)@ + line_commands(ring@));
}

#[verifier::rlimit(40)]
fn steps_fit_from(pts: &Vec<TileCoord>, from: usize, start: TileCoord) -> (r: bool)
    requires
        from <= pts.len(),
    ensures
        r == deltas_fit(pts@.skip(from as int), start),
{
    let ghost run = pts@.skip(from as int);
    let mut prev = start;
    let mut i: usize = from;
    while i < pts.len()
        invariant
            from <= i <= pts.len(),
            run == pts@.skip(from as int),
            prev == previous(run, i - from, start),
            forall|k: int|
                0 <= k < i - from ==> fits_i32(#[trigger] run[k].0 - previous(run, k, start).0) && fits_i32(
                    run[k].1 - previous(run, k, start).1,
                ),
        decreases pts.len() - i,
    {
        let p = pts[i];
        let ghost k = i - from;
        assert(run[k] == p);
        let dx = p.0 as i64 - prev.0 as i64;
        let dy = p.1 as i64 - prev.1 as i64;
        if dx < -2147483648i64 || dx > 2147483647i64 || dy < -2147483648i64 || dy > 2147483647i64 {
            assert(!(fits_i32(run[k].0 - previous(run, k, start).0) && fits_i32(
                run[k].1 - previous(run, k, start).1,
            )));
            return false;
        }
        assert(fits_i32(run[k].0 - previous(run, k, start).0) && fits_i32(run[k].1 - previous(run, k, start).1));
        prev = p;
        i = i + 1;

    }
    true
}

/// Whether every coordinate step the encoder would take fits in `i32`, as
/// `encode_mvt_geometry` needs.
pub fn mvt_steps_fit_check(geom: &ParsedGeom<TileCoord>) -> (r: bool)
    ensures
        r == mvt_steps_fit(geom@),
{
    let ghost g = geom@;
    let mvt_type = match geom.geom_type.mvt_type() {
        Some(t) => t,
        None => return true,
    };
    if mvt_type == 1 {
        if geom.rings.len() == 0 {
            return true;
        }
        assert(geom.rings@[0]@ == g.rings[0]);
        assert(g.rings[0].skip(0) =~= g.rings[0]);
        return steps_fit_from(&geom.rings[0], 0, (0i32, 0i32));
    }
    if mvt_type == 2 {
        let mut i: usize = 0;
        while i < geom.rings.len()
            invariant
                i <= geom.rings.len(),
                g == geom@,
                mvt_type_of(g.geom_type) == Some(2u32),
                forall|k: int|
                    0 <= k < i && g.rings[k].len() > 0 ==> deltas_fit(
                        #[trigger] g.rings[k].skip(1),
                        g.rings[k][0],
                    ),
            decreases geom.rings.len() - i,
        {
            let ring = &geom.rings[i];
            assert(ring@ == g.rings[i as int]);
            if ring.len() > 0 && !steps_fit_from(ring, 1, ring[0]) {
                assert(ring@[0] == g.rings[i as int][0]);
                assert(!deltas_fit(g.rings[i as int].skip(1), g.rings[i as int][0]));
                return false;
            }
            i = i + 1;
        }
        return true;
    }
    let ghost counts = polygon_ring_counts(g);
    let polygons: usize = match &geom.sub_geom_ring_counts {
        Some(c) => c.len(),
        None => 1,
    };
    let mut start: usize = 0;
    let mut i: usize = 0;
    proof {
        assert(counts.take(0) =~= Seq::<usize>::empty());
    }
    while i < polygons
        invariant
            i <= polygons,
            polygons == counts.len(),
            g == geom@,
            counts == polygon_ring_counts(g),
            mvt_type_of(g.geom_type) == Some(3u32),
            start as int == (if polygon_start(counts, i as int) < usize::MAX {
                polygon_start(counts, i as int) as int
            } else {
                usize::MAX as int
            }),
            forall|k: int|
                0 <= k < i && #[trigger] polygon_start(counts, k) < g.rings.len()
                    && g.rings[polygon_start(counts, k) as int].len() > 0 ==> deltas_fit(
                    g.rings[polygon_start(counts, k) as int].skip(1),
                    g.rings[polygon_start(counts, k) as int][0],
                ),
        decreases polygons - i,
    {
        proof {
            lemma_polygon_start_step(counts, i as int);
        }
        if start < geom.rings.len() {
            let outer = &geom.rings[start];
            assert(outer@ == g.rings[start as int]);
            if outer.len() > 0 && !steps_fit_from(outer, 1, outer[0]) {
                assert(outer@[0] == g.rings[start as int][0]);
                assert(polygon_start(counts, i as int) == start);
                return false;
            }
        }
        let step: usize = match &geom.sub_geom_ring_counts {
            Some(c) => c[i],
            None => geom.rings.len(),
        };
        assert(step == counts[i as int]);
        start = start.saturating_add(step);
        i = i + 1;
    }
    true
}

/// Encode a tile geometry as MVT geometry commands.
pub fn encode_mvt_geometry(geom: &ParsedGeom<TileCoord>) -> (r: Option<(u32, Vec<u32>)>)
    requires
        mvt_steps_fit(geom@),
    ensures
        match r {
            Some((t, commands)) => mvt_commands(geom@) == Some((t, commands@)),
            None => mvt_commands(geom@) is None,
        },
{
    let ghost g = geom@;
    let mvt_type = match geom.geom_type.mvt_type() {
        Some(t) => t,
        None => return None,
    };
    let mut commands: Vec<u32> = Vec::new();
    if mvt_type == 1 {
        if geom.rings.len() == 0 {
            return None;
        }
        let pts = &geom.rings[0];
        assert(pts@ == g.rings[0]);
        let count = pts.len();
        if count == 0 {
            return None;
        }
        commands.push(8u32 | (count as u32));
        assert(pts@.skip(0) =~= pts@);
        push_deltas(pts, 0, (0i32, 0i32), &mut commands);
    } else if mvt_type == 2 {
        let mut i: usize = 0;
        while i < geom.rings.len()
            invariant
                i <= geom.rings.len(),
                g == geom@,
                mvt_type_of(g.geom_type) == Some(2u32),
                mvt_steps_fit(g),
                commands@ == lines_commands(g.rings.subrange(0, i as int)),
            decreases geom.rings.len() - i,
        {
            let ring = &geom.rings[i];
            assert(ring@ == g.rings[i as int]);
            let ghost before = g.rings.subrange(0, i as int);
            if ring.len() > 0 {
                assert(deltas_fit(g.rings[i as int].skip(1), g.rings[i as int][0]));
                push_line(ring, &mut commands);
            }
            i = i + 1;
            assert(g.rings.subrange(0, i as int).drop_last() =~= before);
            assert(commands@ =~= lines_commands(g.rings.subrange(0, i as int)));
        }
        assert(g.rings.subrange(0, i as int) =~= g.rings);
    } else {
        let ghost counts = polygon_ring_counts(g);
        let polygons: usize = match &geom.sub_geom_ring_counts {
            Some(c) => c.len(),
            None => 1,
        };
        let mut start: usize = 0;
        let mut i: usize = 0;
        proof {
            assert(counts.take(0) =~= Seq::<usize>::empty());
        }
        while i < polygons
            invariant
                i <= polygons,
                polygons == counts.len(),
                g == geom@,
                counts == polygon_ring_counts(g),
                mvt_type_of(g.geom_type) == Some(3u32),
                mvt_steps_fit(g),
                start as int == (if polygon_start(counts, i as int) < usize::MAX {
                    polygon_start(counts, i as int) as int
                } else {
                    usize::MAX as int
                }),
                polygons_commands(g.rings, counts.take(i as int)) == Some(commands@),
            decreases polygons - i,
        {
            proof {
                lemma_polygon_start_step(counts, i as int);
            }
            if start >= geom.rings.len() {
                proof {
                    lemma_polygons_none_extends(g.rings, counts, i + 1);
                }
                return None;
            }
            assert(polygon_start(counts, i as int) == start);
            let outer = &geom.rings[start];
            assert(outer@ == g.rings[start as int]);
            if outer.len() > 0 {
                assert(deltas_fit(g.rings[start as int].skip(1), g.rings[start as int][0]));
                push_line(outer, &mut commands);
                commands.push(7u32 << 3u32);
                assert(7u32 << 3u32 == 56) by (bit_vector);
            }
            let step: usize = match &geom.sub_geom_ring_counts {
                Some(c) => c[i],
                None => geom.rings.len(),
            };
            assert(step == counts[i as int]);
            start = start.saturating_add(step);
            i = i + 1;
            assert(commands@ =~= polygons_commands(g.rings, counts.take(i as int))->0);
        }
        assert(counts.take(i as int) =~= counts);
    }
    Some((mvt_type, commands))
}


// ─── Reading back what was written ─────────────────────────────────────────

/// Whether `b` holds `x` at offset `off`.
pub open spec fn holds_at(b: Seq<u8>, off: int, x: Seq<u8>) -> bool {
    0 <= off && off + x.len() <= b.len() && b.subrange(off, off + x.len()) == x
}

proof fn lemma_holds_split(b: Seq<u8>, off: int, x: Seq<u8>, y: Seq<u8>)
    requires
        holds_at(b, off, x + y),
    ensures
        holds_at(b, off, x),
        holds_at(b, off + x.len(), y),
{
    let whole = b.subrange(off, off + x.len() + y.len());
    assert(whole == x + y);
    assert(b.subrange(off, off + x.len()) =~= whole.subrange(0, x.len() as int));
    assert((x + y).subrange(0, x.len() as int) =~= x);
    assert(b.subrange(off + x.len(), off + x.len() + y.len()) =~= whole.subrange(
        x.len() as int,
        whole.len() as int,
    ));
    assert((x + y).subrange(x.len() as int, (x + y).len() as int) =~= y);
}

proof fn lemma_holds_byte(b: Seq<u8>, off: int, x: Seq<u8>, k: int)
    requires
        holds_at(b, off, x),
        0 <= k < x.len(),
    ensures
        b[off + k] == x[k],
{
    assert(b.subrange(off, off + x.len())[k] == b[off + k]);
}

proof fn lemma_le32_read(b: Seq<u8>, off: int, v: u32)
    requires
        holds_at(b, off, le32(v)),
    ensures
        u32_at(b, off, true) == v,
{
    lemma_holds_byte(b, off, le32(v), 0);
    lemma_holds_byte(b, off, le32(v), 1);
    lemma_holds_byte(b, off, le32(v), 2);
    lemma_holds_byte(b, off, le32(v), 3);
    reveal(u32_at);
    assert(((v & 0xff) as u8) as u32 + 0x100u32 * (((v >> 8u32) & 0xff) as u8) as u32 + 0x1_0000u32 * ((
    (v >> 16u32) & 0xff) as u8) as u32 + 0x100_0000u32 * (((v >> 24u32) & 0xff) as u8) as u32 == v)
        by (bit_vector);
}

proof fn lemma_le64_read(b: Seq<u8>, off: int, v: u64)
    requires
        holds_at(b, off, le64(v)),
    ensures
        u64_at(b, off, true) == v,
{
    let lo = (v & 0xffff_ffff) as u32;
    let hi = (v >> 32u64) as u32;
    assert(((v >> 8u64) & 0xff) as u8 == ((lo >> 8u32) & 0xff) as u8) by (bit_vector)
        requires lo == (v & 0xffff_ffff) as u32;
    assert(((v >> 16u64) & 0xff) as u8 == ((lo >> 16u32) & 0xff) as u8) by (bit_vector)
        requires lo == (v & 0xffff_ffff) as u32;
    assert(((v >> 24u64) & 0xff) as u8 == ((lo >> 24u32) & 0xff) as u8) by (bit_vector)
        requires lo == (v & 0xffff_ffff) as u32;
    assert((v & 0xff) as u8 == (lo & 0xff) as u8) by (bit_vector)
        requires lo == (v & 0xffff_ffff) as u32;
    assert(((v >> 32u64) & 0xff) as u8 == (hi & 0xff) as u8) by (bit_vector)
        requires hi == (v >> 32u64) as u32;
    assert(((v >> 40u64) & 0xff) as u8 == ((hi >> 8u32) & 0xff) as u8) by (bit_vector)
        requires hi == (v >> 32u64) as u32;
    assert(((v >> 48u64) & 0xff) as u8 == ((hi >> 16u32) & 0xff) as u8) by (bit_vector)
        requires hi == (v >> 32u64) as u32;
    assert(((v >> 56u64) & 0xff) as u8 == ((hi >> 24u32) & 0xff) as u8) by (bit_vector)
        requires hi == (v >> 32u64) as u32;
    assert(le64(v) =~= le32(lo) + le32(hi));
    lemma_holds_split(b, off, le32(lo), le32(hi));
    lemma_le32_read(b, off, lo);
    lemma_le32_read(b, off + 4, hi);
    assert(lo as u64 + 0x1_0000_0000u64 * hi as u64 == v) by (bit_vector)
        requires
            lo == (v & 0xffff_ffff) as u32,
            hi == (v >> 32u64) as u32;
}

proof fn lemma_coord_read(b: Seq<u8>, off: int, c: WkbCoord)
    requires
        holds_at(b, off, coord_bytes(c)),
    ensures
        coord_at(b, off, true) == c,
{
    lemma_holds_split(b, off, le64(c.0), le64(c.1));
    lemma_le64_read(b, off, c.0);
    lemma_le64_read(b, off + 8, c.1);
}

proof fn lemma_coords_bytes_cons(c: WkbCoord, rest: Seq<WkbCoord>, h: Seq<u8>)
    ensures
        coords_bytes(seq![c] + rest, h) == h + coord_bytes(c) + coords_bytes(rest, h),
    decreases rest.len(),
{
    let all = seq![c] + rest;
    if rest.len() == 0 {
        assert(all.drop_last() =~= Seq::<WkbCoord>::empty());
        assert(all.last() == c);
        assert(coords_bytes(all.drop_last(), h) == Seq::<u8>::empty());
        assert(coords_bytes(rest, h) == Seq::<u8>::empty());
        assert(coords_bytes(all, h) == coords_bytes(all.drop_last(), h) + h + coord_bytes(all.last()));
        assert(coords_bytes(all, h) =~= h + coord_bytes(c) + coords_bytes(rest, h));
    } else {
        lemma_coords_bytes_cons(c, rest.drop_last(), h);
        assert(all.drop_last() =~= seq![c] + rest.drop_last());
        assert(all.last() == rest.last());
        assert(coords_bytes(all, h) == coords_bytes(all.drop_last(), h) + h + coord_bytes(all.last()));
        assert(coords_bytes(rest, h) == coords_bytes(rest.drop_last(), h) + h + coord_bytes(rest.last()));
        let a = h + coord_bytes(c);
        let b = coords_bytes(rest.drop_last(), h);
        let d = h + coord_bytes(rest.last());
        assert((a + b) + d =~= a + (b + d));
        assert(coords_bytes(all, h) == (a + b) + d);
        assert(coords_bytes(rest, h) =~= b + d);
    }
}

proof fn lemma_read_coords(b: Seq<u8>, off: int, pts: Seq<WkbCoord>, h: Seq<u8>)
    requires
        holds_at(b, off, coords_bytes(pts, h)),
    ensures
        read_coords(b, off, pts.len(), h.len() as int, true) == pts,
        coords_end(b, off, pts.len(), h.len() as int) == off + coords_bytes(pts, h).len(),
    decreases pts.len(),
{
    if pts.len() > 0 {
        let c = pts[0];
        let rest = pts.skip(1);
        assert(pts =~= seq![c] + rest);
        lemma_coords_bytes_cons(c, rest, h);
        lemma_holds_split(b, off, h + coord_bytes(c), coords_bytes(rest, h));
        lemma_holds_split(b, off, h, coord_bytes(c));
        lemma_coord_read(b, off + h.len(), c);
        lemma_read_coords(b, off + h.len() + 16, rest, h);
        assert(read_coords(b, off, pts.len(), h.len() as int, true) =~= pts);
    }
}

proof fn lemma_rings_bytes_cons(r: Seq<WkbCoord>, rest: Seq<Seq<WkbCoord>>, h: Seq<u8>)
    ensures
        rings_bytes(seq![r] + rest, h) == h + ring_bytes(r) + rings_bytes(rest, h),
    decreases rest.len(),
{
    let all = seq![r] + rest;
    if rest.len() == 0 {
        assert(all.drop_last() =~= Seq::<Seq<WkbCoord>>::empty());
        assert(all.last() == r);
        assert(rings_bytes(all.drop_last(), h) == Seq::<u8>::empty());
        assert(rings_bytes(rest, h) == Seq::<u8>::empty());
        assert(rings_bytes(all, h) == rings_bytes(all.drop_last(), h) + h + ring_bytes(all.last()));
        assert(rings_bytes(all, h) =~= h + ring_bytes(r) + rings_bytes(rest, h));
    } else {
        lemma_rings_bytes_cons(r, rest.drop_last(), h);
        assert(all.drop_last() =~= seq![r] + rest.drop_last());
        assert(all.last() == rest.last());
        assert(rings_bytes(all, h) == rings_bytes(all.drop_last(), h) + h + ring_bytes(all.last()));
        assert(rings_bytes(rest, h) == rings_bytes(rest.drop_last(), h) + h + ring_bytes(rest.last()));
        let a = h + ring_bytes(r);
        let b = rings_bytes(rest.drop_last(), h);
        let c = h + ring_bytes(rest.last());
        assert((a + b) + c =~= a + (b + c));
        assert(rings_bytes(all, h) == (a + b) + c);
        assert(rings_bytes(rest, h) =~= b + c);
    }
}
/// Whether every ring is short enough for its point count to be written.
pub open spec fn rings_countable<C>(rings: Seq<Seq<C>>) -> bool {
    forall|i: int| 0 <= i < rings.len() ==> #[trigger] rings[i].len() <= u32::MAX
}

#[verifier::rlimit(40)]
proof fn lemma_countable_skip<C>(rings: Seq<Seq<C>>, k: int)
    requires
        rings_countable(rings),
        0 <= k <= rings.len(),
    ensures
        rings_countable(rings.skip(k)),
        rings_countable(rings.take(k)),
{
    assert forall|i: int| 0 <= i < rings.skip(k).len() implies #[trigger] rings.skip(k)[i].len()
        <= u32::MAX by {
        assert(rings.skip(k)[i] == rings[i + k]);
    }
    assert forall|i: int| 0 <= i < rings.take(k).len() implies #[trigger] rings.take(k)[i].len()
        <= u32::MAX by {
        assert(rings.take(k)[i] == rings[i]);
    }
}

proof fn lemma_read_rings(b: Seq<u8>, off: int, rings: Seq<Seq<WkbCoord>>, h: Seq<u8>)
    requires
        rings_countable(rings),
        holds_at(b, off, rings_bytes(rings, h)),
    ensures
        read_rings(b, off, rings.len(), h.len() as int, true) == (rings, off + rings_bytes(rings, h).len()),
    decreases rings.len(),
{
    if rings.len() > 0 {
        let r = rings[0];
        let rest = rings.skip(1);
        assert(rings =~= seq![r] + rest);
        lemma_countable_skip(rings, 1);
        lemma_rings_bytes_cons(r, rest, h);
        lemma_holds_split(b, off, h + ring_bytes(r), rings_bytes(rest, h));
        lemma_holds_split(b, off, h, ring_bytes(r));
        lemma_holds_split(b, off + h.len(), le32(r.len() as u32), coords_bytes(r, Seq::empty()));
        lemma_le32_read(b, off + h.len(), r.len() as u32);
        lemma_read_coords(b, off + h.len() + 4, r, Seq::empty());
        lemma_read_rings(b, off + h.len() + ring_bytes(r).len(), rest, h);
        assert(read_rings(b, off, rings.len(), h.len() as int, true).0 =~= rings);
    }
}

proof fn lemma_count_sum_cons(c: usize, cs: Seq<usize>)
    ensures
        count_sum(seq![c] + cs) == c + count_sum(cs),
    decreases cs.len(),
{
    let all = seq![c] + cs;
    if cs.len() == 0 {
        assert(all.drop_last() =~= Seq::<usize>::empty());
        assert(count_sum(all.drop_last()) == 0);
        assert(all.last() == c);
    } else {
        lemma_count_sum_cons(c, cs.drop_last());
        assert(all.drop_last() =~= seq![c] + cs.drop_last());
        assert(all.last() == cs.last());
    }
}

#[verifier::rlimit(100)]
proof fn lemma_polygons_bytes_cons(c: usize, cs: Seq<usize>, rings: Seq<Seq<WkbCoord>>)
    requires
        count_sum(seq![c] + cs) <= rings.len(),
    ensures
        polygons_bytes(seq![c] + cs, rings) == part_header(3) + le32(c as u32) + rings_bytes(
            rings.take(c as int),
            Seq::empty(),
        ) + polygons_bytes(cs, rings.skip(c as int)),
    decreases cs.len(),
{
    let all = seq![c] + cs;
    let total = rings.len();
    lemma_count_sum_cons(c, cs);
    if cs.len() == 0 {
        assert(all.drop_last() =~= Seq::<usize>::empty());
        assert(all.last() == c);
        assert(rings_taken(all.drop_last(), total) == 0);
        assert(rings_taken(all, total) == c);
        assert(polygons_bytes(all.drop_last(), rings) == Seq::<u8>::empty());
        assert(polygons_bytes(cs, rings.skip(c as int)) == Seq::<u8>::empty());
        assert(rings.subrange(0, c as int) =~= rings.take(c as int));
        assert(polygons_bytes(all, rings) =~= part_header(3) + le32(c as u32) + rings_bytes(
            rings.take(c as int),
            Seq::empty(),
        ) + polygons_bytes(cs, rings.skip(c as int)));
    } else {
        let pre = cs.drop_last();
        assert(all.drop_last() =~= seq![c] + pre);
        assert(all.last() == cs.last());
        lemma_count_sum_cons(c, pre);
        assert(count_sum(cs) == count_sum(pre) + cs.last());
        lemma_polygons_bytes_cons(c, pre, rings);
        let rest = rings.skip(c as int);
        let from = c + count_sum(pre);
        let to = from + cs.last();
        assert(rings_taken(seq![c] + pre, total) == from);
        assert(rings_taken(all, total) == to);
        assert(rings_taken(pre, rest.len()) == count_sum(pre));
        assert(rings_taken(cs, rest.len()) == count_sum(cs));
        assert(rest.subrange(count_sum(pre) as int, count_sum(cs) as int) =~= rings.subrange(
            from as int,
            to as int,
        ));
        let a = part_header(3) + le32(c as u32) + rings_bytes(rings.take(c as int), Seq::empty());
        let b = polygons_bytes(pre, rest);
        let d = part_header(3) + le32(cs.last() as u32) + rings_bytes(
            rings.subrange(from as int, to as int),
            Seq::empty(),
        );
        assert(polygons_bytes(all, rings) == (a + b) + d);
        assert(polygons_bytes(cs, rest) == b + d);
        assert((a + b) + d =~= a + (b + d));
    }
}

proof fn lemma_read_polygons(b: Seq<u8>, off: int, counts: Seq<usize>, rings: Seq<Seq<WkbCoord>>)
    requires
        count_sum(counts) == rings.len(),
        rings_countable(rings),
        forall|i: int| 0 <= i < counts.len() ==> #[trigger] counts[i] <= u32::MAX,
        holds_at(b, off, polygons_bytes(counts, rings)),
    ensures
        read_polygons(b, off, counts.len(), true) == (rings, counts),
    decreases counts.len(),
{
    if counts.len() == 0 {
        assert(rings =~= Seq::<Seq<WkbCoord>>::empty());
    } else {
        let c = counts[0];
        let cs = counts.skip(1);
        assert(counts =~= seq![c] + cs);
        lemma_count_sum_cons(c, cs);
        lemma_polygons_bytes_cons(c, cs, rings);
        let head = rings.take(c as int);
        let rest = rings.skip(c as int);
        lemma_countable_skip(rings, c as int);
        assert forall|i: int| 0 <= i < cs.len() implies #[trigger] cs[i] <= u32::MAX by {
            assert(cs[i] == counts[i + 1]);
        }
        let rb = rings_bytes(head, Seq::empty());
        let front = part_header(3) + le32(c as u32);
        lemma_holds_split(b, off, front + rb, polygons_bytes(cs, rest));
        lemma_holds_split(b, off, front, rb);
        lemma_holds_split(b, off, part_header(3), le32(c as u32));
        lemma_le32_read(b, off + 5, c as u32);
        lemma_read_rings(b, off + 9, head, Seq::empty());
        lemma_read_polygons(b, off + 9 + rb.len(), cs, rest);
        assert(head + rest =~= rings);
        assert(read_polygons(b, off, counts.len(), true).1 =~= counts);
    }
}

/// Whether `to_wkb` writes everything a geometry holds: no SRID, a known
/// kind with the ring layout that kind has, and counts that fit 32 bits.
pub open spec fn wkb_writable(g: GeomModel<WkbCoord>) -> bool {
    &&& g.srid is None
    &&& g.rings.len() <= u32::MAX
    &&& rings_countable(g.rings)
    &&& match g.geom_type {
        GeomType::Point => g.rings.len() == 1 && g.rings[0].len() == 1 && g.ring_counts is None,
        GeomType::LineString | GeomType::MultiPoint => g.rings.len() == 1 && g.ring_counts is None,
        GeomType::Polygon | GeomType::MultiLineString => g.ring_counts is None,
        GeomType::MultiPolygon => match g.ring_counts {
            Some(c) => c.len() <= u32::MAX && count_sum(c) == g.rings.len() && forall|i: int|
                0 <= i < c.len() ==> #[trigger] c[i] <= u32::MAX,
            None => false,
        },
        GeomType::GeometryCollection => g.rings.len() == 0 && g.ring_counts is None,
        GeomType::Unknown(_) => false,
    }
}

proof fn lemma_wkb_header(g: GeomModel<WkbCoord>, body: Seq<u8>)
    requires
        wkb_bytes(g) == seq![1u8] + le32(type_code_of(g.geom_type)) + body,
    ensures
        u32_at(wkb_bytes(g), 1, true) == type_code_of(g.geom_type),
        holds_at(wkb_bytes(g), 5, body),
        wkb_bytes(g)[0] == 1,
{
    let b = wkb_bytes(g);
    assert(b.subrange(0, b.len() as int) =~= b);
    assert(holds_at(b, 0, b));
    lemma_holds_split(b, 0, seq![1u8] + le32(type_code_of(g.geom_type)), body);
    lemma_holds_split(b, 0, seq![1u8], le32(type_code_of(g.geom_type)));
    lemma_le32_read(b, 1, type_code_of(g.geom_type));
}

proof fn lemma_small_codes()
    ensures
        1u32 & 0xFF == 1 && 1u32 & 0x2000_0000 == 0,
        2u32 & 0xFF == 2 && 2u32 & 0x2000_0000 == 0,
        3u32 & 0xFF == 3 && 3u32 & 0x2000_0000 == 0,
        4u32 & 0xFF == 4 && 4u32 & 0x2000_0000 == 0,
        5u32 & 0xFF == 5 && 5u32 & 0x2000_0000 == 0,
        6u32 & 0xFF == 6 && 6u32 & 0x2000_0000 == 0,
        7u32 & 0xFF == 7 && 7u32 & 0x2000_0000 == 0,
{
    assert(1u32 & 0xFF == 1 && 1u32 & 0x2000_0000 == 0) by (bit_vector);
    assert(2u32 & 0xFF == 2 && 2u32 & 0x2000_0000 == 0) by (bit_vector);
    assert(3u32 & 0xFF == 3 && 3u32 & 0x2000_0000 == 0) by (bit_vector);
    assert(4u32 & 0xFF == 4 && 4u32 & 0x2000_0000 == 0) by (bit_vector);
    assert(5u32 & 0xFF == 5 && 5u32 & 0x2000_0000 == 0) by (bit_vector);
    assert(6u32 & 0xFF == 6 && 6u32 & 0x2000_0000 == 0) by (bit_vector);
    assert(7u32 & 0xFF == 7 && 7u32 & 0x2000_0000 == 0) by (bit_vector);
}

proof fn lemma_wkb_model_of_code(b: Seq<u8>)
    requires
        b.len() >= 9,
        b[0] == 1,
        1 <= u32_at(b, 1, true) <= 7,
    ensures
        ({
            let code = u32_at(b, 1, true);
            let n = u32_at(b, 5, true) as nat;
            let t = geom_type_of(code);
            wkb_model(b) == if code == 1 {
                if 21 > b.len() { None } else { Some(simple_model(t, None, seq![seq![coord_at(b, 5, true)]])) }
            } else if code == 2 {
                Some(simple_model(t, None, seq![read_coords(b, 9, n, 0, true)]))
            } else if code == 3 {
                Some(simple_model(t, None, read_rings(b, 9, n, 0, true).0))
            } else if code == 4 {
                Some(simple_model(t, None, seq![read_coords(b, 9, n, 5, true)]))
            } else if code == 5 {
                Some(simple_model(t, None, read_rings(b, 9, n, 5, true).0))
            } else if code == 6 {
                Some(GeomModel {
                    geom_type: GeomType::MultiPolygon,
                    rings: read_polygons(b, 9, n, true).0,
                    ring_counts: Some(read_polygons(b, 9, n, true).1),
                    srid: None,
                })
            } else {
                Some(simple_model(t, None, Seq::empty()))
            }
        }),
{
    reveal(wkb_model);
    lemma_small_codes();
}

#[verifier::rlimit(40)]
proof fn lemma_round_trip_point(g: GeomModel<WkbCoord>)
    requires
        wkb_writable(g),
        g.geom_type == GeomType::Point,
    ensures
        wkb_model(wkb_bytes(g)) == Some(g),
{
    let c = g.rings[0][0];
    lemma_wkb_header(g, coord_bytes(c));
    lemma_small_codes();
    lemma_coord_read(wkb_bytes(g), 5, c);
    assert(g.rings[0] =~= seq![c]);
    assert(g.rings =~= seq![seq![c]]);
    lemma_wkb_model_of_code(wkb_bytes(g));
}

#[verifier::spinoff_prover]
#[verifier::rlimit(100)]
proof fn lemma_round_trip_line(g: GeomModel<WkbCoord>, h: Seq<u8>)
    requires
        wkb_writable(g),
        g.geom_type == GeomType::LineString && h == Seq::<u8>::empty() || g.geom_type
            == GeomType::MultiPoint && h == part_header(1),
    ensures
        wkb_model(wkb_bytes(g)) == Some(g),
{
    let r = g.rings[0];
    let body = le32(r.len() as u32) + coords_bytes(r, h);
    lemma_wkb_header(g, body);
    lemma_small_codes();
    let b = wkb_bytes(g);
    lemma_holds_split(b, 5, le32(r.len() as u32), coords_bytes(r, h));
    lemma_le32_read(b, 5, r.len() as u32);
    lemma_read_coords(b, 9, r, h);
    assert(g.rings =~= seq![r]);
    lemma_wkb_model_of_code(wkb_bytes(g));
}

#[verifier::spinoff_prover]
#[verifier::rlimit(100)]
proof fn lemma_round_trip_rings(g: GeomModel<WkbCoord>, h: Seq<u8>)
    requires
        wkb_writable(g),
        g.geom_type == GeomType::Polygon && h == Seq::<u8>::empty() || g.geom_type
            == GeomType::MultiLineString && h == part_header(2),
    ensures
        wkb_model(wkb_bytes(g)) == Some(g),
{
    let body = le32(g.rings.len() as u32) + rings_bytes(g.rings, h);
    lemma_wkb_header(g, body);
    lemma_small_codes();
    let b = wkb_bytes(g);
    lemma_holds_split(b, 5, le32(g.rings.len() as u32), rings_bytes(g.rings, h));
    lemma_le32_read(b, 5, g.rings.len() as u32);
    lemma_read_rings(b, 9, g.rings, h);
    lemma_wkb_model_of_code(wkb_bytes(g));
}

#[verifier::spinoff_prover]
#[verifier::rlimit(100)]
proof fn lemma_round_trip_polygons(g: GeomModel<WkbCoord>)
    requires
        wkb_writable(g),
        g.geom_type == GeomType::MultiPolygon,
    ensures
        wkb_model(wkb_bytes(g)) == Some(g),
{
    let counts = g.ring_counts->0;
    let body = le32(counts.len() as u32) + polygons_bytes(counts, g.rings);
    lemma_wkb_header(g, body);
    lemma_small_codes();
    let b = wkb_bytes(g);
    lemma_holds_split(b, 5, le32(counts.len() as u32), polygons_bytes(counts, g.rings));
    lemma_le32_read(b, 5, counts.len() as u32);
    lemma_read_polygons(b, 9, counts, g.rings);
    lemma_wkb_model_of_code(wkb_bytes(g));
}

/// Reading back what `to_wkb` writes gives the geometry that was written:
/// `parse_wkb(&g.to_wkb())` is `g` for every geometry `to_wkb` can write in
/// full.
pub proof fn lemma_wkb_round_trip(g: GeomModel<WkbCoord>)
    requires
        wkb_writable(g),
    ensures
        wkb_model(wkb_bytes(g)) == Some(g),
{
    match g.geom_type {
        GeomType::Point => lemma_round_trip_point(g),
        GeomType::LineString => lemma_round_trip_line(g, Seq::empty()),
        GeomType::MultiPoint => lemma_round_trip_line(g, part_header(1)),
        GeomType::Polygon => lemma_round_trip_rings(g, Seq::empty()),
        GeomType::MultiLineString => lemma_round_trip_rings(g, part_header(2)),
        GeomType::MultiPolygon => lemma_round_trip_polygons(g),
        GeomType::GeometryCollection => {
            lemma_wkb_header(g, le32(0));
            lemma_small_codes();
            assert(g.rings =~= Seq::<Seq<WkbCoord>>::empty());
            lemma_wkb_model_of_code(wkb_bytes(g));
        },
        GeomType::Unknown(_) => {},
    }
}

/// Writing back what was read from canonical WKB gives the bytes read: for
/// bytes `b` that `to_wkb` writes, `parse_wkb(b)` succeeds, and `to_wkb` of
/// the parsed geometry is `b` again.
pub proof fn lemma_canonical_wkb_reads_back(b: Seq<u8>, h: GeomModel<WkbCoord>)
    requires
        wkb_writable(h),
        b == wkb_bytes(h),
    ensures
        wkb_model(b) is Some,
        wkb_writable(wkb_model(b)->0),
        wkb_bytes(wkb_model(b)->0) == b,
{
    lemma_wkb_round_trip(h);
}

proof fn lemma_lines_commands_concat(a: Seq<Seq<TileCoord>>, b: Seq<Seq<TileCoord>>)
    ensures
        lines_commands(a + b) == lines_commands(a) + lines_commands(b),
    decreases b.len(),
{
    if b.len() == 0 {
        assert(a + b =~= a);
        assert(lines_commands(a) + lines_commands(b) =~= lines_commands(a));
    } else {
        lemma_lines_commands_concat(a, b.drop_last());
        assert((a + b).drop_last() =~= a + b.drop_last());
        assert((a + b).last() == b.last());
        let tail = if b.last().len() == 0 {
            Seq::<u32>::empty()
        } else {
            line_commands(b.last())
        };
        assert(lines_commands(a) + lines_commands(b.drop_last()) + tail =~= lines_commands(a) + (lines_commands(
            b.drop_last(),
        ) + tail));
    }
}

/// A line geometry draws every one of its rings, in order: its commands
/// are those of its first `k` rings followed by those of the rest, for any
/// split; no rings draw nothing.
pub proof fn lemma_lines_draw_every_ring(g: GeomModel<TileCoord>, k: int)
    requires
        g.geom_type is LineString || g.geom_type is MultiLineString,
        0 <= k <= g.rings.len(),
    ensures
        mvt_commands(g) is Some,
        (mvt_commands(g)->0).0 == 2,
        (mvt_commands(g)->0).1 == (mvt_commands(GeomModel { rings: g.rings.take(k), ..g })->0).1 + (mvt_commands(
            GeomModel { rings: g.rings.skip(k), ..g },
        )->0).1,
        mvt_commands(GeomModel { rings: Seq::empty(), ..g }) == Some((2u32, Seq::<u32>::empty())),
{
    lemma_lines_commands_concat(g.rings.take(k), g.rings.skip(k));
    assert(g.rings.take(k) + g.rings.skip(k) =~= g.rings);
}

/// A line geometry of one ring draws it as a MoveTo to its first point and
/// a LineTo through the others by zigzag deltas, or draws nothing when the
/// ring is empty.
pub proof fn lemma_line_of_one_ring(g: GeomModel<TileCoord>)
    requires
        g.geom_type is LineString || g.geom_type is MultiLineString,
        g.rings.len() == 1,
    ensures
        mvt_commands(g) == Some(
            (
                2u32,
                if g.rings[0].len() == 0 {
                    Seq::<u32>::empty()
                } else {
                    seq![
                        9u32,
                        param(g.rings[0][0].0 as int),
                        param(g.rings[0][0].1 as int),
                        16u32 | ((g.rings[0].len() - 1) as u32),
                    ] + deltas(g.rings[0].skip(1), g.rings[0][0])
                },
            ),
        ),
{
    assert(g.rings.drop_last() =~= Seq::<Seq<TileCoord>>::empty());
    assert(g.rings.last() == g.rings[0]);
    let tail = if g.rings[0].len() == 0 {
        Seq::<u32>::empty()
    } else {
        line_commands(g.rings[0])
    };
    assert(lines_commands(g.rings.drop_last()) == Seq::<u32>::empty());
    assert(lines_commands(g.rings) == lines_commands(g.rings.drop_last()) + tail);
    assert(Seq::<u32>::empty() + tail =~= tail);
}

proof fn lemma_polygons_read_only_starts(r1: Seq<Seq<TileCoord>>, r2: Seq<Seq<TileCoord>>, counts: Seq<usize>)
    requires
        r1.len() == r2.len(),
        forall|k: int|
            0 <= k < counts.len() && #[trigger] polygon_start(counts, k) < r1.len() ==> r1[polygon_start(counts, k) as int]
                == r2[polygon_start(counts, k) as int],
    ensures
        polygons_commands(r1, counts) == polygons_commands(r2, counts),
    decreases counts.len(),
{
    if counts.len() > 0 {
        let pre = counts.drop_last();
        assert forall|k: int|
            0 <= k < pre.len() && #[trigger] polygon_start(pre, k) < r1.len() implies r1[polygon_start(pre, k) as int]
            == r2[polygon_start(pre, k) as int] by {
            assert(pre.take(k) =~= counts.take(k));
            assert(polygon_start(pre, k) == polygon_start(counts, k));
        }
        lemma_polygons_read_only_starts(r1, r2, pre);
        assert(counts.take(counts.len() - 1) =~= pre);
        assert(polygon_start(counts, counts.len() - 1) == count_sum(pre));
    }
}

/// Polygons draw their exterior rings only: changing any ring that does
/// not start a polygon (a hole) leaves the commands unchanged; a polygon
/// with a non-empty exterior ring draws it as MoveTo, LineTo through the
/// other points, and ClosePath, whatever its holes.
pub proof fn lemma_polygons_skip_holes(g: GeomModel<TileCoord>, h: GeomModel<TileCoord>)
    requires
        g.geom_type is Polygon || g.geom_type is MultiPolygon,
        h.geom_type == g.geom_type,
        h.ring_counts == g.ring_counts,
        h.rings.len() == g.rings.len(),
        forall|k: int|
            0 <= k < polygon_ring_counts(g).len() && #[trigger] polygon_start(polygon_ring_counts(g), k) < g.rings.len()
                ==> g.rings[polygon_start(polygon_ring_counts(g), k) as int] == h.rings[polygon_start(
                polygon_ring_counts(g),
                k,
            ) as int],
    ensures
        mvt_commands(g) == mvt_commands(h),
        g.geom_type is Polygon && g.ring_counts is None && g.rings.len() > 0 && g.rings[0].len() > 0 ==> mvt_commands(g)
            == Some(
            (
                3u32,
                seq![
                    9u32,
                    param(g.rings[0][0].0 as int),
                    param(g.rings[0][0].1 as int),
                    16u32 | ((g.rings[0].len() - 1) as u32),
                ] + deltas(g.rings[0].skip(1), g.rings[0][0]) + seq![56u32],
            ),
        ),
{
    assert(polygon_ring_counts(h) == polygon_ring_counts(g));
    lemma_polygons_read_only_starts(g.rings, h.rings, polygon_ring_counts(g));
    if g.ring_counts is None && g.rings.len() > 0 {
        let c = polygon_ring_counts(g);
        assert(c.drop_last() =~= Seq::<usize>::empty());
        assert(count_sum(c.drop_last()) == 0);
        assert(polygons_commands(g.rings, c.drop_last()) == Some(Seq::<u32>::empty()));
        let outer = g.rings[0];
        if outer.len() > 0 {
            assert(polygons_commands(g.rings, c) == Some(Seq::<u32>::empty() + (line_commands(outer) + seq![56u32])));
            assert(Seq::<u32>::empty() + (line_commands(outer) + seq![56u32]) =~= seq![
                9u32,
                param(outer[0].0 as int),
                param(outer[0].1 as int),
                16u32 | ((outer.len() - 1) as u32),
            ] + deltas(outer.skip(1), outer[0]) + seq![56u32]);
        }
    }
}

proof fn lemma_deltas_entries(pts: Seq<TileCoord>, start: TileCoord)
    ensures
        deltas(pts, start).len() == 2 * pts.len(),
        forall|k: int|
            0 <= k < pts.len() ==> #[trigger] deltas(pts, start)[2 * k] == param(pts[k].0 - previous(pts, k, start).0),
        forall|k: int|
            0 <= k < pts.len() ==> #[trigger] deltas(pts, start)[2 * k + 1] == param(
                pts[k].1 - previous(pts, k, start).1,
            ),
    decreases pts.len(),
{
    if pts.len() > 0 {
        let pre = pts.drop_last();
        lemma_deltas_entries(pre, start);
        assert forall|k: int| 0 <= k < pts.len() implies #[trigger] deltas(pts, start)[2 * k] == param(
            pts[k].0 - previous(pts, k, start).0,
        ) && deltas(pts, start)[2 * k + 1] == param(pts[k].1 - previous(pts, k, start).1) by {
            let d = deltas(pts, start);
            assert(d == deltas(pre, start) + seq![
                param(pts.last().0 - previous(pts, pts.len() - 1, start).0),
                param(pts.last().1 - previous(pts, pts.len() - 1, start).1),
            ]);
            if k < pre.len() {
                assert(pre[k] == pts[k]);
                assert(previous(pre, k, start) == previous(pts, k, start));
                assert(deltas(pre, start)[2 * k] == param(pre[k].0 - previous(pre, k, start).0));
                assert(deltas(pre, start)[2 * k + 1] == param(pre[k].1 - previous(pre, k, start).1));
                assert(d[2 * k] == deltas(pre, start)[2 * k]);
            } else {
                assert(k == pts.len() - 1);
                assert(d[2 * k] == param(pts.last().0 - previous(pts, pts.len() - 1, start).0));
            }
        }
    }
}

/// A point geometry draws every point of its run: one MoveTo whose count
/// is the number of points, then for each point in order its step from
/// the one before (from the origin for the first), zigzag-encoded.
pub proof fn lemma_points_draw_every_point(g: GeomModel<TileCoord>)
    requires
        g.geom_type is Point || g.geom_type is MultiPoint,
        g.rings.len() > 0,
        g.rings[0].len() > 0,
    ensures
        mvt_commands(g) is Some,
        (mvt_commands(g)->0).0 == 1,
        (mvt_commands(g)->0).1.len() == 1 + 2 * g.rings[0].len(),
        (mvt_commands(g)->0).1[0] == 8u32 | (g.rings[0].len() as u32),
        forall|k: int|
            0 <= k < g.rings[0].len() ==> #[trigger] (mvt_commands(g)->0).1[1 + 2 * k] == param(
                g.rings[0][k].0 - previous(g.rings[0], k, (0i32, 0i32)).0,
            ),
        forall|k: int|
            0 <= k < g.rings[0].len() ==> #[trigger] (mvt_commands(g)->0).1[2 + 2 * k] == param(
                g.rings[0][k].1 - previous(g.rings[0], k, (0i32, 0i32)).1,
            ),
{
    lemma_deltas_entries(g.rings[0], (0i32, 0i32));
    let c = (mvt_commands(g)->0).1;
    let d = deltas(g.rings[0], (0i32, 0i32));
    assert(c == seq![8u32 | (g.rings[0].len() as u32)] + d);
    assert forall|k: int| 0 <= k < g.rings[0].len() implies #[trigger] c[1 + 2 * k] == param(
        g.rings[0][k].0 - previous(g.rings[0], k, (0i32, 0i32)).0,
    ) by {
        assert(c[1 + 2 * k] == d[2 * k]);
    }
    assert forall|k: int| 0 <= k < g.rings[0].len() implies #[trigger] c[2 + 2 * k] == param(
        g.rings[0][k].1 - previous(g.rings[0], k, (0i32, 0i32)).1,
    ) by {
        assert(c[2 + 2 * k] == d[2 * k + 1]);
    }
}

/// The number base-128 digits stand for, least significant first, the
/// high bit of each byte set aside.
pub open spec fn base128_value(b: Seq<u8>) -> nat
    decreases b.len(),
{
    if b.len() == 0 {
        0
    } else {
        (b[0] % 128) as nat + 128 * base128_value(b.drop_first())
    }
}

/// A varint reads back as its number: its bytes, high bit set aside, are
/// the number's base-128 digits, least significant first; every byte but
/// the last has its high bit set and the last has it clear.
pub proof fn lemma_varint_reads_back(v: nat)
    ensures
        base128_value(varint(v)) == v,
        varint(v).len() > 0,
        varint(v).last() < 128,
        forall|i: int| 0 <= i < varint(v).len() - 1 ==> #[trigger] varint(v)[i] >= 128,
    decreases v,
{
    if v >= 128 {
        lemma_varint_reads_back(v / 128);
        let b = varint(v);
        assert(b.drop_first() =~= varint(v / 128));
        assert(((v % 128) + 128) as u8 % 128 == v % 128);
        assert(v == v % 128 + 128 * (v / 128));
        assert forall|i: int| 0 <= i < b.len() - 1 implies #[trigger] b[i] >= 128 by {
            if i > 0 {
                assert(b[i] == varint(v / 128)[i - 1]);
            }
        }
        assert(b[0] == ((v % 128) + 128) as u8);
        assert(base128_value(b) == (b[0] % 128) as nat + 128 * base128_value(b.drop_first()));
    } else {
        assert(varint(v).drop_first() =~= Seq::<u8>::empty());
        assert(base128_value(varint(v)) == (varint(v)[0] % 128) as nat + 128 * base128_value(
            varint(v).drop_first(),
        ));
    }
}

/// Zig-zag keeps signed steps apart: non-negative steps map to even
/// numbers, negative ones to odd numbers, and no two steps share a code.
pub proof fn lemma_zigzag_distinct(a: int, b: int)
    ensures
        a >= 0 ==> zigzag(a) % 2 == 0 && zigzag(a) / 2 == a,
        a < 0 ==> zigzag(a) % 2 == 1 && zigzag(a) / 2 == -a - 1,
        zigzag(a) == zigzag(b) ==> a == b,
{
}

/// A dictionary value is a string field (field 1) holding the text when the
/// text is an integer or does not parse as a double, and otherwise a double
/// field (field 3, fixed 64 bits) holding the double's bits.
pub proof fn lemma_value_fields(text: Seq<u8>, parsed_double: Option<u64>)
    ensures
        is_i64_text(text) || parsed_double is None ==> value_bytes(text, parsed_double) == seq![10u8] + varint(
            text.len(),
        ) + text,
        !is_i64_text(text) && parsed_double is Some ==> value_bytes(text, parsed_double) == seq![25u8] + le64(
            parsed_double->0,
        ),
{
    assert(varint(10) == seq![10u8]);
    assert(varint(25) == seq![25u8]);
}

/// A layer's features are the features one after the other: encoding two
/// runs of features gives the encoding of the first run followed by that
/// of the second.
pub proof fn lemma_features_concatenate(a: Seq<MvtFeature>, b: Seq<MvtFeature>)
    ensures
        features_bytes(a + b) == features_bytes(a) + features_bytes(b),
    decreases b.len(),
{
    if b.len() == 0 {
        assert(a + b =~= a);
        assert(features_bytes(a) + features_bytes(b) =~= features_bytes(a));
    } else {
        lemma_features_concatenate(a, b.drop_last());
        assert((a + b).drop_last() =~= a + b.drop_last());
        assert((a + b).last() == b.last());
        let tail = bytes_field(2, feature_bytes(b.last()));
        assert(features_bytes(a) + features_bytes(b.drop_last()) + tail =~= features_bytes(a) + (features_bytes(
            b.drop_last(),
        ) + tail));
    }
}

} // verus!
