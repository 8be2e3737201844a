//! PostGIS spatial reference metadata served from the compatibility catalog.
use vstd::prelude::*;

use crate::metrics::{is_unicode_whitespace, is_whitespace};
use crate::sql_text::text_eq;

verus! {

pub const SRS_0_WKT: &'static str = "GEOGCS[\"WGS 84\",DATUM[\"WGS_1984\",SPHEROID[\"WGS 84\",6378137,298.257223563]],PRIMEM[\"Greenwich\",0],UNIT[\"degree\",0.0174532925199433]]";

pub const SRS_0_PROJ4: &'static str = "+proj=longlat +datum=WGS84 +no_defs";

pub const SRS_1_WKT: &'static str = "PROJCS[\"WGS 84 / Pseudo-Mercator\",GEOGCS[\"WGS 84\",DATUM[\"WGS_1984\",SPHEROID[\"WGS 84\",6378137,298.257223563]],PRIMEM[\"Greenwich\",0],UNIT[\"degree\",0.0174532925199433]],PROJECTION[\"Mercator_1SP\"],UNIT[\"metre\",1]]";

pub const SRS_1_PROJ4: &'static str = "+proj=merc +a=6378137 +b=6378137 +lat_ts=0 +lon_0=0 +x_0=0 +y_0=0 +k=1 +units=m +nadgrids=@null +wktext +no_defs";

pub const SRS_2_WKT: &'static str = "GEOGCS[\"NAD83\",DATUM[\"North_American_Datum_1983\",SPHEROID[\"GRS 1980\",6378137,298.257222101]],PRIMEM[\"Greenwich\",0],UNIT[\"degree\",0.0174532925199433]]";

pub const SRS_2_PROJ4: &'static str = "+proj=longlat +datum=NAD83 +no_defs";

pub const SRS_3_WKT: &'static str = "PROJCS[\"OSGB36 / British National Grid\",GEOGCS[\"OSGB36\",DATUM[\"Ordnance_Survey_of_Great_Britain_1936\",SPHEROID[\"Airy 1830\",6377563.396,299.3249646]],PRIMEM[\"Greenwich\",0],UNIT[\"degree\",0.0174532925199433]],UNIT[\"metre\",1]]";

pub const SRS_3_PROJ4: &'static str = "+proj=tmerc +lat_0=49 +lon_0=-2 +k=0.9996012717 +x_0=400000 +y_0=-100000 +ellps=airy +datum=OSGB36 +units=m +no_defs";

/// A spatial reference system row: SRID, authority name, authority SRID,
/// well-known text and PROJ.4 definition.
pub type SpatialRef = (i32, &'static str, i32, &'static str, &'static str);

/// The spatial reference systems the catalog lists.
pub open spec fn common_spatial_refs_spec() -> Seq<(i32, Seq<char>, i32, Seq<char>, Seq<char>)> {
    seq![
        (4326i32, "EPSG"@, 4326i32, SRS_0_WKT@, SRS_0_PROJ4@),
        (3857i32, "EPSG"@, 3857i32, SRS_1_WKT@, SRS_1_PROJ4@),
        (4269i32, "EPSG"@, 4269i32, SRS_2_WKT@, SRS_2_PROJ4@),
        (27700i32, "EPSG"@, 27700i32, SRS_3_WKT@, SRS_3_PROJ4@),
    ]
}

/// The view of a spatial reference row.
pub open spec fn spatial_ref_view(r: SpatialRef) -> (i32, Seq<char>, i32, Seq<char>, Seq<char>) {
    (r.0, r.1@, r.2, r.3@, r.4@)
}

/// The spatial reference systems the catalog lists: WGS 84, Web Mercator,
/// NAD83 and the British National Grid.
pub fn common_spatial_refs() -> (refs: Vec<SpatialRef>)
    ensures
        refs@.map_values(|r: SpatialRef| spatial_ref_view(r)) == common_spatial_refs_spec(),
{
    let mut refs: Vec<SpatialRef> = Vec::new();
    refs.push((4326, "EPSG", 4326, SRS_0_WKT, SRS_0_PROJ4));
    refs.push((3857, "EPSG", 3857, SRS_1_WKT, SRS_1_PROJ4));
    refs.push((4269, "EPSG", 4269, SRS_2_WKT, SRS_2_PROJ4));
    refs.push((27700, "EPSG", 27700, SRS_3_WKT, SRS_3_PROJ4));
    assert(refs@.map_values(|r: SpatialRef| spatial_ref_view(r)) =~= common_spatial_refs_spec());
    refs
}

// ─── Privilege inquiries of the compatibility functions ─────────────────────

/// The object a privilege inquiry function asks about.
#[derive(Clone, Copy, Debug, PartialEq, Eq, Structural)]
pub enum PrivilegeObject {
    Database,
    Schema,
    Table,
    Column,
}

/// ASCII uppercase of a character.
pub open spec fn ascii_upper_char(c: char) -> char {
    if 'a' <= c <= 'z' { ((c as u32) - 32) as char } else { c }
}

fn upper_letter(c: char) -> (s: &'static str)
    requires
        'a' <= c <= 'z',
    ensures
        s@ == seq![ascii_upper_char(c)],
{
    proof {
        reveal_strlit("A");
        reveal_strlit("B");
        reveal_strlit("C");
        reveal_strlit("D");
        reveal_strlit("E");
        reveal_strlit("F");
        reveal_strlit("G");
        reveal_strlit("H");
        reveal_strlit("I");
        reveal_strlit("J");
        reveal_strlit("K");
        reveal_strlit("L");
        reveal_strlit("M");
        reveal_strlit("N");
        reveal_strlit("O");
        reveal_strlit("P");
        reveal_strlit("Q");
        reveal_strlit("R");
        reveal_strlit("S");
        reveal_strlit("T");
        reveal_strlit("U");
        reveal_strlit("V");
        reveal_strlit("W");
        reveal_strlit("X");
        reveal_strlit("Y");
        reveal_strlit("Z");
    }
    if c == 'a' {
        "A"
    } else if c == 'b' {
        "B"
    } else if c == 'c' {
        "C"
    } else if c == 'd' {
        "D"
    } else if c == 'e' {
        "E"
    } else if c == 'f' {
        "F"
    } else if c == 'g' {
        "G"
    } else if c == 'h' {
        "H"
    } else if c == 'i' {
        "I"
    } else if c == 'j' {
        "J"
    } else if c == 'k' {
        "K"
    } else if c == 'l' {
        "L"
    } else if c == 'm' {
        "M"
    } else if c == 'n' {
        "N"
    } else if c == 'o' {
        "O"
    } else if c == 'p' {
        "P"
    } else if c == 'q' {
        "Q"
    } else if c == 'r' {
        "R"
    } else if c == 's' {
        "S"
    } else if c == 't' {
        "T"
    } else if c == 'u' {
        "U"
    } else if c == 'v' {
        "V"
    } else if c == 'w' {
        "W"
    } else if c == 'x' {
        "X"
    } else if c == 'y' {
        "Y"
    } else if c == 'z' {
        "Z"
    } else {
        "Z"
    }
}

fn push_upper_char_of(out: &mut String, text: &str, j: usize)
    requires
        j < text@.len(),
    ensures
        final(out)@ == old(out)@.push(ascii_upper_char(text@[j as int])),
{
    let c = text.get_char(j);
    if 'a' <= c && c <= 'z' {
        out.append(upper_letter(c));
    } else {
        let n = text.unicode_len();
        assert(j < n);
        let piece = text.substring_char(j, j + 1);
        assert(piece@ =~= seq![text@[j as int]]);
        out.append(piece);
    }
}

/// Whether a character separates the words of a privilege list.
pub open spec fn is_privilege_separator(c: char) -> bool {
    c == ',' || is_unicode_whitespace(c)
}

/// The words of a privilege list from `i` on, in uppercase, `word` being
/// the word read so far.
pub open spec fn privilege_words(s: Seq<char>, i: int, word: Seq<char>) -> Seq<Seq<char>>
    decreases s.len() - i,
{
    if i < 0 || i >= s.len() {
        if word.len() > 0 { seq![word] } else { Seq::empty() }
    } else if is_privilege_separator(s[i]) {
        (if word.len() > 0 { seq![word] } else { Seq::empty() }) + privilege_words(s, i + 1, Seq::empty())
    } else {
        privilege_words(s, i + 1, word.push(ascii_upper_char(s[i])))
    }
}

/// The words of a privilege list: split at commas and whitespace, empty
/// words dropped, in uppercase.
pub open spec fn privilege_list(s: Seq<char>) -> Seq<Seq<char>> {
    privilege_words(s, 0, Seq::empty())
}

/// Split a privilege list into its uppercase words.
pub fn privilege_parts(privilege: &str) -> (parts: Vec<String>)
    ensures
        parts@.map_values(|p: String| p@) == privilege_list(privilege@),
{
    let n = privilege.unicode_len();
    let mut parts: Vec<String> = Vec::new();
    let mut word = String::new();
    let mut i: usize = 0;
    while i < n
        invariant
            n == privilege@.len(),
            i <= n,
            parts@.map_values(|p: String| p@) + privilege_words(privilege@, i as int, word@) == privilege_list(
                privilege@,
            ),
        decreases n - i,
    {
        let ghost before = parts@.map_values(|p: String| p@);
        let c = privilege.get_char(i);
        if c == ',' || is_whitespace(c) {
            if word.unicode_len() > 0 {
                let mut done = String::new();
                std::mem::swap(&mut done, &mut word);
                let ghost w = done@;
                parts.push(done);
                assert(parts@.map_values(|p: String| p@) =~= before.push(w));
                assert(before + (seq![w] + privilege_words(privilege@, i + 1, Seq::empty())) =~= before.push(w)
                    + privilege_words(privilege@, i + 1, Seq::empty()));
            } else {
                assert(Seq::<Seq<char>>::empty() + privilege_words(privilege@, i + 1, Seq::empty())
                    =~= privilege_words(privilege@, i + 1, Seq::empty()));
            }
            assert(word@ =~= Seq::<char>::empty());
        } else {
            push_upper_char_of(&mut word, privilege, i);
        }
        i = i + 1;
    }
    if word.unicode_len() > 0 {
        let ghost w = word@;
        let ghost before = parts@.map_values(|p: String| p@);
        parts.push(word);
        assert(parts@.map_values(|p: String| p@) =~= before + seq![w]);
    } else {
        assert(parts@.map_values(|p: String| p@) + Seq::<Seq<char>>::empty() =~= parts@.map_values(
            |p: String| p@,
        ));
    }
    parts
}

/// Whether the privilege text, in uppercase, mentions `GRANT`.
pub open spec fn mentions_grant(s: Seq<char>) -> bool {
    exists|i: int|
        0 <= i && i + 5 <= s.len() && #[trigger] ascii_upper_char(s[i]) == 'G' && ascii_upper_char(s[i + 1])
            == 'R' && ascii_upper_char(s[i + 2]) == 'A' && ascii_upper_char(s[i + 3]) == 'N' && ascii_upper_char(
            s[i + 4],
        ) == 'T'
}

fn upper_is(c: char, u: char) -> (r: bool)
    requires
        'A' <= u <= 'Z',
    ensures
        r == (ascii_upper_char(c) == u),
{
    c == u || (c as u32) == (u as u32) + 32
}

fn mentions_grant_text(s: &str) -> (r: bool)
    ensures
        r == mentions_grant(s@),
{
    let n = s.unicode_len();
    let mut i: usize = 0;
    while n >= 5 && i <= n - 5
        invariant
            n == s@.len(),
            i <= n,
            forall|k: int|
                0 <= k < i && k + 5 <= s@.len() ==> !(#[trigger] ascii_upper_char(s@[k]) == 'G' && ascii_upper_char(
                    s@[k + 1],
                ) == 'R' && ascii_upper_char(s@[k + 2]) == 'A' && ascii_upper_char(s@[k + 3]) == 'N'
                    && ascii_upper_char(s@[k + 4]) == 'T'),
        decreases n - i,
    {
        if upper_is(s.get_char(i), 'G') && upper_is(s.get_char(i + 1), 'R') && upper_is(s.get_char(i + 2), 'A')
            && upper_is(s.get_char(i + 3), 'N') && upper_is(s.get_char(i + 4), 'T') {
            return true;
        }
        i = i + 1;
    }
    false
}

/// The one privilege a read-only user holds on an object kind.
pub open spec fn read_privilege(object: PrivilegeObject) -> Seq<char> {
    match object {
        PrivilegeObject::Database => "CONNECT"@,
        PrivilegeObject::Schema => "USAGE"@,
        PrivilegeObject::Table | PrivilegeObject::Column => "SELECT"@,
    }
}

/// Whether a read-only user holds every privilege of a list: no grant
/// option, at least one privilege, and each the read privilege of the
/// object kind.
pub open spec fn readonly_allowed(object: PrivilegeObject, privilege: Seq<char>) -> bool {
    &&& !mentions_grant(privilege)
    &&& privilege_list(privilege).len() > 0
    &&& forall|i: int| 0 <= i < privilege_list(privilege).len() ==> #[trigger] privilege_list(privilege)[i] == read_privilege(object)
}

/// Whether a read-only user holds every privilege of a list.
pub fn readonly_allows(object: PrivilegeObject, privilege: &str) -> (r: bool)
    ensures
        r == readonly_allowed(object, privilege@),
{
    if mentions_grant_text(privilege) {
        return false;
    }
    let parts = privilege_parts(privilege);
    if parts.len() == 0 {
        return false;
    }
    let wanted: &str = match object {
        PrivilegeObject::Database => "CONNECT",
        PrivilegeObject::Schema => "USAGE",
        PrivilegeObject::Table | PrivilegeObject::Column => "SELECT",
    };
    let ghost list = privilege_list(privilege@);
    let mut i: usize = 0;
    while i < parts.len()
        invariant
            i <= parts@.len(),
            parts@.map_values(|p: String| p@) == list,
            wanted@ == read_privilege(object),
            list == privilege_list(privilege@),
            forall|k: int| 0 <= k < i ==> #[trigger] list[k] == read_privilege(object),
        decreases parts.len() - i,
    {
        assert(list[i as int] == parts@[i as int]@);
        if !text_eq(parts[i].as_str(), wanted) {
            assert(privilege_list(privilege@)[i as int] != read_privilege(object));
            return false;
        }
        i = i + 1;
    }
    true
}

/// Which argument of a privilege inquiry names the user, by object kind and
/// argument count: the first of the explicit-user forms.
pub fn explicit_user_index(object: PrivilegeObject, arg_count: usize) -> (r: Option<usize>)
    ensures
        r == (match (object, arg_count) {
            (PrivilegeObject::Column, 4) => Some(0usize),
            (PrivilegeObject::Database, 3) | (PrivilegeObject::Schema, 3) | (PrivilegeObject::Table, 3) => Some(0usize),
            _ => None,
        }),
{
    match (object, arg_count) {
        (PrivilegeObject::Column, 4) => Some(0),
        (PrivilegeObject::Database, 3) | (PrivilegeObject::Schema, 3) | (PrivilegeObject::Table, 3) => Some(0),
        _ => None,
    }
}

/// Which argument of a privilege inquiry names the table, by object kind
/// and argument count.
pub fn privilege_object_index(object: PrivilegeObject, arg_count: usize) -> (r: Option<usize>)
    ensures
        r == (match (object, arg_count) {
            (PrivilegeObject::Column, 3) | (PrivilegeObject::Table, 2) => Some(0usize),
            (PrivilegeObject::Column, 4) | (PrivilegeObject::Table, 3) => Some(1usize),
            _ => None,
        }),
{
    match (object, arg_count) {
        (PrivilegeObject::Column, 3) | (PrivilegeObject::Table, 2) => Some(0),
        (PrivilegeObject::Column, 4) | (PrivilegeObject::Table, 3) => Some(1),
        _ => None,
    }
}

} // verus!
