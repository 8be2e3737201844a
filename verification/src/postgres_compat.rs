//! PostgreSQL-facing catalog constants projected into the private DuckDB
//! control catalog, and the SQL that creates, reconciles and validates that
//! catalog.
use vstd::prelude::*;

use crate::sql_text::{
    bool_text, decimal, join_strings, joined, push_bool, push_decimal, push_quoted_identifier,
    push_quoted_literal, push_signed_decimal, quoted, signed_decimal, text_eq,
};

verus! {

pub const POSTGRESQL_COMPATIBILITY_VERSION: &'static str = "18.4";

pub const POSTGRESQL_COMPATIBILITY_VERSION_NUM: &'static str = "180004";

pub const POSTGRESQL_COMPATIBILITY_VERSION_STRING: &'static str =
    "PostgreSQL 18.4 compatible QuackGIS 0.1.0 (DuckDB 1.5.4)";

pub const PG_CATALOG_NAMESPACE_OID: u32 = 11;

pub const PUBLIC_NAMESPACE_OID: u32 = 2200;

pub const BOOTSTRAP_OWNER_OID: u32 = 10;

pub const QUACKGIS_DATABASE_OID: u32 = 16384;

pub const PG_CLASS_RELATION_OID: u32 = 1259;

/// Type OID under which geometry columns are published.
pub const GEOMETRY_OID: u32 = 90001;

/// Type OID under which geography columns are published.
pub const GEOGRAPHY_OID: u32 = 90002;

pub const GEOMETRY_ARRAY_OID: u32 = 90003;

pub const GEOGRAPHY_ARRAY_OID: u32 = 90004;

pub const POSTGIS_LIB_VERSION_PROC_OID: u32 = 90005;

pub const POSTGIS_VERSION_PROC_OID: u32 = 90006;

pub const POSTGIS_GEOS_VERSION_PROC_OID: u32 = 90007;

pub const POSTGIS_PROJ_VERSION_PROC_OID: u32 = 90008;

/// First OID handed out to objects registered at run time.
pub const DYNAMIC_OBJECT_OID_START: u32 = 100000;

pub const INTERNAL_SCHEMA: &'static str = "_quackgis";

/// One row of the maintained `pg_type` projection.
#[derive(Clone, Copy)]
pub struct PgTypeRow {
    pub oid: u32,
    pub name: &'static str,
    pub namespace: u32,
    pub len: i16,
    pub by_value: bool,
    /// One-character `typcategory` code.
    pub category: &'static str,
    pub preferred: bool,
    /// One-character `typdelim`.
    pub delimiter: &'static str,
    pub element: u32,
    pub array: u32,
    pub collation: u32,
}

/// A built-in `pg_catalog` scalar type with default flags.
pub open spec fn scalar_row(oid: u32, name: &'static str, len: i16, category: &'static str, array: u32) -> PgTypeRow {
    PgTypeRow {
        oid,
        name,
        namespace: PG_CATALOG_NAMESPACE_OID,
        len,
        by_value: false,
        category,
        preferred: false,
        delimiter: ",",
        element: 0,
        array,
        collation: 0,
    }
}

fn builtin_scalar(oid: u32, name: &'static str, len: i16, category: &'static str, array: u32) -> (row: PgTypeRow)
    ensures
        row == scalar_row(oid, name, len, category, array),
{
    PgTypeRow {
        oid,
        name,
        namespace: PG_CATALOG_NAMESPACE_OID,
        len,
        by_value: false,
        category,
        preferred: false,
        delimiter: ",",
        element: 0,
        array,
        collation: 0,
    }
}

impl PgTypeRow {
    fn by_value(self) -> (row: Self)
        ensures
            row == (PgTypeRow { by_value: true, ..self }),
    {
        PgTypeRow { by_value: true, ..self }
    }

    fn preferred(self) -> (row: Self)
        ensures
            row == (PgTypeRow { preferred: true, ..self }),
    {
        PgTypeRow { preferred: true, ..self }
    }

    fn element(self, element: u32) -> (row: Self)
        ensures
            row == (PgTypeRow { element, ..self }),
    {
        PgTypeRow { element, ..self }
    }

    fn collation(self, collation: u32) -> (row: Self)
        ensures
            row == (PgTypeRow { collation, ..self }),
    {
        PgTypeRow { collation, ..self }
    }
}

/// A built-in array type over `element`.
pub open spec fn array_row(oid: u32, name: &'static str, element: u32, collation: u32) -> PgTypeRow {
    PgTypeRow { element, collation, ..scalar_row(oid, name, -1i16, "A", 0) }
}

fn builtin_array(oid: u32, name: &'static str, element: u32, collation: u32) -> (row: PgTypeRow)
    ensures
        row == array_row(oid, name, element, collation),
{
    builtin_scalar(oid, name, -1, "A", 0).element(element).collation(collation)
}

/// A PostGIS type in the `public` namespace.
pub open spec fn spatial_type_row(oid: u32, name: &'static str, array: u32) -> PgTypeRow {
    PgTypeRow {
        oid,
        name,
        namespace: PUBLIC_NAMESPACE_OID,
        len: -1i16,
        by_value: false,
        category: "U",
        preferred: false,
        delimiter: ":",
        element: 0,
        array,
        collation: 0,
    }
}

fn spatial_type(oid: u32, name: &'static str, array: u32) -> (row: PgTypeRow)
    ensures
        row == spatial_type_row(oid, name, array),
{
    PgTypeRow {
        oid,
        name,
        namespace: PUBLIC_NAMESPACE_OID,
        len: -1,
        by_value: false,
        category: "U",
        preferred: false,
        delimiter: ":",
        element: 0,
        array,
        collation: 0,
    }
}

/// The array type of a PostGIS type.
pub open spec fn spatial_array_row(oid: u32, name: &'static str, element: u32) -> PgTypeRow {
    PgTypeRow {
        oid,
        name,
        namespace: PUBLIC_NAMESPACE_OID,
        len: -1i16,
        by_value: false,
        category: "A",
        preferred: false,
        delimiter: ":",
        element,
        array: 0,
        collation: 0,
    }
}

fn spatial_array(oid: u32, name: &'static str, element: u32) -> (row: PgTypeRow)
    ensures
        row == spatial_array_row(oid, name, element),
{
    PgTypeRow {
        oid,
        name,
        namespace: PUBLIC_NAMESPACE_OID,
        len: -1,
        by_value: false,
        category: "A",
        preferred: false,
        delimiter: ":",
        element,
        array: 0,
        collation: 0,
    }
}
/// The PostgreSQL 18.4 type rows that the captured QGIS field-type query and the column-core oracle need, with their array partners.
pub open spec fn baseline_type_rows() -> Seq<PgTypeRow> {
    seq![
        PgTypeRow { by_value: true, preferred: true, ..scalar_row(16, "bool", 1, "B", 1000) },
        PgTypeRow { by_value: true, ..scalar_row(18, "char", 1, "Z", 1002) },
        PgTypeRow { element: 18, collation: 950, ..scalar_row(19, "name", 64, "S", 1003) },
        PgTypeRow { by_value: true, ..scalar_row(20, "int8", 8, "N", 1016) },
        PgTypeRow { by_value: true, ..scalar_row(21, "int2", 2, "N", 1005) },
        PgTypeRow { by_value: true, ..scalar_row(23, "int4", 4, "N", 1007) },
        PgTypeRow { preferred: true, collation: 100, ..scalar_row(25, "text", -1i16, "S", 1009) },
        PgTypeRow { by_value: true, preferred: true, ..scalar_row(26, "oid", 4, "N", 1028) },
        scalar_row(27, "tid", 6, "U", 1010),
        PgTypeRow { by_value: true, ..scalar_row(28, "xid", 4, "U", 1011) },
        PgTypeRow { by_value: true, ..scalar_row(29, "cid", 4, "U", 1012) },
        array_row(1000, "_bool", 16, 0),
        array_row(1002, "_char", 18, 0),
        array_row(1003, "_name", 19, 950),
        array_row(1005, "_int2", 21, 0),
        array_row(1007, "_int4", 23, 0),
        array_row(1009, "_text", 25, 100),
        array_row(1010, "_tid", 27, 0),
        array_row(1011, "_xid", 28, 0),
        array_row(1012, "_cid", 29, 0),
        array_row(1015, "_varchar", 1043, 100),
        array_row(1016, "_int8", 20, 0),
        array_row(1028, "_oid", 26, 0),
        PgTypeRow { collation: 100, ..scalar_row(1043, "varchar", -1i16, "S", 1015) },
        spatial_type_row(GEOMETRY_OID, "geometry", GEOMETRY_ARRAY_OID),
        spatial_type_row(GEOGRAPHY_OID, "geography", GEOGRAPHY_ARRAY_OID),
        spatial_array_row(GEOMETRY_ARRAY_OID, "_geometry", GEOMETRY_OID),
        spatial_array_row(GEOGRAPHY_ARRAY_OID, "_geography", GEOGRAPHY_OID),
    ]
}

/// The maintained `pg_type` rows.
pub fn type_rows() -> (rows: Vec<PgTypeRow>)
    ensures
        rows@ == baseline_type_rows(),
{
    let mut rows: Vec<PgTypeRow> = Vec::new();
    rows.push(builtin_scalar(16, "bool", 1, "B", 1000).by_value().preferred());
    rows.push(builtin_scalar(18, "char", 1, "Z", 1002).by_value());
    rows.push(builtin_scalar(19, "name", 64, "S", 1003).element(18).collation(950));
    rows.push(builtin_scalar(20, "int8", 8, "N", 1016).by_value());
    rows.push(builtin_scalar(21, "int2", 2, "N", 1005).by_value());
    rows.push(builtin_scalar(23, "int4", 4, "N", 1007).by_value());
    rows.push(builtin_scalar(25, "text", -1, "S", 1009).preferred().collation(100));
    rows.push(builtin_scalar(26, "oid", 4, "N", 1028).by_value().preferred());
    rows.push(builtin_scalar(27, "tid", 6, "U", 1010));
    rows.push(builtin_scalar(28, "xid", 4, "U", 1011).by_value());
    rows.push(builtin_scalar(29, "cid", 4, "U", 1012).by_value());
    rows.push(builtin_array(1000, "_bool", 16, 0));
    rows.push(builtin_array(1002, "_char", 18, 0));
    rows.push(builtin_array(1003, "_name", 19, 950));
    rows.push(builtin_array(1005, "_int2", 21, 0));
    rows.push(builtin_array(1007, "_int4", 23, 0));
    rows.push(builtin_array(1009, "_text", 25, 100));
    rows.push(builtin_array(1010, "_tid", 27, 0));
    rows.push(builtin_array(1011, "_xid", 28, 0));
    rows.push(builtin_array(1012, "_cid", 29, 0));
    rows.push(builtin_array(1015, "_varchar", 1043, 100));
    rows.push(builtin_array(1016, "_int8", 20, 0));
    rows.push(builtin_array(1028, "_oid", 26, 0));
    rows.push(builtin_scalar(1043, "varchar", -1, "S", 1015).collation(100));
    rows.push(spatial_type(GEOMETRY_OID, "geometry", GEOMETRY_ARRAY_OID));
    rows.push(spatial_type(GEOGRAPHY_OID, "geography", GEOGRAPHY_ARRAY_OID));
    rows.push(spatial_array(GEOMETRY_ARRAY_OID, "_geometry", GEOMETRY_OID));
    rows.push(spatial_array(GEOGRAPHY_ARRAY_OID, "_geography", GEOGRAPHY_OID));
    assert(rows@ =~= baseline_type_rows());
    rows
}

/// The further scalar and array rows that user-column catalogs need once catalog identity is enabled.
pub open spec fn identity_only_type_rows() -> Seq<PgTypeRow> {
    seq![
        scalar_row(17, "bytea", -1i16, "U", 1001),
        PgTypeRow { element: 21, ..scalar_row(22, "int2vector", -1i16, "A", 1006) },
        PgTypeRow { collation: 100, ..scalar_row(194, "pg_node_tree", -1i16, "S", 0) },
        array_row(1001, "_bytea", 17, 0),
        array_row(1006, "_int2vector", 22, 0),
        PgTypeRow { by_value: true, ..scalar_row(700, "float4", 4, "N", 1021) },
        PgTypeRow { by_value: true, preferred: true, ..scalar_row(701, "float8", 8, "N", 1022) },
        array_row(1021, "_float4", 700, 0),
        array_row(1022, "_float8", 701, 0),
        PgTypeRow { by_value: true, ..scalar_row(1082, "date", 4, "D", 1182) },
        PgTypeRow { by_value: true, ..scalar_row(1083, "time", 8, "D", 1183) },
        array_row(1115, "_timestamp", 1114, 0),
        PgTypeRow { by_value: true, ..scalar_row(1114, "timestamp", 8, "D", 1115) },
        array_row(1182, "_date", 1082, 0),
        array_row(1183, "_time", 1083, 0),
        array_row(1185, "_timestamptz", 1184, 0),
        PgTypeRow { by_value: true, preferred: true, ..scalar_row(1184, "timestamptz", 8, "D", 1185) },
        PgTypeRow { preferred: true, ..scalar_row(1186, "interval", 16, "T", 1187) },
        array_row(1187, "_interval", 1186, 0),
        array_row(1231, "_numeric", 1700, 0),
        scalar_row(1700, "numeric", -1i16, "N", 1231),
        scalar_row(3802, "jsonb", -1i16, "U", 3807),
        array_row(3807, "_jsonb", 3802, 0),
        PgTypeRow { by_value: true, ..scalar_row(2205, "regclass", 4, "N", 2210) },
        array_row(2210, "_regclass", 2205, 0),
        PgTypeRow { by_value: true, ..scalar_row(2206, "regtype", 4, "N", 2211) },
        array_row(2211, "_regtype", 2206, 0),
        PgTypeRow { by_value: true, ..scalar_row(4089, "regnamespace", 4, "N", 4090) },
        array_row(4090, "_regnamespace", 4089, 0),
        PgTypeRow { by_value: true, ..scalar_row(4096, "regrole", 4, "N", 4097) },
        array_row(4097, "_regrole", 4096, 0),
    ]
}

/// The `pg_type` rows added once catalog identity is enabled.
pub fn identity_type_rows() -> (rows: Vec<PgTypeRow>)
    ensures
        rows@ == identity_only_type_rows(),
{
    let mut rows: Vec<PgTypeRow> = Vec::new();
    rows.push(builtin_scalar(17, "bytea", -1, "U", 1001));
    rows.push(builtin_scalar(22, "int2vector", -1, "A", 1006).element(21));
    rows.push(builtin_scalar(194, "pg_node_tree", -1, "S", 0).collation(100));
    rows.push(builtin_array(1001, "_bytea", 17, 0));
    rows.push(builtin_array(1006, "_int2vector", 22, 0));
    rows.push(builtin_scalar(700, "float4", 4, "N", 1021).by_value());
    rows.push(builtin_scalar(701, "float8", 8, "N", 1022).by_value().preferred());
    rows.push(builtin_array(1021, "_float4", 700, 0));
    rows.push(builtin_array(1022, "_float8", 701, 0));
    rows.push(builtin_scalar(1082, "date", 4, "D", 1182).by_value());
    rows.push(builtin_scalar(1083, "time", 8, "D", 1183).by_value());
    rows.push(builtin_array(1115, "_timestamp", 1114, 0));
    rows.push(builtin_scalar(1114, "timestamp", 8, "D", 1115).by_value());
    rows.push(builtin_array(1182, "_date", 1082, 0));
    rows.push(builtin_array(1183, "_time", 1083, 0));
    rows.push(builtin_array(1185, "_timestamptz", 1184, 0));
    rows.push(builtin_scalar(1184, "timestamptz", 8, "D", 1185).by_value().preferred());
    rows.push(builtin_scalar(1186, "interval", 16, "T", 1187).preferred());
    rows.push(builtin_array(1187, "_interval", 1186, 0));
    rows.push(builtin_array(1231, "_numeric", 1700, 0));
    rows.push(builtin_scalar(1700, "numeric", -1, "N", 1231));
    rows.push(builtin_scalar(3802, "jsonb", -1, "U", 3807));
    rows.push(builtin_array(3807, "_jsonb", 3802, 0));
    rows.push(builtin_scalar(2205, "regclass", 4, "N", 2210).by_value());
    rows.push(builtin_array(2210, "_regclass", 2205, 0));
    rows.push(builtin_scalar(2206, "regtype", 4, "N", 2211).by_value());
    rows.push(builtin_array(2211, "_regtype", 2206, 0));
    rows.push(builtin_scalar(4089, "regnamespace", 4, "N", 4090).by_value());
    rows.push(builtin_array(4090, "_regnamespace", 4089, 0));
    rows.push(builtin_scalar(4096, "regrole", 4, "N", 4097).by_value());
    rows.push(builtin_array(4097, "_regrole", 4096, 0));
    assert(rows@ =~= identity_only_type_rows());
    rows
}

/// One `VALUES` tuple of the `pg_type` projection.
pub open spec fn type_row_text(row: PgTypeRow) -> Seq<char> {
    "("@ + decimal(row.oid as nat) + "::UINTEGER, '"@ + row.name@ + "'::VARCHAR, "@
        + decimal(row.namespace as nat) + "::UINTEGER, "@ + signed_decimal(row.len as int)
        + "::SMALLINT, "@ + bool_text(row.by_value) + ", 'b'::VARCHAR, '"@ + row.category@
        + "'::VARCHAR, "@ + bool_text(row.preferred) + ", true, '"@ + row.delimiter@
        + "'::VARCHAR, 0::UINTEGER, "@ + decimal(row.element as nat) + "::UINTEGER, "@
        + decimal(row.array as nat)
        + "::UINTEGER, false, 0::UINTEGER, -1::INTEGER, 0::INTEGER, "@
        + decimal(row.collation as nat) + "::UINTEGER)"@
}

fn type_row_sql(row: &PgTypeRow) -> (text: String)
    ensures
        text@ == type_row_text(*row),
{
    let mut out = String::from_str("(");
    push_decimal(&mut out, row.oid as u64);
    out.append("::UINTEGER, '");
    out.append(row.name);
    out.append("'::VARCHAR, ");
    push_decimal(&mut out, row.namespace as u64);
    out.append("::UINTEGER, ");
    push_signed_decimal(&mut out, row.len as i64);
    out.append("::SMALLINT, ");
    push_bool(&mut out, row.by_value);
    out.append(", 'b'::VARCHAR, '");
    out.append(row.category);
    out.append("'::VARCHAR, ");
    push_bool(&mut out, row.preferred);
    out.append(", true, '");
    out.append(row.delimiter);
    out.append("'::VARCHAR, 0::UINTEGER, ");
    push_decimal(&mut out, row.element as u64);
    out.append("::UINTEGER, ");
    push_decimal(&mut out, row.array as u64);
    out.append("::UINTEGER, false, 0::UINTEGER, -1::INTEGER, 0::INTEGER, ");
    push_decimal(&mut out, row.collation as u64);
    out.append("::UINTEGER)");
    out
}

/// The `VALUES` tuples of `rows`, one per line.
pub open spec fn type_rows_text(rows: Seq<PgTypeRow>) -> Seq<char> {
    joined(rows.map_values(|row: PgTypeRow| type_row_text(row)), ",\n"@)
}

fn render_type_rows(rows: &Vec<PgTypeRow>) -> (text: String)
    ensures
        text@ == type_rows_text(rows@),
{
    let mut parts: Vec<String> = Vec::new();
    let mut i: usize = 0;
    while i < rows.len()
        invariant
            i <= rows.len(),
            parts@.len() == i,
            forall|k: int| 0 <= k < i ==> #[trigger] parts@[k]@ == type_row_text(rows@[k]),
        decreases rows.len() - i,
    {
        parts.push(type_row_sql(&rows[i]));
        i = i + 1;
    }
    assert(parts@.map_values(|p: String| p@) =~= rows@.map_values(
        |row: PgTypeRow| type_row_text(row),
    ));
    join_strings(&parts, ",\n")
}

fn type_rows_sql() -> (text: String)
    ensures
        text@ == type_rows_text(baseline_type_rows()),
{
    render_type_rows(&type_rows())
}

fn identity_type_rows_sql() -> (text: String)
    ensures
        text@ == type_rows_text(baseline_type_rows() + identity_only_type_rows()),
{
    let mut rows = type_rows();
    let mut more = identity_type_rows();
    rows.append(&mut more);
    render_type_rows(&rows)
}

/// The PostGIS version procedures published in `pg_proc`.
pub open spec fn pg_proc_rows() -> Seq<(u32, &'static str)> {
    seq![
        (POSTGIS_LIB_VERSION_PROC_OID, "postgis_lib_version"),
        (POSTGIS_VERSION_PROC_OID, "postgis_version"),
        (POSTGIS_GEOS_VERSION_PROC_OID, "postgis_geos_version"),
        (POSTGIS_PROJ_VERSION_PROC_OID, "postgis_proj_version"),
    ]
}

/// One `VALUES` tuple of the `pg_proc` projection.
pub open spec fn proc_row_text(row: (u32, &'static str)) -> Seq<char> {
    "("@ + decimal(row.0 as nat) + "::UINTEGER, '"@ + row.1@ + "'::VARCHAR, "@
        + decimal(PUBLIC_NAMESPACE_OID as nat) + "::UINTEGER)"@
}

/// The `pg_proc` tuples, one per line.
pub open spec fn pg_proc_rows_text() -> Seq<char> {
    joined(pg_proc_rows().map_values(|row: (u32, &'static str)| proc_row_text(row)), ",\n"@)
}

/// The PostGIS version procedures published in `pg_proc`, by OID and name.
pub fn proc_rows() -> (rows: Vec<(u32, &'static str)>)
    ensures
        rows@ == pg_proc_rows(),
{
    let mut rows: Vec<(u32, &'static str)> = Vec::new();
    rows.push((POSTGIS_LIB_VERSION_PROC_OID, "postgis_lib_version"));
    rows.push((POSTGIS_VERSION_PROC_OID, "postgis_version"));
    rows.push((POSTGIS_GEOS_VERSION_PROC_OID, "postgis_geos_version"));
    rows.push((POSTGIS_PROJ_VERSION_PROC_OID, "postgis_proj_version"));
    assert(rows@ =~= pg_proc_rows());
    rows
}

fn pg_proc_rows_sql() -> (text: String)
    ensures
        text@ == pg_proc_rows_text(),
{
    let rows = proc_rows();
    let mut parts: Vec<String> = Vec::new();
    let mut i: usize = 0;
    while i < rows.len()
        invariant
            i <= rows.len(),
            rows@ == pg_proc_rows(),
            parts@.len() == i,
            forall|k: int| 0 <= k < i ==> #[trigger] parts@[k]@ == proc_row_text(rows@[k]),
        decreases rows.len() - i,
    {
        let (oid, name) = rows[i];
        let mut out = String::from_str("(");
        push_decimal(&mut out, oid as u64);
        out.append("::UINTEGER, '");
        out.append(name);
        out.append("'::VARCHAR, ");
        push_decimal(&mut out, PUBLIC_NAMESPACE_OID as u64);
        out.append("::UINTEGER)");
        parts.push(out);
        i = i + 1;
    }
    assert(parts@.map_values(|p: String| p@) =~= pg_proc_rows().map_values(
        |row: (u32, &'static str)| proc_row_text(row),
    ));
    join_strings(&parts, ",\n")
}

/// Table macros that filter the structural catalogs down to the relations an effective role may see.
pub const ROLE_STRUCTURAL_CATALOG_SQL: &'static str = r#"CREATE OR REPLACE MACRO quackgis_pg_visible_relations(effective_role, session_identity) AS TABLE
           SELECT DISTINCT columns.relation_oid
           FROM quackgis_pg_catalog._current_columns columns
           JOIN quackgis_pg_catalog.information_schema_table_visibility visibility
             ON visibility.schema_name = columns.schema_name
            AND lower(visibility.table_name) = lower(columns.table_name)
           JOIN quackgis_pg_catalog.information_schema_legacy_visibility legacy
             ON legacy.schema_name = visibility.schema_name
            AND lower(legacy.table_name) = lower(visibility.table_name)
           WHERE visibility.role_name = CAST(effective_role AS VARCHAR)
             AND legacy.session_user = CAST(session_identity AS VARCHAR)
             AND (visibility.can_select AND legacy.can_read
                  OR (visibility.can_insert OR visibility.can_update OR visibility.can_delete)
                     AND legacy.can_write);
         CREATE OR REPLACE MACRO quackgis_pg_attrdef_visible(effective_role, session_identity) AS TABLE
           SELECT defaults.* FROM quackgis_pg_catalog.pg_attrdef defaults
           JOIN quackgis_pg_visible_relations(effective_role, session_identity) visible
             ON visible.relation_oid = defaults.adrelid;
         CREATE OR REPLACE MACRO quackgis_pg_description_visible(effective_role, session_identity) AS TABLE
           SELECT descriptions.* FROM quackgis_pg_catalog.pg_description descriptions
           JOIN quackgis_pg_visible_relations(effective_role, session_identity) visible
             ON visible.relation_oid = descriptions.objoid;
         CREATE OR REPLACE MACRO quackgis_pg_constraint_visible(effective_role, session_identity) AS TABLE
           SELECT constraints.* FROM quackgis_pg_catalog.pg_constraint constraints
           JOIN quackgis_pg_visible_relations(effective_role, session_identity) visible
             ON visible.relation_oid = constraints.conrelid;
         CREATE OR REPLACE MACRO quackgis_pg_index_visible(effective_role, session_identity) AS TABLE
           SELECT indexes.* FROM quackgis_pg_catalog.pg_index indexes
           JOIN quackgis_pg_visible_relations(effective_role, session_identity) visible
             ON visible.relation_oid = indexes.indrelid;
         CREATE OR REPLACE MACRO quackgis_pg_geometry_columns_visible(effective_role, session_identity) AS TABLE
           SELECT geometry_columns.f_table_catalog, geometry_columns.f_table_schema,
                  geometry_columns.f_table_name, geometry_columns.f_geometry_column,
                  geometry_columns.coord_dimension, geometry_columns.srid,
                  geometry_columns.type
           FROM quackgis_pg_catalog.geometry_columns geometry_columns
           JOIN quackgis_pg_visible_relations(effective_role, session_identity) visible
             ON visible.relation_oid = geometry_columns._qg_relation_oid;
         CREATE OR REPLACE MACRO quackgis_pg_col_description_visible(
           relation_value, column_value, effective_role, session_identity
         ) AS (SELECT description
               FROM quackgis_pg_description_visible(effective_role, session_identity)
               WHERE classoid = 1259::UINTEGER
                 AND objoid = try_cast(relation_value AS UINTEGER)
                 AND objsubid = try_cast(column_value AS INTEGER)
               LIMIT 1);
         CREATE OR REPLACE MACRO quackgis_pg_obj_description_visible(
           object_value, catalog_name := NULL, effective_role := NULL, session_identity := NULL
         ) AS CASE
           WHEN object_value IS NULL THEN NULL
           WHEN catalog_name IS NOT NULL AND lower(CAST(catalog_name AS VARCHAR)) <> 'pg_class'
             THEN error('PostgreSQL object description catalog is not maintained')
           ELSE (SELECT description
                 FROM quackgis_pg_description_visible(effective_role, session_identity)
                 WHERE classoid = 1259::UINTEGER
                   AND objoid = try_cast(object_value AS UINTEGER) AND objsubid = 0
                 LIMIT 1) END;
         CREATE OR REPLACE MACRO quackgis_pg_get_constraintdef_visible(
           constraint_value, pretty := false, effective_role := NULL, session_identity := NULL
         ) AS CASE
           WHEN constraint_value IS NULL THEN NULL
           WHEN pretty IS NOT NULL AND try_cast(pretty AS BOOLEAN) IS NULL
             THEN error('PostgreSQL pg_get_constraintdef pretty flag must be boolean')
           ELSE (SELECT 'NOT NULL ' || quackgis_pg_quote_identifier(attributes.attname)
                 FROM quackgis_pg_constraint_visible(effective_role, session_identity) constraints
                 JOIN quackgis_pg_catalog.pg_attribute attributes
                   ON attributes.attrelid = constraints.conrelid
                  AND attributes.attnum = constraints.conkey[1]
                 WHERE constraints.oid = try_cast(constraint_value AS UINTEGER)
                   AND constraints.contype = 'n'
                 LIMIT 1) END;
         CREATE OR REPLACE MACRO quackgis_pg_get_indexdef_visible(
           index_value, column_number := 0, pretty := false,
           effective_role := NULL, session_identity := NULL
         ) AS CASE
           WHEN index_value IS NULL THEN NULL
           WHEN try_cast(column_number AS INTEGER) IS NULL
             OR (pretty IS NOT NULL AND try_cast(pretty AS BOOLEAN) IS NULL)
             THEN error('PostgreSQL pg_get_indexdef arguments are invalid')
           ELSE (SELECT NULL::VARCHAR
                 FROM quackgis_pg_index_visible(effective_role, session_identity) indexes
                 WHERE indexes.indexrelid = try_cast(index_value AS UINTEGER)
                 LIMIT 1) END;"#;

/// The role-bound structural catalog macros, installed with a role catalog
/// when catalog identity is enabled.
pub fn duckdb_role_structural_catalog_sql() -> (sql: &'static str)
    ensures
        sql@ == ROLE_STRUCTURAL_CATALOG_SQL@,
{
    ROLE_STRUCTURAL_CATALOG_SQL
}

/// The `information_schema.columns.data_type` of a DuckDB column `c`.
pub const INFORMATION_SCHEMA_DATA_TYPE_SQL: &'static str = "CASE
       WHEN c.data_type LIKE '%[]' THEN 'ARRAY'
       WHEN c.data_type = 'BOOLEAN' THEN 'boolean'
       WHEN c.data_type = 'TINYINT' THEN '\"char\"'
       WHEN c.data_type IN ('SMALLINT', 'UTINYINT') THEN 'smallint'
       WHEN c.data_type IN ('INTEGER', 'USMALLINT') THEN 'integer'
       WHEN c.data_type IN ('BIGINT', 'UINTEGER') THEN 'bigint'
       WHEN c.data_type IN ('HUGEINT', 'UHUGEINT', 'UBIGINT')
         OR (starts_with(c.data_type, 'DECIMAL(') AND NOT ends_with(c.data_type, '[]'))
         THEN 'numeric'
       WHEN c.data_type = 'FLOAT' THEN 'real'
       WHEN c.data_type = 'DOUBLE' THEN 'double precision'
       WHEN c.data_type = 'DATE' THEN 'date'
       WHEN c.data_type = 'TIME' THEN 'time without time zone'
       WHEN c.data_type IN ('TIMESTAMP', 'TIMESTAMP_S', 'TIMESTAMP_MS', 'TIMESTAMP_NS')
         THEN 'timestamp without time zone'
       WHEN c.data_type = 'TIMESTAMP WITH TIME ZONE' THEN 'timestamp with time zone'
       WHEN c.data_type = 'INTERVAL' THEN 'interval'
       WHEN c.data_type = 'JSON' AND lower(c.column_name) = 'properties' THEN 'jsonb'
       WHEN c.data_type IN ('VARCHAR', 'JSON') THEN 'text'
       WHEN c.data_type = 'GEOMETRY' THEN 'USER-DEFINED'
       WHEN c.data_type = 'BLOB' AND lower(c.column_name) IN
         ('geog', 'geography', 'the_geog', 'geom', 'geometry', 'the_geom',
          'wkb_geometry', 'wkb_geom', 'geom_wkb', 'shape', 'footprint', 'way')
         THEN 'USER-DEFINED'
       WHEN c.data_type = 'BLOB' THEN 'bytea'
       ELSE error('unsupported DuckLake column type in PostgreSQL information schema')
     END";

/// The SQL expression for `information_schema.columns.data_type` of a
/// DuckDB column `c`.
pub fn duckdb_information_schema_data_type_sql() -> (sql: &'static str)
    ensures
        sql@ == INFORMATION_SCHEMA_DATA_TYPE_SQL@,
{
    INFORMATION_SCHEMA_DATA_TYPE_SQL
}

/// The `udt_schema` of a DuckDB column `c`.
pub const INFORMATION_SCHEMA_UDT_SCHEMA_SQL: &'static str = "CASE WHEN c.data_type = 'GEOMETRY' OR c.data_type = 'BLOB' AND lower(c.column_name) IN
       ('geog', 'geography', 'the_geog', 'geom', 'geometry', 'the_geom',
        'wkb_geometry', 'wkb_geom', 'geom_wkb', 'shape', 'footprint', 'way')
       THEN 'public' ELSE 'pg_catalog' END";

/// The SQL expression for `udt_schema` of a DuckDB column `c`.
pub fn duckdb_information_schema_udt_schema_sql() -> (sql: &'static str)
    ensures
        sql@ == INFORMATION_SCHEMA_UDT_SCHEMA_SQL@,
{
    INFORMATION_SCHEMA_UDT_SCHEMA_SQL
}

/// The `udt_name` of a DuckDB column `c`.
pub const INFORMATION_SCHEMA_UDT_NAME_SQL: &'static str = "CASE
       WHEN c.data_type = 'BOOLEAN' THEN 'bool'
       WHEN c.data_type = 'TINYINT' THEN 'char'
       WHEN c.data_type IN ('SMALLINT', 'UTINYINT') THEN 'int2'
       WHEN c.data_type IN ('INTEGER', 'USMALLINT') THEN 'int4'
       WHEN c.data_type IN ('BIGINT', 'UINTEGER') THEN 'int8'
       WHEN c.data_type IN ('HUGEINT', 'UHUGEINT', 'UBIGINT')
         OR (starts_with(c.data_type, 'DECIMAL(') AND NOT ends_with(c.data_type, '[]'))
         THEN 'numeric'
       WHEN c.data_type = 'FLOAT' THEN 'float4'
       WHEN c.data_type = 'DOUBLE' THEN 'float8'
       WHEN c.data_type = 'DATE' THEN 'date'
       WHEN c.data_type = 'TIME' THEN 'time'
       WHEN c.data_type IN ('TIMESTAMP', 'TIMESTAMP_S', 'TIMESTAMP_MS', 'TIMESTAMP_NS')
         THEN 'timestamp'
       WHEN c.data_type = 'TIMESTAMP WITH TIME ZONE' THEN 'timestamptz'
       WHEN c.data_type = 'INTERVAL' THEN 'interval'
       WHEN c.data_type = 'JSON' AND lower(c.column_name) = 'properties' THEN 'jsonb'
       WHEN c.data_type IN ('VARCHAR', 'JSON') THEN 'text'
       WHEN c.data_type = 'GEOMETRY' THEN 'geometry'
       WHEN c.data_type = 'BLOB' AND lower(c.column_name) IN
         ('geog', 'geography', 'the_geog') THEN 'geography'
       WHEN c.data_type = 'BLOB' AND lower(c.column_name) IN
         ('geom', 'geometry', 'the_geom', 'wkb_geometry', 'wkb_geom',
          'geom_wkb', 'shape', 'footprint', 'way') THEN 'geometry'
       WHEN c.data_type = 'BLOB' THEN 'bytea'
       WHEN c.data_type = 'BOOLEAN[]' THEN '_bool'
       WHEN c.data_type IN ('TINYINT[]', 'SMALLINT[]', 'UTINYINT[]') THEN '_int2'
       WHEN c.data_type IN ('INTEGER[]', 'USMALLINT[]') THEN '_int4'
       WHEN c.data_type IN ('BIGINT[]', 'UINTEGER[]') THEN '_int8'
       WHEN c.data_type IN ('HUGEINT[]', 'UHUGEINT[]', 'UBIGINT[]')
         OR (starts_with(c.data_type, 'DECIMAL(') AND ends_with(c.data_type, '[]'))
         THEN '_numeric'
       WHEN c.data_type = 'FLOAT[]' THEN '_float4'
       WHEN c.data_type = 'DOUBLE[]' THEN '_float8'
       WHEN c.data_type = 'DATE[]' THEN '_date'
       WHEN c.data_type = 'TIME[]' THEN '_time'
       WHEN c.data_type IN ('TIMESTAMP[]', 'TIMESTAMP_S[]', 'TIMESTAMP_MS[]', 'TIMESTAMP_NS[]')
         THEN '_timestamp'
       WHEN c.data_type = 'TIMESTAMP WITH TIME ZONE[]' THEN '_timestamptz'
       WHEN c.data_type = 'INTERVAL[]' THEN '_interval'
       WHEN c.data_type IN ('VARCHAR[]', 'JSON[]') THEN '_text'
       WHEN c.data_type = 'BLOB[]' THEN '_bytea'
       ELSE error('unsupported DuckLake column type in PostgreSQL information schema')
     END";

/// The SQL expression for `udt_name` of a DuckDB column `c`.
pub fn duckdb_information_schema_udt_name_sql() -> (sql: &'static str)
    ensures
        sql@ == INFORMATION_SCHEMA_UDT_NAME_SQL@,
{
    INFORMATION_SCHEMA_UDT_NAME_SQL
}

/// The PostgreSQL type OID of a DuckDB column.
pub const COLUMN_TYPE_OID_SQL: &'static str = "CASE
       WHEN data_type = 'GEOMETRY' THEN 90001
       WHEN data_type = 'BLOB' AND lower(column_name) IN
         ('geog', 'geography', 'the_geog') THEN 90002
       WHEN data_type = 'BLOB' AND lower(column_name) IN
         ('geom', 'geometry', 'the_geom', 'wkb_geometry', 'wkb_geom',
          'geom_wkb', 'shape', 'footprint', 'way') THEN 90001
       WHEN data_type IN ('VARCHAR', 'JSON') AND lower(column_name) = 'properties' THEN 3802
       WHEN data_type IN ('VARCHAR', 'JSON') THEN 25
       WHEN data_type = 'BOOLEAN' THEN 16
       WHEN data_type = 'TINYINT' THEN 18
       WHEN data_type IN ('SMALLINT', 'UTINYINT') THEN 21
       WHEN data_type IN ('INTEGER', 'USMALLINT') THEN 23
       WHEN data_type IN ('BIGINT', 'UINTEGER') THEN 20
       WHEN data_type IN ('HUGEINT', 'UHUGEINT', 'UBIGINT')
         OR (starts_with(data_type, 'DECIMAL(') AND NOT ends_with(data_type, '[]')) THEN 1700
       WHEN data_type = 'FLOAT' THEN 700
       WHEN data_type = 'DOUBLE' THEN 701
       WHEN data_type = 'DATE' THEN 1082
       WHEN data_type = 'TIME' THEN 1083
       WHEN data_type IN ('TIMESTAMP', 'TIMESTAMP_S', 'TIMESTAMP_MS', 'TIMESTAMP_NS') THEN 1114
       WHEN data_type = 'TIMESTAMP WITH TIME ZONE' THEN 1184
       WHEN data_type = 'INTERVAL' THEN 1186
       WHEN data_type = 'BLOB' THEN 17
       WHEN data_type = 'BOOLEAN[]' THEN 1000
       WHEN data_type IN ('TINYINT[]', 'SMALLINT[]', 'UTINYINT[]') THEN 1005
       WHEN data_type IN ('INTEGER[]', 'USMALLINT[]') THEN 1007
       WHEN data_type IN ('BIGINT[]', 'UINTEGER[]') THEN 1016
       WHEN data_type IN ('HUGEINT[]', 'UHUGEINT[]', 'UBIGINT[]')
         OR (starts_with(data_type, 'DECIMAL(') AND ends_with(data_type, '[]')) THEN 1231
       WHEN data_type = 'FLOAT[]' THEN 1021
       WHEN data_type = 'DOUBLE[]' THEN 1022
       WHEN data_type = 'DATE[]' THEN 1182
       WHEN data_type = 'TIME[]' THEN 1183
       WHEN data_type IN ('TIMESTAMP[]', 'TIMESTAMP_S[]', 'TIMESTAMP_MS[]', 'TIMESTAMP_NS[]') THEN 1115
       WHEN data_type = 'TIMESTAMP WITH TIME ZONE[]' THEN 1185
       WHEN data_type = 'INTERVAL[]' THEN 1187
       WHEN data_type IN ('VARCHAR[]', 'JSON[]') THEN 1009
       WHEN data_type = 'BLOB[]' THEN 1001
       ELSE error('unsupported DuckLake column type in PostgreSQL catalog projection')
     END";

fn duckdb_column_type_oid_sql() -> (sql: &'static str)
    ensures
        sql@ == COLUMN_TYPE_OID_SQL@,
{
    COLUMN_TYPE_OID_SQL
}

/// Name-resolution and rendering macros behind the registered-object functions.
pub const IDENTITY_CATALOG_MACROS_SQL: &'static str = r#"CREATE OR REPLACE MACRO quackgis_pg_name_first(value) AS
           regexp_extract(trim(CAST(value AS VARCHAR)),
             '^("(?:[^"]|"")*"|[A-Za-z_][A-Za-z0-9_$]*)(\s*\.\s*("(?:[^"]|"")*"|[A-Za-z_][A-Za-z0-9_$]*))?$', 1);
         CREATE OR REPLACE MACRO quackgis_pg_name_second(value) AS
           regexp_extract(trim(CAST(value AS VARCHAR)),
             '^("(?:[^"]|"")*"|[A-Za-z_][A-Za-z0-9_$]*)(\s*\.\s*("(?:[^"]|"")*"|[A-Za-z_][A-Za-z0-9_$]*))?$', 3);
         CREATE OR REPLACE MACRO quackgis_pg_normalize_identifier(part) AS
           CASE WHEN starts_with(part, '"')
                THEN replace(substr(part, 2, length(part) - 2), '""', '"')
                ELSE lower(part) END;
         CREATE OR REPLACE MACRO quackgis_pg_name_schema(value) AS
           CASE WHEN quackgis_pg_name_second(value) = '' THEN NULL
                ELSE quackgis_pg_normalize_identifier(quackgis_pg_name_first(value)) END;
         CREATE OR REPLACE MACRO quackgis_pg_name_object(value) AS
           CASE WHEN quackgis_pg_name_second(value) = ''
                THEN quackgis_pg_normalize_identifier(quackgis_pg_name_first(value))
                ELSE quackgis_pg_normalize_identifier(quackgis_pg_name_second(value)) END;
         CREATE OR REPLACE MACRO quackgis_pg_type_is_array(value) AS
           regexp_full_match(trim(CAST(value AS VARCHAR)), '.*\[\]\s*$');
         CREATE OR REPLACE MACRO quackgis_pg_type_clean(value) AS
           trim(regexp_replace(regexp_replace(trim(CAST(value AS VARCHAR)),
             '\[\]\s*$', ''), '\([^)]*\)\s*$', ''));
         CREATE OR REPLACE MACRO quackgis_pg_type_object(value) AS
           CASE lower(quackgis_pg_type_clean(value))
             WHEN 'boolean' THEN 'bool'
             WHEN 'smallint' THEN 'int2'
             WHEN 'integer' THEN 'int4'
             WHEN 'int' THEN 'int4'
             WHEN 'bigint' THEN 'int8'
             WHEN 'real' THEN 'float4'
             WHEN 'double precision' THEN 'float8'
             WHEN 'decimal' THEN 'numeric'
             WHEN 'character varying' THEN 'varchar'
             WHEN 'timestamp without time zone' THEN 'timestamp'
             WHEN 'timestamp with time zone' THEN 'timestamptz'
             WHEN 'time without time zone' THEN 'time'
             ELSE quackgis_pg_name_object(quackgis_pg_type_clean(value)) END;
         CREATE OR REPLACE MACRO quackgis_pg_to_regclass(value) AS
           CASE
             WHEN try_cast(value AS UINTEGER) = 1259 THEN 1259::UINTEGER
             WHEN try_cast(value AS UINTEGER) IS NULL
              AND quackgis_pg_name_object(value) = 'pg_class'
              AND coalesce(quackgis_pg_name_schema(value), 'pg_catalog') = 'pg_catalog'
               THEN 1259::UINTEGER
             ELSE (SELECT __quackgis_class.oid
                   FROM quackgis_pg_catalog.pg_class __quackgis_class
                   JOIN quackgis_pg_catalog.pg_namespace __quackgis_namespace
                     ON __quackgis_namespace.oid = __quackgis_class.relnamespace
                   WHERE (try_cast(value AS UINTEGER) IS NOT NULL
                          AND __quackgis_class.oid = try_cast(value AS UINTEGER))
                      OR (try_cast(value AS UINTEGER) IS NULL
                          AND __quackgis_class.relname = quackgis_pg_name_object(value)
                          AND __quackgis_namespace.nspname =
                              coalesce(quackgis_pg_name_schema(value), 'public'))
                   LIMIT 1) END;
         CREATE OR REPLACE MACRO quackgis_pg_regclass(value) AS
           CASE WHEN value IS NULL THEN NULL
                ELSE coalesce(quackgis_pg_to_regclass(value),
                     error('PostgreSQL relation does not exist')) END;
         CREATE OR REPLACE MACRO quackgis_pg_to_regtype(value) AS
           (SELECT CASE WHEN quackgis_pg_type_is_array(value)
                        THEN nullif(__quackgis_type.typarray, 0)
                        ELSE __quackgis_type.oid END
            FROM quackgis_pg_catalog.pg_type __quackgis_type
            JOIN quackgis_pg_catalog.pg_namespace __quackgis_namespace
              ON __quackgis_namespace.oid = __quackgis_type.typnamespace
            WHERE (try_cast(value AS UINTEGER) IS NOT NULL
                   AND __quackgis_type.oid = try_cast(value AS UINTEGER))
               OR (try_cast(value AS UINTEGER) IS NULL
                   AND __quackgis_type.typname = quackgis_pg_type_object(value)
                   AND (quackgis_pg_name_schema(quackgis_pg_type_clean(value)) IS NULL
                        AND __quackgis_namespace.nspname IN ('pg_catalog', 'public')
                     OR __quackgis_namespace.nspname =
                        quackgis_pg_name_schema(quackgis_pg_type_clean(value))))
            ORDER BY CASE __quackgis_namespace.nspname
              WHEN 'pg_catalog' THEN 0 WHEN 'public' THEN 1 ELSE 2 END
            LIMIT 1);
         CREATE OR REPLACE MACRO quackgis_pg_regtype(value) AS
           CASE WHEN value IS NULL THEN NULL
                ELSE coalesce(quackgis_pg_to_regtype(value),
                     error('PostgreSQL type does not exist')) END;
         CREATE OR REPLACE MACRO quackgis_pg_to_regnamespace(value) AS
           (SELECT __quackgis_namespace.oid
            FROM quackgis_pg_catalog.pg_namespace __quackgis_namespace
            WHERE (try_cast(value AS UINTEGER) IS NOT NULL
                   AND __quackgis_namespace.oid = try_cast(value AS UINTEGER))
               OR (try_cast(value AS UINTEGER) IS NULL
                   AND quackgis_pg_name_schema(value) IS NULL
                   AND __quackgis_namespace.nspname = quackgis_pg_name_object(value))
            LIMIT 1);
         CREATE OR REPLACE MACRO quackgis_pg_regnamespace(value) AS
           CASE WHEN value IS NULL THEN NULL
                ELSE coalesce(quackgis_pg_to_regnamespace(value),
                     error('PostgreSQL schema does not exist')) END;
         CREATE OR REPLACE MACRO quackgis_pg_to_regrole(value) AS
           (SELECT __quackgis_role.oid FROM quackgis_pg_catalog.pg_roles __quackgis_role
            WHERE (try_cast(value AS UINTEGER) IS NOT NULL
                   AND __quackgis_role.oid = try_cast(value AS UINTEGER))
               OR (try_cast(value AS UINTEGER) IS NULL
                   AND quackgis_pg_name_schema(value) IS NULL
                   AND __quackgis_role.rolname = quackgis_pg_name_object(value))
            LIMIT 1);
         CREATE OR REPLACE MACRO quackgis_pg_regrole(value) AS
           CASE WHEN value IS NULL THEN NULL
                ELSE coalesce(quackgis_pg_to_regrole(value),
                     error('PostgreSQL role does not exist')) END;
         CREATE OR REPLACE MACRO quackgis_pg_attribute_exists(relation_value, column_value) AS
           CASE WHEN relation_value IS NULL OR column_value IS NULL THEN NULL
                ELSE EXISTS (
                  SELECT 1 FROM quackgis_pg_catalog.pg_attribute __quackgis_attribute
                  WHERE __quackgis_attribute.attrelid = quackgis_pg_regclass(relation_value)
                    AND __quackgis_attribute.attnum > 0
                    AND NOT __quackgis_attribute.attisdropped
                    AND ((try_cast(column_value AS SMALLINT) IS NOT NULL
                          AND __quackgis_attribute.attnum = try_cast(column_value AS SMALLINT))
                      OR (try_cast(column_value AS SMALLINT) IS NULL
                          AND quackgis_pg_name_schema(column_value) IS NULL
                          AND __quackgis_attribute.attname =
                              quackgis_pg_name_object(column_value)))
                ) END;
         CREATE OR REPLACE MACRO quackgis_pg_quote_identifier(value) AS
           CASE WHEN regexp_full_match(value, '[a-z_][a-z0-9_$]*') THEN value
                ELSE '"' || replace(value, '"', '""') || '"' END;
         CREATE OR REPLACE MACRO quackgis_pg_regclass_text(value) AS
           CASE WHEN try_cast(value AS UINTEGER) = 1259 THEN 'pg_class'
           ELSE coalesce((SELECT CASE WHEN __quackgis_namespace.nspname = 'public'
                    THEN quackgis_pg_quote_identifier(__quackgis_class.relname)
                    ELSE quackgis_pg_quote_identifier(__quackgis_namespace.nspname) || '.' ||
                         quackgis_pg_quote_identifier(__quackgis_class.relname) END
             FROM quackgis_pg_catalog.pg_class __quackgis_class
             JOIN quackgis_pg_catalog.pg_namespace __quackgis_namespace
               ON __quackgis_namespace.oid = __quackgis_class.relnamespace
             WHERE __quackgis_class.oid = try_cast(value AS UINTEGER)),
             CAST(value AS VARCHAR)) END;
         CREATE OR REPLACE MACRO quackgis_pg_regnamespace_text(value) AS
           coalesce((SELECT quackgis_pg_quote_identifier(__quackgis_namespace.nspname)
             FROM quackgis_pg_catalog.pg_namespace __quackgis_namespace
             WHERE __quackgis_namespace.oid = try_cast(value AS UINTEGER)),
             CAST(value AS VARCHAR));
         CREATE OR REPLACE MACRO quackgis_pg_regrole_text(value) AS
           coalesce((SELECT quackgis_pg_quote_identifier(__quackgis_role.rolname)
             FROM quackgis_pg_catalog.pg_roles __quackgis_role
             WHERE __quackgis_role.oid = try_cast(value AS UINTEGER)),
             CAST(value AS VARCHAR));
         CREATE OR REPLACE MACRO quackgis_pg_base_type_display(
           type_oid, type_name, namespace_name, type_modifier
         ) AS CASE type_oid
           WHEN 16 THEN 'boolean' WHEN 17 THEN 'bytea' WHEN 18 THEN '"char"'
           WHEN 19 THEN 'name' WHEN 20 THEN 'bigint' WHEN 21 THEN 'smallint'
           WHEN 23 THEN 'integer' WHEN 25 THEN 'text' WHEN 26 THEN 'oid'
           WHEN 700 THEN 'real' WHEN 701 THEN 'double precision'
           WHEN 1043 THEN 'character varying' ||
             CASE WHEN type_modifier > 4 THEN '(' || CAST(type_modifier - 4 AS VARCHAR) || ')'
                  ELSE '' END
           WHEN 1082 THEN 'date'
           WHEN 1083 THEN 'time' ||
             CASE WHEN type_modifier >= 0 THEN '(' || CAST(type_modifier AS VARCHAR) || ')'
                  ELSE '' END || ' without time zone'
           WHEN 1114 THEN 'timestamp' ||
             CASE WHEN type_modifier >= 0 THEN '(' || CAST(type_modifier AS VARCHAR) || ')'
                  ELSE '' END || ' without time zone'
           WHEN 1184 THEN 'timestamp' ||
             CASE WHEN type_modifier >= 0 THEN '(' || CAST(type_modifier AS VARCHAR) || ')'
                  ELSE '' END || ' with time zone'
           WHEN 1186 THEN 'interval'
           WHEN 1700 THEN 'numeric' || CASE WHEN type_modifier >= 4
             THEN '(' || CAST(floor((type_modifier - 4) / 65536) AS BIGINT)::VARCHAR || ',' ||
                  CAST((type_modifier - 4) % 65536 AS BIGINT)::VARCHAR || ')' ELSE '' END
           WHEN 2205 THEN 'regclass' WHEN 2206 THEN 'regtype'
           WHEN 3802 THEN 'jsonb' WHEN 4089 THEN 'regnamespace'
           WHEN 4096 THEN 'regrole' WHEN 90001 THEN 'geometry'
           WHEN 90002 THEN 'geography'
           ELSE CASE WHEN namespace_name IN ('pg_catalog', 'public')
                     THEN quackgis_pg_quote_identifier(type_name)
                     ELSE quackgis_pg_quote_identifier(namespace_name) || '.' ||
                          quackgis_pg_quote_identifier(type_name) END END;
         CREATE OR REPLACE MACRO quackgis_pg_format_type(type_oid, type_modifier) AS
           CASE WHEN type_oid IS NULL THEN NULL ELSE coalesce((
             SELECT CASE WHEN __quackgis_type.typelem <> 0
                    THEN quackgis_pg_base_type_display(
                           __quackgis_element.oid, __quackgis_element.typname,
                           __quackgis_element_namespace.nspname, type_modifier) || '[]'
                    ELSE quackgis_pg_base_type_display(
                           __quackgis_type.oid, __quackgis_type.typname,
                           __quackgis_namespace.nspname, type_modifier) END
             FROM quackgis_pg_catalog.pg_type __quackgis_type
             JOIN quackgis_pg_catalog.pg_namespace __quackgis_namespace
               ON __quackgis_namespace.oid = __quackgis_type.typnamespace
             LEFT JOIN quackgis_pg_catalog.pg_type __quackgis_element
               ON __quackgis_element.oid = __quackgis_type.typelem
             LEFT JOIN quackgis_pg_catalog.pg_namespace __quackgis_element_namespace
               ON __quackgis_element_namespace.oid = __quackgis_element.typnamespace
             WHERE __quackgis_type.oid = CAST(type_oid AS UINTEGER)
           ), '???') END;
         CREATE OR REPLACE MACRO quackgis_pg_regtype_text(value) AS
           quackgis_pg_format_type(value, -1);
         CREATE OR REPLACE MACRO quackgis_pg_get_expr(
           expression_value, relation_value, pretty := false
         ) AS CASE
           WHEN expression_value IS NULL OR relation_value IS NULL THEN NULL
           WHEN pretty IS NOT NULL AND try_cast(pretty AS BOOLEAN) IS NULL
             THEN error('PostgreSQL pg_get_expr pretty flag must be boolean')
           WHEN quackgis_pg_regclass(relation_value) IS NOT NULL
             THEN CAST(expression_value AS VARCHAR)
           ELSE NULL END;
         CREATE OR REPLACE MACRO quackgis_pg_col_description(relation_value, column_value) AS
           (SELECT description FROM quackgis_pg_catalog.pg_description
            WHERE classoid = 1259::UINTEGER
              AND objoid = try_cast(relation_value AS UINTEGER)
              AND objsubid = try_cast(column_value AS INTEGER)
            LIMIT 1);
         CREATE OR REPLACE MACRO quackgis_pg_obj_description(
           object_value, catalog_name := NULL
         ) AS CASE
           WHEN object_value IS NULL THEN NULL
           WHEN catalog_name IS NOT NULL AND lower(CAST(catalog_name AS VARCHAR)) <> 'pg_class'
             THEN error('PostgreSQL object description catalog is not maintained')
           ELSE (SELECT description FROM quackgis_pg_catalog.pg_description
                 WHERE classoid = 1259::UINTEGER
                   AND objoid = try_cast(object_value AS UINTEGER) AND objsubid = 0
                 LIMIT 1) END;
         CREATE OR REPLACE MACRO quackgis_pg_get_constraintdef(
           constraint_value, pretty := false
         ) AS CASE
           WHEN constraint_value IS NULL THEN NULL
           WHEN pretty IS NOT NULL AND try_cast(pretty AS BOOLEAN) IS NULL
             THEN error('PostgreSQL pg_get_constraintdef pretty flag must be boolean')
           ELSE (SELECT 'NOT NULL ' || quackgis_pg_quote_identifier(attributes.attname)
                 FROM quackgis_pg_catalog.pg_constraint constraints
                 JOIN quackgis_pg_catalog.pg_attribute attributes
                   ON attributes.attrelid = constraints.conrelid
                  AND attributes.attnum = constraints.conkey[1]
                 WHERE constraints.oid = try_cast(constraint_value AS UINTEGER)
                   AND constraints.contype = 'n'
                 LIMIT 1) END;
         CREATE OR REPLACE MACRO quackgis_pg_get_indexdef(
           index_value, column_number := 0, pretty := false
         ) AS CASE
           WHEN index_value IS NULL THEN NULL
           WHEN try_cast(column_number AS INTEGER) IS NULL
             OR (pretty IS NOT NULL AND try_cast(pretty AS BOOLEAN) IS NULL)
             THEN error('PostgreSQL pg_get_indexdef arguments are invalid')
           ELSE (SELECT NULL::VARCHAR FROM quackgis_pg_catalog.pg_index indexes
                 WHERE indexes.indexrelid = try_cast(index_value AS UINTEGER)
                 LIMIT 1) END;"#;

fn identity_catalog_macros_sql() -> (sql: &'static str)
    ensures
        sql@ == IDENTITY_CATALOG_MACROS_SQL@,
{
    IDENTITY_CATALOG_MACROS_SQL
}

/// Number of identities that one reconciliation registers.
pub const CHANGE_COUNT_SQL: &'static str = "(SELECT count(*) FROM __quackgis_new_public_namespace) + \
                        (SELECT count(*) FROM __quackgis_new_namespaces) + \
                        (SELECT count(*) FROM __quackgis_new_relations) + \
                        (SELECT count(*) FROM __quackgis_new_attributes) + \
                        (SELECT count(*) FROM __quackgis_new_not_null_constraints)";

pub const CATALOG_BOOTSTRAP_0: &'static str = "CREATE SCHEMA IF NOT EXISTS quackgis_pg_catalog;\n\
         CREATE OR REPLACE VIEW quackgis_pg_catalog.pg_namespace AS\n\
         SELECT * FROM (VALUES\n\
           (";
pub const CATALOG_BOOTSTRAP_1: &'static str = "::UINTEGER, 'pg_catalog'::VARCHAR, ";
pub const CATALOG_BOOTSTRAP_2: &'static str = "::UINTEGER),\n\
           (";
pub const CATALOG_BOOTSTRAP_3: &'static str = "::UINTEGER, 'public'::VARCHAR, ";
pub const CATALOG_BOOTSTRAP_4: &'static str = "::UINTEGER)\n\
         ) AS n(oid, nspname, nspowner);\n\
         CREATE OR REPLACE VIEW quackgis_pg_catalog.pg_database AS\n\
         SELECT ";
pub const CATALOG_BOOTSTRAP_5: &'static str = "::UINTEGER AS oid,\n\
                'quackgis'::VARCHAR AS datname,\n\
                ";
pub const CATALOG_BOOTSTRAP_6: &'static str = "::UINTEGER AS datdba;\n\
         CREATE OR REPLACE VIEW quackgis_pg_catalog.pg_proc AS\n\
         SELECT * FROM (VALUES\n";
pub const CATALOG_BOOTSTRAP_7: &'static str = "\n\
         ) AS p(oid, proname, pronamespace);\n\
         CREATE OR REPLACE VIEW quackgis_pg_catalog.pg_type AS\n\
         SELECT * FROM (VALUES\n";
pub const CATALOG_BOOTSTRAP_8: &'static str = "\n\
         ) AS t(oid, typname, typnamespace, typlen, typbyval, typtype, typcategory,\n\
                typispreferred, typisdefined, typdelim, typrelid, typelem, typarray,\n\
                typnotnull, typbasetype, typtypmod, typndims, typcollation);\n\
         CREATE OR REPLACE VIEW quackgis_pg_catalog.pg_range AS\n\
         SELECT NULL::UINTEGER AS rngtypid, NULL::UINTEGER AS rngsubtype WHERE false;\n\
         CREATE OR REPLACE VIEW quackgis_pg_catalog.pg_collation AS\n\
         SELECT * FROM (VALUES\n\
           (100::UINTEGER, 'default'::VARCHAR, ";
pub const CATALOG_BOOTSTRAP_9: &'static str = "::UINTEGER,\n\
            ";
pub const CATALOG_BOOTSTRAP_10: &'static str = "::UINTEGER, 'd'::VARCHAR, true, -1::INTEGER,\n\
            NULL::VARCHAR, NULL::VARCHAR, NULL::VARCHAR, NULL::VARCHAR, NULL::VARCHAR),\n\
           (950::UINTEGER, 'C'::VARCHAR, ";
pub const CATALOG_BOOTSTRAP_11: &'static str = "::UINTEGER,\n\
            ";
pub const CATALOG_BOOTSTRAP_12: &'static str = "::UINTEGER, 'c'::VARCHAR, true, -1::INTEGER,\n\
            'C'::VARCHAR, 'C'::VARCHAR, NULL::VARCHAR, NULL::VARCHAR, NULL::VARCHAR)\n\
         ) AS c(oid, collname, collnamespace, collowner, collprovider,\n\
                collisdeterministic, collencoding, collcollate, collctype,\n\
                colllocale, collicurules, collversion);\n\
         CREATE OR REPLACE VIEW quackgis_pg_catalog.pg_roles AS\n\
         SELECT * FROM (VALUES\n\
           (";
pub const CATALOG_BOOTSTRAP_13: &'static str = "::UINTEGER, 'quackgis_owner'::VARCHAR, false, true, false, false,\n\
            false, false, -1::INTEGER, NULL::VARCHAR, NULL::TIMESTAMP WITH TIME ZONE,\n\
            false, NULL::VARCHAR[])\n\
         ) AS r(oid, rolname, rolsuper, rolinherit, rolcreaterole, rolcreatedb,\n\
                rolcanlogin, rolreplication, rolconnlimit, rolpassword, rolvaliduntil,\n\
                rolbypassrls, rolconfig);\n\
         CREATE OR REPLACE VIEW quackgis_pg_catalog.pg_auth_members AS\n\
         SELECT NULL::UINTEGER AS oid, NULL::UINTEGER AS roleid, NULL::UINTEGER AS member,\n\
                NULL::UINTEGER AS grantor, false AS admin_option, false AS inherit_option,\n\
                false AS set_option WHERE false;\n\
         CREATE OR REPLACE VIEW quackgis_pg_catalog.pg_table_owners AS\n\
         SELECT NULL::VARCHAR AS schema_name, NULL::VARCHAR AS table_name,\n\
                NULL::UINTEGER AS role_oid WHERE false;\n\
         CREATE OR REPLACE MACRO quackgis_current_database() AS 'quackgis';\n\
         CREATE OR REPLACE MACRO quackgis_current_schema() AS 'public';\n\
         CREATE OR REPLACE MACRO quackgis_current_schemas(include_implicit) AS\n\
           CASE WHEN CAST(include_implicit AS BOOLEAN)\n\
                THEN ['pg_catalog', 'public'] ELSE ['public'] END;\n\
         CREATE OR REPLACE MACRO quackgis_pg_is_in_recovery() AS false;\n\
         CREATE OR REPLACE MACRO quackgis_pg_version() AS ";
pub const CATALOG_BOOTSTRAP_14: &'static str = ";";

/// The SQL that creates the baseline compatibility catalog.
pub open spec fn catalog_bootstrap_text() -> Seq<char> {
    CATALOG_BOOTSTRAP_0@
        + decimal(PG_CATALOG_NAMESPACE_OID as nat)
        + CATALOG_BOOTSTRAP_1@
        + decimal(BOOTSTRAP_OWNER_OID as nat)
        + CATALOG_BOOTSTRAP_2@
        + decimal(PUBLIC_NAMESPACE_OID as nat)
        + CATALOG_BOOTSTRAP_3@
        + decimal(BOOTSTRAP_OWNER_OID as nat)
        + CATALOG_BOOTSTRAP_4@
        + decimal(QUACKGIS_DATABASE_OID as nat)
        + CATALOG_BOOTSTRAP_5@
        + decimal(BOOTSTRAP_OWNER_OID as nat)
        + CATALOG_BOOTSTRAP_6@
        + pg_proc_rows_text()
        + CATALOG_BOOTSTRAP_7@
        + type_rows_text(baseline_type_rows())
        + CATALOG_BOOTSTRAP_8@
        + decimal(PG_CATALOG_NAMESPACE_OID as nat)
        + CATALOG_BOOTSTRAP_9@
        + decimal(BOOTSTRAP_OWNER_OID as nat)
        + CATALOG_BOOTSTRAP_10@
        + decimal(PG_CATALOG_NAMESPACE_OID as nat)
        + CATALOG_BOOTSTRAP_11@
        + decimal(BOOTSTRAP_OWNER_OID as nat)
        + CATALOG_BOOTSTRAP_12@
        + decimal(BOOTSTRAP_OWNER_OID as nat)
        + CATALOG_BOOTSTRAP_13@
        + quoted(POSTGRESQL_COMPATIBILITY_VERSION_STRING@, '\'')
        + CATALOG_BOOTSTRAP_14@
}

/// Create the first relational PostgreSQL compatibility catalog.
///
/// These views live only in DuckDB's process-local control database. Client SQL
/// reaches them through a structural `pg_catalog` rewrite; they are not user data
/// and are rebuilt at startup from constants. Wider user-object catalogs will be
/// derived from DuckDB/DuckLake metadata after the durable identity registry lands.
pub fn duckdb_catalog_bootstrap_sql() -> (sql: String)
    ensures
        sql@ == catalog_bootstrap_text(),
{
    let mut out = String::from_str(CATALOG_BOOTSTRAP_0);
    push_decimal(&mut out, PG_CATALOG_NAMESPACE_OID as u64);
    out.append(CATALOG_BOOTSTRAP_1);
    push_decimal(&mut out, BOOTSTRAP_OWNER_OID as u64);
    out.append(CATALOG_BOOTSTRAP_2);
    push_decimal(&mut out, PUBLIC_NAMESPACE_OID as u64);
    out.append(CATALOG_BOOTSTRAP_3);
    push_decimal(&mut out, BOOTSTRAP_OWNER_OID as u64);
    out.append(CATALOG_BOOTSTRAP_4);
    push_decimal(&mut out, QUACKGIS_DATABASE_OID as u64);
    out.append(CATALOG_BOOTSTRAP_5);
    push_decimal(&mut out, BOOTSTRAP_OWNER_OID as u64);
    out.append(CATALOG_BOOTSTRAP_6);
    out.append(pg_proc_rows_sql().as_str());
    out.append(CATALOG_BOOTSTRAP_7);
    out.append(type_rows_sql().as_str());
    out.append(CATALOG_BOOTSTRAP_8);
    push_decimal(&mut out, PG_CATALOG_NAMESPACE_OID as u64);
    out.append(CATALOG_BOOTSTRAP_9);
    push_decimal(&mut out, BOOTSTRAP_OWNER_OID as u64);
    out.append(CATALOG_BOOTSTRAP_10);
    push_decimal(&mut out, PG_CATALOG_NAMESPACE_OID as u64);
    out.append(CATALOG_BOOTSTRAP_11);
    push_decimal(&mut out, BOOTSTRAP_OWNER_OID as u64);
    out.append(CATALOG_BOOTSTRAP_12);
    push_decimal(&mut out, BOOTSTRAP_OWNER_OID as u64);
    out.append(CATALOG_BOOTSTRAP_13);
    push_quoted_literal(&mut out, POSTGRESQL_COMPATIBILITY_VERSION_STRING);
    out.append(CATALOG_BOOTSTRAP_14);
    out
}

pub const IDENTITY_CATALOG_0: &'static str = "CREATE OR REPLACE VIEW quackgis_pg_catalog._current_columns AS\n\
         WITH identity AS (\n\
           SELECT identity.*, columns.data_type AS data_type,\n\
                  nullif(columns.column_default, 'NULL') AS column_default,\n\
                  columns.comment AS column_comment, tables.comment AS table_comment,\n\
                  NOT columns.is_nullable AS column_not_null,\n\
                  constraints.constraint_name AS not_null_constraint_name\n\
           FROM ducklake_column_info(";
pub const IDENTITY_CATALOG_1: &'static str = ") identity\n\
           JOIN duckdb_columns() columns\n\
             ON columns.database_name = ";
pub const IDENTITY_CATALOG_2: &'static str = "\n\
            AND columns.schema_name = identity.schema_name\n\
            AND columns.table_name = identity.table_name\n\
            AND columns.column_name = identity.column_name\n\
           JOIN duckdb_tables() tables\n\
             ON tables.database_name = ";
pub const IDENTITY_CATALOG_3: &'static str = "\n\
            AND tables.schema_name = identity.schema_name\n\
            AND tables.table_name = identity.table_name\n\
           LEFT JOIN duckdb_constraints() constraints\n\
             ON constraints.database_name = ";
pub const IDENTITY_CATALOG_4: &'static str = "\n\
            AND constraints.schema_name = identity.schema_name\n\
            AND constraints.table_name = identity.table_name\n\
            AND constraints.constraint_type = 'NOT NULL'\n\
            AND len(constraints.constraint_column_names) = 1\n\
            AND constraints.constraint_column_names[1] = identity.column_name\n\
           WHERE identity.schema_name <> ";
pub const IDENTITY_CATALOG_5: &'static str = "\n\
         ), identity_fingerprint AS (\n\
           SELECT sha256(coalesce(CAST(to_json(list(struct_pack(\n\
             schema_uuid := schema_uuid, schema_name := schema_name,\n\
             table_uuid := table_uuid, table_name := table_name,\n\
             column_id := column_id, column_name := column_name,\n\
             data_type := data_type,\n\
             column_default := column_default, column_comment := column_comment,\n\
             table_comment := table_comment, column_not_null := column_not_null,\n\
             not_null_constraint_name := not_null_constraint_name)\n\
             ORDER BY schema_uuid, table_uuid, column_id)) AS VARCHAR), '[]'))\n\
             AS fingerprint\n\
           FROM identity\n\
         ), valid AS (\n\
           SELECT CASE WHEN s.identity_fingerprint = f.fingerprint\n\
             AND NOT EXISTS (\n\
               SELECT 1 FROM identity i\n\
               LEFT JOIN ";
pub const IDENTITY_CATALOG_6: &'static str = ".";
pub const IDENTITY_CATALOG_7: &'static str = ".namespace_oid n USING (schema_uuid)\n\
               LEFT JOIN ";
pub const IDENTITY_CATALOG_8: &'static str = ".";
pub const IDENTITY_CATALOG_9: &'static str = ".relation_oid r USING (table_uuid)\n\
               LEFT JOIN ";
pub const IDENTITY_CATALOG_10: &'static str = ".";
pub const IDENTITY_CATALOG_11: &'static str = ".attribute_number a\n\
                 USING (table_uuid, column_id)\n\
               LEFT JOIN ";
pub const IDENTITY_CATALOG_12: &'static str = ".";
pub const IDENTITY_CATALOG_13: &'static str = ".not_null_constraint_oid constraint_oid\n\
                 ON constraint_oid.table_uuid = i.table_uuid\n\
                AND constraint_oid.column_id = i.column_id AND constraint_oid.active\n\
               LEFT JOIN information_schema.columns c\n\
                 ON c.table_catalog = ";
pub const IDENTITY_CATALOG_14: &'static str = "\n\
                AND c.table_schema = i.schema_name\n\
                AND c.table_name = i.table_name\n\
                AND c.column_name = i.column_name\n\
               WHERE i.schema_name IN ('public', 'pg_catalog', 'information_schema',\n\
                                       'quackgis_pg_catalog')\n\
                  OR (i.schema_name = 'main' AND lower(i.table_name) IN\n\
                      ('geometry', 'geography', '_geometry', '_geography',\n\
                       'geometry_columns', 'spatial_ref_sys'))\n\
                  OR n.oid IS NULL OR r.oid IS NULL OR a.attnum IS NULL\n\
                  OR c.column_name IS NULL OR r.namespace_oid <> n.oid\n\
                  OR i.column_not_null <> (constraint_oid.oid IS NOT NULL)\n\
                  OR (i.column_not_null AND i.not_null_constraint_name IS NULL))\n\
             THEN true ELSE error('PostgreSQL catalog identity snapshot is not reconciled') END AS ok\n\
           FROM identity_fingerprint f, ";
pub const IDENTITY_CATALOG_15: &'static str = ".";
pub const IDENTITY_CATALOG_16: &'static str = ".catalog_state s\n\
           WHERE s.singleton\n\
         )\n\
         SELECT i.schema_name, i.schema_uuid, i.table_name, i.table_uuid,\n\
                i.column_name, i.column_id, n.oid AS namespace_oid,\n\
                r.oid AS relation_oid, r.row_type_oid, a.attnum,\n\
                c.ordinal_position, c.data_type, c.is_nullable,\n\
                c.numeric_precision, c.numeric_scale, i.column_default,\n\
                i.column_comment, i.table_comment, i.column_not_null,\n\
                i.not_null_constraint_name, constraint_oid.oid AS not_null_constraint_oid\n\
         FROM identity i\n\
         JOIN ";
pub const IDENTITY_CATALOG_17: &'static str = ".";
pub const IDENTITY_CATALOG_18: &'static str = ".namespace_oid n USING (schema_uuid)\n\
         JOIN ";
pub const IDENTITY_CATALOG_19: &'static str = ".";
pub const IDENTITY_CATALOG_20: &'static str = ".relation_oid r USING (table_uuid)\n\
         JOIN ";
pub const IDENTITY_CATALOG_21: &'static str = ".";
pub const IDENTITY_CATALOG_22: &'static str = ".attribute_number a USING (table_uuid, column_id)\n\
         LEFT JOIN ";
pub const IDENTITY_CATALOG_23: &'static str = ".";
pub const IDENTITY_CATALOG_24: &'static str = ".not_null_constraint_oid constraint_oid\n\
           ON constraint_oid.table_uuid = i.table_uuid\n\
          AND constraint_oid.column_id = i.column_id AND constraint_oid.active\n\
         JOIN information_schema.columns c\n\
           ON c.table_catalog = ";
pub const IDENTITY_CATALOG_25: &'static str = "\n\
          AND c.table_schema = i.schema_name\n\
          AND c.table_name = i.table_name\n\
          AND c.column_name = i.column_name\n\
         CROSS JOIN valid v WHERE v.ok;\n\
         CREATE OR REPLACE VIEW quackgis_pg_catalog.pg_namespace AS\n\
         SELECT * FROM (VALUES\n\
           (";
pub const IDENTITY_CATALOG_26: &'static str = "::UINTEGER, 'pg_catalog'::VARCHAR, ";
pub const IDENTITY_CATALOG_27: &'static str = "::UINTEGER),\n\
           (";
pub const IDENTITY_CATALOG_28: &'static str = "::UINTEGER, 'public'::VARCHAR, ";
pub const IDENTITY_CATALOG_29: &'static str = "::UINTEGER)\n\
         ) AS n(oid, nspname, nspowner)\n\
         UNION ALL\n\
         SELECT DISTINCT namespace_oid, schema_name, ";
pub const IDENTITY_CATALOG_30: &'static str = "::UINTEGER\n\
         FROM quackgis_pg_catalog._current_columns\n\
         WHERE schema_name <> 'main';\n\
         CREATE OR REPLACE VIEW quackgis_pg_catalog.pg_type AS\n\
         SELECT * FROM (VALUES\n";
pub const IDENTITY_CATALOG_31: &'static str = "\n\
         ) AS t(oid, typname, typnamespace, typlen, typbyval, typtype, typcategory,\n\
                typispreferred, typisdefined, typdelim, typrelid, typelem, typarray,\n\
                typnotnull, typbasetype, typtypmod, typndims, typcollation)\n\
         UNION ALL\n\
         SELECT DISTINCT row_type_oid, table_name, namespace_oid, -1::SMALLINT, false,\n\
                'c'::VARCHAR, 'C'::VARCHAR, false, true, ','::VARCHAR, relation_oid,\n\
                0::UINTEGER, 0::UINTEGER, false, 0::UINTEGER, -1::INTEGER,\n\
                0::INTEGER, 0::UINTEGER\n\
         FROM quackgis_pg_catalog._current_columns;\n\
         CREATE OR REPLACE VIEW quackgis_pg_catalog.pg_class AS\n\
         SELECT columns.relation_oid AS oid, columns.table_name AS relname,\n\
                columns.namespace_oid AS relnamespace, columns.row_type_oid AS reltype,\n\
                coalesce(max(owner.role_oid), ";
pub const IDENTITY_CATALOG_32: &'static str = "::UINTEGER) AS relowner,\n\
                'r'::VARCHAR AS relkind, CAST(max(columns.attnum) AS SMALLINT) AS relnatts,\n\
                false AS relrowsecurity\n\
         FROM quackgis_pg_catalog._current_columns columns\n\
         LEFT JOIN quackgis_pg_catalog.pg_table_owners owner\n\
           ON owner.schema_name = columns.schema_name\n\
          AND lower(owner.table_name) = lower(columns.table_name)\n\
         GROUP BY columns.relation_oid, columns.table_name, columns.namespace_oid,\n\
                  columns.row_type_oid;\n\
         CREATE OR REPLACE VIEW quackgis_pg_catalog.pg_attribute AS\n\
         WITH typed AS (\n\
           SELECT *, CAST((";
pub const IDENTITY_CATALOG_33: &'static str = ") AS UINTEGER) AS atttypid,\n\
                  CASE WHEN starts_with(data_type, 'DECIMAL(') AND NOT ends_with(data_type, '[]')\n\
                       THEN CAST(numeric_precision * 65536 + numeric_scale + 4 AS INTEGER)\n\
                       ELSE -1::INTEGER END AS atttypmod\n\
           FROM quackgis_pg_catalog._current_columns\n\
         )\n\
         SELECT relation_oid AS attrelid, column_name AS attname, typed.atttypid,\n\
                t.typlen AS attlen, attnum, atttypmod, is_nullable = 'NO' AS attnotnull,\n\
                column_default IS NOT NULL AS atthasdef,\n\
                t.typcollation AS attcollation,\n\
                ''::VARCHAR AS attidentity, ''::VARCHAR AS attgenerated,\n\
                CASE WHEN t.typlen = -1 THEN 'x' ELSE 'p' END::VARCHAR AS attstorage,\n\
                ''::VARCHAR AS attcompression, -1::SMALLINT AS attstattarget,\n\
                false AS attisdropped\n\
         FROM typed JOIN quackgis_pg_catalog.pg_type t ON t.oid = typed.atttypid;\n\
         CREATE OR REPLACE VIEW quackgis_pg_catalog.pg_attrdef AS\n\
         SELECT relation_oid AS adrelid, attnum AS adnum, column_default AS adbin\n\
         FROM quackgis_pg_catalog._current_columns WHERE column_default IS NOT NULL;\n\
         CREATE OR REPLACE VIEW quackgis_pg_catalog.pg_description AS\n\
         SELECT DISTINCT relation_oid AS objoid, ";
pub const IDENTITY_CATALOG_34: &'static str = "::UINTEGER AS classoid,\n\
                0::INTEGER AS objsubid, table_comment AS description\n\
         FROM quackgis_pg_catalog._current_columns WHERE table_comment IS NOT NULL\n\
         UNION ALL\n\
         SELECT relation_oid, ";
pub const IDENTITY_CATALOG_35: &'static str = "::UINTEGER, CAST(attnum AS INTEGER),\n\
                column_comment\n\
         FROM quackgis_pg_catalog._current_columns WHERE column_comment IS NOT NULL;\n\
         CREATE OR REPLACE VIEW quackgis_pg_catalog.pg_constraint AS\n\
         SELECT not_null_constraint_oid AS oid, not_null_constraint_name AS conname,\n\
                namespace_oid AS connamespace, 'n'::VARCHAR AS contype,\n\
                false AS condeferrable, false AS condeferred, true AS convalidated,\n\
                relation_oid AS conrelid, 0::UINTEGER AS conindid,\n\
                0::UINTEGER AS conparentid, 0::UINTEGER AS confrelid,\n\
                true AS conislocal, 0::SMALLINT AS coninhcount,\n\
                true AS connoinherit, false AS conperiod,\n\
                [attnum]::SMALLINT[] AS conkey\n\
         FROM quackgis_pg_catalog._current_columns WHERE column_not_null;\n\
         CREATE OR REPLACE VIEW quackgis_pg_catalog.pg_index AS\n\
         SELECT NULL::UINTEGER AS indexrelid, NULL::UINTEGER AS indrelid,\n\
                0::SMALLINT AS indnatts, 0::SMALLINT AS indnkeyatts,\n\
                false AS indisunique, false AS indisnullsnotdistinct,\n\
                false AS indisprimary, false AS indisexclusion,\n\
                false AS indimmediate, false AS indisclustered, false AS indisvalid,\n\
                false AS indcheckxmin, false AS indisready, false AS indislive,\n\
                false AS indisreplident, NULL::SMALLINT[] AS indkey WHERE false;\n\
         CREATE OR REPLACE VIEW quackgis_pg_catalog.geometry_columns AS\n\
         SELECT 'quackgis'::VARCHAR AS f_table_catalog,\n\
                CASE WHEN schema_name = 'main' THEN 'public' ELSE schema_name END::VARCHAR\n\
                  AS f_table_schema,\n\
                table_name::VARCHAR AS f_table_name,\n\
                column_name::VARCHAR AS f_geometry_column,\n\
                2::INTEGER AS coord_dimension, 0::INTEGER AS srid,\n\
                'GEOMETRY'::VARCHAR AS type, relation_oid AS _qg_relation_oid\n\
         FROM quackgis_pg_catalog._current_columns\n\
         WHERE data_type = 'GEOMETRY' OR data_type = 'BLOB' AND lower(column_name) IN\n\
           ('geom', 'geometry', 'the_geom', 'wkb_geometry', 'wkb_geom',\n\
            'geom_wkb', 'shape', 'footprint', 'way');\n\
         CREATE OR REPLACE VIEW quackgis_pg_catalog.spatial_ref_sys AS\n\
         SELECT NULL::INTEGER AS srid, NULL::VARCHAR AS auth_name,\n\
                NULL::INTEGER AS auth_srid, NULL::VARCHAR AS srtext,\n\
                NULL::VARCHAR AS proj4text WHERE false;\n\
         ";
pub const IDENTITY_CATALOG_36: &'static str = ";\n\
         CREATE OR REPLACE MACRO quackgis_pg_schema_epoch() AS\n\
           (SELECT CAST(schema_epoch AS BIGINT)\n\
            FROM ";
pub const IDENTITY_CATALOG_37: &'static str = ".";
pub const IDENTITY_CATALOG_38: &'static str = ".catalog_state WHERE singleton);\n\
         CREATE OR REPLACE MACRO quackgis_pg_security_epoch() AS\n\
           (SELECT CAST(security_epoch AS BIGINT)\n\
            FROM ";
pub const IDENTITY_CATALOG_39: &'static str = ".";
pub const IDENTITY_CATALOG_40: &'static str = ".catalog_state WHERE singleton)";

/// The registry-backed user-object catalog views over DuckLake catalog `catalog`.
pub open spec fn identity_catalog_text(catalog: Seq<char>) -> Seq<char> {
    IDENTITY_CATALOG_0@
        + quoted(catalog, '\'')
        + IDENTITY_CATALOG_1@
        + quoted(catalog, '\'')
        + IDENTITY_CATALOG_2@
        + quoted(catalog, '\'')
        + IDENTITY_CATALOG_3@
        + quoted(catalog, '\'')
        + IDENTITY_CATALOG_4@
        + quoted(INTERNAL_SCHEMA@, '\'')
        + IDENTITY_CATALOG_5@
        + quoted(catalog, '"')
        + IDENTITY_CATALOG_6@
        + quoted(INTERNAL_SCHEMA@, '"')
        + IDENTITY_CATALOG_7@
        + quoted(catalog, '"')
        + IDENTITY_CATALOG_8@
        + quoted(INTERNAL_SCHEMA@, '"')
        + IDENTITY_CATALOG_9@
        + quoted(catalog, '"')
        + IDENTITY_CATALOG_10@
        + quoted(INTERNAL_SCHEMA@, '"')
        + IDENTITY_CATALOG_11@
        + quoted(catalog, '"')
        + IDENTITY_CATALOG_12@
        + quoted(INTERNAL_SCHEMA@, '"')
        + IDENTITY_CATALOG_13@
        + quoted(catalog, '\'')
        + IDENTITY_CATALOG_14@
        + quoted(catalog, '"')
        + IDENTITY_CATALOG_15@
        + quoted(INTERNAL_SCHEMA@, '"')
        + IDENTITY_CATALOG_16@
        + quoted(catalog, '"')
        + IDENTITY_CATALOG_17@
        + quoted(INTERNAL_SCHEMA@, '"')
        + IDENTITY_CATALOG_18@
        + quoted(catalog, '"')
        + IDENTITY_CATALOG_19@
        + quoted(INTERNAL_SCHEMA@, '"')
        + IDENTITY_CATALOG_20@
        + quoted(catalog, '"')
        + IDENTITY_CATALOG_21@
        + quoted(INTERNAL_SCHEMA@, '"')
        + IDENTITY_CATALOG_22@
        + quoted(catalog, '"')
        + IDENTITY_CATALOG_23@
        + quoted(INTERNAL_SCHEMA@, '"')
        + IDENTITY_CATALOG_24@
        + quoted(catalog, '\'')
        + IDENTITY_CATALOG_25@
        + decimal(PG_CATALOG_NAMESPACE_OID as nat)
        + IDENTITY_CATALOG_26@
        + decimal(BOOTSTRAP_OWNER_OID as nat)
        + IDENTITY_CATALOG_27@
        + decimal(PUBLIC_NAMESPACE_OID as nat)
        + IDENTITY_CATALOG_28@
        + decimal(BOOTSTRAP_OWNER_OID as nat)
        + IDENTITY_CATALOG_29@
        + decimal(BOOTSTRAP_OWNER_OID as nat)
        + IDENTITY_CATALOG_30@
        + type_rows_text(baseline_type_rows() + identity_only_type_rows())
        + IDENTITY_CATALOG_31@
        + decimal(BOOTSTRAP_OWNER_OID as nat)
        + IDENTITY_CATALOG_32@
        + COLUMN_TYPE_OID_SQL@
        + IDENTITY_CATALOG_33@
        + decimal(PG_CLASS_RELATION_OID as nat)
        + IDENTITY_CATALOG_34@
        + decimal(PG_CLASS_RELATION_OID as nat)
        + IDENTITY_CATALOG_35@
        + IDENTITY_CATALOG_MACROS_SQL@
        + IDENTITY_CATALOG_36@
        + quoted(catalog, '"')
        + IDENTITY_CATALOG_37@
        + quoted(INTERNAL_SCHEMA@, '"')
        + IDENTITY_CATALOG_38@
        + quoted(catalog, '"')
        + IDENTITY_CATALOG_39@
        + quoted(INTERNAL_SCHEMA@, '"')
        + IDENTITY_CATALOG_40@
}

/// Replace the baseline catalog views with registry-backed user-object views.
///
/// This SQL is executed only after the supported pinned DuckLake
/// identity function and registry have both been validated. `_current_columns`
/// fails closed if a reader lands between the user commit and the separately
/// serialized registry reconciliation transaction.
pub fn duckdb_identity_catalog_bootstrap_sql(catalog: &str) -> (sql: String)
    ensures
        sql@ == identity_catalog_text(catalog@),
{
    let mut out = String::from_str(IDENTITY_CATALOG_0);
    push_quoted_literal(&mut out, catalog);
    out.append(IDENTITY_CATALOG_1);
    push_quoted_literal(&mut out, catalog);
    out.append(IDENTITY_CATALOG_2);
    push_quoted_literal(&mut out, catalog);
    out.append(IDENTITY_CATALOG_3);
    push_quoted_literal(&mut out, catalog);
    out.append(IDENTITY_CATALOG_4);
    push_quoted_literal(&mut out, INTERNAL_SCHEMA);
    out.append(IDENTITY_CATALOG_5);
    push_quoted_identifier(&mut out, catalog);
    out.append(IDENTITY_CATALOG_6);
    push_quoted_identifier(&mut out, INTERNAL_SCHEMA);
    out.append(IDENTITY_CATALOG_7);
    push_quoted_identifier(&mut out, catalog);
    out.append(IDENTITY_CATALOG_8);
    push_quoted_identifier(&mut out, INTERNAL_SCHEMA);
    out.append(IDENTITY_CATALOG_9);
    push_quoted_identifier(&mut out, catalog);
    out.append(IDENTITY_CATALOG_10);
    push_quoted_identifier(&mut out, INTERNAL_SCHEMA);
    out.append(IDENTITY_CATALOG_11);
    push_quoted_identifier(&mut out, catalog);
    out.append(IDENTITY_CATALOG_12);
    push_quoted_identifier(&mut out, INTERNAL_SCHEMA);
    out.append(IDENTITY_CATALOG_13);
    push_quoted_literal(&mut out, catalog);
    out.append(IDENTITY_CATALOG_14);
    push_quoted_identifier(&mut out, catalog);
    out.append(IDENTITY_CATALOG_15);
    push_quoted_identifier(&mut out, INTERNAL_SCHEMA);
    out.append(IDENTITY_CATALOG_16);
    push_quoted_identifier(&mut out, catalog);
    out.append(IDENTITY_CATALOG_17);
    push_quoted_identifier(&mut out, INTERNAL_SCHEMA);
    out.append(IDENTITY_CATALOG_18);
    push_quoted_identifier(&mut out, catalog);
    out.append(IDENTITY_CATALOG_19);
    push_quoted_identifier(&mut out, INTERNAL_SCHEMA);
    out.append(IDENTITY_CATALOG_20);
    push_quoted_identifier(&mut out, catalog);
    out.append(IDENTITY_CATALOG_21);
    push_quoted_identifier(&mut out, INTERNAL_SCHEMA);
    out.append(IDENTITY_CATALOG_22);
    push_quoted_identifier(&mut out, catalog);
    out.append(IDENTITY_CATALOG_23);
    push_quoted_identifier(&mut out, INTERNAL_SCHEMA);
    out.append(IDENTITY_CATALOG_24);
    push_quoted_literal(&mut out, catalog);
    out.append(IDENTITY_CATALOG_25);
    push_decimal(&mut out, PG_CATALOG_NAMESPACE_OID as u64);
    out.append(IDENTITY_CATALOG_26);
    push_decimal(&mut out, BOOTSTRAP_OWNER_OID as u64);
    out.append(IDENTITY_CATALOG_27);
    push_decimal(&mut out, PUBLIC_NAMESPACE_OID as u64);
    out.append(IDENTITY_CATALOG_28);
    push_decimal(&mut out, BOOTSTRAP_OWNER_OID as u64);
    out.append(IDENTITY_CATALOG_29);
    push_decimal(&mut out, BOOTSTRAP_OWNER_OID as u64);
    out.append(IDENTITY_CATALOG_30);
    out.append(identity_type_rows_sql().as_str());
    out.append(IDENTITY_CATALOG_31);
    push_decimal(&mut out, BOOTSTRAP_OWNER_OID as u64);
    out.append(IDENTITY_CATALOG_32);
    out.append(duckdb_column_type_oid_sql());
    out.append(IDENTITY_CATALOG_33);
    push_decimal(&mut out, PG_CLASS_RELATION_OID as u64);
    out.append(IDENTITY_CATALOG_34);
    push_decimal(&mut out, PG_CLASS_RELATION_OID as u64);
    out.append(IDENTITY_CATALOG_35);
    out.append(identity_catalog_macros_sql());
    out.append(IDENTITY_CATALOG_36);
    push_quoted_identifier(&mut out, catalog);
    out.append(IDENTITY_CATALOG_37);
    push_quoted_identifier(&mut out, INTERNAL_SCHEMA);
    out.append(IDENTITY_CATALOG_38);
    push_quoted_identifier(&mut out, catalog);
    out.append(IDENTITY_CATALOG_39);
    push_quoted_identifier(&mut out, INTERNAL_SCHEMA);
    out.append(IDENTITY_CATALOG_40);
    out
}

pub const REGISTRY_BOOTSTRAP_0: &'static str = "CREATE SCHEMA IF NOT EXISTS ";
pub const REGISTRY_BOOTSTRAP_1: &'static str = ".";
pub const REGISTRY_BOOTSTRAP_2: &'static str = ";\n\
         CREATE TABLE IF NOT EXISTS ";
pub const REGISTRY_BOOTSTRAP_3: &'static str = ".";
pub const REGISTRY_BOOTSTRAP_4: &'static str = ".catalog_state(\n\
           singleton BOOLEAN NOT NULL, format_version USMALLINT NOT NULL,\n\
           next_oid UINTEGER NOT NULL, schema_epoch UBIGINT NOT NULL,\n\
           identity_fingerprint VARCHAR, security_epoch UBIGINT NOT NULL,\n\
           security_fingerprint VARCHAR);\n\
         ALTER TABLE ";
pub const REGISTRY_BOOTSTRAP_5: &'static str = ".";
pub const REGISTRY_BOOTSTRAP_6: &'static str = ".catalog_state\n\
           ADD COLUMN IF NOT EXISTS security_epoch UBIGINT DEFAULT 0;\n\
         ALTER TABLE ";
pub const REGISTRY_BOOTSTRAP_7: &'static str = ".";
pub const REGISTRY_BOOTSTRAP_8: &'static str = ".catalog_state\n\
           ADD COLUMN IF NOT EXISTS security_fingerprint VARCHAR;\n\
         UPDATE ";
pub const REGISTRY_BOOTSTRAP_9: &'static str = ".";
pub const REGISTRY_BOOTSTRAP_10: &'static str = ".catalog_state SET format_version = 2\n\
           WHERE format_version = 1;\n\
         INSERT INTO ";
pub const REGISTRY_BOOTSTRAP_11: &'static str = ".";
pub const REGISTRY_BOOTSTRAP_12: &'static str = ".catalog_state\n\
           SELECT true, 2::USMALLINT, ";
pub const REGISTRY_BOOTSTRAP_13: &'static str = "::UINTEGER,\n\
                  0::UBIGINT, NULL::VARCHAR, 0::UBIGINT, NULL::VARCHAR\n\
           WHERE NOT EXISTS (SELECT 1 FROM ";
pub const REGISTRY_BOOTSTRAP_14: &'static str = ".";
pub const REGISTRY_BOOTSTRAP_15: &'static str = ".catalog_state);\n\
         CREATE TABLE IF NOT EXISTS ";
pub const REGISTRY_BOOTSTRAP_16: &'static str = ".";
pub const REGISTRY_BOOTSTRAP_17: &'static str = ".namespace_oid(\n\
           schema_uuid UUID NOT NULL, schema_id BIGINT NOT NULL, oid UINTEGER NOT NULL);\n\
         CREATE TABLE IF NOT EXISTS ";
pub const REGISTRY_BOOTSTRAP_18: &'static str = ".";
pub const REGISTRY_BOOTSTRAP_19: &'static str = ".relation_oid(\n\
           table_uuid UUID NOT NULL, table_id BIGINT NOT NULL,\n\
           namespace_oid UINTEGER NOT NULL, oid UINTEGER NOT NULL,\n\
           row_type_oid UINTEGER NOT NULL);\n\
         CREATE TABLE IF NOT EXISTS ";
pub const REGISTRY_BOOTSTRAP_20: &'static str = ".";
pub const REGISTRY_BOOTSTRAP_21: &'static str = ".attribute_number(\n\
           table_uuid UUID NOT NULL, column_id BIGINT NOT NULL, attnum SMALLINT NOT NULL);\n\
         CREATE TABLE IF NOT EXISTS ";
pub const REGISTRY_BOOTSTRAP_22: &'static str = ".";
pub const REGISTRY_BOOTSTRAP_23: &'static str = ".not_null_constraint_oid(\n\
           table_uuid UUID NOT NULL, column_id BIGINT NOT NULL,\n\
           oid UINTEGER NOT NULL, active BOOLEAN NOT NULL);";

/// The SQL that creates the identity registry inside DuckLake catalog `catalog`.
pub open spec fn registry_bootstrap_text(catalog: Seq<char>) -> Seq<char> {
    REGISTRY_BOOTSTRAP_0@
        + quoted(catalog, '"')
        + REGISTRY_BOOTSTRAP_1@
        + quoted(INTERNAL_SCHEMA@, '"')
        + REGISTRY_BOOTSTRAP_2@
        + quoted(catalog, '"')
        + REGISTRY_BOOTSTRAP_3@
        + quoted(INTERNAL_SCHEMA@, '"')
        + REGISTRY_BOOTSTRAP_4@
        + quoted(catalog, '"')
        + REGISTRY_BOOTSTRAP_5@
        + quoted(INTERNAL_SCHEMA@, '"')
        + REGISTRY_BOOTSTRAP_6@
        + quoted(catalog, '"')
        + REGISTRY_BOOTSTRAP_7@
        + quoted(INTERNAL_SCHEMA@, '"')
        + REGISTRY_BOOTSTRAP_8@
        + quoted(catalog, '"')
        + REGISTRY_BOOTSTRAP_9@
        + quoted(INTERNAL_SCHEMA@, '"')
        + REGISTRY_BOOTSTRAP_10@
        + quoted(catalog, '"')
        + REGISTRY_BOOTSTRAP_11@
        + quoted(INTERNAL_SCHEMA@, '"')
        + REGISTRY_BOOTSTRAP_12@
        + decimal(DYNAMIC_OBJECT_OID_START as nat)
        + REGISTRY_BOOTSTRAP_13@
        + quoted(catalog, '"')
        + REGISTRY_BOOTSTRAP_14@
        + quoted(INTERNAL_SCHEMA@, '"')
        + REGISTRY_BOOTSTRAP_15@
        + quoted(catalog, '"')
        + REGISTRY_BOOTSTRAP_16@
        + quoted(INTERNAL_SCHEMA@, '"')
        + REGISTRY_BOOTSTRAP_17@
        + quoted(catalog, '"')
        + REGISTRY_BOOTSTRAP_18@
        + quoted(INTERNAL_SCHEMA@, '"')
        + REGISTRY_BOOTSTRAP_19@
        + quoted(catalog, '"')
        + REGISTRY_BOOTSTRAP_20@
        + quoted(INTERNAL_SCHEMA@, '"')
        + REGISTRY_BOOTSTRAP_21@
        + quoted(catalog, '"')
        + REGISTRY_BOOTSTRAP_22@
        + quoted(INTERNAL_SCHEMA@, '"')
        + REGISTRY_BOOTSTRAP_23@
}

/// Create the durable compatibility identity registry inside the attached
/// DuckLake catalog. DuckLake 1.5 does not support uniqueness constraints, so
/// every reconciliation validates the equivalent invariants explicitly.
pub fn ducklake_identity_registry_bootstrap_sql(catalog: &str) -> (sql: String)
    ensures
        sql@ == registry_bootstrap_text(catalog@),
{
    let mut out = String::from_str(REGISTRY_BOOTSTRAP_0);
    push_quoted_identifier(&mut out, catalog);
    out.append(REGISTRY_BOOTSTRAP_1);
    push_quoted_identifier(&mut out, INTERNAL_SCHEMA);
    out.append(REGISTRY_BOOTSTRAP_2);
    push_quoted_identifier(&mut out, catalog);
    out.append(REGISTRY_BOOTSTRAP_3);
    push_quoted_identifier(&mut out, INTERNAL_SCHEMA);
    out.append(REGISTRY_BOOTSTRAP_4);
    push_quoted_identifier(&mut out, catalog);
    out.append(REGISTRY_BOOTSTRAP_5);
    push_quoted_identifier(&mut out, INTERNAL_SCHEMA);
    out.append(REGISTRY_BOOTSTRAP_6);
    push_quoted_identifier(&mut out, catalog);
    out.append(REGISTRY_BOOTSTRAP_7);
    push_quoted_identifier(&mut out, INTERNAL_SCHEMA);
    out.append(REGISTRY_BOOTSTRAP_8);
    push_quoted_identifier(&mut out, catalog);
    out.append(REGISTRY_BOOTSTRAP_9);
    push_quoted_identifier(&mut out, INTERNAL_SCHEMA);
    out.append(REGISTRY_BOOTSTRAP_10);
    push_quoted_identifier(&mut out, catalog);
    out.append(REGISTRY_BOOTSTRAP_11);
    push_quoted_identifier(&mut out, INTERNAL_SCHEMA);
    out.append(REGISTRY_BOOTSTRAP_12);
    push_decimal(&mut out, DYNAMIC_OBJECT_OID_START as u64);
    out.append(REGISTRY_BOOTSTRAP_13);
    push_quoted_identifier(&mut out, catalog);
    out.append(REGISTRY_BOOTSTRAP_14);
    push_quoted_identifier(&mut out, INTERNAL_SCHEMA);
    out.append(REGISTRY_BOOTSTRAP_15);
    push_quoted_identifier(&mut out, catalog);
    out.append(REGISTRY_BOOTSTRAP_16);
    push_quoted_identifier(&mut out, INTERNAL_SCHEMA);
    out.append(REGISTRY_BOOTSTRAP_17);
    push_quoted_identifier(&mut out, catalog);
    out.append(REGISTRY_BOOTSTRAP_18);
    push_quoted_identifier(&mut out, INTERNAL_SCHEMA);
    out.append(REGISTRY_BOOTSTRAP_19);
    push_quoted_identifier(&mut out, catalog);
    out.append(REGISTRY_BOOTSTRAP_20);
    push_quoted_identifier(&mut out, INTERNAL_SCHEMA);
    out.append(REGISTRY_BOOTSTRAP_21);
    push_quoted_identifier(&mut out, catalog);
    out.append(REGISTRY_BOOTSTRAP_22);
    push_quoted_identifier(&mut out, INTERNAL_SCHEMA);
    out.append(REGISTRY_BOOTSTRAP_23);
    out
}

pub const SECURITY_RECONCILE_0: &'static str = "UPDATE ";
pub const SECURITY_RECONCILE_1: &'static str = ".";
pub const SECURITY_RECONCILE_2: &'static str = ".catalog_state\n\
         SET security_epoch = security_epoch + 1, security_fingerprint = ";
pub const SECURITY_RECONCILE_3: &'static str = "\n\
         WHERE singleton AND security_fingerprint IS DISTINCT FROM ";

/// The SQL that advances the security epoch when the security fingerprint changed.
pub open spec fn security_epoch_reconcile_text(catalog: Seq<char>, fingerprint: Seq<char>) -> Seq<char> {
    SECURITY_RECONCILE_0@
        + quoted(catalog, '"')
        + SECURITY_RECONCILE_1@
        + quoted(INTERNAL_SCHEMA@, '"')
        + SECURITY_RECONCILE_2@
        + quoted(fingerprint, '\'')
        + SECURITY_RECONCILE_3@
        + quoted(fingerprint, '\'')
}

pub fn ducklake_security_epoch_reconcile_sql(catalog: &str, fingerprint: &str) -> (sql: String)
    ensures
        sql@ == security_epoch_reconcile_text(catalog@,fingerprint@),
{
    let mut out = String::from_str(SECURITY_RECONCILE_0);
    push_quoted_identifier(&mut out, catalog);
    out.append(SECURITY_RECONCILE_1);
    push_quoted_identifier(&mut out, INTERNAL_SCHEMA);
    out.append(SECURITY_RECONCILE_2);
    push_quoted_literal(&mut out, fingerprint);
    out.append(SECURITY_RECONCILE_3);
    push_quoted_literal(&mut out, fingerprint);
    out
}

pub const SECURITY_PREPARE_0: &'static str = "UPDATE ";
pub const SECURITY_PREPARE_1: &'static str = ".";
pub const SECURITY_PREPARE_2: &'static str = ".catalog_state\n\
         SET security_fingerprint = NULL\n\
         WHERE singleton AND security_fingerprint IS DISTINCT FROM ";

/// The SQL that clears a stale security fingerprint before a security change.
pub open spec fn security_epoch_prepare_text(catalog: Seq<char>, fingerprint: Seq<char>) -> Seq<char> {
    SECURITY_PREPARE_0@
        + quoted(catalog, '"')
        + SECURITY_PREPARE_1@
        + quoted(INTERNAL_SCHEMA@, '"')
        + SECURITY_PREPARE_2@
        + quoted(fingerprint, '\'')
}

pub fn ducklake_security_epoch_prepare_sql(catalog: &str, fingerprint: &str) -> (sql: String)
    ensures
        sql@ == security_epoch_prepare_text(catalog@,fingerprint@),
{
    let mut out = String::from_str(SECURITY_PREPARE_0);
    push_quoted_identifier(&mut out, catalog);
    out.append(SECURITY_PREPARE_1);
    push_quoted_identifier(&mut out, INTERNAL_SCHEMA);
    out.append(SECURITY_PREPARE_2);
    push_quoted_literal(&mut out, fingerprint);
    out
}

pub const REGISTRY_RECONCILE_0: &'static str = "CREATE OR REPLACE TEMP TABLE __quackgis_identity AS\n\
           SELECT identity.*, columns.data_type AS data_type,\n\
                  nullif(columns.column_default, 'NULL') AS column_default,\n\
                  columns.comment AS column_comment, tables.comment AS table_comment,\n\
                  NOT columns.is_nullable AS column_not_null,\n\
                  constraints.constraint_name AS not_null_constraint_name\n\
           FROM ducklake_column_info(";
pub const REGISTRY_RECONCILE_1: &'static str = ") identity\n\
           JOIN duckdb_columns() columns\n\
             ON columns.database_name = ";
pub const REGISTRY_RECONCILE_2: &'static str = "\n\
            AND columns.schema_name = identity.schema_name\n\
            AND columns.table_name = identity.table_name\n\
            AND columns.column_name = identity.column_name\n\
           JOIN duckdb_tables() tables\n\
             ON tables.database_name = ";
pub const REGISTRY_RECONCILE_3: &'static str = "\n\
            AND tables.schema_name = identity.schema_name\n\
            AND tables.table_name = identity.table_name\n\
           LEFT JOIN duckdb_constraints() constraints\n\
             ON constraints.database_name = ";
pub const REGISTRY_RECONCILE_4: &'static str = "\n\
            AND constraints.schema_name = identity.schema_name\n\
            AND constraints.table_name = identity.table_name\n\
            AND constraints.constraint_type = 'NOT NULL'\n\
            AND len(constraints.constraint_column_names) = 1\n\
            AND constraints.constraint_column_names[1] = identity.column_name\n\
           WHERE identity.schema_name <> ";
pub const REGISTRY_RECONCILE_5: &'static str = ";\n\
         CREATE OR REPLACE TEMP TABLE __quackgis_identity_fingerprint AS\n\
           SELECT sha256(coalesce(CAST(to_json(list(struct_pack(\n\
             schema_uuid := schema_uuid, schema_name := schema_name,\n\
             table_uuid := table_uuid, table_name := table_name,\n\
             column_id := column_id, column_name := column_name,\n\
             data_type := data_type,\n\
             column_default := column_default, column_comment := column_comment,\n\
             table_comment := table_comment, column_not_null := column_not_null,\n\
             not_null_constraint_name := not_null_constraint_name)\n\
             ORDER BY schema_uuid, table_uuid, column_id)) AS VARCHAR), '[]'))\n\
             AS fingerprint\n\
           FROM __quackgis_identity;\n\
         CREATE OR REPLACE TEMP TABLE __quackgis_new_public_namespace AS\n\
           SELECT schema_uuid, min(schema_id) AS schema_id\n\
           FROM __quackgis_identity i\n\
           WHERE schema_name = 'main'\n\
             AND NOT EXISTS (\n\
               SELECT 1 FROM ";
pub const REGISTRY_RECONCILE_6: &'static str = ".";
pub const REGISTRY_RECONCILE_7: &'static str = ".namespace_oid n\n\
               WHERE n.schema_uuid = i.schema_uuid)\n\
           GROUP BY schema_uuid;\n\
         INSERT INTO ";
pub const REGISTRY_RECONCILE_8: &'static str = ".";
pub const REGISTRY_RECONCILE_9: &'static str = ".namespace_oid\n\
           SELECT schema_uuid, schema_id, ";
pub const REGISTRY_RECONCILE_10: &'static str = "::UINTEGER\n\
           FROM __quackgis_new_public_namespace;\n\
         CREATE OR REPLACE TEMP TABLE __quackgis_new_namespaces AS\n\
           SELECT schema_uuid, schema_id,\n\
                  row_number() OVER (ORDER BY schema_uuid) AS ordinal\n\
           FROM (\n\
             SELECT schema_uuid, min(schema_id) AS schema_id\n\
             FROM __quackgis_identity i\n\
             WHERE schema_name <> 'main'\n\
               AND NOT EXISTS (\n\
                 SELECT 1 FROM ";
pub const REGISTRY_RECONCILE_11: &'static str = ".";
pub const REGISTRY_RECONCILE_12: &'static str = ".namespace_oid n\n\
                 WHERE n.schema_uuid = i.schema_uuid)\n\
             GROUP BY schema_uuid\n\
           ) missing;\n\
         INSERT INTO ";
pub const REGISTRY_RECONCILE_13: &'static str = ".";
pub const REGISTRY_RECONCILE_14: &'static str = ".namespace_oid\n\
           SELECT n.schema_uuid, n.schema_id,\n\
                  CAST(s.next_oid + n.ordinal - 1 AS UINTEGER)\n\
           FROM __quackgis_new_namespaces n,\n\
                ";
pub const REGISTRY_RECONCILE_15: &'static str = ".";
pub const REGISTRY_RECONCILE_16: &'static str = ".catalog_state s;\n\
         UPDATE ";
pub const REGISTRY_RECONCILE_17: &'static str = ".";
pub const REGISTRY_RECONCILE_18: &'static str = ".catalog_state\n\
           SET next_oid = next_oid + (SELECT count(*) FROM __quackgis_new_namespaces)\n\
           WHERE singleton\n\
             AND (SELECT count(*) FROM __quackgis_new_namespaces) > 0;\n\
         CREATE OR REPLACE TEMP TABLE __quackgis_new_relations AS\n\
           SELECT table_uuid, table_id, namespace_oid,\n\
                  row_number() OVER (ORDER BY table_uuid) AS ordinal\n\
           FROM (\n\
             SELECT i.table_uuid, min(i.table_id) AS table_id,\n\
                    min(n.oid) AS namespace_oid\n\
             FROM __quackgis_identity i\n\
             JOIN ";
pub const REGISTRY_RECONCILE_19: &'static str = ".";
pub const REGISTRY_RECONCILE_20: &'static str = ".namespace_oid n USING (schema_uuid)\n\
             WHERE NOT EXISTS (\n\
               SELECT 1 FROM ";
pub const REGISTRY_RECONCILE_21: &'static str = ".";
pub const REGISTRY_RECONCILE_22: &'static str = ".relation_oid r\n\
               WHERE r.table_uuid = i.table_uuid)\n\
             GROUP BY i.table_uuid\n\
           ) missing;\n\
         INSERT INTO ";
pub const REGISTRY_RECONCILE_23: &'static str = ".";
pub const REGISTRY_RECONCILE_24: &'static str = ".relation_oid\n\
           SELECT r.table_uuid, r.table_id, r.namespace_oid,\n\
                  CAST(s.next_oid + ((r.ordinal - 1) * 2) AS UINTEGER),\n\
                  CAST(s.next_oid + ((r.ordinal - 1) * 2) + 1 AS UINTEGER)\n\
           FROM __quackgis_new_relations r,\n\
                ";
pub const REGISTRY_RECONCILE_25: &'static str = ".";
pub const REGISTRY_RECONCILE_26: &'static str = ".catalog_state s;\n\
         UPDATE ";
pub const REGISTRY_RECONCILE_27: &'static str = ".";
pub const REGISTRY_RECONCILE_28: &'static str = ".catalog_state\n\
           SET next_oid = next_oid + (2 * (SELECT count(*) FROM __quackgis_new_relations))\n\
           WHERE singleton\n\
             AND (SELECT count(*) FROM __quackgis_new_relations) > 0;\n\
         CREATE OR REPLACE TEMP TABLE __quackgis_new_attributes AS\n\
           SELECT i.table_uuid, i.column_id,\n\
                  CAST(coalesce(m.max_attnum, 0) + row_number() OVER (\n\
                    PARTITION BY i.table_uuid ORDER BY i.column_id) AS SMALLINT) AS attnum\n\
           FROM __quackgis_identity i\n\
           LEFT JOIN (\n\
             SELECT table_uuid, max(attnum) AS max_attnum\n\
             FROM ";
pub const REGISTRY_RECONCILE_29: &'static str = ".";
pub const REGISTRY_RECONCILE_30: &'static str = ".attribute_number\n\
             GROUP BY table_uuid\n\
           ) m USING (table_uuid)\n\
           WHERE NOT EXISTS (\n\
             SELECT 1 FROM ";
pub const REGISTRY_RECONCILE_31: &'static str = ".";
pub const REGISTRY_RECONCILE_32: &'static str = ".attribute_number a\n\
             WHERE a.table_uuid = i.table_uuid AND a.column_id = i.column_id);\n\
         INSERT INTO ";
pub const REGISTRY_RECONCILE_33: &'static str = ".";
pub const REGISTRY_RECONCILE_34: &'static str = ".attribute_number\n\
           SELECT * FROM __quackgis_new_attributes;\n\
         UPDATE ";
pub const REGISTRY_RECONCILE_35: &'static str = ".";
pub const REGISTRY_RECONCILE_36: &'static str = ".not_null_constraint_oid constraints\n\
           SET active = false\n\
           WHERE constraints.active AND NOT EXISTS (\n\
             SELECT 1 FROM __quackgis_identity identity\n\
             WHERE identity.table_uuid = constraints.table_uuid\n\
               AND identity.column_id = constraints.column_id\n\
               AND identity.column_not_null);\n\
         CREATE OR REPLACE TEMP TABLE __quackgis_new_not_null_constraints AS\n\
           SELECT identity.table_uuid, identity.column_id,\n\
                  row_number() OVER (ORDER BY identity.table_uuid, identity.column_id) AS ordinal\n\
           FROM __quackgis_identity identity\n\
           WHERE identity.column_not_null AND NOT EXISTS (\n\
             SELECT 1 FROM ";
pub const REGISTRY_RECONCILE_37: &'static str = ".";
pub const REGISTRY_RECONCILE_38: &'static str = ".not_null_constraint_oid constraints\n\
             WHERE constraints.table_uuid = identity.table_uuid\n\
               AND constraints.column_id = identity.column_id AND constraints.active);\n\
         INSERT INTO ";
pub const REGISTRY_RECONCILE_39: &'static str = ".";
pub const REGISTRY_RECONCILE_40: &'static str = ".not_null_constraint_oid\n\
           SELECT constraints.table_uuid, constraints.column_id,\n\
                  CAST(state.next_oid + constraints.ordinal - 1 AS UINTEGER), true\n\
           FROM __quackgis_new_not_null_constraints constraints,\n\
                ";
pub const REGISTRY_RECONCILE_41: &'static str = ".";
pub const REGISTRY_RECONCILE_42: &'static str = ".catalog_state state;\n\
         UPDATE ";
pub const REGISTRY_RECONCILE_43: &'static str = ".";
pub const REGISTRY_RECONCILE_44: &'static str = ".catalog_state\n\
           SET next_oid = next_oid +\n\
               (SELECT count(*) FROM __quackgis_new_not_null_constraints)\n\
           WHERE singleton\n\
             AND (SELECT count(*) FROM __quackgis_new_not_null_constraints) > 0;\n\
         UPDATE ";
pub const REGISTRY_RECONCILE_45: &'static str = ".";
pub const REGISTRY_RECONCILE_46: &'static str = ".catalog_state s\n\
           SET schema_epoch = schema_epoch + CASE\n\
                 WHEN s.identity_fingerprint IS NULL\n\
                  AND (";
pub const REGISTRY_RECONCILE_47: &'static str = ") = 0 THEN 0 ELSE 1 END,\n\
               identity_fingerprint = f.fingerprint\n\
           FROM __quackgis_identity_fingerprint f\n\
           WHERE s.singleton\n\
             AND (s.identity_fingerprint IS DISTINCT FROM f.fingerprint\n\
                  OR (";
pub const REGISTRY_RECONCILE_48: &'static str = ") > 0);";

/// The SQL that registers the identities of the committed snapshot of `catalog`.
pub open spec fn registry_reconcile_text(catalog: Seq<char>) -> Seq<char> {
    REGISTRY_RECONCILE_0@
        + quoted(catalog, '\'')
        + REGISTRY_RECONCILE_1@
        + quoted(catalog, '\'')
        + REGISTRY_RECONCILE_2@
        + quoted(catalog, '\'')
        + REGISTRY_RECONCILE_3@
        + quoted(catalog, '\'')
        + REGISTRY_RECONCILE_4@
        + quoted(INTERNAL_SCHEMA@, '\'')
        + REGISTRY_RECONCILE_5@
        + quoted(catalog, '"')
        + REGISTRY_RECONCILE_6@
        + quoted(INTERNAL_SCHEMA@, '"')
        + REGISTRY_RECONCILE_7@
        + quoted(catalog, '"')
        + REGISTRY_RECONCILE_8@
        + quoted(INTERNAL_SCHEMA@, '"')
        + REGISTRY_RECONCILE_9@
        + decimal(PUBLIC_NAMESPACE_OID as nat)
        + REGISTRY_RECONCILE_10@
        + quoted(catalog, '"')
        + REGISTRY_RECONCILE_11@
        + quoted(INTERNAL_SCHEMA@, '"')
        + REGISTRY_RECONCILE_12@
        + quoted(catalog, '"')
        + REGISTRY_RECONCILE_13@
        + quoted(INTERNAL_SCHEMA@, '"')
        + REGISTRY_RECONCILE_14@
        + quoted(catalog, '"')
        + REGISTRY_RECONCILE_15@
        + quoted(INTERNAL_SCHEMA@, '"')
        + REGISTRY_RECONCILE_16@
        + quoted(catalog, '"')
        + REGISTRY_RECONCILE_17@
        + quoted(INTERNAL_SCHEMA@, '"')
        + REGISTRY_RECONCILE_18@
        + quoted(catalog, '"')
        + REGISTRY_RECONCILE_19@
        + quoted(INTERNAL_SCHEMA@, '"')
        + REGISTRY_RECONCILE_20@
        + quoted(catalog, '"')
        + REGISTRY_RECONCILE_21@
        + quoted(INTERNAL_SCHEMA@, '"')
        + REGISTRY_RECONCILE_22@
        + quoted(catalog, '"')
        + REGISTRY_RECONCILE_23@
        + quoted(INTERNAL_SCHEMA@, '"')
        + REGISTRY_RECONCILE_24@
        + quoted(catalog, '"')
        + REGISTRY_RECONCILE_25@
        + quoted(INTERNAL_SCHEMA@, '"')
        + REGISTRY_RECONCILE_26@
        + quoted(catalog, '"')
        + REGISTRY_RECONCILE_27@
        + quoted(INTERNAL_SCHEMA@, '"')
        + REGISTRY_RECONCILE_28@
        + quoted(catalog, '"')
        + REGISTRY_RECONCILE_29@
        + quoted(INTERNAL_SCHEMA@, '"')
        + REGISTRY_RECONCILE_30@
        + quoted(catalog, '"')
        + REGISTRY_RECONCILE_31@
        + quoted(INTERNAL_SCHEMA@, '"')
        + REGISTRY_RECONCILE_32@
        + quoted(catalog, '"')
        + REGISTRY_RECONCILE_33@
        + quoted(INTERNAL_SCHEMA@, '"')
        + REGISTRY_RECONCILE_34@
        + quoted(catalog, '"')
        + REGISTRY_RECONCILE_35@
        + quoted(INTERNAL_SCHEMA@, '"')
        + REGISTRY_RECONCILE_36@
        + quoted(catalog, '"')
        + REGISTRY_RECONCILE_37@
        + quoted(INTERNAL_SCHEMA@, '"')
        + REGISTRY_RECONCILE_38@
        + quoted(catalog, '"')
        + REGISTRY_RECONCILE_39@
        + quoted(INTERNAL_SCHEMA@, '"')
        + REGISTRY_RECONCILE_40@
        + quoted(catalog, '"')
        + REGISTRY_RECONCILE_41@
        + quoted(INTERNAL_SCHEMA@, '"')
        + REGISTRY_RECONCILE_42@
        + quoted(catalog, '"')
        + REGISTRY_RECONCILE_43@
        + quoted(INTERNAL_SCHEMA@, '"')
        + REGISTRY_RECONCILE_44@
        + quoted(catalog, '"')
        + REGISTRY_RECONCILE_45@
        + quoted(INTERNAL_SCHEMA@, '"')
        + REGISTRY_RECONCILE_46@
        + CHANGE_COUNT_SQL@
        + REGISTRY_RECONCILE_47@
        + CHANGE_COUNT_SQL@
        + REGISTRY_RECONCILE_48@
}

/// Reconcile committed DuckLake identities into durable PostgreSQL-compatible
/// OID and attribute-number mappings. The caller owns one native transaction.
pub fn ducklake_identity_registry_reconcile_sql(catalog: &str) -> (sql: String)
    ensures
        sql@ == registry_reconcile_text(catalog@),
{
    let mut out = String::from_str(REGISTRY_RECONCILE_0);
    push_quoted_literal(&mut out, catalog);
    out.append(REGISTRY_RECONCILE_1);
    push_quoted_literal(&mut out, catalog);
    out.append(REGISTRY_RECONCILE_2);
    push_quoted_literal(&mut out, catalog);
    out.append(REGISTRY_RECONCILE_3);
    push_quoted_literal(&mut out, catalog);
    out.append(REGISTRY_RECONCILE_4);
    push_quoted_literal(&mut out, INTERNAL_SCHEMA);
    out.append(REGISTRY_RECONCILE_5);
    push_quoted_identifier(&mut out, catalog);
    out.append(REGISTRY_RECONCILE_6);
    push_quoted_identifier(&mut out, INTERNAL_SCHEMA);
    out.append(REGISTRY_RECONCILE_7);
    push_quoted_identifier(&mut out, catalog);
    out.append(REGISTRY_RECONCILE_8);
    push_quoted_identifier(&mut out, INTERNAL_SCHEMA);
    out.append(REGISTRY_RECONCILE_9);
    push_decimal(&mut out, PUBLIC_NAMESPACE_OID as u64);
    out.append(REGISTRY_RECONCILE_10);
    push_quoted_identifier(&mut out, catalog);
    out.append(REGISTRY_RECONCILE_11);
    push_quoted_identifier(&mut out, INTERNAL_SCHEMA);
    out.append(REGISTRY_RECONCILE_12);
    push_quoted_identifier(&mut out, catalog);
    out.append(REGISTRY_RECONCILE_13);
    push_quoted_identifier(&mut out, INTERNAL_SCHEMA);
    out.append(REGISTRY_RECONCILE_14);
    push_quoted_identifier(&mut out, catalog);
    out.append(REGISTRY_RECONCILE_15);
    push_quoted_identifier(&mut out, INTERNAL_SCHEMA);
    out.append(REGISTRY_RECONCILE_16);
    push_quoted_identifier(&mut out, catalog);
    out.append(REGISTRY_RECONCILE_17);
    push_quoted_identifier(&mut out, INTERNAL_SCHEMA);
    out.append(REGISTRY_RECONCILE_18);
    push_quoted_identifier(&mut out, catalog);
    out.append(REGISTRY_RECONCILE_19);
    push_quoted_identifier(&mut out, INTERNAL_SCHEMA);
    out.append(REGISTRY_RECONCILE_20);
    push_quoted_identifier(&mut out, catalog);
    out.append(REGISTRY_RECONCILE_21);
    push_quoted_identifier(&mut out, INTERNAL_SCHEMA);
    out.append(REGISTRY_RECONCILE_22);
    push_quoted_identifier(&mut out, catalog);
    out.append(REGISTRY_RECONCILE_23);
    push_quoted_identifier(&mut out, INTERNAL_SCHEMA);
    out.append(REGISTRY_RECONCILE_24);
    push_quoted_identifier(&mut out, catalog);
    out.append(REGISTRY_RECONCILE_25);
    push_quoted_identifier(&mut out, INTERNAL_SCHEMA);
    out.append(REGISTRY_RECONCILE_26);
    push_quoted_identifier(&mut out, catalog);
    out.append(REGISTRY_RECONCILE_27);
    push_quoted_identifier(&mut out, INTERNAL_SCHEMA);
    out.append(REGISTRY_RECONCILE_28);
    push_quoted_identifier(&mut out, catalog);
    out.append(REGISTRY_RECONCILE_29);
    push_quoted_identifier(&mut out, INTERNAL_SCHEMA);
    out.append(REGISTRY_RECONCILE_30);
    push_quoted_identifier(&mut out, catalog);
    out.append(REGISTRY_RECONCILE_31);
    push_quoted_identifier(&mut out, INTERNAL_SCHEMA);
    out.append(REGISTRY_RECONCILE_32);
    push_quoted_identifier(&mut out, catalog);
    out.append(REGISTRY_RECONCILE_33);
    push_quoted_identifier(&mut out, INTERNAL_SCHEMA);
    out.append(REGISTRY_RECONCILE_34);
    push_quoted_identifier(&mut out, catalog);
    out.append(REGISTRY_RECONCILE_35);
    push_quoted_identifier(&mut out, INTERNAL_SCHEMA);
    out.append(REGISTRY_RECONCILE_36);
    push_quoted_identifier(&mut out, catalog);
    out.append(REGISTRY_RECONCILE_37);
    push_quoted_identifier(&mut out, INTERNAL_SCHEMA);
    out.append(REGISTRY_RECONCILE_38);
    push_quoted_identifier(&mut out, catalog);
    out.append(REGISTRY_RECONCILE_39);
    push_quoted_identifier(&mut out, INTERNAL_SCHEMA);
    out.append(REGISTRY_RECONCILE_40);
    push_quoted_identifier(&mut out, catalog);
    out.append(REGISTRY_RECONCILE_41);
    push_quoted_identifier(&mut out, INTERNAL_SCHEMA);
    out.append(REGISTRY_RECONCILE_42);
    push_quoted_identifier(&mut out, catalog);
    out.append(REGISTRY_RECONCILE_43);
    push_quoted_identifier(&mut out, INTERNAL_SCHEMA);
    out.append(REGISTRY_RECONCILE_44);
    push_quoted_identifier(&mut out, catalog);
    out.append(REGISTRY_RECONCILE_45);
    push_quoted_identifier(&mut out, INTERNAL_SCHEMA);
    out.append(REGISTRY_RECONCILE_46);
    out.append(CHANGE_COUNT_SQL);
    out.append(REGISTRY_RECONCILE_47);
    out.append(CHANGE_COUNT_SQL);
    out.append(REGISTRY_RECONCILE_48);
    out
}

pub const REGISTRY_VALIDATION_0: &'static str = "SELECT CASE WHEN\n\
           (SELECT count(*) FROM ";
pub const REGISTRY_VALIDATION_1: &'static str = ".";
pub const REGISTRY_VALIDATION_2: &'static str = ".catalog_state) = 1\n\
           AND (SELECT count(*) FROM ";
pub const REGISTRY_VALIDATION_3: &'static str = ".";
pub const REGISTRY_VALIDATION_4: &'static str = ".catalog_state\n\
                WHERE singleton AND format_version = 2\n\
                  AND next_oid >= ";
pub const REGISTRY_VALIDATION_5: &'static str = "\n\
                  AND security_epoch IS NOT NULL) = 1\n\
           AND NOT EXISTS (\n\
             SELECT schema_uuid FROM ";
pub const REGISTRY_VALIDATION_6: &'static str = ".";
pub const REGISTRY_VALIDATION_7: &'static str = ".namespace_oid\n\
             GROUP BY schema_uuid HAVING count(*) <> 1)\n\
           AND NOT EXISTS (\n\
             SELECT table_uuid FROM ";
pub const REGISTRY_VALIDATION_8: &'static str = ".";
pub const REGISTRY_VALIDATION_9: &'static str = ".relation_oid\n\
             GROUP BY table_uuid HAVING count(*) <> 1)\n\
           AND NOT EXISTS (\n\
             SELECT table_uuid, column_id FROM ";
pub const REGISTRY_VALIDATION_10: &'static str = ".";
pub const REGISTRY_VALIDATION_11: &'static str = ".attribute_number\n\
             GROUP BY table_uuid, column_id HAVING count(*) <> 1)\n\
           AND NOT EXISTS (\n\
             SELECT table_uuid, attnum FROM ";
pub const REGISTRY_VALIDATION_12: &'static str = ".";
pub const REGISTRY_VALIDATION_13: &'static str = ".attribute_number\n\
             GROUP BY table_uuid, attnum HAVING count(*) <> 1)\n\
           AND NOT EXISTS (\n\
             SELECT table_uuid, column_id\n\
             FROM ";
pub const REGISTRY_VALIDATION_14: &'static str = ".";
pub const REGISTRY_VALIDATION_15: &'static str = ".not_null_constraint_oid WHERE active\n\
             GROUP BY table_uuid, column_id HAVING count(*) <> 1)\n\
           AND NOT EXISTS (\n\
             SELECT oid FROM (\n\
               SELECT oid FROM ";
pub const REGISTRY_VALIDATION_16: &'static str = ".";
pub const REGISTRY_VALIDATION_17: &'static str = ".namespace_oid\n\
               UNION ALL\n\
               SELECT oid FROM ";
pub const REGISTRY_VALIDATION_18: &'static str = ".";
pub const REGISTRY_VALIDATION_19: &'static str = ".relation_oid\n\
               UNION ALL\n\
               SELECT row_type_oid FROM ";
pub const REGISTRY_VALIDATION_20: &'static str = ".";
pub const REGISTRY_VALIDATION_21: &'static str = ".relation_oid\n\
               UNION ALL\n\
               SELECT oid FROM ";
pub const REGISTRY_VALIDATION_22: &'static str = ".";
pub const REGISTRY_VALIDATION_23: &'static str = ".not_null_constraint_oid\n\
             ) allocated GROUP BY oid HAVING count(*) <> 1)\n\
           AND NOT EXISTS (\n\
             SELECT 1 FROM ";
pub const REGISTRY_VALIDATION_24: &'static str = ".";
pub const REGISTRY_VALIDATION_25: &'static str = ".namespace_oid\n\
             WHERE oid <> ";
pub const REGISTRY_VALIDATION_26: &'static str = " AND oid < ";
pub const REGISTRY_VALIDATION_27: &'static str = ")\n\
           AND NOT EXISTS (\n\
             SELECT 1 FROM ";
pub const REGISTRY_VALIDATION_28: &'static str = ".";
pub const REGISTRY_VALIDATION_29: &'static str = ".relation_oid\n\
             WHERE oid < ";
pub const REGISTRY_VALIDATION_30: &'static str = "\n\
                OR row_type_oid < ";
pub const REGISTRY_VALIDATION_31: &'static str = ")\n\
           AND NOT EXISTS (\n\
             SELECT 1 FROM ";
pub const REGISTRY_VALIDATION_32: &'static str = ".";
pub const REGISTRY_VALIDATION_33: &'static str = ".not_null_constraint_oid\n\
             WHERE oid < ";
pub const REGISTRY_VALIDATION_34: &'static str = ")\n\
           AND NOT EXISTS (\n\
             SELECT 1 FROM ";
pub const REGISTRY_VALIDATION_35: &'static str = ".";
pub const REGISTRY_VALIDATION_36: &'static str = ".relation_oid r\n\
             WHERE NOT EXISTS (\n\
               SELECT 1 FROM ";
pub const REGISTRY_VALIDATION_37: &'static str = ".";
pub const REGISTRY_VALIDATION_38: &'static str = ".namespace_oid n\n\
               WHERE n.oid = r.namespace_oid))\n\
           AND NOT EXISTS (\n\
             SELECT 1 FROM ";
pub const REGISTRY_VALIDATION_39: &'static str = ".";
pub const REGISTRY_VALIDATION_40: &'static str = ".attribute_number a\n\
             WHERE a.attnum <= 0 OR NOT EXISTS (\n\
               SELECT 1 FROM ";
pub const REGISTRY_VALIDATION_41: &'static str = ".";
pub const REGISTRY_VALIDATION_42: &'static str = ".relation_oid r\n\
               WHERE r.table_uuid = a.table_uuid))\n\
           AND NOT EXISTS (\n\
             SELECT 1 FROM ";
pub const REGISTRY_VALIDATION_43: &'static str = ".";
pub const REGISTRY_VALIDATION_44: &'static str = ".not_null_constraint_oid constraints\n\
             WHERE NOT EXISTS (\n\
               SELECT 1 FROM ";
pub const REGISTRY_VALIDATION_45: &'static str = ".";
pub const REGISTRY_VALIDATION_46: &'static str = ".relation_oid relations\n\
               WHERE relations.table_uuid = constraints.table_uuid)\n\
                OR NOT EXISTS (\n\
               SELECT 1 FROM ";
pub const REGISTRY_VALIDATION_47: &'static str = ".";
pub const REGISTRY_VALIDATION_48: &'static str = ".attribute_number attributes\n\
               WHERE attributes.table_uuid = constraints.table_uuid\n\
                 AND attributes.column_id = constraints.column_id))\n\
           AND (SELECT next_oid FROM ";
pub const REGISTRY_VALIDATION_49: &'static str = ".";
pub const REGISTRY_VALIDATION_50: &'static str = ".catalog_state) > coalesce((\n\
             SELECT max(oid) FROM (\n\
               SELECT oid FROM ";
pub const REGISTRY_VALIDATION_51: &'static str = ".";
pub const REGISTRY_VALIDATION_52: &'static str = ".namespace_oid\n\
               WHERE oid >= ";
pub const REGISTRY_VALIDATION_53: &'static str = "\n\
               UNION ALL\n\
               SELECT oid FROM ";
pub const REGISTRY_VALIDATION_54: &'static str = ".";
pub const REGISTRY_VALIDATION_55: &'static str = ".relation_oid\n\
               UNION ALL\n\
               SELECT row_type_oid FROM ";
pub const REGISTRY_VALIDATION_56: &'static str = ".";
pub const REGISTRY_VALIDATION_57: &'static str = ".relation_oid\n\
               UNION ALL\n\
               SELECT oid FROM ";
pub const REGISTRY_VALIDATION_58: &'static str = ".";
pub const REGISTRY_VALIDATION_59: &'static str = ".not_null_constraint_oid\n\
             ) allocated), ";
pub const REGISTRY_VALIDATION_60: &'static str = ")\n\
         THEN true ELSE error('QuackGIS catalog identity registry is inconsistent') END\n\
         AS registry_valid";

/// The query that fails unless the registry of `catalog` is consistent.
pub open spec fn registry_validation_text(catalog: Seq<char>) -> Seq<char> {
    REGISTRY_VALIDATION_0@
        + quoted(catalog, '"')
        + REGISTRY_VALIDATION_1@
        + quoted(INTERNAL_SCHEMA@, '"')
        + REGISTRY_VALIDATION_2@
        + quoted(catalog, '"')
        + REGISTRY_VALIDATION_3@
        + quoted(INTERNAL_SCHEMA@, '"')
        + REGISTRY_VALIDATION_4@
        + decimal(DYNAMIC_OBJECT_OID_START as nat)
        + REGISTRY_VALIDATION_5@
        + quoted(catalog, '"')
        + REGISTRY_VALIDATION_6@
        + quoted(INTERNAL_SCHEMA@, '"')
        + REGISTRY_VALIDATION_7@
        + quoted(catalog, '"')
        + REGISTRY_VALIDATION_8@
        + quoted(INTERNAL_SCHEMA@, '"')
        + REGISTRY_VALIDATION_9@
        + quoted(catalog, '"')
        + REGISTRY_VALIDATION_10@
        + quoted(INTERNAL_SCHEMA@, '"')
        + REGISTRY_VALIDATION_11@
        + quoted(catalog, '"')
        + REGISTRY_VALIDATION_12@
        + quoted(INTERNAL_SCHEMA@, '"')
        + REGISTRY_VALIDATION_13@
        + quoted(catalog, '"')
        + REGISTRY_VALIDATION_14@
        + quoted(INTERNAL_SCHEMA@, '"')
        + REGISTRY_VALIDATION_15@
        + quoted(catalog, '"')
        + REGISTRY_VALIDATION_16@
        + quoted(INTERNAL_SCHEMA@, '"')
        + REGISTRY_VALIDATION_17@
        + quoted(catalog, '"')
        + REGISTRY_VALIDATION_18@
        + quoted(INTERNAL_SCHEMA@, '"')
        + REGISTRY_VALIDATION_19@
        + quoted(catalog, '"')
        + REGISTRY_VALIDATION_20@
        + quoted(INTERNAL_SCHEMA@, '"')
        + REGISTRY_VALIDATION_21@
        + quoted(catalog, '"')
        + REGISTRY_VALIDATION_22@
        + quoted(INTERNAL_SCHEMA@, '"')
        + REGISTRY_VALIDATION_23@
        + quoted(catalog, '"')
        + REGISTRY_VALIDATION_24@
        + quoted(INTERNAL_SCHEMA@, '"')
        + REGISTRY_VALIDATION_25@
        + decimal(PUBLIC_NAMESPACE_OID as nat)
        + REGISTRY_VALIDATION_26@
        + decimal(DYNAMIC_OBJECT_OID_START as nat)
        + REGISTRY_VALIDATION_27@
        + quoted(catalog, '"')
        + REGISTRY_VALIDATION_28@
        + quoted(INTERNAL_SCHEMA@, '"')
        + REGISTRY_VALIDATION_29@
        + decimal(DYNAMIC_OBJECT_OID_START as nat)
        + REGISTRY_VALIDATION_30@
        + decimal(DYNAMIC_OBJECT_OID_START as nat)
        + REGISTRY_VALIDATION_31@
        + quoted(catalog, '"')
        + REGISTRY_VALIDATION_32@
        + quoted(INTERNAL_SCHEMA@, '"')
        + REGISTRY_VALIDATION_33@
        + decimal(DYNAMIC_OBJECT_OID_START as nat)
        + REGISTRY_VALIDATION_34@
        + quoted(catalog, '"')
        + REGISTRY_VALIDATION_35@
        + quoted(INTERNAL_SCHEMA@, '"')
        + REGISTRY_VALIDATION_36@
        + quoted(catalog, '"')
        + REGISTRY_VALIDATION_37@
        + quoted(INTERNAL_SCHEMA@, '"')
        + REGISTRY_VALIDATION_38@
        + quoted(catalog, '"')
        + REGISTRY_VALIDATION_39@
        + quoted(INTERNAL_SCHEMA@, '"')
        + REGISTRY_VALIDATION_40@
        + quoted(catalog, '"')
        + REGISTRY_VALIDATION_41@
        + quoted(INTERNAL_SCHEMA@, '"')
        + REGISTRY_VALIDATION_42@
        + quoted(catalog, '"')
        + REGISTRY_VALIDATION_43@
        + quoted(INTERNAL_SCHEMA@, '"')
        + REGISTRY_VALIDATION_44@
        + quoted(catalog, '"')
        + REGISTRY_VALIDATION_45@
        + quoted(INTERNAL_SCHEMA@, '"')
        + REGISTRY_VALIDATION_46@
        + quoted(catalog, '"')
        + REGISTRY_VALIDATION_47@
        + quoted(INTERNAL_SCHEMA@, '"')
        + REGISTRY_VALIDATION_48@
        + quoted(catalog, '"')
        + REGISTRY_VALIDATION_49@
        + quoted(INTERNAL_SCHEMA@, '"')
        + REGISTRY_VALIDATION_50@
        + quoted(catalog, '"')
        + REGISTRY_VALIDATION_51@
        + quoted(INTERNAL_SCHEMA@, '"')
        + REGISTRY_VALIDATION_52@
        + decimal(DYNAMIC_OBJECT_OID_START as nat)
        + REGISTRY_VALIDATION_53@
        + quoted(catalog, '"')
        + REGISTRY_VALIDATION_54@
        + quoted(INTERNAL_SCHEMA@, '"')
        + REGISTRY_VALIDATION_55@
        + quoted(catalog, '"')
        + REGISTRY_VALIDATION_56@
        + quoted(INTERNAL_SCHEMA@, '"')
        + REGISTRY_VALIDATION_57@
        + quoted(catalog, '"')
        + REGISTRY_VALIDATION_58@
        + quoted(INTERNAL_SCHEMA@, '"')
        + REGISTRY_VALIDATION_59@
        + decimal((DYNAMIC_OBJECT_OID_START - 1) as nat)
        + REGISTRY_VALIDATION_60@
}

/// Return a query that fails inside DuckDB unless the unconstrained DuckLake
/// registry satisfies all uniqueness, allocation, and reference invariants.
pub fn ducklake_identity_registry_validation_sql(catalog: &str) -> (sql: String)
    ensures
        sql@ == registry_validation_text(catalog@),
{
    let mut out = String::from_str(REGISTRY_VALIDATION_0);
    push_quoted_identifier(&mut out, catalog);
    out.append(REGISTRY_VALIDATION_1);
    push_quoted_identifier(&mut out, INTERNAL_SCHEMA);
    out.append(REGISTRY_VALIDATION_2);
    push_quoted_identifier(&mut out, catalog);
    out.append(REGISTRY_VALIDATION_3);
    push_quoted_identifier(&mut out, INTERNAL_SCHEMA);
    out.append(REGISTRY_VALIDATION_4);
    push_decimal(&mut out, DYNAMIC_OBJECT_OID_START as u64);
    out.append(REGISTRY_VALIDATION_5);
    push_quoted_identifier(&mut out, catalog);
    out.append(REGISTRY_VALIDATION_6);
    push_quoted_identifier(&mut out, INTERNAL_SCHEMA);
    out.append(REGISTRY_VALIDATION_7);
    push_quoted_identifier(&mut out, catalog);
    out.append(REGISTRY_VALIDATION_8);
    push_quoted_identifier(&mut out, INTERNAL_SCHEMA);
    out.append(REGISTRY_VALIDATION_9);
    push_quoted_identifier(&mut out, catalog);
    out.append(REGISTRY_VALIDATION_10);
    push_quoted_identifier(&mut out, INTERNAL_SCHEMA);
    out.append(REGISTRY_VALIDATION_11);
    push_quoted_identifier(&mut out, catalog);
    out.append(REGISTRY_VALIDATION_12);
    push_quoted_identifier(&mut out, INTERNAL_SCHEMA);
    out.append(REGISTRY_VALIDATION_13);
    push_quoted_identifier(&mut out, catalog);
    out.append(REGISTRY_VALIDATION_14);
    push_quoted_identifier(&mut out, INTERNAL_SCHEMA);
    out.append(REGISTRY_VALIDATION_15);
    push_quoted_identifier(&mut out, catalog);
    out.append(REGISTRY_VALIDATION_16);
    push_quoted_identifier(&mut out, INTERNAL_SCHEMA);
    out.append(REGISTRY_VALIDATION_17);
    push_quoted_identifier(&mut out, catalog);
    out.append(REGISTRY_VALIDATION_18);
    push_quoted_identifier(&mut out, INTERNAL_SCHEMA);
    out.append(REGISTRY_VALIDATION_19);
    push_quoted_identifier(&mut out, catalog);
    out.append(REGISTRY_VALIDATION_20);
    push_quoted_identifier(&mut out, INTERNAL_SCHEMA);
    out.append(REGISTRY_VALIDATION_21);
    push_quoted_identifier(&mut out, catalog);
    out.append(REGISTRY_VALIDATION_22);
    push_quoted_identifier(&mut out, INTERNAL_SCHEMA);
    out.append(REGISTRY_VALIDATION_23);
    push_quoted_identifier(&mut out, catalog);
    out.append(REGISTRY_VALIDATION_24);
    push_quoted_identifier(&mut out, INTERNAL_SCHEMA);
    out.append(REGISTRY_VALIDATION_25);
    push_decimal(&mut out, PUBLIC_NAMESPACE_OID as u64);
    out.append(REGISTRY_VALIDATION_26);
    push_decimal(&mut out, DYNAMIC_OBJECT_OID_START as u64);
    out.append(REGISTRY_VALIDATION_27);
    push_quoted_identifier(&mut out, catalog);
    out.append(REGISTRY_VALIDATION_28);
    push_quoted_identifier(&mut out, INTERNAL_SCHEMA);
    out.append(REGISTRY_VALIDATION_29);
    push_decimal(&mut out, DYNAMIC_OBJECT_OID_START as u64);
    out.append(REGISTRY_VALIDATION_30);
    push_decimal(&mut out, DYNAMIC_OBJECT_OID_START as u64);
    out.append(REGISTRY_VALIDATION_31);
    push_quoted_identifier(&mut out, catalog);
    out.append(REGISTRY_VALIDATION_32);
    push_quoted_identifier(&mut out, INTERNAL_SCHEMA);
    out.append(REGISTRY_VALIDATION_33);
    push_decimal(&mut out, DYNAMIC_OBJECT_OID_START as u64);
    out.append(REGISTRY_VALIDATION_34);
    push_quoted_identifier(&mut out, catalog);
    out.append(REGISTRY_VALIDATION_35);
    push_quoted_identifier(&mut out, INTERNAL_SCHEMA);
    out.append(REGISTRY_VALIDATION_36);
    push_quoted_identifier(&mut out, catalog);
    out.append(REGISTRY_VALIDATION_37);
    push_quoted_identifier(&mut out, INTERNAL_SCHEMA);
    out.append(REGISTRY_VALIDATION_38);
    push_quoted_identifier(&mut out, catalog);
    out.append(REGISTRY_VALIDATION_39);
    push_quoted_identifier(&mut out, INTERNAL_SCHEMA);
    out.append(REGISTRY_VALIDATION_40);
    push_quoted_identifier(&mut out, catalog);
    out.append(REGISTRY_VALIDATION_41);
    push_quoted_identifier(&mut out, INTERNAL_SCHEMA);
    out.append(REGISTRY_VALIDATION_42);
    push_quoted_identifier(&mut out, catalog);
    out.append(REGISTRY_VALIDATION_43);
    push_quoted_identifier(&mut out, INTERNAL_SCHEMA);
    out.append(REGISTRY_VALIDATION_44);
    push_quoted_identifier(&mut out, catalog);
    out.append(REGISTRY_VALIDATION_45);
    push_quoted_identifier(&mut out, INTERNAL_SCHEMA);
    out.append(REGISTRY_VALIDATION_46);
    push_quoted_identifier(&mut out, catalog);
    out.append(REGISTRY_VALIDATION_47);
    push_quoted_identifier(&mut out, INTERNAL_SCHEMA);
    out.append(REGISTRY_VALIDATION_48);
    push_quoted_identifier(&mut out, catalog);
    out.append(REGISTRY_VALIDATION_49);
    push_quoted_identifier(&mut out, INTERNAL_SCHEMA);
    out.append(REGISTRY_VALIDATION_50);
    push_quoted_identifier(&mut out, catalog);
    out.append(REGISTRY_VALIDATION_51);
    push_quoted_identifier(&mut out, INTERNAL_SCHEMA);
    out.append(REGISTRY_VALIDATION_52);
    push_decimal(&mut out, DYNAMIC_OBJECT_OID_START as u64);
    out.append(REGISTRY_VALIDATION_53);
    push_quoted_identifier(&mut out, catalog);
    out.append(REGISTRY_VALIDATION_54);
    push_quoted_identifier(&mut out, INTERNAL_SCHEMA);
    out.append(REGISTRY_VALIDATION_55);
    push_quoted_identifier(&mut out, catalog);
    out.append(REGISTRY_VALIDATION_56);
    push_quoted_identifier(&mut out, INTERNAL_SCHEMA);
    out.append(REGISTRY_VALIDATION_57);
    push_quoted_identifier(&mut out, catalog);
    out.append(REGISTRY_VALIDATION_58);
    push_quoted_identifier(&mut out, INTERNAL_SCHEMA);
    out.append(REGISTRY_VALIDATION_59);
    push_decimal(&mut out, (DYNAMIC_OBJECT_OID_START - 1) as u64);
    out.append(REGISTRY_VALIDATION_60);
    out
}

pub const REGISTRY_COVERAGE_0: &'static str = "SELECT CASE WHEN NOT EXISTS (\n\
           SELECT 1\n\
           FROM ducklake_column_info(";
pub const REGISTRY_COVERAGE_1: &'static str = ") i\n\
           LEFT JOIN ";
pub const REGISTRY_COVERAGE_2: &'static str = ".";
pub const REGISTRY_COVERAGE_3: &'static str = ".namespace_oid n USING (schema_uuid)\n\
           LEFT JOIN ";
pub const REGISTRY_COVERAGE_4: &'static str = ".";
pub const REGISTRY_COVERAGE_5: &'static str = ".relation_oid r\n\
             ON r.table_uuid = i.table_uuid\n\
           LEFT JOIN ";
pub const REGISTRY_COVERAGE_6: &'static str = ".";
pub const REGISTRY_COVERAGE_7: &'static str = ".attribute_number a\n\
             ON a.table_uuid = i.table_uuid AND a.column_id = i.column_id\n\
           WHERE i.schema_name <> ";
pub const REGISTRY_COVERAGE_8: &'static str = "\n\
             AND (i.schema_name IN ('public', 'pg_catalog', 'information_schema',\n\
                                    'quackgis_pg_catalog')\n\
                  OR (i.schema_name = 'main' AND lower(i.table_name) IN\n\
                      ('geometry', 'geography', '_geometry', '_geography',\n\
                       'geometry_columns', 'spatial_ref_sys'))\n\
                  OR n.oid IS NULL OR r.oid IS NULL OR a.attnum IS NULL\n\
                  OR r.namespace_oid <> n.oid\n\
                  OR (i.schema_name = 'main' AND n.oid <> ";
pub const REGISTRY_COVERAGE_9: &'static str = ")\n\
                  OR (i.schema_name <> 'main' AND n.oid = ";
pub const REGISTRY_COVERAGE_10: &'static str = "))\n\
         ) THEN true\n\
         ELSE error('QuackGIS catalog identity registry does not cover the committed snapshot')\n\
         END AS registry_coverage_valid";

/// The query that fails unless the registry of `catalog` covers its committed snapshot.
pub open spec fn registry_coverage_text(catalog: Seq<char>) -> Seq<char> {
    REGISTRY_COVERAGE_0@
        + quoted(catalog, '\'')
        + REGISTRY_COVERAGE_1@
        + quoted(catalog, '"')
        + REGISTRY_COVERAGE_2@
        + quoted(INTERNAL_SCHEMA@, '"')
        + REGISTRY_COVERAGE_3@
        + quoted(catalog, '"')
        + REGISTRY_COVERAGE_4@
        + quoted(INTERNAL_SCHEMA@, '"')
        + REGISTRY_COVERAGE_5@
        + quoted(catalog, '"')
        + REGISTRY_COVERAGE_6@
        + quoted(INTERNAL_SCHEMA@, '"')
        + REGISTRY_COVERAGE_7@
        + quoted(INTERNAL_SCHEMA@, '\'')
        + REGISTRY_COVERAGE_8@
        + decimal(PUBLIC_NAMESPACE_OID as nat)
        + REGISTRY_COVERAGE_9@
        + decimal(PUBLIC_NAMESPACE_OID as nat)
        + REGISTRY_COVERAGE_10@
}

/// Validate that every identity in the current committed DuckLake snapshot has
/// a complete, namespace-consistent registry mapping.
pub fn ducklake_identity_registry_coverage_sql(catalog: &str) -> (sql: String)
    ensures
        sql@ == registry_coverage_text(catalog@),
{
    let mut out = String::from_str(REGISTRY_COVERAGE_0);
    push_quoted_literal(&mut out, catalog);
    out.append(REGISTRY_COVERAGE_1);
    push_quoted_identifier(&mut out, catalog);
    out.append(REGISTRY_COVERAGE_2);
    push_quoted_identifier(&mut out, INTERNAL_SCHEMA);
    out.append(REGISTRY_COVERAGE_3);
    push_quoted_identifier(&mut out, catalog);
    out.append(REGISTRY_COVERAGE_4);
    push_quoted_identifier(&mut out, INTERNAL_SCHEMA);
    out.append(REGISTRY_COVERAGE_5);
    push_quoted_identifier(&mut out, catalog);
    out.append(REGISTRY_COVERAGE_6);
    push_quoted_identifier(&mut out, INTERNAL_SCHEMA);
    out.append(REGISTRY_COVERAGE_7);
    push_quoted_literal(&mut out, INTERNAL_SCHEMA);
    out.append(REGISTRY_COVERAGE_8);
    push_decimal(&mut out, PUBLIC_NAMESPACE_OID as u64);
    out.append(REGISTRY_COVERAGE_9);
    push_decimal(&mut out, PUBLIC_NAMESPACE_OID as u64);
    out.append(REGISTRY_COVERAGE_10);
    out
}

/// The column names under which a binary column holds geometry, compared
/// in lowercase, as the information schema reports them.
pub open spec fn is_spatial_column_name(name: Seq<char>) -> bool {
    let lower = name.map_values(|c: char| crate::pg_names::ascii_lower_char(c));
    lower == "geog"@ || lower == "geography"@ || lower == "the_geog"@ || lower == "geom"@ || lower == "geometry"@ || lower == "the_geom"@ || lower == "wkb_geometry"@ || lower == "wkb_geom"@ || lower == "geom_wkb"@ || lower == "shape"@ || lower == "footprint"@ || lower == "way"@
}

/// Whether a binary column of this name holds geometry.
pub fn spatial_column_name(name: &str) -> (r: bool)
    ensures
        r == is_spatial_column_name(name@),
{
    let lower = crate::pg_names::ascii_lowercase(name);
    assert(lower@ =~= name@.map_values(|c: char| crate::pg_names::ascii_lower_char(c)));
    let t = lower.as_str();
    text_eq(t, "geog") || text_eq(t, "geography") || text_eq(t, "the_geog") || text_eq(t, "geom") || text_eq(t, "geometry") || text_eq(t, "the_geom") || text_eq(t, "wkb_geometry") || text_eq(t, "wkb_geom") || text_eq(t, "geom_wkb") || text_eq(t, "shape") || text_eq(t, "footprint") || text_eq(t, "way")
}

} // verus!
