use std::collections::HashSet;

use quackgis_server::postgis_compat::{
    common_spatial_refs, explicit_user_index, privilege_object_index, privilege_parts, readonly_allows, PrivilegeObject,
};
use quackgis_server::postgres_compat::{
    duckdb_catalog_bootstrap_sql, duckdb_identity_catalog_bootstrap_sql, duckdb_information_schema_data_type_sql,
    duckdb_information_schema_udt_name_sql, duckdb_information_schema_udt_schema_sql, duckdb_role_structural_catalog_sql, ducklake_identity_registry_bootstrap_sql,
    ducklake_identity_registry_coverage_sql, ducklake_identity_registry_reconcile_sql,
    ducklake_identity_registry_validation_sql, ducklake_security_epoch_prepare_sql,
    ducklake_security_epoch_reconcile_sql, identity_type_rows, proc_rows, type_rows, BOOTSTRAP_OWNER_OID,
    DYNAMIC_OBJECT_OID_START, GEOGRAPHY_ARRAY_OID, GEOGRAPHY_OID, GEOMETRY_ARRAY_OID, GEOMETRY_OID,
    PG_CATALOG_NAMESPACE_OID, POSTGIS_GEOS_VERSION_PROC_OID, POSTGIS_LIB_VERSION_PROC_OID,
    POSTGIS_PROJ_VERSION_PROC_OID, POSTGIS_VERSION_PROC_OID, POSTGRESQL_COMPATIBILITY_VERSION_NUM,
    PUBLIC_NAMESPACE_OID, QUACKGIS_DATABASE_OID, spatial_column_name,
};

#[test]
fn bootstrap_contains_consistent_profile_and_qgis_type_identity() {
    let sql = duckdb_catalog_bootstrap_sql();
    for value in [
        GEOMETRY_OID,
        GEOGRAPHY_OID,
        PG_CATALOG_NAMESPACE_OID,
        PUBLIC_NAMESPACE_OID,
        BOOTSTRAP_OWNER_OID,
        QUACKGIS_DATABASE_OID,
    ] {
        assert!(sql.contains(&value.to_string()), "missing OID {value}");
    }
    let rows = type_rows();
    assert_eq!(rows.len(), 28);
    let oids = rows.iter().map(|row| row.oid).collect::<HashSet<_>>();
    assert_eq!(oids.len(), rows.len());
    let reserved_compatibility_oids = [
        GEOMETRY_OID,
        GEOGRAPHY_OID,
        GEOMETRY_ARRAY_OID,
        GEOGRAPHY_ARRAY_OID,
        POSTGIS_LIB_VERSION_PROC_OID,
        POSTGIS_VERSION_PROC_OID,
        POSTGIS_GEOS_VERSION_PROC_OID,
        POSTGIS_PROJ_VERSION_PROC_OID,
    ];
    assert_eq!(reserved_compatibility_oids.into_iter().collect::<HashSet<_>>().len(), reserved_compatibility_oids.len());
    assert!(reserved_compatibility_oids.iter().all(|oid| *oid < DYNAMIC_OBJECT_OID_START));
    let procs = proc_rows();
    assert_eq!(procs.len(), 4);
    for (oid, name) in procs {
        assert!(oid < DYNAMIC_OBJECT_OID_START);
        assert!(sql.contains(name));
    }
    for row in rows.iter() {
        for reference in [row.element, row.array] {
            assert!(reference == 0 || oids.contains(&reference));
        }
        assert!(matches!(row.collation, 0 | 100 | 950));
    }
    assert!(sql.contains("quackgis_pg_catalog.pg_namespace"));
    assert!(sql.contains("quackgis_pg_catalog.pg_database"));
    assert!(sql.contains("quackgis_pg_catalog.pg_proc"));
    assert!(sql.contains("quackgis_pg_catalog.pg_type"));
    assert!(sql.contains("quackgis_pg_catalog.pg_range"));
    assert!(sql.contains("quackgis_pg_catalog.pg_collation"));
    assert!(sql.contains("quackgis_pg_catalog.pg_roles"));
    assert!(sql.contains("quackgis_owner"));
    assert!(sql.contains("quackgis_current_database"));
    assert!(sql.contains("quackgis_current_schema"));
    assert!(sql.contains("quackgis_current_schemas"));
    assert!(!sql.contains("CREATE TABLE"));
}

#[test]
fn compatibility_version_matches_the_tracked_profile() {
    assert_eq!(POSTGRESQL_COMPATIBILITY_VERSION_NUM, "180004");
}

#[test]
fn identity_registry_sql_is_reserved_and_explicitly_validated() {
    let bootstrap = ducklake_identity_registry_bootstrap_sql("quackgis");
    assert!(bootstrap.contains("\"quackgis\".\"_quackgis\".catalog_state"));
    assert!(bootstrap.contains("100000::UINTEGER"));
    assert!(bootstrap.contains("format_version USMALLINT"));
    assert!(bootstrap.contains("security_epoch UBIGINT"));
    assert!(bootstrap.contains("format_version = 2"));
    assert!(!bootstrap.contains("PRIMARY KEY"));
    assert!(!bootstrap.contains("UNIQUE"));

    let reconcile = ducklake_identity_registry_reconcile_sql("quackgis");
    assert!(reconcile.contains("ducklake_column_info('quackgis')"));
    assert!(reconcile.contains("schema_name <> '_quackgis'"));
    assert!(reconcile.contains("2200::UINTEGER"));
    assert!(reconcile.contains("identity_fingerprint"));

    let security = ducklake_security_epoch_reconcile_sql("quackgis", "fingerprint");
    assert!(security.contains("security_epoch = security_epoch + 1"));
    assert!(security.contains("security_fingerprint IS DISTINCT FROM 'fingerprint'"));
    let prepare = ducklake_security_epoch_prepare_sql("quackgis", "fingerprint");
    assert!(prepare.contains("security_fingerprint = NULL"));
    assert!(prepare.contains("security_fingerprint IS DISTINCT FROM 'fingerprint'"));

    let validation = ducklake_identity_registry_validation_sql("quackgis");
    assert!(validation.contains("registry is inconsistent"));
    assert!(validation.contains("GROUP BY table_uuid, attnum"));
    assert!(validation.contains("oid < 100000"));

    let coverage = ducklake_identity_registry_coverage_sql("quackgis");
    assert!(coverage.contains("ducklake_column_info('quackgis')"));
    assert!(coverage.contains("does not cover the committed snapshot"));
    assert!(coverage.contains("r.namespace_oid <> n.oid"));
    assert!(coverage.contains("'public', 'pg_catalog', 'information_schema'"));
    assert!(coverage.contains("'geometry_columns', 'spatial_ref_sys'"));

    let catalogs = duckdb_identity_catalog_bootstrap_sql("quackgis");
    for relation in [
        "_current_columns",
        "pg_namespace",
        "pg_type",
        "pg_class",
        "pg_attribute",
        "pg_attrdef",
        "pg_description",
        "pg_constraint",
        "pg_index",
        "geometry_columns",
        "spatial_ref_sys",
    ] {
        assert!(catalogs.contains(&format!("quackgis_pg_catalog.{relation}")), "missing identity catalog {relation}");
    }
    assert!(catalogs.contains("PostgreSQL catalog identity snapshot is not reconciled"));
    assert!(catalogs.contains("quackgis_pg_schema_epoch"));
    assert!(catalogs.contains("quackgis_pg_security_epoch"));
    assert!(catalogs.contains("unsupported DuckLake column type"));
    assert!(catalogs.contains("row_type_oid"));
    assert!(catalogs.contains("CAST(max(columns.attnum) AS SMALLINT) AS relnatts"));
    assert!(catalogs.contains("LEFT JOIN quackgis_pg_catalog.pg_table_owners owner"));
    assert!(catalogs.contains("coalesce(max(owner.role_oid), 10::UINTEGER) AS relowner"));
    assert!(catalogs.contains("is_nullable = 'NO' AS attnotnull"));
    assert!(catalogs.contains("false AS attisdropped"));
    assert_eq!(identity_type_rows().len(), 31);
    assert!(catalogs.contains("quackgis_pg_to_regclass"));
    assert!(catalogs.contains("quackgis_pg_to_regtype"));
    assert!(catalogs.contains("quackgis_pg_format_type"));
    assert!(catalogs.contains("quackgis_pg_get_expr"));
    assert!(catalogs.contains("quackgis_pg_col_description"));
    assert!(catalogs.contains("quackgis_pg_obj_description"));
    assert!(catalogs.contains("quackgis_pg_get_constraintdef"));
    assert!(catalogs.contains("quackgis_pg_get_indexdef"));
    assert!(catalogs.contains("column_default := column_default"));
    assert!(catalogs.contains("data_type := data_type"));
    assert!(catalogs.contains("WHEN data_type = 'GEOMETRY' THEN 90001"));
    assert!(catalogs.contains("not_null_constraint_oid"));
}

#[test]
fn catalog_names_are_quoted_into_the_sql() {
    let bootstrap = ducklake_identity_registry_bootstrap_sql("we\"ird");
    assert!(bootstrap.contains("\"we\"\"ird\".\"_quackgis\".catalog_state"));
    let security = ducklake_security_epoch_reconcile_sql("quackgis", "it's");
    assert!(security.contains("IS DISTINCT FROM 'it''s'"));
    let reconcile = ducklake_identity_registry_reconcile_sql("o'brien");
    assert!(reconcile.contains("ducklake_column_info('o''brien')"));
}

#[test]
fn identity_type_rows_extend_the_baseline_without_clashes() {
    let base = type_rows().iter().map(|row| row.oid).collect::<HashSet<_>>();
    let more = identity_type_rows();
    assert!(more.iter().all(|row| !base.contains(&row.oid)));
    let all = base.len() + more.iter().map(|row| row.oid).collect::<HashSet<_>>().len();
    assert_eq!(all, 59);
}

#[test]
fn common_spatial_refs_cover_the_usual_systems() {
    let refs = common_spatial_refs();
    assert_eq!(refs.len(), 4);
    assert!(refs.iter().any(|r| r.0 == 4326 && r.1 == "EPSG"));
    assert!(refs.iter().any(|r| r.0 == 3857 && r.4.contains("+proj=merc")));
}

#[test]
fn read_only_privileges_are_exactly_the_read_privilege() {
    assert_eq!(privilege_parts(" select, Usage\tconnect ,,"), vec!["SELECT", "USAGE", "CONNECT"]);
    assert!(privilege_parts(" , ").is_empty());
    assert!(readonly_allows(PrivilegeObject::Table, "select"));
    assert!(readonly_allows(PrivilegeObject::Column, "SELECT, select"));
    assert!(!readonly_allows(PrivilegeObject::Table, "select, insert"));
    assert!(!readonly_allows(PrivilegeObject::Table, "select with grant option"));
    assert!(!readonly_allows(PrivilegeObject::Table, "SELECTgrant"));
    assert!(!readonly_allows(PrivilegeObject::Table, ""));
    assert!(readonly_allows(PrivilegeObject::Database, "connect"));
    assert!(!readonly_allows(PrivilegeObject::Database, "select"));
    assert!(readonly_allows(PrivilegeObject::Schema, "USAGE"));
    assert_eq!(explicit_user_index(PrivilegeObject::Column, 4), Some(0));
    assert_eq!(explicit_user_index(PrivilegeObject::Column, 3), None);
    assert_eq!(explicit_user_index(PrivilegeObject::Schema, 3), Some(0));
    assert_eq!(privilege_object_index(PrivilegeObject::Table, 2), Some(0));
    assert_eq!(privilege_object_index(PrivilegeObject::Table, 3), Some(1));
    assert_eq!(privilege_object_index(PrivilegeObject::Schema, 3), None);
}

#[test]
fn information_schema_type_expressions_cover_spatial_columns() {
    let data_type = duckdb_information_schema_data_type_sql();
    assert!(data_type.contains("WHEN c.data_type = 'GEOMETRY' THEN 'USER-DEFINED'"));
    assert!(data_type.contains("unsupported DuckLake column type in PostgreSQL information schema"));
    assert!(duckdb_information_schema_udt_schema_sql().contains("THEN 'public' ELSE 'pg_catalog' END"));
    assert!(duckdb_information_schema_udt_name_sql().starts_with("CASE"));
    assert!(duckdb_role_structural_catalog_sql().contains("quackgis_pg_visible_relations"));
}

#[test]
fn spatial_column_names_are_matched_case_insensitively() {
    assert!(spatial_column_name("geom_wkb"));
    assert!(spatial_column_name("The_Geom"));
    assert!(spatial_column_name("WAY"));
    assert!(!spatial_column_name("geometry2"));
    assert!(!spatial_column_name("name"));
}
