use quackgis_server::execution_control::{AdmissionError, OperationClass};
use quackgis_server::pg_names::{
    admission_error, canonical_pg_identifier, maintained_information_schema_table, maintained_pg_catalog_table,
    pg_identifier_matches, session_identity_name, supported_show_variable, unsupported_spatial_function, SessionVariable, failed_transaction_error, normalize_sql, catalog_column_names, catalog_columns, identity_catalog_relation, information_schema_macro,
    information_schema_relation, parse_pg_identifier, parse_pg_qualified_name, parse_pg_table_name,
    role_privilege, skip_pg_name_whitespace, table_privilege, valid_privilege_name, MaintainedPgFunction,
    MaintenanceCommand, PgTypeHint, PrivilegeInquiryFunction, RoleCommand, RolePrivilege, StatementKind, TablePrivilege,
};
use quackgis_server::sql_text::{join_strings, quote_identifier, quote_literal, starts_with_text, text_eq};

#[test]
fn quoting_doubles_embedded_quotes() {
    assert_eq!(quote_identifier("points"), "\"points\"");
    assert_eq!(quote_identifier("a\"b"), "\"a\"\"b\"");
    assert_eq!(quote_literal("it's"), "'it''s'");
    assert_eq!(quote_literal(""), "''");
    assert_eq!(join_strings(&vec!["a".to_string(), "b".to_string(), "c".to_string()], ", "), "a, b, c");
    assert_eq!(join_strings(&vec![], ", "), "");
    assert!(starts_with_text("/metrics?x", "/metrics?"));
    assert!(!starts_with_text("/m", "/metrics"));
    assert!(text_eq("abc", "abc"));
    assert!(!text_eq("abc", "abd"));
}

#[test]
fn identifiers_fold_case_unless_quoted() {
    assert_eq!(parse_pg_qualified_name("Public.Points"), Some(vec!["public".to_string(), "points".to_string()]));
    assert_eq!(
        parse_pg_qualified_name("  \"My Schema\" . \"Ta\"\"ble\"  "),
        Some(vec!["My Schema".to_string(), "Ta\"ble".to_string()])
    );
    assert_eq!(parse_pg_qualified_name("a.b.c"), None);
    assert_eq!(parse_pg_qualified_name("\"\""), None);
    assert_eq!(parse_pg_qualified_name("\"open"), None);
    assert_eq!(parse_pg_qualified_name("1abc"), None);
    assert_eq!(parse_pg_qualified_name("a$1_"), Some(vec!["a$1_".to_string()]));
    assert_eq!(parse_pg_qualified_name("a b"), None);
    assert_eq!(parse_pg_table_name("points"), Some(("main".to_string(), "points".to_string())));
    assert_eq!(parse_pg_table_name("PUBLIC.points"), Some(("main".to_string(), "points".to_string())));
    assert_eq!(parse_pg_table_name("\"Public\".points"), Some(("main".to_string(), "points".to_string())));
    assert_eq!(parse_pg_table_name("other.points"), Some(("other".to_string(), "points".to_string())));
    assert_eq!(parse_pg_identifier("x.Y", 2), Some(("y".to_string(), 3)));
    assert_eq!(skip_pg_name_whitespace("a  .b", 1), 3);
}

#[test]
fn canonical_identifiers_quote_only_when_needed() {
    assert_eq!(canonical_pg_identifier("points_2$"), "points_2$");
    assert_eq!(canonical_pg_identifier("Points"), "\"Points\"");
    assert_eq!(canonical_pg_identifier("2d"), "\"2d\"");
    assert_eq!(canonical_pg_identifier("a\"b"), "\"a\"\"b\"");
    assert_eq!(canonical_pg_identifier(""), "\"\"");
    for name in ["points", "Mixed Case", "a\"b", "_x$"] {
        assert_eq!(parse_pg_qualified_name(&canonical_pg_identifier(name)), Some(vec![name.to_string()]));
    }
}

#[test]
fn privilege_names_are_exact_and_upper_case() {
    assert!(valid_privilege_name(PrivilegeInquiryFunction::Schema, "USAGE"));
    assert!(!valid_privilege_name(PrivilegeInquiryFunction::Schema, "usage"));
    assert!(valid_privilege_name(PrivilegeInquiryFunction::Table, "TRUNCATE"));
    assert!(!valid_privilege_name(PrivilegeInquiryFunction::Column, "DELETE"));
    assert!(valid_privilege_name(PrivilegeInquiryFunction::Role, "SET"));
    assert_eq!(table_privilege("MAINTAIN"), Some(TablePrivilege::Maintain));
    assert_eq!(table_privilege("TRUNCATE"), None);
    assert_eq!(role_privilege("SET"), Some(RolePrivilege::SetRole));
    assert_eq!(role_privilege("member"), None);
}

#[test]
fn maintained_catalog_names() {
    assert!(information_schema_relation("columns"));
    assert!(!information_schema_relation("views"));
    assert_eq!(information_schema_macro("tables"), "quackgis_information_schema_tables");
    assert!(identity_catalog_relation("pg_class"));
    assert!(!identity_catalog_relation("pg_type"));
    assert_eq!(MaintainedPgFunction::SchemaEpoch.private_name(), "quackgis_pg_schema_epoch");
    assert_eq!(MaintainedPgFunction::FormatType.argument_count(), 2);
    assert!(MaintainedPgFunction::Database.accepts_argument_count(0));
    assert!(!MaintainedPgFunction::SchemaEpoch.accepts_argument_count(1));
    assert_eq!(catalog_column_names("pg_proc"), vec!["oid", "proname", "pronamespace"]);
    assert!(catalog_column_names("no_such_catalog").is_empty());
}

#[test]
fn statement_kinds_map_to_admission_classes() {
    assert_eq!(StatementKind::Read.operation_class(), OperationClass::Reader);
    assert_eq!(StatementKind::Write("UPDATE").operation_class(), OperationClass::Writer);
    assert_eq!(StatementKind::Maintenance.operation_class(), OperationClass::Maintenance);
    assert_eq!(RoleCommand::SetRole { role: Some("api_reader".to_string()), local: true }.tag(), "SET");
    assert_eq!(RoleCommand::Reset.tag(), "RESET");
    let target = MaintenanceCommand { schema: "main".to_string(), table: "points".to_string() };
    assert_eq!(target.target_label(), "main.points");
}

#[test]
fn catalog_columns_carry_type_hints() {
    assert_eq!(
        catalog_columns("pg_index"),
        vec![("indexrelid", PgTypeHint::Oid), ("indrelid", PgTypeHint::Oid), ("indkey", PgTypeHint::Int2Vector)]
    );
    assert_eq!(catalog_columns("role_column_grants"), catalog_columns("column_privileges"));
    assert_eq!(catalog_columns("pg_roles"), vec![("rolname", PgTypeHint::Name), ("oid", PgTypeHint::Oid)]);
    assert!(catalog_columns("pg_tables").is_empty());
    assert_eq!(MaintainedPgFunction::Schemas.result_hint(), Some(PgTypeHint::NameArray));
    assert_eq!(MaintainedPgFunction::SchemaEpoch.result_hint(), None);
    assert_eq!(MaintainedPgFunction::GetIndexDef.result_hint(), Some(PgTypeHint::Text));
    assert_eq!(MaintainedPgFunction::ToRegrole.result_hint(), Some(PgTypeHint::Regrole));
}

#[test]
fn statement_text_is_trimmed_once_of_its_semicolon() {
    assert_eq!(normalize_sql("  SELECT 1 ;  ").unwrap(), "SELECT 1");
    assert_eq!(normalize_sql("SELECT 1;;").unwrap(), "SELECT 1;");
    assert_eq!(normalize_sql("COMMIT").unwrap(), "COMMIT");
    assert_eq!(normalize_sql(";").unwrap(), "");
    let e = normalize_sql(" \n\t ").unwrap_err();
    assert_eq!(e.sqlstate, "42601");
    assert_eq!(e.message, "SQL statement must not be empty");
    assert_eq!(admission_error(AdmissionError::QueueFull).sqlstate, "53400");
    assert_eq!(admission_error(AdmissionError::QueueTimeout).message, "canceling statement due to queue timeout");
    assert_eq!(admission_error(AdmissionError::Closed).sqlstate, "57P01");
    assert_eq!(failed_transaction_error().sqlstate, "25P02");
}

#[test]
fn policy_vocabularies_match_identifiers_by_quoting() {
    assert!(pg_identifier_matches("PG_CLASS", false, "pg_class"));
    assert!(!pg_identifier_matches("PG_CLASS", true, "pg_class"));
    assert_eq!(maintained_pg_catalog_table("Pg_Type", false), Some("pg_type"));
    assert_eq!(maintained_pg_catalog_table("Pg_Type", true), None);
    assert_eq!(maintained_pg_catalog_table("pg_tables", false), None);
    assert_eq!(maintained_information_schema_table("INFORMATION_SCHEMA", false, "Columns", false), Some("columns"));
    assert_eq!(maintained_information_schema_table("information_schema", false, "views", false), None);
    assert_eq!(maintained_information_schema_table("Information_Schema", true, "tables", false), None);
    assert_eq!(supported_show_variable("Server_Version_Num"), Some(SessionVariable::ServerVersionNum));
    assert_eq!(supported_show_variable("TimeZone"), None);
    assert_eq!(unsupported_spatial_function("st_setsrid", 2), Some("ST_SetSRID"));
    assert_eq!(unsupported_spatial_function("ST_MakeEnvelope", 5), Some("ST_MakeEnvelope(..., SRID)"));
    assert_eq!(unsupported_spatial_function("ST_MakeEnvelope", 4), None);
    assert_eq!(unsupported_spatial_function("ST_Dimension", 1), None);
    assert_eq!(session_identity_name("CURRENT_USER", false), Some("current_user"));
    assert_eq!(session_identity_name("User", true), None);
    assert_eq!(session_identity_name("user", true), Some("user"));
}
