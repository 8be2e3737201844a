//! PostgreSQL names and the fixed vocabularies of the statement policy:
//! which limit a statement kind runs under, the maintained catalog
//! functions and relations, privilege names, and the parsing and quoting of
//! PostgreSQL identifiers.
use vstd::prelude::*;

use crate::execution_control::{AdmissionError, OperationClass};
use crate::metrics::{is_unicode_whitespace, is_whitespace, skip_whitespace};
use crate::sql_text::{doubled, push_quoted_identifier, quoted, text_eq};

verus! {

/// What a validated statement does.
#[derive(Clone, Copy, Debug)]
pub enum StatementKind {
    Read,
    Write(&'static str),
    Begin { read_only: bool },
    Commit,
    Rollback,
    SessionSet,
    Role,
    RequestContext,
    Maintenance,
    Copy,
    SqlCursor,
}

/// The admission class a statement kind runs under.
pub open spec fn class_of(kind: StatementKind) -> OperationClass {
    match kind {
        StatementKind::Read | StatementKind::SessionSet | StatementKind::Role | StatementKind::RequestContext => {
            OperationClass::Reader
        },
        StatementKind::Maintenance => OperationClass::Maintenance,
        _ => OperationClass::Writer,
    }
}

impl StatementKind {
    pub fn operation_class(self) -> (c: OperationClass)
        ensures
            c == class_of(self),
    {
        match self {
            StatementKind::Read | StatementKind::SessionSet | StatementKind::Role | StatementKind::RequestContext => {
                OperationClass::Reader
            },
            StatementKind::Write(_) | StatementKind::Begin { .. } | StatementKind::Commit | StatementKind::Rollback
            | StatementKind::Copy | StatementKind::SqlCursor => OperationClass::Writer,
            StatementKind::Maintenance => OperationClass::Maintenance,
        }
    }
}

/// A role command of the session.
#[derive(Clone, Debug)]
pub enum RoleCommand {
    SetRole { role: Option<String>, local: bool },
    Reset,
}

impl RoleCommand {
    /// The command tag the client is answered with.
    pub fn tag(&self) -> (t: &'static str)
        ensures
            t@ == (match self {
                RoleCommand::SetRole { .. } => "SET"@,
                RoleCommand::Reset => "RESET"@,
            }),
    {
        match self {
            RoleCommand::SetRole { .. } => "SET",
            RoleCommand::Reset => "RESET",
        }
    }
}

/// The table a maintenance call targets.
#[derive(Clone, Debug)]
pub struct MaintenanceCommand {
    pub schema: String,
    pub table: String,
}

impl MaintenanceCommand {
    /// `schema.table`, as the target is reported.
    pub fn target_label(&self) -> (label: String)
        ensures
            label@ == self.schema@ + "."@ + self.table@,
    {
        let mut label = self.schema.clone();
        label.append(".");
        label.append(self.table.as_str());
        label
    }
}

/// The maintained `information_schema` relations.
pub open spec fn is_information_schema_relation(relation: Seq<char>) -> bool {
    relation == "schemata"@ || relation == "tables"@ || relation == "columns"@ || relation == "table_privileges"@
        || relation == "role_table_grants"@ || relation == "column_privileges"@ || relation
        == "role_column_grants"@
}

pub fn information_schema_relation(relation: &str) -> (r: bool)
    ensures
        r == is_information_schema_relation(relation@),
{
    text_eq(relation, "schemata") || text_eq(relation, "tables") || text_eq(relation, "columns") || text_eq(
        relation,
        "table_privileges",
    ) || text_eq(relation, "role_table_grants") || text_eq(relation, "column_privileges") || text_eq(
        relation,
        "role_column_grants",
    )
}

/// The role-aware table macro behind a maintained `information_schema`
/// relation.
pub open spec fn information_schema_macro_of(relation: Seq<char>) -> Seq<char> {
    if relation == "schemata"@ {
        "quackgis_information_schema_schemata"@
    } else if relation == "tables"@ {
        "quackgis_information_schema_tables"@
    } else if relation == "columns"@ {
        "quackgis_information_schema_columns"@
    } else if relation == "table_privileges"@ {
        "quackgis_information_schema_table_privileges"@
    } else if relation == "role_table_grants"@ {
        "quackgis_information_schema_role_table_grants"@
    } else if relation == "column_privileges"@ {
        "quackgis_information_schema_column_privileges"@
    } else {
        "quackgis_information_schema_role_column_grants"@
    }
}

pub fn information_schema_macro(relation: &str) -> (name: &'static str)
    requires
        is_information_schema_relation(relation@),
    ensures
        name@ == information_schema_macro_of(relation@),
{
    if text_eq(relation, "schemata") {
        "quackgis_information_schema_schemata"
    } else if text_eq(relation, "tables") {
        "quackgis_information_schema_tables"
    } else if text_eq(relation, "columns") {
        "quackgis_information_schema_columns"
    } else if text_eq(relation, "table_privileges") {
        "quackgis_information_schema_table_privileges"
    } else if text_eq(relation, "role_table_grants") {
        "quackgis_information_schema_role_table_grants"
    } else if text_eq(relation, "column_privileges") {
        "quackgis_information_schema_column_privileges"
    } else {
        "quackgis_information_schema_role_column_grants"
    }
}

/// The catalog relations that only exist with the identity registry.
pub open spec fn is_identity_catalog_relation(relation: Seq<char>) -> bool {
    relation == "pg_class"@ || relation == "pg_attribute"@ || relation == "pg_attrdef"@ || relation
        == "pg_description"@ || relation == "pg_constraint"@ || relation == "pg_index"@ || relation
        == "geometry_columns"@ || relation == "spatial_ref_sys"@
}

pub fn identity_catalog_relation(relation: &str) -> (r: bool)
    ensures
        r == is_identity_catalog_relation(relation@),
{
    text_eq(relation, "pg_class") || text_eq(relation, "pg_attribute") || text_eq(relation, "pg_attrdef")
        || text_eq(relation, "pg_description") || text_eq(relation, "pg_constraint") || text_eq(
        relation,
        "pg_index",
    ) || text_eq(relation, "geometry_columns") || text_eq(relation, "spatial_ref_sys")
}

/// PostgreSQL functions answered by maintained private functions.
#[derive(Clone, Copy, Debug, PartialEq, Eq, Structural)]
pub enum MaintainedPgFunction {
    Database,
    Schema,
    Schemas,
    IsInRecovery,
    Version,
    SchemaEpoch,
    SecurityEpoch,
    FormatType,
    GetExpr,
    ColDescription,
    ObjDescription,
    GetConstraintDef,
    GetIndexDef,
    ToRegclass,
    Regclass,
    ToRegtype,
    Regtype,
    ToRegnamespace,
    Regnamespace,
    ToRegrole,
    Regrole,
}

/// The private function that answers a maintained function.
pub open spec fn private_name_of(f: MaintainedPgFunction) -> Seq<char> {
    match f {
        MaintainedPgFunction::Database => "quackgis_current_database"@,
        MaintainedPgFunction::Schema => "quackgis_current_schema"@,
        MaintainedPgFunction::Schemas => "quackgis_current_schemas"@,
        MaintainedPgFunction::IsInRecovery => "quackgis_pg_is_in_recovery"@,
        MaintainedPgFunction::Version => "quackgis_pg_version"@,
        MaintainedPgFunction::SchemaEpoch => "quackgis_pg_schema_epoch"@,
        MaintainedPgFunction::SecurityEpoch => "quackgis_pg_security_epoch"@,
        MaintainedPgFunction::FormatType => "quackgis_pg_format_type"@,
        MaintainedPgFunction::GetExpr => "quackgis_pg_get_expr"@,
        MaintainedPgFunction::ColDescription => "quackgis_pg_col_description"@,
        MaintainedPgFunction::ObjDescription => "quackgis_pg_obj_description"@,
        MaintainedPgFunction::GetConstraintDef => "quackgis_pg_get_constraintdef"@,
        MaintainedPgFunction::GetIndexDef => "quackgis_pg_get_indexdef"@,
        MaintainedPgFunction::ToRegclass => "quackgis_pg_to_regclass"@,
        MaintainedPgFunction::Regclass => "quackgis_pg_regclass"@,
        MaintainedPgFunction::ToRegtype => "quackgis_pg_to_regtype"@,
        MaintainedPgFunction::Regtype => "quackgis_pg_regtype"@,
        MaintainedPgFunction::ToRegnamespace => "quackgis_pg_to_regnamespace"@,
        MaintainedPgFunction::Regnamespace => "quackgis_pg_regnamespace"@,
        MaintainedPgFunction::ToRegrole => "quackgis_pg_to_regrole"@,
        MaintainedPgFunction::Regrole => "quackgis_pg_regrole"@,
    }
}

/// The arguments a maintained function takes in its canonical form.
pub open spec fn argument_count_of(f: MaintainedPgFunction) -> usize {
    match f {
        MaintainedPgFunction::Database | MaintainedPgFunction::Schema | MaintainedPgFunction::IsInRecovery
        | MaintainedPgFunction::Version | MaintainedPgFunction::SchemaEpoch
        | MaintainedPgFunction::SecurityEpoch => 0,
        MaintainedPgFunction::FormatType | MaintainedPgFunction::GetExpr
        | MaintainedPgFunction::ColDescription => 2,
        _ => 1,
    }
}

impl MaintainedPgFunction {
    pub fn private_name(self) -> (name: &'static str)
        ensures
            name@ == private_name_of(self),
    {
        match self {
            MaintainedPgFunction::Database => "quackgis_current_database",
            MaintainedPgFunction::Schema => "quackgis_current_schema",
            MaintainedPgFunction::Schemas => "quackgis_current_schemas",
            MaintainedPgFunction::IsInRecovery => "quackgis_pg_is_in_recovery",
            MaintainedPgFunction::Version => "quackgis_pg_version",
            MaintainedPgFunction::SchemaEpoch => "quackgis_pg_schema_epoch",
            MaintainedPgFunction::SecurityEpoch => "quackgis_pg_security_epoch",
            MaintainedPgFunction::FormatType => "quackgis_pg_format_type",
            MaintainedPgFunction::GetExpr => "quackgis_pg_get_expr",
            MaintainedPgFunction::ColDescription => "quackgis_pg_col_description",
            MaintainedPgFunction::ObjDescription => "quackgis_pg_obj_description",
            MaintainedPgFunction::GetConstraintDef => "quackgis_pg_get_constraintdef",
            MaintainedPgFunction::GetIndexDef => "quackgis_pg_get_indexdef",
            MaintainedPgFunction::ToRegclass => "quackgis_pg_to_regclass",
            MaintainedPgFunction::Regclass => "quackgis_pg_regclass",
            MaintainedPgFunction::ToRegtype => "quackgis_pg_to_regtype",
            MaintainedPgFunction::Regtype => "quackgis_pg_regtype",
            MaintainedPgFunction::ToRegnamespace => "quackgis_pg_to_regnamespace",
            MaintainedPgFunction::Regnamespace => "quackgis_pg_regnamespace",
            MaintainedPgFunction::ToRegrole => "quackgis_pg_to_regrole",
            MaintainedPgFunction::Regrole => "quackgis_pg_regrole",
        }
    }

    /// Whether the function needs the catalog identity registry.
    pub fn requires_identity(self) -> (r: bool)
        ensures
            r == !(self == MaintainedPgFunction::Database || self == MaintainedPgFunction::Schema || self
                == MaintainedPgFunction::Schemas || self == MaintainedPgFunction::IsInRecovery || self
                == MaintainedPgFunction::Version),
    {
        !matches!(
            self,
            MaintainedPgFunction::Database | MaintainedPgFunction::Schema | MaintainedPgFunction::Schemas
                | MaintainedPgFunction::IsInRecovery | MaintainedPgFunction::Version
        )
    }

    pub fn argument_count(self) -> (n: usize)
        ensures
            n == argument_count_of(self),
    {
        match self {
            MaintainedPgFunction::Database | MaintainedPgFunction::Schema | MaintainedPgFunction::IsInRecovery
            | MaintainedPgFunction::Version | MaintainedPgFunction::SchemaEpoch
            | MaintainedPgFunction::SecurityEpoch => 0,
            MaintainedPgFunction::Schemas | MaintainedPgFunction::ToRegclass | MaintainedPgFunction::Regclass
            | MaintainedPgFunction::ToRegtype | MaintainedPgFunction::Regtype
            | MaintainedPgFunction::ToRegnamespace | MaintainedPgFunction::Regnamespace
            | MaintainedPgFunction::ToRegrole | MaintainedPgFunction::Regrole => 1,
            MaintainedPgFunction::FormatType | MaintainedPgFunction::GetExpr
            | MaintainedPgFunction::ColDescription => 2,
            MaintainedPgFunction::ObjDescription | MaintainedPgFunction::GetConstraintDef
            | MaintainedPgFunction::GetIndexDef => 1,
        }
    }

    /// Whether a call with `count` arguments is a form the function has.
    pub fn accepts_argument_count(self, count: usize) -> (r: bool)
        ensures
            r == match self {
                MaintainedPgFunction::GetExpr => count == 2 || count == 3,
                MaintainedPgFunction::ObjDescription => count == 1 || count == 2,
                MaintainedPgFunction::GetConstraintDef => count == 1 || count == 2,
                MaintainedPgFunction::GetIndexDef => count == 1 || count == 3,
                _ => count == argument_count_of(self),
            },
    {
        match self {
            MaintainedPgFunction::GetExpr => count == 2 || count == 3,
            MaintainedPgFunction::ObjDescription => count == 1 || count == 2,
            MaintainedPgFunction::GetConstraintDef => count == 1 || count == 2,
            MaintainedPgFunction::GetIndexDef => count == 1 || count == 3,
            _ => count == self.argument_count(),
        }
    }

    /// The variant of the private function that filters by role, where the
    /// function has one.
    pub fn role_filtered_private_name(self) -> (name: Option<&'static str>)
        ensures
            match self {
                MaintainedPgFunction::ColDescription => name matches Some(n) && n@
                    == "quackgis_pg_col_description_visible"@,
                MaintainedPgFunction::ObjDescription => name matches Some(n) && n@
                    == "quackgis_pg_obj_description_visible"@,
                MaintainedPgFunction::GetConstraintDef => name matches Some(n) && n@
                    == "quackgis_pg_get_constraintdef_visible"@,
                MaintainedPgFunction::GetIndexDef => name matches Some(n) && n@
                    == "quackgis_pg_get_indexdef_visible"@,
                _ => name is None,
            },
    {
        match self {
            MaintainedPgFunction::ColDescription => Some("quackgis_pg_col_description_visible"),
            MaintainedPgFunction::ObjDescription => Some("quackgis_pg_obj_description_visible"),
            MaintainedPgFunction::GetConstraintDef => Some("quackgis_pg_get_constraintdef_visible"),
            MaintainedPgFunction::GetIndexDef => Some("quackgis_pg_get_indexdef_visible"),
            _ => None,
        }
    }

    /// The text form of a registered-object lookup, where the function is
    /// one.
    pub fn registered_text_name(self) -> (name: Option<&'static str>)
        ensures
            match self {
                MaintainedPgFunction::ToRegclass | MaintainedPgFunction::Regclass => name matches Some(n) && n@
                    == "quackgis_pg_regclass_text"@,
                MaintainedPgFunction::ToRegtype | MaintainedPgFunction::Regtype => name matches Some(n) && n@
                    == "quackgis_pg_regtype_text"@,
                MaintainedPgFunction::ToRegnamespace | MaintainedPgFunction::Regnamespace => name matches Some(
                    n,
                ) && n@ == "quackgis_pg_regnamespace_text"@,
                MaintainedPgFunction::ToRegrole | MaintainedPgFunction::Regrole => name matches Some(n) && n@
                    == "quackgis_pg_regrole_text"@,
                _ => name is None,
            },
    {
        match self {
            MaintainedPgFunction::ToRegclass | MaintainedPgFunction::Regclass => Some("quackgis_pg_regclass_text"),
            MaintainedPgFunction::ToRegtype | MaintainedPgFunction::Regtype => Some("quackgis_pg_regtype_text"),
            MaintainedPgFunction::ToRegnamespace | MaintainedPgFunction::Regnamespace => Some(
                "quackgis_pg_regnamespace_text",
            ),
            MaintainedPgFunction::ToRegrole | MaintainedPgFunction::Regrole => Some("quackgis_pg_regrole_text"),
            _ => None,
        }
    }

    /// The PostgreSQL type its result is described with, where the Arrow
    /// type alone does not say it.
    pub fn result_hint(self) -> (hint: Option<PgTypeHint>)
        ensures
            hint == result_hint_of(self),
    {
        match self {
            MaintainedPgFunction::Database | MaintainedPgFunction::Schema => Some(PgTypeHint::Name),
            MaintainedPgFunction::Schemas => Some(PgTypeHint::NameArray),
            MaintainedPgFunction::IsInRecovery => None,
            MaintainedPgFunction::Version => Some(PgTypeHint::Text),
            MaintainedPgFunction::SchemaEpoch | MaintainedPgFunction::SecurityEpoch => None,
            MaintainedPgFunction::FormatType | MaintainedPgFunction::GetExpr | MaintainedPgFunction::ColDescription
            | MaintainedPgFunction::ObjDescription | MaintainedPgFunction::GetConstraintDef
            | MaintainedPgFunction::GetIndexDef => Some(PgTypeHint::Text),
            MaintainedPgFunction::ToRegclass | MaintainedPgFunction::Regclass => Some(PgTypeHint::Regclass),
            MaintainedPgFunction::ToRegtype | MaintainedPgFunction::Regtype => Some(PgTypeHint::Regtype),
            MaintainedPgFunction::ToRegnamespace | MaintainedPgFunction::Regnamespace => Some(
                PgTypeHint::Regnamespace,
            ),
            MaintainedPgFunction::ToRegrole | MaintainedPgFunction::Regrole => Some(PgTypeHint::Regrole),
        }
    }
}

/// The result type hint of a maintained function.
pub open spec fn result_hint_of(f: MaintainedPgFunction) -> Option<PgTypeHint> {
    match f {
        MaintainedPgFunction::Database | MaintainedPgFunction::Schema => Some(PgTypeHint::Name),
        MaintainedPgFunction::Schemas => Some(PgTypeHint::NameArray),
        MaintainedPgFunction::Version => Some(PgTypeHint::Text),
        MaintainedPgFunction::IsInRecovery | MaintainedPgFunction::SchemaEpoch
        | MaintainedPgFunction::SecurityEpoch => None,
        MaintainedPgFunction::ToRegclass | MaintainedPgFunction::Regclass => Some(PgTypeHint::Regclass),
        MaintainedPgFunction::ToRegtype | MaintainedPgFunction::Regtype => Some(PgTypeHint::Regtype),
        MaintainedPgFunction::ToRegnamespace | MaintainedPgFunction::Regnamespace => Some(PgTypeHint::Regnamespace),
        MaintainedPgFunction::ToRegrole | MaintainedPgFunction::Regrole => Some(PgTypeHint::Regrole),
        _ => Some(PgTypeHint::Text),
    }
}

/// The privilege inquiry functions, by the object they ask about.
#[derive(Clone, Copy, Debug, PartialEq, Eq, Structural)]
pub enum PrivilegeInquiryFunction {
    Schema,
    Table,
    AnyColumn,
    Column,
    Role,
}

/// The privilege names an inquiry of a kind may name.
pub open spec fn valid_privilege(kind: PrivilegeInquiryFunction, name: Seq<char>) -> bool {
    match kind {
        PrivilegeInquiryFunction::Schema => name == "CREATE"@ || name == "USAGE"@,
        PrivilegeInquiryFunction::Table => name == "SELECT"@ || name == "INSERT"@ || name == "UPDATE"@ || name
            == "DELETE"@ || name == "TRUNCATE"@ || name == "REFERENCES"@ || name == "TRIGGER"@ || name
            == "MAINTAIN"@,
        PrivilegeInquiryFunction::AnyColumn | PrivilegeInquiryFunction::Column => name == "SELECT"@ || name
            == "INSERT"@ || name == "UPDATE"@ || name == "REFERENCES"@,
        PrivilegeInquiryFunction::Role => name == "MEMBER"@ || name == "USAGE"@ || name == "SET"@,
    }
}

pub fn valid_privilege_name(kind: PrivilegeInquiryFunction, name: &str) -> (r: bool)
    ensures
        r == valid_privilege(kind, name@),
{
    match kind {
        PrivilegeInquiryFunction::Schema => text_eq(name, "CREATE") || text_eq(name, "USAGE"),
        PrivilegeInquiryFunction::Table => text_eq(name, "SELECT") || text_eq(name, "INSERT") || text_eq(
            name,
            "UPDATE",
        ) || text_eq(name, "DELETE") || text_eq(name, "TRUNCATE") || text_eq(name, "REFERENCES") || text_eq(
            name,
            "TRIGGER",
        ) || text_eq(name, "MAINTAIN"),
        PrivilegeInquiryFunction::AnyColumn | PrivilegeInquiryFunction::Column => text_eq(name, "SELECT")
            || text_eq(name, "INSERT") || text_eq(name, "UPDATE") || text_eq(name, "REFERENCES"),
        PrivilegeInquiryFunction::Role => text_eq(name, "MEMBER") || text_eq(name, "USAGE") || text_eq(
            name,
            "SET",
        ),
    }
}

/// Table privileges a role can hold.
#[derive(Clone, Copy, Debug, PartialEq, Eq, Structural)]
pub enum TablePrivilege {
    Select,
    Insert,
    Update,
    Delete,
    Maintain,
}

/// Role privileges a role can hold over another.
#[derive(Clone, Copy, Debug, PartialEq, Eq, Structural)]
pub enum RolePrivilege {
    Member,
    Usage,
    SetRole,
}

pub open spec fn table_privilege_of(name: Seq<char>) -> Option<TablePrivilege> {
    if name == "SELECT"@ {
        Some(TablePrivilege::Select)
    } else if name == "INSERT"@ {
        Some(TablePrivilege::Insert)
    } else if name == "UPDATE"@ {
        Some(TablePrivilege::Update)
    } else if name == "DELETE"@ {
        Some(TablePrivilege::Delete)
    } else if name == "MAINTAIN"@ {
        Some(TablePrivilege::Maintain)
    } else {
        None
    }
}

pub fn table_privilege(name: &str) -> (p: Option<TablePrivilege>)
    ensures
        p == table_privilege_of(name@),
{
    if text_eq(name, "SELECT") {
        Some(TablePrivilege::Select)
    } else if text_eq(name, "INSERT") {
        Some(TablePrivilege::Insert)
    } else if text_eq(name, "UPDATE") {
        Some(TablePrivilege::Update)
    } else if text_eq(name, "DELETE") {
        Some(TablePrivilege::Delete)
    } else if text_eq(name, "MAINTAIN") {
        Some(TablePrivilege::Maintain)
    } else {
        None
    }
}

pub open spec fn role_privilege_of(name: Seq<char>) -> Option<RolePrivilege> {
    if name == "MEMBER"@ {
        Some(RolePrivilege::Member)
    } else if name == "USAGE"@ {
        Some(RolePrivilege::Usage)
    } else if name == "SET"@ {
        Some(RolePrivilege::SetRole)
    } else {
        None
    }
}

pub fn role_privilege(name: &str) -> (p: Option<RolePrivilege>)
    ensures
        p == role_privilege_of(name@),
{
    if text_eq(name, "MEMBER") {
        Some(RolePrivilege::Member)
    } else if text_eq(name, "USAGE") {
        Some(RolePrivilege::Usage)
    } else if text_eq(name, "SET") {
        Some(RolePrivilege::SetRole)
    } else {
        None
    }
}

/// The PostgreSQL type a result column is described with when its Arrow
/// type alone would not say it.
#[derive(Clone, Copy, Debug, PartialEq, Eq, Structural)]
pub enum PgTypeHint {
    Oid,
    Name,
    NameArray,
    Char,
    Text,
    Varchar,
    PgNodeTree,
    Int2Vector,
    Regclass,
    Regtype,
    Regnamespace,
    Regrole,
}

/// The typed columns of a maintained catalog relation: each column that
/// carries a PostgreSQL type hint, with its hint.
pub open spec fn catalog_typed_columns_of(relation: Seq<char>) -> Seq<(Seq<char>, PgTypeHint)> {
    if relation == "pg_namespace"@ {
        seq![("oid"@, PgTypeHint::Oid), ("nspname"@, PgTypeHint::Name), ("nspowner"@, PgTypeHint::Oid)]
    } else if relation == "pg_database"@ {
        seq![("oid"@, PgTypeHint::Oid), ("datname"@, PgTypeHint::Name), ("datdba"@, PgTypeHint::Oid)]
    } else if relation == "pg_proc"@ {
        seq![("oid"@, PgTypeHint::Oid), ("proname"@, PgTypeHint::Name), ("pronamespace"@, PgTypeHint::Oid)]
    } else if relation == "pg_type"@ {
        seq![("oid"@, PgTypeHint::Oid), ("typname"@, PgTypeHint::Name), ("typnamespace"@, PgTypeHint::Oid), ("typtype"@, PgTypeHint::Char), ("typcategory"@, PgTypeHint::Char), ("typdelim"@, PgTypeHint::Char), ("typrelid"@, PgTypeHint::Oid), ("typelem"@, PgTypeHint::Oid), ("typarray"@, PgTypeHint::Oid), ("typbasetype"@, PgTypeHint::Oid), ("typcollation"@, PgTypeHint::Oid)]
    } else if relation == "pg_class"@ {
        seq![("oid"@, PgTypeHint::Oid), ("relname"@, PgTypeHint::Name), ("relnamespace"@, PgTypeHint::Oid), ("reltype"@, PgTypeHint::Oid), ("relowner"@, PgTypeHint::Oid), ("relkind"@, PgTypeHint::Char)]
    } else if relation == "pg_attribute"@ {
        seq![("attrelid"@, PgTypeHint::Oid), ("attname"@, PgTypeHint::Name), ("atttypid"@, PgTypeHint::Oid), ("attcollation"@, PgTypeHint::Oid), ("attidentity"@, PgTypeHint::Char), ("attgenerated"@, PgTypeHint::Char), ("attstorage"@, PgTypeHint::Char), ("attcompression"@, PgTypeHint::Char)]
    } else if relation == "pg_attrdef"@ {
        seq![("adrelid"@, PgTypeHint::Oid), ("adbin"@, PgTypeHint::PgNodeTree)]
    } else if relation == "pg_description"@ {
        seq![("objoid"@, PgTypeHint::Oid), ("classoid"@, PgTypeHint::Oid), ("description"@, PgTypeHint::Text)]
    } else if relation == "pg_constraint"@ {
        seq![("oid"@, PgTypeHint::Oid), ("conname"@, PgTypeHint::Name), ("connamespace"@, PgTypeHint::Oid), ("contype"@, PgTypeHint::Char), ("conrelid"@, PgTypeHint::Oid), ("conindid"@, PgTypeHint::Oid), ("conparentid"@, PgTypeHint::Oid), ("confrelid"@, PgTypeHint::Oid)]
    } else if relation == "pg_index"@ {
        seq![("indexrelid"@, PgTypeHint::Oid), ("indrelid"@, PgTypeHint::Oid), ("indkey"@, PgTypeHint::Int2Vector)]
    } else if relation == "derived_pg_attrdef"@ {
        seq![("adrelid"@, PgTypeHint::Oid), ("def"@, PgTypeHint::Text)]
    } else if relation == "derived_pg_index"@ {
        seq![("indrelid"@, PgTypeHint::Oid), ("indkey"@, PgTypeHint::Int2Vector)]
    } else if relation == "geometry_columns"@ {
        seq![("f_table_catalog"@, PgTypeHint::Varchar), ("f_table_schema"@, PgTypeHint::Name), ("f_table_name"@, PgTypeHint::Name), ("f_geometry_column"@, PgTypeHint::Name), ("type"@, PgTypeHint::Varchar)]
    } else if relation == "spatial_ref_sys"@ {
        seq![("auth_name"@, PgTypeHint::Varchar), ("srtext"@, PgTypeHint::Varchar), ("proj4text"@, PgTypeHint::Varchar)]
    } else if relation == "pg_range"@ {
        seq![("rngtypid"@, PgTypeHint::Oid), ("rngsubtype"@, PgTypeHint::Oid)]
    } else if relation == "pg_collation"@ {
        seq![("oid"@, PgTypeHint::Oid), ("collname"@, PgTypeHint::Name), ("collnamespace"@, PgTypeHint::Oid), ("collowner"@, PgTypeHint::Oid), ("collprovider"@, PgTypeHint::Char)]
    } else if relation == "pg_roles"@ {
        seq![("rolname"@, PgTypeHint::Name), ("oid"@, PgTypeHint::Oid)]
    } else if relation == "pg_auth_members"@ {
        seq![("oid"@, PgTypeHint::Oid), ("roleid"@, PgTypeHint::Oid), ("member"@, PgTypeHint::Oid), ("grantor"@, PgTypeHint::Oid)]
    } else if relation == "schemata"@ {
        seq![("catalog_name"@, PgTypeHint::Name), ("schema_name"@, PgTypeHint::Name), ("schema_owner"@, PgTypeHint::Name), ("default_character_set_catalog"@, PgTypeHint::Name), ("default_character_set_schema"@, PgTypeHint::Name), ("default_character_set_name"@, PgTypeHint::Name), ("sql_path"@, PgTypeHint::Varchar)]
    } else if relation == "tables"@ {
        seq![("table_catalog"@, PgTypeHint::Name), ("table_schema"@, PgTypeHint::Name), ("table_name"@, PgTypeHint::Name), ("table_type"@, PgTypeHint::Varchar), ("self_referencing_column_name"@, PgTypeHint::Name), ("reference_generation"@, PgTypeHint::Varchar), ("user_defined_type_catalog"@, PgTypeHint::Name), ("user_defined_type_schema"@, PgTypeHint::Name), ("user_defined_type_name"@, PgTypeHint::Name), ("is_insertable_into"@, PgTypeHint::Varchar), ("is_typed"@, PgTypeHint::Varchar), ("commit_action"@, PgTypeHint::Varchar)]
    } else if relation == "columns"@ {
        seq![("table_catalog"@, PgTypeHint::Name), ("table_schema"@, PgTypeHint::Name), ("table_name"@, PgTypeHint::Name), ("column_name"@, PgTypeHint::Name), ("column_default"@, PgTypeHint::Varchar), ("is_nullable"@, PgTypeHint::Varchar), ("data_type"@, PgTypeHint::Varchar), ("udt_schema"@, PgTypeHint::Name), ("udt_name"@, PgTypeHint::Name), ("is_identity"@, PgTypeHint::Varchar), ("is_generated"@, PgTypeHint::Varchar)]
    } else if relation == "table_privileges"@ || relation == "role_table_grants"@ {
        seq![("grantor"@, PgTypeHint::Name), ("grantee"@, PgTypeHint::Name), ("table_catalog"@, PgTypeHint::Name), ("table_schema"@, PgTypeHint::Name), ("table_name"@, PgTypeHint::Name), ("privilege_type"@, PgTypeHint::Varchar), ("is_grantable"@, PgTypeHint::Varchar), ("with_hierarchy"@, PgTypeHint::Varchar)]
    } else if relation == "column_privileges"@ || relation == "role_column_grants"@ {
        seq![("grantor"@, PgTypeHint::Name), ("grantee"@, PgTypeHint::Name), ("table_catalog"@, PgTypeHint::Name), ("table_schema"@, PgTypeHint::Name), ("table_name"@, PgTypeHint::Name), ("column_name"@, PgTypeHint::Name), ("privilege_type"@, PgTypeHint::Varchar), ("is_grantable"@, PgTypeHint::Varchar)]
    } else {
        Seq::empty()
    }
}

/// The typed columns of a maintained catalog relation, in order.
pub fn catalog_columns(relation: &str) -> (columns: Vec<(&'static str, PgTypeHint)>)
    ensures
        columns@.map_values(|c: (&'static str, PgTypeHint)| (c.0@, c.1)) == catalog_typed_columns_of(relation@),
{
    let columns: Vec<(&'static str, PgTypeHint)> = if text_eq(relation, "pg_namespace") {
        vec![("oid", PgTypeHint::Oid), ("nspname", PgTypeHint::Name), ("nspowner", PgTypeHint::Oid)]
    } else if text_eq(relation, "pg_database") {
        vec![("oid", PgTypeHint::Oid), ("datname", PgTypeHint::Name), ("datdba", PgTypeHint::Oid)]
    } else if text_eq(relation, "pg_proc") {
        vec![("oid", PgTypeHint::Oid), ("proname", PgTypeHint::Name), ("pronamespace", PgTypeHint::Oid)]
    } else if text_eq(relation, "pg_type") {
        vec![("oid", PgTypeHint::Oid), ("typname", PgTypeHint::Name), ("typnamespace", PgTypeHint::Oid), ("typtype", PgTypeHint::Char), ("typcategory", PgTypeHint::Char), ("typdelim", PgTypeHint::Char), ("typrelid", PgTypeHint::Oid), ("typelem", PgTypeHint::Oid), ("typarray", PgTypeHint::Oid), ("typbasetype", PgTypeHint::Oid), ("typcollation", PgTypeHint::Oid)]
    } else if text_eq(relation, "pg_class") {
        vec![("oid", PgTypeHint::Oid), ("relname", PgTypeHint::Name), ("relnamespace", PgTypeHint::Oid), ("reltype", PgTypeHint::Oid), ("relowner", PgTypeHint::Oid), ("relkind", PgTypeHint::Char)]
    } else if text_eq(relation, "pg_attribute") {
        vec![("attrelid", PgTypeHint::Oid), ("attname", PgTypeHint::Name), ("atttypid", PgTypeHint::Oid), ("attcollation", PgTypeHint::Oid), ("attidentity", PgTypeHint::Char), ("attgenerated", PgTypeHint::Char), ("attstorage", PgTypeHint::Char), ("attcompression", PgTypeHint::Char)]
    } else if text_eq(relation, "pg_attrdef") {
        vec![("adrelid", PgTypeHint::Oid), ("adbin", PgTypeHint::PgNodeTree)]
    } else if text_eq(relation, "pg_description") {
        vec![("objoid", PgTypeHint::Oid), ("classoid", PgTypeHint::Oid), ("description", PgTypeHint::Text)]
    } else if text_eq(relation, "pg_constraint") {
        vec![("oid", PgTypeHint::Oid), ("conname", PgTypeHint::Name), ("connamespace", PgTypeHint::Oid), ("contype", PgTypeHint::Char), ("conrelid", PgTypeHint::Oid), ("conindid", PgTypeHint::Oid), ("conparentid", PgTypeHint::Oid), ("confrelid", PgTypeHint::Oid)]
    } else if text_eq(relation, "pg_index") {
        vec![("indexrelid", PgTypeHint::Oid), ("indrelid", PgTypeHint::Oid), ("indkey", PgTypeHint::Int2Vector)]
    } else if text_eq(relation, "derived_pg_attrdef") {
        vec![("adrelid", PgTypeHint::Oid), ("def", PgTypeHint::Text)]
    } else if text_eq(relation, "derived_pg_index") {
        vec![("indrelid", PgTypeHint::Oid), ("indkey", PgTypeHint::Int2Vector)]
    } else if text_eq(relation, "geometry_columns") {
        vec![("f_table_catalog", PgTypeHint::Varchar), ("f_table_schema", PgTypeHint::Name), ("f_table_name", PgTypeHint::Name), ("f_geometry_column", PgTypeHint::Name), ("type", PgTypeHint::Varchar)]
    } else if text_eq(relation, "spatial_ref_sys") {
        vec![("auth_name", PgTypeHint::Varchar), ("srtext", PgTypeHint::Varchar), ("proj4text", PgTypeHint::Varchar)]
    } else if text_eq(relation, "pg_range") {
        vec![("rngtypid", PgTypeHint::Oid), ("rngsubtype", PgTypeHint::Oid)]
    } else if text_eq(relation, "pg_collation") {
        vec![("oid", PgTypeHint::Oid), ("collname", PgTypeHint::Name), ("collnamespace", PgTypeHint::Oid), ("collowner", PgTypeHint::Oid), ("collprovider", PgTypeHint::Char)]
    } else if text_eq(relation, "pg_roles") {
        vec![("rolname", PgTypeHint::Name), ("oid", PgTypeHint::Oid)]
    } else if text_eq(relation, "pg_auth_members") {
        vec![("oid", PgTypeHint::Oid), ("roleid", PgTypeHint::Oid), ("member", PgTypeHint::Oid), ("grantor", PgTypeHint::Oid)]
    } else if text_eq(relation, "schemata") {
        vec![("catalog_name", PgTypeHint::Name), ("schema_name", PgTypeHint::Name), ("schema_owner", PgTypeHint::Name), ("default_character_set_catalog", PgTypeHint::Name), ("default_character_set_schema", PgTypeHint::Name), ("default_character_set_name", PgTypeHint::Name), ("sql_path", PgTypeHint::Varchar)]
    } else if text_eq(relation, "tables") {
        vec![("table_catalog", PgTypeHint::Name), ("table_schema", PgTypeHint::Name), ("table_name", PgTypeHint::Name), ("table_type", PgTypeHint::Varchar), ("self_referencing_column_name", PgTypeHint::Name), ("reference_generation", PgTypeHint::Varchar), ("user_defined_type_catalog", PgTypeHint::Name), ("user_defined_type_schema", PgTypeHint::Name), ("user_defined_type_name", PgTypeHint::Name), ("is_insertable_into", PgTypeHint::Varchar), ("is_typed", PgTypeHint::Varchar), ("commit_action", PgTypeHint::Varchar)]
    } else if text_eq(relation, "columns") {
        vec![("table_catalog", PgTypeHint::Name), ("table_schema", PgTypeHint::Name), ("table_name", PgTypeHint::Name), ("column_name", PgTypeHint::Name), ("column_default", PgTypeHint::Varchar), ("is_nullable", PgTypeHint::Varchar), ("data_type", PgTypeHint::Varchar), ("udt_schema", PgTypeHint::Name), ("udt_name", PgTypeHint::Name), ("is_identity", PgTypeHint::Varchar), ("is_generated", PgTypeHint::Varchar)]
    } else if text_eq(relation, "table_privileges") || text_eq(relation, "role_table_grants") {
        vec![("grantor", PgTypeHint::Name), ("grantee", PgTypeHint::Name), ("table_catalog", PgTypeHint::Name), ("table_schema", PgTypeHint::Name), ("table_name", PgTypeHint::Name), ("privilege_type", PgTypeHint::Varchar), ("is_grantable", PgTypeHint::Varchar), ("with_hierarchy", PgTypeHint::Varchar)]
    } else if text_eq(relation, "column_privileges") || text_eq(relation, "role_column_grants") {
        vec![("grantor", PgTypeHint::Name), ("grantee", PgTypeHint::Name), ("table_catalog", PgTypeHint::Name), ("table_schema", PgTypeHint::Name), ("table_name", PgTypeHint::Name), ("column_name", PgTypeHint::Name), ("privilege_type", PgTypeHint::Varchar), ("is_grantable", PgTypeHint::Varchar)]
    } else {
        Vec::new()
    };
    assert(columns@.map_values(|c: (&'static str, PgTypeHint)| (c.0@, c.1)) =~= catalog_typed_columns_of(relation@));
    columns
}

/// The columns a maintained catalog relation exposes, in order.
pub open spec fn catalog_columns_of(relation: Seq<char>) -> Seq<Seq<char>> {
    if relation == "pg_namespace"@ {
        seq!["oid"@, "nspname"@, "nspowner"@]
    } else if relation == "pg_database"@ {
        seq!["oid"@, "datname"@, "datdba"@]
    } else if relation == "pg_proc"@ {
        seq!["oid"@, "proname"@, "pronamespace"@]
    } else if relation == "pg_type"@ {
        seq!["oid"@, "typname"@, "typnamespace"@, "typlen"@, "typbyval"@, "typtype"@, "typcategory"@, "typispreferred"@, "typisdefined"@, "typdelim"@, "typrelid"@, "typelem"@, "typarray"@, "typnotnull"@, "typbasetype"@, "typtypmod"@, "typndims"@, "typcollation"@]
    } else if relation == "pg_class"@ {
        seq!["oid"@, "relname"@, "relnamespace"@, "reltype"@, "relowner"@, "relkind"@, "relnatts"@, "relrowsecurity"@]
    } else if relation == "pg_attribute"@ {
        seq!["attrelid"@, "attname"@, "atttypid"@, "attlen"@, "attnum"@, "atttypmod"@, "attnotnull"@, "atthasdef"@, "attcollation"@, "attidentity"@, "attgenerated"@, "attstorage"@, "attcompression"@, "attstattarget"@, "attisdropped"@]
    } else if relation == "pg_attrdef"@ {
        seq!["adrelid"@, "adnum"@, "adbin"@]
    } else if relation == "pg_description"@ {
        seq!["objoid"@, "classoid"@, "objsubid"@, "description"@]
    } else if relation == "pg_constraint"@ {
        seq!["oid"@, "conname"@, "connamespace"@, "contype"@, "condeferrable"@, "condeferred"@, "convalidated"@, "conrelid"@, "conindid"@, "conparentid"@, "confrelid"@, "conislocal"@, "coninhcount"@, "connoinherit"@, "conperiod"@, "conkey"@]
    } else if relation == "pg_index"@ {
        seq!["indexrelid"@, "indrelid"@, "indnatts"@, "indnkeyatts"@, "indisunique"@, "indisnullsnotdistinct"@, "indisprimary"@, "indisexclusion"@, "indimmediate"@, "indisclustered"@, "indisvalid"@, "indcheckxmin"@, "indisready"@, "indislive"@, "indisreplident"@, "indkey"@]
    } else if relation == "derived_pg_attrdef"@ {
        seq!["adrelid"@, "adnum"@, "def"@]
    } else if relation == "derived_pg_index"@ {
        seq!["indrelid"@, "indkey"@, "indisunique"@]
    } else if relation == "geometry_columns"@ {
        seq!["f_table_catalog"@, "f_table_schema"@, "f_table_name"@, "f_geometry_column"@, "coord_dimension"@, "srid"@, "type"@]
    } else if relation == "spatial_ref_sys"@ {
        seq!["srid"@, "auth_name"@, "auth_srid"@, "srtext"@, "proj4text"@]
    } else if relation == "pg_range"@ {
        seq!["rngtypid"@, "rngsubtype"@]
    } else if relation == "pg_collation"@ {
        seq!["oid"@, "collname"@, "collnamespace"@, "collowner"@, "collprovider"@, "collisdeterministic"@, "collencoding"@, "collcollate"@, "collctype"@, "colllocale"@, "collicurules"@, "collversion"@]
    } else if relation == "pg_roles"@ {
        seq!["oid"@, "rolname"@, "rolsuper"@, "rolinherit"@, "rolcreaterole"@, "rolcreatedb"@, "rolcanlogin"@, "rolreplication"@, "rolconnlimit"@, "rolpassword"@, "rolvaliduntil"@, "rolbypassrls"@, "rolconfig"@]
    } else if relation == "pg_auth_members"@ {
        seq!["oid"@, "roleid"@, "member"@, "grantor"@, "admin_option"@, "inherit_option"@, "set_option"@]
    } else if relation == "schemata"@ {
        seq!["catalog_name"@, "schema_name"@, "schema_owner"@, "default_character_set_catalog"@, "default_character_set_schema"@, "default_character_set_name"@, "sql_path"@]
    } else if relation == "tables"@ {
        seq!["table_catalog"@, "table_schema"@, "table_name"@, "table_type"@, "self_referencing_column_name"@, "reference_generation"@, "user_defined_type_catalog"@, "user_defined_type_schema"@, "user_defined_type_name"@, "is_insertable_into"@, "is_typed"@, "commit_action"@]
    } else if relation == "columns"@ {
        seq!["table_catalog"@, "table_schema"@, "table_name"@, "column_name"@, "ordinal_position"@, "column_default"@, "is_nullable"@, "data_type"@, "udt_schema"@, "udt_name"@, "is_identity"@, "is_generated"@]
    } else if relation == "table_privileges"@ || relation == "role_table_grants"@ {
        seq!["grantor"@, "grantee"@, "table_catalog"@, "table_schema"@, "table_name"@, "privilege_type"@, "is_grantable"@, "with_hierarchy"@]
    } else if relation == "column_privileges"@ || relation == "role_column_grants"@ {
        seq!["grantor"@, "grantee"@, "table_catalog"@, "table_schema"@, "table_name"@, "column_name"@, "privilege_type"@, "is_grantable"@]
    } else {
        Seq::empty()
    }
}

/// The columns a maintained catalog relation exposes, in order.
pub fn catalog_column_names(relation: &str) -> (names: Vec<&'static str>)
    ensures
        names@.map_values(|n: &'static str| n@) == catalog_columns_of(relation@),
{
    let names: Vec<&'static str> = if text_eq(relation, "pg_namespace") {
        vec!["oid", "nspname", "nspowner"]
    } else if text_eq(relation, "pg_database") {
        vec!["oid", "datname", "datdba"]
    } else if text_eq(relation, "pg_proc") {
        vec!["oid", "proname", "pronamespace"]
    } else if text_eq(relation, "pg_type") {
        vec!["oid", "typname", "typnamespace", "typlen", "typbyval", "typtype", "typcategory", "typispreferred", "typisdefined", "typdelim", "typrelid", "typelem", "typarray", "typnotnull", "typbasetype", "typtypmod", "typndims", "typcollation"]
    } else if text_eq(relation, "pg_class") {
        vec!["oid", "relname", "relnamespace", "reltype", "relowner", "relkind", "relnatts", "relrowsecurity"]
    } else if text_eq(relation, "pg_attribute") {
        vec!["attrelid", "attname", "atttypid", "attlen", "attnum", "atttypmod", "attnotnull", "atthasdef", "attcollation", "attidentity", "attgenerated", "attstorage", "attcompression", "attstattarget", "attisdropped"]
    } else if text_eq(relation, "pg_attrdef") {
        vec!["adrelid", "adnum", "adbin"]
    } else if text_eq(relation, "pg_description") {
        vec!["objoid", "classoid", "objsubid", "description"]
    } else if text_eq(relation, "pg_constraint") {
        vec!["oid", "conname", "connamespace", "contype", "condeferrable", "condeferred", "convalidated", "conrelid", "conindid", "conparentid", "confrelid", "conislocal", "coninhcount", "connoinherit", "conperiod", "conkey"]
    } else if text_eq(relation, "pg_index") {
        vec!["indexrelid", "indrelid", "indnatts", "indnkeyatts", "indisunique", "indisnullsnotdistinct", "indisprimary", "indisexclusion", "indimmediate", "indisclustered", "indisvalid", "indcheckxmin", "indisready", "indislive", "indisreplident", "indkey"]
    } else if text_eq(relation, "derived_pg_attrdef") {
        vec!["adrelid", "adnum", "def"]
    } else if text_eq(relation, "derived_pg_index") {
        vec!["indrelid", "indkey", "indisunique"]
    } else if text_eq(relation, "geometry_columns") {
        vec!["f_table_catalog", "f_table_schema", "f_table_name", "f_geometry_column", "coord_dimension", "srid", "type"]
    } else if text_eq(relation, "spatial_ref_sys") {
        vec!["srid", "auth_name", "auth_srid", "srtext", "proj4text"]
    } else if text_eq(relation, "pg_range") {
        vec!["rngtypid", "rngsubtype"]
    } else if text_eq(relation, "pg_collation") {
        vec!["oid", "collname", "collnamespace", "collowner", "collprovider", "collisdeterministic", "collencoding", "collcollate", "collctype", "colllocale", "collicurules", "collversion"]
    } else if text_eq(relation, "pg_roles") {
        vec!["oid", "rolname", "rolsuper", "rolinherit", "rolcreaterole", "rolcreatedb", "rolcanlogin", "rolreplication", "rolconnlimit", "rolpassword", "rolvaliduntil", "rolbypassrls", "rolconfig"]
    } else if text_eq(relation, "pg_auth_members") {
        vec!["oid", "roleid", "member", "grantor", "admin_option", "inherit_option", "set_option"]
    } else if text_eq(relation, "schemata") {
        vec!["catalog_name", "schema_name", "schema_owner", "default_character_set_catalog", "default_character_set_schema", "default_character_set_name", "sql_path"]
    } else if text_eq(relation, "tables") {
        vec!["table_catalog", "table_schema", "table_name", "table_type", "self_referencing_column_name", "reference_generation", "user_defined_type_catalog", "user_defined_type_schema", "user_defined_type_name", "is_insertable_into", "is_typed", "commit_action"]
    } else if text_eq(relation, "columns") {
        vec!["table_catalog", "table_schema", "table_name", "column_name", "ordinal_position", "column_default", "is_nullable", "data_type", "udt_schema", "udt_name", "is_identity", "is_generated"]
    } else if text_eq(relation, "table_privileges") || text_eq(relation, "role_table_grants") {
        vec!["grantor", "grantee", "table_catalog", "table_schema", "table_name", "privilege_type", "is_grantable", "with_hierarchy"]
    } else if text_eq(relation, "column_privileges") || text_eq(relation, "role_column_grants") {
        vec!["grantor", "grantee", "table_catalog", "table_schema", "table_name", "column_name", "privilege_type", "is_grantable"]
    } else {
        Vec::new()
    };
    assert(names@.map_values(|n: &'static str| n@) =~= catalog_columns_of(relation@));
    names
}

// ─── Identifiers ───────────────────────────────────────────────────────────

pub open spec fn is_ascii_lower(c: char) -> bool {
    'a' <= c <= 'z'
}

pub open spec fn is_ascii_upper(c: char) -> bool {
    'A' <= c <= 'Z'
}

pub open spec fn is_ascii_digit_char(c: char) -> bool {
    '0' <= c <= '9'
}

/// ASCII lowercase of a character.
pub open spec fn ascii_lower_char(c: char) -> char {
    if is_ascii_upper(c) { ((c as u32) + 32) as char } else { c }
}

fn lower_letter(c: char) -> (s: &'static str)
    requires
        'A' <= c <= 'Z',
    ensures
        s@ == seq![ascii_lower_char(c)],
{
    proof {
        reveal_strlit("a");
        reveal_strlit("b");
        reveal_strlit("c");
        reveal_strlit("d");
        reveal_strlit("e");
        reveal_strlit("f");
        reveal_strlit("g");
        reveal_strlit("h");
        reveal_strlit("i");
        reveal_strlit("j");
        reveal_strlit("k");
        reveal_strlit("l");
        reveal_strlit("m");
        reveal_strlit("n");
        reveal_strlit("o");
        reveal_strlit("p");
        reveal_strlit("q");
        reveal_strlit("r");
        reveal_strlit("s");
        reveal_strlit("t");
        reveal_strlit("u");
        reveal_strlit("v");
        reveal_strlit("w");
        reveal_strlit("x");
        reveal_strlit("y");
        reveal_strlit("z");
    }
    if c == 'A' {
        "a"
    } else if c == 'B' {
        "b"
    } else if c == 'C' {
        "c"
    } else if c == 'D' {
        "d"
    } else if c == 'E' {
        "e"
    } else if c == 'F' {
        "f"
    } else if c == 'G' {
        "g"
    } else if c == 'H' {
        "h"
    } else if c == 'I' {
        "i"
    } else if c == 'J' {
        "j"
    } else if c == 'K' {
        "k"
    } else if c == 'L' {
        "l"
    } else if c == 'M' {
        "m"
    } else if c == 'N' {
        "n"
    } else if c == 'O' {
        "o"
    } else if c == 'P' {
        "p"
    } else if c == 'Q' {
        "q"
    } else if c == 'R' {
        "r"
    } else if c == 'S' {
        "s"
    } else if c == 'T' {
        "t"
    } else if c == 'U' {
        "u"
    } else if c == 'V' {
        "v"
    } else if c == 'W' {
        "w"
    } else if c == 'X' {
        "x"
    } else if c == 'Y' {
        "y"
    } else if c == 'Z' {
        "z"
    } else {
        "z"
    }
}

/// Whether an identifier is written the way PostgreSQL folds unquoted
/// names, so that it needs no quotes.
pub open spec fn is_plain_identifier(s: Seq<char>) -> bool {
    &&& s.len() > 0
    &&& (s[0] == '_' || is_ascii_lower(s[0]))
    &&& forall|i: int|
        1 <= i < s.len() ==> (#[trigger] s[i] == '_' || s[i] == '$' || is_ascii_lower(s[i]) || is_ascii_digit_char(
            s[i],
        ))
}

/// An identifier as PostgreSQL would print it: as it is when plain,
/// otherwise quoted.
pub open spec fn canonical_identifier(s: Seq<char>) -> Seq<char> {
    if is_plain_identifier(s) { s } else { quoted(s, '"') }
}

pub fn canonical_pg_identifier(value: &str) -> (r: String)
    ensures
        r@ == canonical_identifier(value@),
{
    let n = value.unicode_len();
    let mut plain = n > 0;
    if plain {
        let c = value.get_char(0);
        plain = c == '_' || ('a' <= c && c <= 'z');
    }
    let mut i: usize = 1;
    while plain && i < n
        invariant_except_break
            n == value@.len(),
            1 <= i,
            plain ==> n > 0 && (value@[0] == '_' || is_ascii_lower(value@[0])),
            plain ==> forall|k: int| 1 <= k < i && k < n ==> (#[trigger] value@[k] == '_' || value@[k] == '$'
                || is_ascii_lower(value@[k]) || is_ascii_digit_char(value@[k])),
            !plain ==> !is_plain_identifier(value@),
        ensures
            plain ==> is_plain_identifier(value@),
            !plain ==> !is_plain_identifier(value@),
        decreases n - i,
    {
        let c = value.get_char(i);
        if c == '_' || c == '$' || ('a' <= c && c <= 'z') || ('0' <= c && c <= '9') {
            i = i + 1;
        } else {
            plain = false;
            break;
        }
    }
    if plain {
        value.to_owned()
    } else {
        let mut out = String::new();
        push_quoted_identifier(&mut out, value);
        out
    }
}

/// Whether a character may continue an unquoted identifier.
pub open spec fn is_ident_continue(c: char) -> bool {
    c == '_' || c == '$' || is_ascii_lower(c) || is_ascii_upper(c) || is_ascii_digit_char(c)
}

/// The rest of a quoted identifier from `j` on, `""` standing for a quote,
/// and where it ends; `None` when no closing quote follows or it is empty.
pub open spec fn quoted_ident(s: Seq<char>, j: int, acc: Seq<char>) -> Option<(Seq<char>, int)>
    decreases s.len() - j,
{
    if j < 0 || j >= s.len() {
        None
    } else if s[j] == '"' {
        if j + 1 < s.len() && s[j + 1] == '"' {
            quoted_ident(s, j + 2, acc.push('"'))
        } else if acc.len() > 0 {
            Some((acc, j + 1))
        } else {
            None
        }
    } else {
        quoted_ident(s, j + 1, acc.push(s[j]))
    }
}

/// The rest of an unquoted identifier from `j` on, folded to lowercase, and
/// where it ends.
pub open spec fn plain_ident(s: Seq<char>, j: int, acc: Seq<char>) -> (Seq<char>, int)
    decreases s.len() - j,
{
    if j < 0 || j >= s.len() || !is_ident_continue(s[j]) {
        (acc, j)
    } else {
        plain_ident(s, j + 1, acc.push(ascii_lower_char(s[j])))
    }
}

/// The identifier that starts at `i`, and where it ends.
pub open spec fn ident_at(s: Seq<char>, i: int) -> Option<(Seq<char>, int)> {
    if i < 0 || i >= s.len() {
        None
    } else if s[i] == '"' {
        quoted_ident(s, i + 1, Seq::empty())
    } else if s[i] == '_' || is_ascii_lower(s[i]) || is_ascii_upper(s[i]) {
        Some(plain_ident(s, i + 1, seq![ascii_lower_char(s[i])]))
    } else {
        None
    }
}

proof fn lemma_quoted_ident_end(s: Seq<char>, j: int, acc: Seq<char>)
    ensures
        quoted_ident(s, j, acc) matches Some((_, e)) ==> j < e <= s.len(),
    decreases s.len() - j,
{
    if 0 <= j < s.len() {
        if s[j] == '"' {
            if j + 1 < s.len() && s[j + 1] == '"' {
                lemma_quoted_ident_end(s, j + 2, acc.push('"'));
            }
        } else {
            lemma_quoted_ident_end(s, j + 1, acc.push(s[j]));
        }
    }
}

proof fn lemma_plain_ident_end(s: Seq<char>, j: int, acc: Seq<char>)
    requires
        0 <= j <= s.len(),
    ensures
        j <= plain_ident(s, j, acc).1 <= s.len(),
    decreases s.len() - j,
{
    if j < s.len() && is_ident_continue(s[j]) {
        lemma_plain_ident_end(s, j + 1, acc.push(ascii_lower_char(s[j])));
    }
}

fn push_char_of(out: &mut String, text: &str, j: usize)
    requires
        j < text@.len(),
    ensures
        final(out)@ == old(out)@.push(text@[j as int]),
{
    let n = text.unicode_len();
    assert(j < n);
    let piece = text.substring_char(j, j + 1);
    assert(piece@ =~= seq![text@[j as int]]);
    out.append(piece);
}

fn push_lower_char_of(out: &mut String, text: &str, j: usize)
    requires
        j < text@.len(),
    ensures
        final(out)@ == old(out)@.push(ascii_lower_char(text@[j as int])),
{
    let c = text.get_char(j);
    if 'A' <= c && c <= 'Z' {
        out.append(lower_letter(c));
    } else {
        push_char_of(out, text, j);
    }
}

/// A text in ASCII lowercase.
pub fn ascii_lowercase(text: &str) -> (r: String)
    ensures
        r@ == text@.map_values(|c: char| ascii_lower_char(c)),
{
    let n = text.unicode_len();
    let mut out = String::new();
    let mut i: usize = 0;
    while i < n
        invariant
            n == text@.len(),
            i <= n,
            out@ == text@.subrange(0, i as int).map_values(|c: char| ascii_lower_char(c)),
        decreases n - i,
    {
        push_lower_char_of(&mut out, text, i);
        i = i + 1;
        assert(out@ =~= text@.subrange(0, i as int).map_values(|c: char| ascii_lower_char(c)));
    }
    assert(text@.subrange(0, n as int) =~= text@);
    out
}

/// Read the PostgreSQL identifier that starts at `at`: quoted (with `""`
/// for a quote, never empty) or unquoted (a letter or `_`, then letters,
/// digits, `_` and `$`, folded to lowercase). Gives the identifier and where
/// it ends.
pub fn parse_pg_identifier(text: &str, at: usize) -> (r: Option<(String, usize)>)
    requires
        at <= text@.len(),
    ensures
        match ident_at(text@, at as int) {
            Some((ident, end)) => r matches Some((t, e)) && t@ == ident && e == end,
            None => r is None,
        },
{
    let n = text.unicode_len();
    if at >= n {
        return None;
    }
    let first = text.get_char(at);
    if first == '"' {
        let mut ident = String::new();
        let mut j = at + 1;
        loop
            invariant
                n == text@.len(),
                at < j <= n,
                first == '"',
                text@[at as int] == '"',
                quoted_ident(text@, j as int, ident@) == quoted_ident(text@, at + 1, Seq::empty()),
            decreases n - j,
        {
            if j >= n {
                return None;
            }
            let c = text.get_char(j);
            if c == '"' {
                if j + 1 < n && text.get_char(j + 1) == '"' {
                    let ghost before = ident@;
                    proof {
                        reveal_strlit("\"");
                    }
                    ident.append("\"");
                    assert(ident@ =~= before.push('"'));
                    j = j + 2;
                } else {
                    if ident.unicode_len() == 0 {
                        return None;
                    }
                    return Some((ident, j + 1));
                }
            } else {
                push_char_of(&mut ident, text, j);
                j = j + 1;
            }
        }
    }
    if !(first == '_' || ('a' <= first && first <= 'z') || ('A' <= first && first <= 'Z')) {
        return None;
    }
    let mut ident = String::new();
    push_lower_char_of(&mut ident, text, at);
    let mut j = at + 1;
    while j < n
        invariant
            n == text@.len(),
            at < j <= n,
            plain_ident(text@, j as int, ident@) == plain_ident(text@, at + 1, seq![ascii_lower_char(text@[at as int])]),
        ensures
            plain_ident(text@, j as int, ident@) == (ident@, j as int),
        decreases n - j,
    {
        let c = text.get_char(j);
        if !(c == '_' || c == '$' || ('a' <= c && c <= 'z') || ('A' <= c && c <= 'Z') || ('0' <= c && c <= '9')) {
            break;
        }
        push_lower_char_of(&mut ident, text, j);
        j = j + 1;
    }
    Some((ident, j))
}

/// Where trailing whitespace starts, looking back from `j`.
pub open spec fn trailing_whitespace(s: Seq<char>, j: int) -> int
    decreases j,
{
    if j <= 0 || j > s.len() {
        0
    } else if is_unicode_whitespace(s[j - 1]) {
        trailing_whitespace(s, j - 1)
    } else {
        j
    }
}

/// Text without leading and trailing whitespace, as `str::trim` gives it.
pub open spec fn trimmed(s: Seq<char>) -> Seq<char> {
    let start = skip_whitespace(s, 0);
    let end = trailing_whitespace(s, s.len() as int);
    if end <= start { Seq::empty() } else { s.subrange(start, end) }
}

/// The parts of a name of one or two identifiers separated by a dot, with
/// whitespace allowed around the dot and the whole.
pub open spec fn qualified_name(raw: Seq<char>) -> Option<Seq<Seq<char>>> {
    let t = trimmed(raw);
    match ident_at(t, 0) {
        None => None,
        Some((first, e1)) => {
            let k = skip_whitespace(t, e1);
            if k < t.len() && t[k] == '.' {
                match ident_at(t, skip_whitespace(t, k + 1)) {
                    None => None,
                    Some((second, e2)) => if skip_whitespace(t, e2) >= t.len() {
                        Some(seq![first, second])
                    } else {
                        None
                    },
                }
            } else if k >= t.len() {
                Some(seq![first])
            } else {
                None
            }
        },
    }
}

/// A character of a plain identifier.
pub open spec fn is_plain_char(c: char) -> bool {
    c == '_' || c == '$' || is_ascii_lower(c) || is_ascii_digit_char(c)
}

proof fn lemma_plain_char(c: char)
    requires
        is_plain_char(c),
    ensures
        is_ident_continue(c),
        ascii_lower_char(c) == c,
        !is_unicode_whitespace(c),
{
}

proof fn lemma_plain_ident_reads_all(s: Seq<char>, j: int, acc: Seq<char>)
    requires
        0 <= j <= s.len(),
        forall|k: int| j <= k < s.len() ==> is_plain_char(#[trigger] s[k]),
    ensures
        plain_ident(s, j, acc) == (acc + s.subrange(j, s.len() as int), s.len() as int),
    decreases s.len() - j,
{
    if j < s.len() {
        lemma_plain_char(s[j]);
        lemma_plain_ident_reads_all(s, j + 1, acc.push(s[j]));
        assert(acc.push(s[j]) + s.subrange(j + 1, s.len() as int) =~= acc + s.subrange(j, s.len() as int));
    } else {
        assert(acc + s.subrange(j, s.len() as int) =~= acc);
    }
}

#[verifier::rlimit(30)]
proof fn lemma_quoted_ident_reads_back(s: Seq<char>, j: int, y: Seq<char>, acc: Seq<char>)
    requires
        0 <= j <= s.len(),
        s.subrange(j, s.len() as int) == doubled(y, '"') + seq!['"'],
    ensures
        quoted_ident(s, j, acc) == if (acc + y).len() > 0 {
            Some((acc + y, s.len() as int))
        } else {
            None::<(Seq<char>, int)>
        },
    decreases y.len(),
{
    let rest = s.subrange(j, s.len() as int);
    let d = doubled(y, '"');
    assert(rest.len() == d.len() + 1);
    assert(rest[0] == s[j]);
    if y.len() == 0 {
        assert(d =~= Seq::<char>::empty());
        assert(rest[0] == '"');
        assert(s.len() == j + 1);
        assert(acc + y =~= acc);
    } else {
        let h = y[0];
        let t = y.drop_first();
        let dt = doubled(t, '"');
        assert(d == (if h == '"' { seq!['"', '"'] } else { seq![h] }) + dt);
        if h == '"' {
            assert(rest[0] == '"');
            assert(rest[1] == '"');
            assert(rest[1] == s[j + 1]);
            assert(quoted_ident(s, j, acc) == quoted_ident(s, j + 2, acc.push('"')));
            assert(rest =~= seq!['"', '"'] + (dt + seq!['"']));
            assert(rest.skip(2) =~= dt + seq!['"']);
            assert(s.subrange(j + 2, s.len() as int) =~= rest.skip(2));
            lemma_quoted_ident_reads_back(s, j + 2, t, acc.push('"'));
        } else {
            assert(rest[0] == h);
            assert(quoted_ident(s, j, acc) == quoted_ident(s, j + 1, acc.push(h)));
            assert(rest =~= seq![h] + (dt + seq!['"']));
            assert(rest.skip(1) =~= dt + seq!['"']);
            assert(s.subrange(j + 1, s.len() as int) =~= rest.skip(1));
            lemma_quoted_ident_reads_back(s, j + 1, t, acc.push(h));
        }
        assert(acc.push(h) + t =~= acc + y);
    }
}

/// Printing an identifier the way PostgreSQL does and reading the printed
/// name back gives the identifier itself: a plain name unquoted, any other
/// name quoted with embedded quotes doubled.
pub proof fn lemma_canonical_identifier_reads_back(x: Seq<char>)
    requires
        x.len() > 0,
    ensures
        qualified_name(canonical_identifier(x)) == Some(seq![x]),
{
    let c = canonical_identifier(x);
    if is_plain_identifier(x) {
        assert(forall|k: int| 0 <= k < x.len() ==> is_plain_char(#[trigger] x[k]));
        lemma_plain_char(x[0]);
        lemma_plain_char(x[x.len() - 1]);
        lemma_plain_ident_reads_all(x, 1, seq![ascii_lower_char(x[0])]);
        assert(seq![x[0]] + x.subrange(1, x.len() as int) =~= x);
    } else {
        crate::sql_text::lemma_doubled_concat(Seq::empty(), x, '"');
        assert(c == seq!['"'] + doubled(x, '"') + seq!['"']);
        assert(c[0] == '"');
        assert(c[c.len() - 1] == '"');
        assert(c.subrange(1, c.len() as int) =~= doubled(x, '"') + seq!['"']);
        lemma_quoted_ident_reads_back(c, 1, x, Seq::empty());
        assert(Seq::<char>::empty() + x =~= x);
    }
    assert(skip_whitespace(c, 0) == 0);
    assert(trailing_whitespace(c, c.len() as int) == c.len());
    assert(c.subrange(0, c.len() as int) =~= c);
    assert(trimmed(c) == c);
}

/// Whether two texts are equal ignoring ASCII case.
pub open spec fn eq_ignore_ascii_case(a: Seq<char>, b: Seq<char>) -> bool {
    a.len() == b.len() && forall|i: int| 0 <= i < a.len() ==> ascii_lower_char(#[trigger] a[i]) == ascii_lower_char(b[i])
}

/// The schema and table a table name denotes: an unqualified name and the
/// `public` schema are DuckLake's `main`.
pub open spec fn table_name(raw: Seq<char>) -> Option<(Seq<char>, Seq<char>)> {
    match qualified_name(raw) {
        None => None,
        Some(parts) => if parts.len() == 1 {
            Some(("main"@, parts[0]))
        } else {
            Some((if eq_ignore_ascii_case(parts[0], "public"@) { "main"@ } else { parts[0] }, parts[1]))
        },
    }
}

proof fn lemma_skip_bounds(s: Seq<char>, i: int)
    requires
        0 <= i <= s.len(),
    ensures
        i <= skip_whitespace(s, i) <= s.len(),
    decreases s.len() - i,
{
    if i < s.len() && is_unicode_whitespace(s[i]) {
        lemma_skip_bounds(s, i + 1);
    }
}

proof fn lemma_trailing_bounds(s: Seq<char>, j: int)
    requires
        0 <= j <= s.len(),
    ensures
        0 <= trailing_whitespace(s, j) <= j,
    decreases j,
{
    if j > 0 && is_unicode_whitespace(s[j - 1]) {
        lemma_trailing_bounds(s, j - 1);
    }
}

/// Skip whitespace from `at`.
pub fn skip_pg_name_whitespace(text: &str, at: usize) -> (k: usize)
    requires
        at <= text@.len(),
    ensures
        k == skip_whitespace(text@, at as int),
{
    let n = text.unicode_len();
    let mut i = at;
    while i < n
        invariant
            n == text@.len(),
            at <= i <= n,
            skip_whitespace(text@, i as int) == skip_whitespace(text@, at as int),
        decreases n - i,
    {
        if !is_whitespace(text.get_char(i)) {
            return i;
        }
        i = i + 1;
    }
    i
}

fn trim_text(raw: &str) -> (t: &str)
    ensures
        t@ == trimmed(raw@),
{
    let n = raw.unicode_len();
    let start = skip_pg_name_whitespace(raw, 0);
    let mut end = n;
    while end > 0 && is_whitespace(raw.get_char(end - 1))
        invariant
            n == raw@.len(),
            end <= n,
            trailing_whitespace(raw@, end as int) == trailing_whitespace(raw@, n as int),
        decreases end,
    {
        end = end - 1;
    }
    proof {
        lemma_skip_bounds(raw@, 0);
    }
    if end <= start {
        let empty = raw.substring_char(0, 0);
        assert(empty@ =~= Seq::<char>::empty());
        empty
    } else {
        raw.substring_char(start, end)
    }
}

/// Parse a possibly schema-qualified PostgreSQL name into its parts.
pub fn parse_pg_qualified_name(raw: &str) -> (parts: Option<Vec<String>>)
    ensures
        match qualified_name(raw@) {
            Some(p) => parts matches Some(v) && v@.map_values(|s: String| s@) == p,
            None => parts is None,
        },
{
    let t = trim_text(raw);
    let n = t.unicode_len();
    let (first, e1) = match parse_pg_identifier(t, 0) {
        Some(found) => found,
        None => return None,
    };
    proof {
        if t@[0] == '"' {
            lemma_quoted_ident_end(t@, 1, Seq::empty());
        } else {
            lemma_plain_ident_end(t@, 1, seq![ascii_lower_char(t@[0])]);
        }
    }
    let k = skip_pg_name_whitespace(t, e1);
    proof {
        lemma_skip_bounds(t@, e1 as int);
    }
    if k < n && t.get_char(k) == '.' {
        let k2 = skip_pg_name_whitespace(t, k + 1);
        proof {
            lemma_skip_bounds(t@, k + 1);
        }
        let (second, e2) = match parse_pg_identifier(t, k2) {
            Some(found) => found,
            None => return None,
        };
        proof {
            if t@[k2 as int] == '"' {
                lemma_quoted_ident_end(t@, k2 + 1, Seq::empty());
            } else {
                lemma_plain_ident_end(t@, k2 + 1, seq![ascii_lower_char(t@[k2 as int])]);
            }
        }
        let k3 = skip_pg_name_whitespace(t, e2);
        if k3 >= n {
            let ghost f = first@;
            let ghost sv = second@;
            let mut parts: Vec<String> = Vec::new();
            parts.push(first);
            parts.push(second);
            assert(parts@.map_values(|s: String| s@) =~= seq![f, sv]);
            Some(parts)
        } else {
            None
        }
    } else if k >= n {
        let ghost f = first@;
        let mut parts: Vec<String> = Vec::new();
        parts.push(first);
        assert(parts@.map_values(|s: String| s@) =~= seq![f]);
        Some(parts)
    } else {
        None
    }
}

fn eq_ignore_case(a: &str, b: &str) -> (r: bool)
    ensures
        r == eq_ignore_ascii_case(a@, b@),
{
    let n = a.unicode_len();
    if n != b.unicode_len() {
        return false;
    }
    let mut i: usize = 0;
    while i < n
        invariant
            n == a@.len() == b@.len(),
            i <= n,
            forall|k: int| 0 <= k < i ==> ascii_lower_char(#[trigger] a@[k]) == ascii_lower_char(b@[k]),
        decreases n - i,
    {
        let x = a.get_char(i);
        let y = b.get_char(i);
        let lx = if 'A' <= x && x <= 'Z' { ((x as u32) + 32) } else { x as u32 };
        let ly = if 'A' <= y && y <= 'Z' { ((y as u32) + 32) } else { y as u32 };
        if lx != ly {
            assert(ascii_lower_char(a@[i as int]) as u32 == lx);
            assert(ascii_lower_char(b@[i as int]) as u32 == ly);
            return false;
        }
        assert(ascii_lower_char(a@[i as int]) as u32 == ascii_lower_char(b@[i as int]) as u32);
        i = i + 1;
    }
    true
}

/// Parse a table name into the DuckLake schema and table it denotes.
pub fn parse_pg_table_name(raw: &str) -> (r: Option<(String, String)>)
    ensures
        match table_name(raw@) {
            Some((schema, table)) => r matches Some((s, t)) && s@ == schema && t@ == table,
            None => r is None,
        },
{
    let parts = match parse_pg_qualified_name(raw) {
        Some(p) => p,
        None => return None,
    };
    let ghost pv = parts@.map_values(|s: String| s@);
    assert(pv.len() == parts@.len());
    if parts.len() == 1 {
        assert(pv[0] == parts@[0]@);
        return Some((String::from_str("main"), parts[0].clone()));
    }
    assert(pv[0] == parts@[0]@ && pv[1] == parts@[1]@);
    let schema = if eq_ignore_case(parts[0].as_str(), "public") {
        String::from_str("main")
    } else {
        parts[0].clone()
    };
    Some((schema, parts[1].clone()))
}

// ─── Statement text and client errors ─────────────────────────────────────

/// An error as the client is answered: its SQLSTATE and message.
#[derive(Clone, Copy, Debug, PartialEq, Eq)]
pub struct SqlError {
    pub sqlstate: &'static str,
    pub message: &'static str,
}

/// A statement's text as the parser gets it: trimmed, one trailing
/// semicolon dropped and trimmed again; empty text is refused.
pub open spec fn normalized_sql(sql: Seq<char>) -> Option<Seq<char>> {
    let t = trimmed(sql);
    if t.len() == 0 {
        None
    } else if t.last() == ';' {
        Some(trimmed(t.drop_last()))
    } else {
        Some(t)
    }
}

/// Normalize a statement's text for the parser.
pub fn normalize_sql(sql: &str) -> (r: Result<String, SqlError>)
    ensures
        match normalized_sql(sql@) {
            Some(t) => r matches Ok(s) && s@ == t,
            None => r matches Err(e) && e.sqlstate@ == "42601"@ && e.message@ == "SQL statement must not be empty"@,
        },
{
    let t = trim_text(sql);
    let n = t.unicode_len();
    if n == 0 {
        return Err(SqlError { sqlstate: "42601", message: "SQL statement must not be empty" });
    }
    if t.get_char(n - 1) == ';' {
        let head = t.substring_char(0, n - 1);
        assert(head@ =~= t@.drop_last());
        Ok(trim_text(head).to_owned())
    } else {
        Ok(t.to_owned())
    }
}

/// How a refused admission is answered.
pub fn admission_error(error: AdmissionError) -> (e: SqlError)
    ensures
        match error {
            AdmissionError::QueueFull => e.sqlstate@ == "53400"@ && e.message@
                == "DuckDB query admission queue is full"@,
            AdmissionError::QueueTimeout => e.sqlstate@ == "57014"@ && e.message@
                == "canceling statement due to queue timeout"@,
            AdmissionError::Closed => e.sqlstate@ == "57P01"@ && e.message@ == "DuckDB query admission is unavailable"@,
        },
{
    match error {
        AdmissionError::QueueFull => SqlError { sqlstate: "53400", message: "DuckDB query admission queue is full" },
        AdmissionError::QueueTimeout => SqlError {
            sqlstate: "57014",
            message: "canceling statement due to queue timeout",
        },
        AdmissionError::Closed => SqlError { sqlstate: "57P01", message: "DuckDB query admission is unavailable" },
    }
}

/// How a statement other than `COMMIT` or `ROLLBACK` is answered in a
/// failed transaction.
pub fn failed_transaction_error() -> (e: SqlError)
    ensures
        e.sqlstate@ == "25P02"@,
        e.message@ == "current transaction is aborted, commands ignored until end of transaction block"@,
{
    SqlError {
        sqlstate: "25P02",
        message: "current transaction is aborted, commands ignored until end of transaction block",
    }
}

// ─── Names the statement policy recognises ─────────────────────────────────

/// Whether an identifier names `expected`: exactly when quoted, ignoring
/// ASCII case when not.
pub open spec fn identifier_names(value: Seq<char>, quoted: bool, expected: Seq<char>) -> bool {
    if quoted { value == expected } else { eq_ignore_ascii_case(value, expected) }
}

/// Whether an identifier names `expected`: exactly when quoted, ignoring
/// ASCII case when not.
pub fn pg_identifier_matches(value: &str, quoted: bool, expected: &str) -> (r: bool)
    ensures
        r == identifier_names(value@, quoted, expected@),
{
    if quoted {
        text_eq(value, expected)
    } else {
        eq_ignore_case(value, expected)
    }
}

/// A session variable `SHOW` answers.
#[derive(Clone, Copy, Debug, PartialEq, Eq, Structural)]
pub enum SessionVariable {
    SearchPath,
    ClientEncoding,
    StandardConformingStrings,
    ServerVersion,
    ServerVersionNum,
}

/// The session variable a `SHOW` of one name asks for, names compared
/// ignoring ASCII case.
pub open spec fn show_variable_of(name: Seq<char>) -> Option<SessionVariable> {
    if eq_ignore_ascii_case(name, "search_path"@) {
        Some(SessionVariable::SearchPath)
    } else if eq_ignore_ascii_case(name, "client_encoding"@) {
        Some(SessionVariable::ClientEncoding)
    } else if eq_ignore_ascii_case(name, "standard_conforming_strings"@) {
        Some(SessionVariable::StandardConformingStrings)
    } else if eq_ignore_ascii_case(name, "server_version"@) {
        Some(SessionVariable::ServerVersion)
    } else if eq_ignore_ascii_case(name, "server_version_num"@) {
        Some(SessionVariable::ServerVersionNum)
    } else {
        None
    }
}

/// The session variable a `SHOW` of one name asks for.
pub fn supported_show_variable(name: &str) -> (v: Option<SessionVariable>)
    ensures
        v == show_variable_of(name@),
{
    if eq_ignore_case(name, "search_path") {
        Some(SessionVariable::SearchPath)
    } else if eq_ignore_case(name, "client_encoding") {
        Some(SessionVariable::ClientEncoding)
    } else if eq_ignore_case(name, "standard_conforming_strings") {
        Some(SessionVariable::StandardConformingStrings)
    } else if eq_ignore_case(name, "server_version") {
        Some(SessionVariable::ServerVersion)
    } else if eq_ignore_case(name, "server_version_num") {
        Some(SessionVariable::ServerVersionNum)
    } else {
        None
    }
}

/// The spatial functions refused outright, by their name in lowercase and
/// the name the refusal reports.
pub open spec fn unsupported_spatial_functions() -> Seq<(Seq<char>, Seq<char>)> {
    seq![
        ("st_ndims"@, "ST_NDims"@),
        ("st_coorddim"@, "ST_CoordDim"@),
        ("st_geometryn"@, "ST_GeometryN"@),
        ("st_asewkt"@, "ST_AsEWKT"@),
        ("st_zmflag"@, "ST_Zmflag"@),
        ("st_xmax"@, "ST_XMax"@),
        ("st_ymax"@, "ST_YMax"@),
        ("st_setsrid"@, "ST_SetSRID"@),
        ("find_srid"@, "Find_SRID"@),
    ]
}

/// The name an unsupported spatial call is refused under: a call of a
/// refused function, or `ST_MakeEnvelope` with the SRID argument.
pub open spec fn unsupported_spatial_call(name: Seq<char>, argument_count: nat) -> Option<Seq<char>> {
    if eq_ignore_ascii_case(name, "st_makeenvelope"@) && argument_count == 5 {
        Some("ST_MakeEnvelope(..., SRID)"@)
    } else {
        first_refused(name, 0)
    }
}

/// The report name of the first refused function from `i` on that `name`
/// names.
pub open spec fn first_refused(name: Seq<char>, i: int) -> Option<Seq<char>>
    decreases unsupported_spatial_functions().len() - i,
{
    if i < 0 || i >= unsupported_spatial_functions().len() {
        None
    } else if eq_ignore_ascii_case(name, unsupported_spatial_functions()[i].0) {
        Some(unsupported_spatial_functions()[i].1)
    } else {
        first_refused(name, i + 1)
    }
}

/// The name an unsupported spatial call of `name` with `argument_count`
/// arguments is refused under, if it is refused.
pub fn unsupported_spatial_function(name: &str, argument_count: usize) -> (r: Option<&'static str>)
    ensures
        match unsupported_spatial_call(name@, argument_count as nat) {
            Some(label) => r matches Some(l) && l@ == label,
            None => r is None,
        },
{
    proof {
        reveal_with_fuel(first_refused, 10);
    }
    if eq_ignore_case(name, "st_makeenvelope") && argument_count == 5 {
        Some("ST_MakeEnvelope(..., SRID)")
    } else if eq_ignore_case(name, "st_ndims") {
        Some("ST_NDims")
    } else if eq_ignore_case(name, "st_coorddim") {
        Some("ST_CoordDim")
    } else if eq_ignore_case(name, "st_geometryn") {
        Some("ST_GeometryN")
    } else if eq_ignore_case(name, "st_asewkt") {
        Some("ST_AsEWKT")
    } else if eq_ignore_case(name, "st_zmflag") {
        Some("ST_Zmflag")
    } else if eq_ignore_case(name, "st_xmax") {
        Some("ST_XMax")
    } else if eq_ignore_case(name, "st_ymax") {
        Some("ST_YMax")
    } else if eq_ignore_case(name, "st_setsrid") {
        Some("ST_SetSRID")
    } else if eq_ignore_case(name, "find_srid") {
        Some("Find_SRID")
    } else {
        None
    }
}

/// The session identity functions a statement may call.
pub open spec fn session_identity_of(name: Seq<char>, quoted: bool) -> Option<Seq<char>> {
    if identifier_names(name, quoted, "current_user"@) {
        Some("current_user"@)
    } else if identifier_names(name, quoted, "session_user"@) {
        Some("session_user"@)
    } else if identifier_names(name, quoted, "current_role"@) {
        Some("current_role"@)
    } else if identifier_names(name, quoted, "user"@) {
        Some("user"@)
    } else {
        None
    }
}

/// The session identity function an identifier names, if any.
pub fn session_identity_name(name: &str, quoted: bool) -> (r: Option<&'static str>)
    ensures
        match session_identity_of(name@, quoted) {
            Some(n) => r matches Some(m) && m@ == n,
            None => r is None,
        },
{
    if pg_identifier_matches(name, quoted, "current_user") {
        Some("current_user")
    } else if pg_identifier_matches(name, quoted, "session_user") {
        Some("session_user")
    } else if pg_identifier_matches(name, quoted, "current_role") {
        Some("current_role")
    } else if pg_identifier_matches(name, quoted, "user") {
        Some("user")
    } else {
        None
    }
}

/// The maintained `pg_catalog` relation a table identifier names.
pub open spec fn pg_catalog_relation_of(table: Seq<char>, quoted: bool) -> Option<Seq<char>> {
    if identifier_names(table, quoted, "pg_namespace"@) {
        Some("pg_namespace"@)
    } else if identifier_names(table, quoted, "pg_database"@) {
        Some("pg_database"@)
    } else if identifier_names(table, quoted, "pg_proc"@) {
        Some("pg_proc"@)
    } else if identifier_names(table, quoted, "pg_type"@) {
        Some("pg_type"@)
    } else if identifier_names(table, quoted, "pg_class"@) {
        Some("pg_class"@)
    } else if identifier_names(table, quoted, "pg_attribute"@) {
        Some("pg_attribute"@)
    } else if identifier_names(table, quoted, "pg_attrdef"@) {
        Some("pg_attrdef"@)
    } else if identifier_names(table, quoted, "pg_description"@) {
        Some("pg_description"@)
    } else if identifier_names(table, quoted, "pg_constraint"@) {
        Some("pg_constraint"@)
    } else if identifier_names(table, quoted, "pg_index"@) {
        Some("pg_index"@)
    } else if identifier_names(table, quoted, "pg_range"@) {
        Some("pg_range"@)
    } else if identifier_names(table, quoted, "pg_collation"@) {
        Some("pg_collation"@)
    } else if identifier_names(table, quoted, "pg_roles"@) {
        Some("pg_roles"@)
    } else if identifier_names(table, quoted, "pg_auth_members"@) {
        Some("pg_auth_members"@)
    } else if identifier_names(table, quoted, "geometry_columns"@) {
        Some("geometry_columns"@)
    } else if identifier_names(table, quoted, "spatial_ref_sys"@) {
        Some("spatial_ref_sys"@)
    } else {
        None
    }
}

/// The maintained `pg_catalog` relation a table identifier names, if any.
pub fn maintained_pg_catalog_table(table: &str, quoted: bool) -> (r: Option<&'static str>)
    ensures
        match pg_catalog_relation_of(table@, quoted) {
            Some(n) => r matches Some(m) && m@ == n,
            None => r is None,
        },
{
    if pg_identifier_matches(table, quoted, "pg_namespace") {
        Some("pg_namespace")
    } else if pg_identifier_matches(table, quoted, "pg_database") {
        Some("pg_database")
    } else if pg_identifier_matches(table, quoted, "pg_proc") {
        Some("pg_proc")
    } else if pg_identifier_matches(table, quoted, "pg_type") {
        Some("pg_type")
    } else if pg_identifier_matches(table, quoted, "pg_class") {
        Some("pg_class")
    } else if pg_identifier_matches(table, quoted, "pg_attribute") {
        Some("pg_attribute")
    } else if pg_identifier_matches(table, quoted, "pg_attrdef") {
        Some("pg_attrdef")
    } else if pg_identifier_matches(table, quoted, "pg_description") {
        Some("pg_description")
    } else if pg_identifier_matches(table, quoted, "pg_constraint") {
        Some("pg_constraint")
    } else if pg_identifier_matches(table, quoted, "pg_index") {
        Some("pg_index")
    } else if pg_identifier_matches(table, quoted, "pg_range") {
        Some("pg_range")
    } else if pg_identifier_matches(table, quoted, "pg_collation") {
        Some("pg_collation")
    } else if pg_identifier_matches(table, quoted, "pg_roles") {
        Some("pg_roles")
    } else if pg_identifier_matches(table, quoted, "pg_auth_members") {
        Some("pg_auth_members")
    } else if pg_identifier_matches(table, quoted, "geometry_columns") {
        Some("geometry_columns")
    } else if pg_identifier_matches(table, quoted, "spatial_ref_sys") {
        Some("spatial_ref_sys")
    } else {
        None
    }
}

/// The maintained `information_schema` relation a table identifier names.
pub open spec fn information_schema_relation_of(table: Seq<char>, quoted: bool) -> Option<Seq<char>> {
    if identifier_names(table, quoted, "schemata"@) {
        Some("schemata"@)
    } else if identifier_names(table, quoted, "tables"@) {
        Some("tables"@)
    } else if identifier_names(table, quoted, "columns"@) {
        Some("columns"@)
    } else if identifier_names(table, quoted, "table_privileges"@) {
        Some("table_privileges"@)
    } else if identifier_names(table, quoted, "role_table_grants"@) {
        Some("role_table_grants"@)
    } else if identifier_names(table, quoted, "column_privileges"@) {
        Some("column_privileges"@)
    } else if identifier_names(table, quoted, "role_column_grants"@) {
        Some("role_column_grants"@)
    } else {
        None
    }
}

/// The maintained `information_schema` relation a schema-qualified name
/// names, if any.
pub fn maintained_information_schema_table(schema: &str, schema_quoted: bool, table: &str, table_quoted: bool) -> (r:
    Option<&'static str>)
    ensures
        match (if identifier_names(schema@, schema_quoted, "information_schema"@) {
            information_schema_relation_of(table@, table_quoted)
        } else {
            None
        }) {
            Some(n) => r matches Some(m) && m@ == n,
            None => r is None,
        },
{
    if !pg_identifier_matches(schema, schema_quoted, "information_schema") {
        return None;
    }
    if pg_identifier_matches(table, table_quoted, "schemata") {
        Some("schemata")
    } else if pg_identifier_matches(table, table_quoted, "tables") {
        Some("tables")
    } else if pg_identifier_matches(table, table_quoted, "columns") {
        Some("columns")
    } else if pg_identifier_matches(table, table_quoted, "table_privileges") {
        Some("table_privileges")
    } else if pg_identifier_matches(table, table_quoted, "role_table_grants") {
        Some("role_table_grants")
    } else if pg_identifier_matches(table, table_quoted, "column_privileges") {
        Some("column_privileges")
    } else if pg_identifier_matches(table, table_quoted, "role_column_grants") {
        Some("role_column_grants")
    } else {
        None
    }
}

} // verus!
