//! The statement policy of the wire server: which parsed statements a client
//! may run, in which order the refusals are tried, what kind of operation an
//! accepted statement is, and the SQL a supported `SHOW` runs as. The
//! findings the policy reads of a statement are gathered from its syntax
//! tree by the server.
use vstd::prelude::*;

use crate::pg_names::{show_variable_of, supported_show_variable, SessionVariable, StatementKind};
use crate::postgres_compat::{POSTGRESQL_COMPATIBILITY_VERSION, POSTGRESQL_COMPATIBILITY_VERSION_NUM};
use crate::session::{answers, ClientError};

verus! {

/// The protocol a statement arrives by.
#[derive(Clone, Copy, Debug)]
pub enum ProtocolMode {
    Simple,
    Extended,
}

/// The form of a parsed statement, as far as the policy tells forms apart.
#[derive(Clone, Debug)]
pub enum StatementForm {
    Query,
    CreateTable,
    Insert,
    Update,
    Delete,
    /// `BEGIN`/`START TRANSACTION`: `Some(read_only)` when it is plain or
    /// `READ ONLY` only, `None` for any other options.
    Begin { access: Option<bool> },
    /// `COMMIT`; `plain` without AND CHAIN or other modifiers.
    Commit { plain: bool },
    /// `ROLLBACK`; `plain` without AND CHAIN or a savepoint.
    Rollback { plain: bool },
    /// `SET`; `session` when it is a supported session setting.
    SetVariable { session: bool },
    Reset,
    Show { variable: String },
    Call,
    Other,
}

/// What a maintenance `CALL` names: a known procedure, an unknown one, or
/// an error found reading its arguments.
#[derive(Clone, Debug)]
pub enum MaintenanceCall {
    Known,
    Unknown,
    Invalid(ClientError),
}

/// The findings the policy reads of one parsed statement.
#[derive(Debug)]
pub struct StatementShape {
    pub form: StatementForm,
    pub unsupported_spatial_function: Option<String>,
    pub invalid_quoted_catalog_reference: bool,
    pub private_catalog_reference: bool,
    pub forbidden_client_scalar_function: Option<String>,
    pub invalid_session_identity_function: bool,
    /// Reading a request-context command out of the statement: an error,
    /// or whether it is one.
    pub request_context: Result<bool, ClientError>,
    pub invalid_request_context_function: bool,
    /// A refused privilege inquiry.
    pub privilege_error: Option<ClientError>,
    pub invalid_maintained_function: Option<String>,
    pub invalid_maintained_cast: bool,
    pub operator_syntax_supported: bool,
    pub identity_catalog_feature: Option<String>,
    pub internal_control_schema_reference: bool,
    pub forbidden_catalog_table_function: Option<String>,
    pub reserved_catalog_cte: Option<String>,
    pub contains_table_command: bool,
    pub unsupported_catalog_relation: Option<String>,
    pub invalid_information_schema_factor: bool,
    pub catalog_query_shape_supported: bool,
    /// Whether a `SET`/`RESET` is a role command.
    pub role_command: bool,
    pub maintenance: MaintenanceCall,
}

/// A statement the policy accepts: its kind, and for `SHOW` the query it
/// runs as.
#[derive(Clone, Debug)]
pub struct ValidatedStatement {
    pub kind: StatementKind,
    pub show_sql: Option<String>,
}

/// A refusal: SQLSTATE and message.
pub type Refusal = (Seq<char>, Seq<char>);

/// The refusal of an error value.
pub open spec fn refusal_of(e: ClientError) -> Refusal {
    (e.sqlstate@, e.message@)
}

/// The refusals tried before a statement's kind is decided, in order.
pub open spec fn shape_refusal(s: StatementShape, identity_enabled: bool) -> Option<Refusal> {
    if s.unsupported_spatial_function is Some {
        Some(("0A000"@, "PostGIS function "@ + s.unsupported_spatial_function->0@ + " is not supported by QuackGIS"@))
    } else if s.invalid_quoted_catalog_reference {
        Some(("42703"@, "quoted PostgreSQL catalog identifier does not match the maintained lowercase name"@))
    } else if s.private_catalog_reference {
        Some(("0A000"@, "direct references to the private QuackGIS catalog projection are not supported"@))
    } else if s.forbidden_client_scalar_function is Some {
        Some(("0A000"@, "DuckDB scalar function "@ + s.forbidden_client_scalar_function->0@ + " is not exposed through pgwire"@))
    } else if s.invalid_session_identity_function {
        Some(("0A000"@, "unsupported PostgreSQL session identity expression shape"@))
    } else if s.request_context is Err {
        Some(refusal_of(s.request_context->Err_0))
    } else if s.invalid_request_context_function {
        Some(("0A000"@, "unsupported or non-transaction-local PostgreSQL request-context expression"@))
    } else if s.privilege_error is Some {
        Some(refusal_of(s.privilege_error->0))
    } else if s.invalid_maintained_function is Some {
        Some(("0A000"@, "unsupported PostgreSQL function shape for "@ + s.invalid_maintained_function->0@))
    } else if s.invalid_maintained_cast {
        Some(("0A000"@, "unsupported PostgreSQL registered-object cast shape"@))
    } else if !s.operator_syntax_supported {
        Some(("0A000"@, "unsupported PostgreSQL custom operator or collation shape"@))
    } else if !identity_enabled && s.identity_catalog_feature is Some {
        Some(("0A000"@, "PostgreSQL catalog feature "@ + s.identity_catalog_feature->0@ + " requires durable catalog identity"@))
    } else if s.internal_control_schema_reference {
        Some(("42501"@, "direct references to the QuackGIS control schema are not permitted"@))
    } else if s.forbidden_catalog_table_function is Some {
        Some(("0A000"@, "DuckDB table function "@ + s.forbidden_catalog_table_function->0@ + " is not exposed through pgwire"@))
    } else if s.reserved_catalog_cte is Some {
        Some(("0A000"@, "CTE name "@ + s.reserved_catalog_cte->0@ + " conflicts with the reserved PostgreSQL catalog namespace"@))
    } else if s.contains_table_command {
        Some(("0A000"@, "TABLE query form is not supported by QuackGIS authorization or catalog routing"@))
    } else if s.unsupported_catalog_relation is Some {
        Some(("0A000"@, "PostgreSQL catalog relation "@ + s.unsupported_catalog_relation->0@ + " is not implemented by QuackGIS"@))
    } else if s.invalid_information_schema_factor {
        Some(("0A000"@, "PostgreSQL information-schema relations do not accept table-function modifiers"@))
    } else if !s.catalog_query_shape_supported {
        Some(("0A000"@, "PostgreSQL catalog query shape is outside the maintained projection contract"@))
    } else {
        None
    }
}

/// The refusal of a statement shape the policy does not run.
pub open spec fn unsupported_shape() -> Refusal {
    ("0A000"@, "unsupported DuckDB pgwire statement shape"@)
}

/// What an accepted statement's form makes it, or why it is refused.
pub open spec fn kind_of(s: StatementShape, mode: ProtocolMode) -> Result<StatementKind, Refusal> {
    match s.form {
        StatementForm::Query => if s.request_context == Ok::<bool, ClientError>(true) {
            Ok(StatementKind::RequestContext)
        } else {
            Ok(StatementKind::Read)
        },
        StatementForm::CreateTable => Ok(StatementKind::Write("CREATE TABLE")),
        StatementForm::Insert => Ok(StatementKind::Write("INSERT")),
        StatementForm::Update => Ok(StatementKind::Write("UPDATE")),
        StatementForm::Delete => Ok(StatementKind::Write("DELETE")),
        StatementForm::Begin { access } => match access {
            Some(read_only) => Ok(StatementKind::Begin { read_only }),
            None => Err(unsupported_shape()),
        },
        StatementForm::Commit { plain } => if plain {
            Ok(StatementKind::Commit)
        } else {
            Err(unsupported_shape())
        },
        StatementForm::Rollback { plain } => if plain {
            Ok(StatementKind::Rollback)
        } else {
            Err(unsupported_shape())
        },
        StatementForm::SetVariable { session } => if session {
            Ok(StatementKind::SessionSet)
        } else if s.role_command {
            Ok(StatementKind::Role)
        } else {
            Err(unsupported_shape())
        },
        StatementForm::Reset => if s.role_command {
            Ok(StatementKind::Role)
        } else {
            Err(unsupported_shape())
        },
        StatementForm::Show { variable } => if show_variable_of(variable@) is Some {
            Ok(StatementKind::Read)
        } else {
            Err(unsupported_shape())
        },
        StatementForm::Call => match mode {
            ProtocolMode::Simple => match s.maintenance {
                MaintenanceCall::Known => Ok(StatementKind::Maintenance),
                MaintenanceCall::Unknown => Err(("0A000"@, "unsupported DuckDB maintenance procedure"@)),
                MaintenanceCall::Invalid(e) => Err(refusal_of(e)),
            },
            ProtocolMode::Extended => Err(unsupported_shape()),
        },
        StatementForm::Other => Err(unsupported_shape()),
    }
}

/// The query a supported `SHOW` of a session variable runs as.
pub open spec fn show_query(v: SessionVariable) -> Seq<char> {
    match v {
        SessionVariable::SearchPath => "SELECT 'public'::VARCHAR AS search_path"@,
        SessionVariable::ClientEncoding => "SELECT 'UTF8'::VARCHAR AS client_encoding"@,
        SessionVariable::StandardConformingStrings => "SELECT 'on'::VARCHAR AS standard_conforming_strings"@,
        SessionVariable::ServerVersion => "SELECT '"@ + POSTGRESQL_COMPATIBILITY_VERSION@ + "'::VARCHAR AS server_version"@,
        SessionVariable::ServerVersionNum => "SELECT '"@ + POSTGRESQL_COMPATIBILITY_VERSION_NUM@
            + "'::VARCHAR AS server_version_num"@,
    }
}

/// The policy's answer to parsed statements: exactly one statement, then
/// the refusals in order, then its kind; a `SHOW` runs as its query.
pub open spec fn statement_policy(
    stmts: Seq<StatementShape>,
    mode: ProtocolMode,
    identity_enabled: bool,
) -> Result<(StatementKind, Option<Seq<char>>), Refusal> {
    if stmts.len() != 1 {
        Err(("0A000"@, "DuckDB pgwire backend supports exactly one statement"@))
    } else {
        let s = stmts[0];
        match shape_refusal(s, identity_enabled) {
            Some(r) => Err(r),
            None => match kind_of(s, mode) {
                Err(r) => Err(r),
                Ok(kind) => Ok(
                    (
                        kind,
                        match s.form {
                            StatementForm::Show { variable } => Some(show_query(show_variable_of(variable@)->0)),
                            _ => None,
                        },
                    ),
                ),
            },
        }
    }
}

fn framed(prefix: &str, name: &String, suffix: &str) -> (m: String)
    ensures
        m@ == prefix@ + name@ + suffix@,
{
    let mut m = prefix.to_owned();
    m.append(name.as_str());
    m.append(suffix);
    m
}

fn refuse(sqlstate: &'static str, message: String) -> (e: ClientError)
    ensures
        e.sqlstate == sqlstate,
        e.message@ == message@,
{
    ClientError { sqlstate, message }
}

fn copy_error(e: &ClientError) -> (c: ClientError)
    ensures
        refusal_of(c) == refusal_of(*e),
{
    ClientError { sqlstate: e.sqlstate, message: e.message.clone() }
}

fn shape_check(s: &StatementShape, identity_enabled: bool) -> (r: Option<ClientError>)
    ensures
        match r {
            Some(e) => shape_refusal(*s, identity_enabled) == Some(refusal_of(e)),
            None => shape_refusal(*s, identity_enabled) is None,
        },
{
    if let Some(f) = &s.unsupported_spatial_function {
        return Some(refuse("0A000", framed("PostGIS function ", f, " is not supported by QuackGIS")));
    }
    if s.invalid_quoted_catalog_reference {
        return Some(refuse("42703", "quoted PostgreSQL catalog identifier does not match the maintained lowercase name".to_owned()));
    }
    if s.private_catalog_reference {
        return Some(refuse("0A000", "direct references to the private QuackGIS catalog projection are not supported".to_owned()));
    }
    if let Some(f) = &s.forbidden_client_scalar_function {
        return Some(refuse("0A000", framed("DuckDB scalar function ", f, " is not exposed through pgwire")));
    }
    if s.invalid_session_identity_function {
        return Some(refuse("0A000", "unsupported PostgreSQL session identity expression shape".to_owned()));
    }
    if let Err(e) = &s.request_context {
        return Some(copy_error(e));
    }
    if s.invalid_request_context_function {
        return Some(refuse("0A000", "unsupported or non-transaction-local PostgreSQL request-context expression".to_owned()));
    }
    if let Some(e) = &s.privilege_error {
        return Some(copy_error(e));
    }
    if let Some(f) = &s.invalid_maintained_function {
        let mut message = "unsupported PostgreSQL function shape for ".to_owned();
        message.append(f.as_str());
        return Some(refuse("0A000", message));
    }
    if s.invalid_maintained_cast {
        return Some(refuse("0A000", "unsupported PostgreSQL registered-object cast shape".to_owned()));
    }
    if !s.operator_syntax_supported {
        return Some(refuse("0A000", "unsupported PostgreSQL custom operator or collation shape".to_owned()));
    }
    if !identity_enabled {
        if let Some(f) = &s.identity_catalog_feature {
            return Some(refuse("0A000", framed("PostgreSQL catalog feature ", f, " requires durable catalog identity")));
        }
    }
    if s.internal_control_schema_reference {
        return Some(refuse("42501", "direct references to the QuackGIS control schema are not permitted".to_owned()));
    }
    if let Some(f) = &s.forbidden_catalog_table_function {
        return Some(refuse("0A000", framed("DuckDB table function ", f, " is not exposed through pgwire")));
    }
    if let Some(f) = &s.reserved_catalog_cte {
        return Some(refuse("0A000", framed("CTE name ", f, " conflicts with the reserved PostgreSQL catalog namespace")));
    }
    if s.contains_table_command {
        return Some(refuse("0A000", "TABLE query form is not supported by QuackGIS authorization or catalog routing".to_owned()));
    }
    if let Some(f) = &s.unsupported_catalog_relation {
        return Some(refuse("0A000", framed("PostgreSQL catalog relation ", f, " is not implemented by QuackGIS")));
    }
    if s.invalid_information_schema_factor {
        return Some(refuse("0A000", "PostgreSQL information-schema relations do not accept table-function modifiers".to_owned()));
    }
    if !s.catalog_query_shape_supported {
        return Some(refuse("0A000", "PostgreSQL catalog query shape is outside the maintained projection contract".to_owned()));
    }
    None
}

fn unsupported() -> (e: ClientError)
    ensures
        refusal_of(e) == unsupported_shape(),
{
    refuse("0A000", "unsupported DuckDB pgwire statement shape".to_owned())
}

fn decide_kind(s: &StatementShape, mode: ProtocolMode) -> (r: Result<StatementKind, ClientError>)
    ensures
        match r {
            Ok(k) => kind_of(*s, mode) == Ok::<StatementKind, Refusal>(k),
            Err(e) => kind_of(*s, mode) == Err::<StatementKind, Refusal>(refusal_of(e)),
        },
{
    match &s.form {
        StatementForm::Query => if matches!(s.request_context, Ok(true)) {
            Ok(StatementKind::RequestContext)
        } else {
            Ok(StatementKind::Read)
        },
        StatementForm::CreateTable => Ok(StatementKind::Write("CREATE TABLE")),
        StatementForm::Insert => Ok(StatementKind::Write("INSERT")),
        StatementForm::Update => Ok(StatementKind::Write("UPDATE")),
        StatementForm::Delete => Ok(StatementKind::Write("DELETE")),
        StatementForm::Begin { access } => match access {
            Some(read_only) => Ok(StatementKind::Begin { read_only: *read_only }),
            None => Err(unsupported()),
        },
        StatementForm::Commit { plain } => if *plain {
            Ok(StatementKind::Commit)
        } else {
            Err(unsupported())
        },
        StatementForm::Rollback { plain } => if *plain {
            Ok(StatementKind::Rollback)
        } else {
            Err(unsupported())
        },
        StatementForm::SetVariable { session } => if *session {
            Ok(StatementKind::SessionSet)
        } else if s.role_command {
            Ok(StatementKind::Role)
        } else {
            Err(unsupported())
        },
        StatementForm::Reset => if s.role_command {
            Ok(StatementKind::Role)
        } else {
            Err(unsupported())
        },
        StatementForm::Show { variable } => if supported_show_variable(variable.as_str()).is_some() {
            Ok(StatementKind::Read)
        } else {
            Err(unsupported())
        },
        StatementForm::Call => match mode {
            ProtocolMode::Simple => match &s.maintenance {
                MaintenanceCall::Known => Ok(StatementKind::Maintenance),
                MaintenanceCall::Unknown => Err(refuse("0A000", "unsupported DuckDB maintenance procedure".to_owned())),
                MaintenanceCall::Invalid(e) => Err(copy_error(e)),
            },
            ProtocolMode::Extended => Err(unsupported()),
        },
        StatementForm::Other => Err(unsupported()),
    }
}

fn show_sql_of(v: SessionVariable) -> (sql: String)
    ensures
        sql@ == show_query(v),
{
    match v {
        SessionVariable::SearchPath => "SELECT 'public'::VARCHAR AS search_path".to_owned(),
        SessionVariable::ClientEncoding => "SELECT 'UTF8'::VARCHAR AS client_encoding".to_owned(),
        SessionVariable::StandardConformingStrings => "SELECT 'on'::VARCHAR AS standard_conforming_strings".to_owned(),
        SessionVariable::ServerVersion => {
            let mut sql = "SELECT '".to_owned();
            sql.append(POSTGRESQL_COMPATIBILITY_VERSION);
            sql.append("'::VARCHAR AS server_version");
            sql
        },
        SessionVariable::ServerVersionNum => {
            let mut sql = "SELECT '".to_owned();
            sql.append(POSTGRESQL_COMPATIBILITY_VERSION_NUM);
            sql.append("'::VARCHAR AS server_version_num");
            sql
        },
    }
}

/// Apply the statement policy to the parsed statements of a request.
pub fn validate_statement(stmts: &[StatementShape], mode: ProtocolMode, identity_enabled: bool) -> (r: Result<
    ValidatedStatement,
    ClientError,
>)
    ensures
        match r {
            Ok(v) => statement_policy(stmts@, mode, identity_enabled) == Ok::<
                (StatementKind, Option<Seq<char>>),
                Refusal,
            >(
                (
                    v.kind,
                    match v.show_sql {
                        Some(q) => Some(q@),
                        None => None,
                    },
                ),
            ),
            Err(e) => statement_policy(stmts@, mode, identity_enabled) == Err::<
                (StatementKind, Option<Seq<char>>),
                Refusal,
            >(refusal_of(e)),
        },
{
    if stmts.len() != 1 {
        return Err(refuse("0A000", "DuckDB pgwire backend supports exactly one statement".to_owned()));
    }
    let s = &stmts[0];
    if let Some(e) = shape_check(s, identity_enabled) {
        return Err(e);
    }
    let kind = match decide_kind(s, mode) {
        Ok(k) => k,
        Err(e) => return Err(e),
    };
    let show_sql = match &s.form {
        StatementForm::Show { variable } => match supported_show_variable(variable.as_str()) {
            Some(v) => Some(show_sql_of(v)),
            None => None,
        },
        _ => None,
    };
    Ok(ValidatedStatement { kind, show_sql })
}

/// Whether a statement shape carries no finding the policy refuses.
pub open spec fn plain_shape(s: StatementShape) -> bool {
    &&& s.unsupported_spatial_function is None
    &&& !s.invalid_quoted_catalog_reference
    &&& !s.private_catalog_reference
    &&& s.forbidden_client_scalar_function is None
    &&& !s.invalid_session_identity_function
    &&& s.request_context is Ok
    &&& !s.invalid_request_context_function
    &&& s.privilege_error is None
    &&& s.invalid_maintained_function is None
    &&& !s.invalid_maintained_cast
    &&& s.operator_syntax_supported
    &&& s.identity_catalog_feature is None
    &&& !s.internal_control_schema_reference
    &&& s.forbidden_catalog_table_function is None
    &&& s.reserved_catalog_cte is None
    &&& !s.contains_table_command
    &&& s.unsupported_catalog_relation is None
    &&& !s.invalid_information_schema_factor
    &&& s.catalog_query_shape_supported
}

/// A single statement with no refused finding is classified by its form:
/// a plain COMMIT commits, a plain ROLLBACK rolls back, BEGIN keeps its
/// access mode, each data-changing statement is a write tagged with its
/// command, a query reads (or sets request context), a supported SET is a
/// session setting; no classified statement but SHOW carries a query of
/// its own.
pub proof fn lemma_plain_statements_classified_by_form(s: StatementShape, mode: ProtocolMode, identity_enabled: bool)
    requires
        plain_shape(s),
    ensures
        s.form matches StatementForm::Commit { plain: true } ==> statement_policy(seq![s], mode, identity_enabled)
            == Ok::<(StatementKind, Option<Seq<char>>), Refusal>((StatementKind::Commit, None)),
        s.form matches StatementForm::Rollback { plain: true } ==> statement_policy(seq![s], mode, identity_enabled)
            == Ok::<(StatementKind, Option<Seq<char>>), Refusal>((StatementKind::Rollback, None)),
        s.form matches StatementForm::Begin { access: Some(read_only) } ==> statement_policy(
            seq![s],
            mode,
            identity_enabled,
        ) == Ok::<(StatementKind, Option<Seq<char>>), Refusal>((StatementKind::Begin { read_only }, None)),
        s.form matches StatementForm::Insert ==> statement_policy(seq![s], mode, identity_enabled) == Ok::<
            (StatementKind, Option<Seq<char>>),
            Refusal,
        >((StatementKind::Write("INSERT"), None)),
        s.form matches StatementForm::Update ==> statement_policy(seq![s], mode, identity_enabled) == Ok::<
            (StatementKind, Option<Seq<char>>),
            Refusal,
        >((StatementKind::Write("UPDATE"), None)),
        s.form matches StatementForm::Delete ==> statement_policy(seq![s], mode, identity_enabled) == Ok::<
            (StatementKind, Option<Seq<char>>),
            Refusal,
        >((StatementKind::Write("DELETE"), None)),
        s.form matches StatementForm::CreateTable ==> statement_policy(seq![s], mode, identity_enabled) == Ok::<
            (StatementKind, Option<Seq<char>>),
            Refusal,
        >((StatementKind::Write("CREATE TABLE"), None)),
        ((s.form matches StatementForm::Query) && s.request_context == Ok::<bool, ClientError>(false)) ==> statement_policy(
            seq![s],
            mode,
            identity_enabled,
        ) == Ok::<(StatementKind, Option<Seq<char>>), Refusal>((StatementKind::Read, None)),
        ((s.form matches StatementForm::Query) && s.request_context == Ok::<bool, ClientError>(true)) ==> statement_policy(
            seq![s],
            mode,
            identity_enabled,
        ) == Ok::<(StatementKind, Option<Seq<char>>), Refusal>((StatementKind::RequestContext, None)),
        s.form matches StatementForm::SetVariable { session: true } ==> statement_policy(seq![s], mode, identity_enabled)
            == Ok::<(StatementKind, Option<Seq<char>>), Refusal>((StatementKind::SessionSet, None)),
        s.form matches StatementForm::Other ==> statement_policy(seq![s], mode, identity_enabled) == Err::<
            (StatementKind, Option<Seq<char>>),
            Refusal,
        >(("0A000"@, "unsupported DuckDB pgwire statement shape"@)),
        ((mode matches ProtocolMode::Extended) && (s.form matches StatementForm::Call)) ==> statement_policy(
            seq![s],
            mode,
            identity_enabled,
        ) is Err,
{
}

/// A request of more or fewer than one statement is refused, whatever the
/// statements are.
pub proof fn lemma_one_statement_only(stmts: Seq<StatementShape>, mode: ProtocolMode, identity_enabled: bool)
    requires
        stmts.len() != 1,
    ensures
        statement_policy(stmts, mode, identity_enabled) == Err::<(StatementKind, Option<Seq<char>>), Refusal>(
            ("0A000"@, "DuckDB pgwire backend supports exactly one statement"@),
        ),
{
}

/// A finding refuses the statement whatever its form: a statement that
/// reaches the control schema, or uses a refused spatial function, is never
/// classified.
pub proof fn lemma_findings_refuse_every_form(s: StatementShape, mode: ProtocolMode, identity_enabled: bool)
    requires
        s.internal_control_schema_reference || s.unsupported_spatial_function is Some || s.contains_table_command
            || !s.catalog_query_shape_supported || s.private_catalog_reference,
    ensures
        statement_policy(seq![s], mode, identity_enabled) is Err,
        s.unsupported_spatial_function matches Some(f) ==> statement_policy(seq![s], mode, identity_enabled) == Err::<
            (StatementKind, Option<Seq<char>>),
            Refusal,
        >(("0A000"@, "PostGIS function "@ + f@ + " is not supported by QuackGIS"@)),
{
}

/// A supported `SHOW` reads, and runs as the query that answers its
/// variable: the search path is `public`, the client encoding `UTF8`,
/// standard-conforming strings are `on`, and the server version and its
/// number are the tracked PostgreSQL profile's; any other variable is
/// refused.
pub proof fn lemma_show_answers(s: StatementShape, variable: String, mode: ProtocolMode, identity_enabled: bool)
    requires
        plain_shape(s),
        s.form == (StatementForm::Show { variable }),
    ensures
        variable@ == "search_path"@ ==> statement_policy(seq![s], mode, identity_enabled) == Ok::<
            (StatementKind, Option<Seq<char>>),
            Refusal,
        >((StatementKind::Read, Some("SELECT 'public'::VARCHAR AS search_path"@))),
        variable@ == "client_encoding"@ ==> statement_policy(seq![s], mode, identity_enabled) == Ok::<
            (StatementKind, Option<Seq<char>>),
            Refusal,
        >((StatementKind::Read, Some("SELECT 'UTF8'::VARCHAR AS client_encoding"@))),
        variable@ == "standard_conforming_strings"@ ==> statement_policy(seq![s], mode, identity_enabled) == Ok::<
            (StatementKind, Option<Seq<char>>),
            Refusal,
        >((StatementKind::Read, Some("SELECT 'on'::VARCHAR AS standard_conforming_strings"@))),
        variable@ == "server_version"@ ==> statement_policy(seq![s], mode, identity_enabled) == Ok::<
            (StatementKind, Option<Seq<char>>),
            Refusal,
        >((StatementKind::Read, Some("SELECT '18.4'::VARCHAR AS server_version"@))),
        variable@ == "server_version_num"@ ==> statement_policy(seq![s], mode, identity_enabled) == Ok::<
            (StatementKind, Option<Seq<char>>),
            Refusal,
        >((StatementKind::Read, Some("SELECT '180004'::VARCHAR AS server_version_num"@))),
        show_variable_of(variable@) is None ==> statement_policy(seq![s], mode, identity_enabled) == Err::<
            (StatementKind, Option<Seq<char>>),
            Refusal,
        >(("0A000"@, "unsupported DuckDB pgwire statement shape"@)),
{
    reveal_strlit("search_path");
    reveal_strlit("client_encoding");
    reveal_strlit("standard_conforming_strings");
    reveal_strlit("server_version");
    reveal_strlit("server_version_num");
    reveal_strlit("18.4");
    reveal_strlit("180004");
    reveal_strlit("SELECT '");
    reveal_strlit("'::VARCHAR AS server_version");
    reveal_strlit("'::VARCHAR AS server_version_num");
    reveal_strlit("SELECT '18.4'::VARCHAR AS server_version");
    reveal_strlit("SELECT '180004'::VARCHAR AS server_version_num");
    assert("SELECT '"@ + POSTGRESQL_COMPATIBILITY_VERSION@ + "'::VARCHAR AS server_version"@
        =~= "SELECT '18.4'::VARCHAR AS server_version"@);
    assert("SELECT '"@ + POSTGRESQL_COMPATIBILITY_VERSION_NUM@ + "'::VARCHAR AS server_version_num"@
        =~= "SELECT '180004'::VARCHAR AS server_version_num"@);
}

/// Role and maintenance statements: a SET that is not a session setting
/// and a RESET are role commands when they name one and refused otherwise;
/// a maintenance CALL of a known procedure is maintenance in the simple
/// protocol, an unknown one is refused.
pub proof fn lemma_role_and_maintenance_statements(s: StatementShape, mode: ProtocolMode, identity_enabled: bool)
    requires
        plain_shape(s),
    ensures
        (s.form matches StatementForm::SetVariable { session: false } || s.form matches StatementForm::Reset)
            ==> statement_policy(seq![s], mode, identity_enabled) == (if s.role_command {
            Ok::<(StatementKind, Option<Seq<char>>), Refusal>((StatementKind::Role, None))
        } else {
            Err(("0A000"@, "unsupported DuckDB pgwire statement shape"@))
        }),
        ((s.form matches StatementForm::Call) && (mode matches ProtocolMode::Simple) && (
        s.maintenance matches MaintenanceCall::Known)) ==> statement_policy(seq![s], mode, identity_enabled) == Ok::<
            (StatementKind, Option<Seq<char>>),
            Refusal,
        >((StatementKind::Maintenance, None)),
        ((s.form matches StatementForm::Call) && (mode matches ProtocolMode::Simple) && (
        s.maintenance matches MaintenanceCall::Unknown)) ==> statement_policy(seq![s], mode, identity_enabled) == Err::<
            (StatementKind, Option<Seq<char>>),
            Refusal,
        >(("0A000"@, "unsupported DuckDB maintenance procedure"@)),
{
}

/// Each finding on its own refuses the statement with its own SQLSTATE and
/// message, whatever the statement's form: the quoted-catalog mismatch is
/// an undefined column (42703), a reference to the control schema an
/// insufficient privilege (42501), the others unsupported features
/// (0A000) naming what was found; a catalog-identity feature is refused
/// only while catalog identity is off.
pub proof fn lemma_each_finding_refuses(s: StatementShape, mode: ProtocolMode, identity_enabled: bool)
    ensures
        s.invalid_quoted_catalog_reference == true && plain_shape(StatementShape { invalid_quoted_catalog_reference: false, ..s }) ==> statement_policy(
            seq![s],
            mode,
            identity_enabled,
        ) == Err::<(StatementKind, Option<Seq<char>>), Refusal>(("42703"@, "quoted PostgreSQL catalog identifier does not match the maintained lowercase name"@)),
        s.private_catalog_reference == true && plain_shape(StatementShape { private_catalog_reference: false, ..s }) ==> statement_policy(
            seq![s],
            mode,
            identity_enabled,
        ) == Err::<(StatementKind, Option<Seq<char>>), Refusal>(("0A000"@, "direct references to the private QuackGIS catalog projection are not supported"@)),
        s.invalid_session_identity_function == true && plain_shape(StatementShape { invalid_session_identity_function: false, ..s }) ==> statement_policy(
            seq![s],
            mode,
            identity_enabled,
        ) == Err::<(StatementKind, Option<Seq<char>>), Refusal>(("0A000"@, "unsupported PostgreSQL session identity expression shape"@)),
        s.invalid_request_context_function == true && plain_shape(StatementShape { invalid_request_context_function: false, ..s }) ==> statement_policy(
            seq![s],
            mode,
            identity_enabled,
        ) == Err::<(StatementKind, Option<Seq<char>>), Refusal>(("0A000"@, "unsupported or non-transaction-local PostgreSQL request-context expression"@)),
        s.invalid_maintained_cast == true && plain_shape(StatementShape { invalid_maintained_cast: false, ..s }) ==> statement_policy(
            seq![s],
            mode,
            identity_enabled,
        ) == Err::<(StatementKind, Option<Seq<char>>), Refusal>(("0A000"@, "unsupported PostgreSQL registered-object cast shape"@)),
        s.operator_syntax_supported == false && plain_shape(StatementShape { operator_syntax_supported: true, ..s }) ==> statement_policy(
            seq![s],
            mode,
            identity_enabled,
        ) == Err::<(StatementKind, Option<Seq<char>>), Refusal>(("0A000"@, "unsupported PostgreSQL custom operator or collation shape"@)),
        s.internal_control_schema_reference == true && plain_shape(StatementShape { internal_control_schema_reference: false, ..s }) ==> statement_policy(
            seq![s],
            mode,
            identity_enabled,
        ) == Err::<(StatementKind, Option<Seq<char>>), Refusal>(("42501"@, "direct references to the QuackGIS control schema are not permitted"@)),
        s.contains_table_command == true && plain_shape(StatementShape { contains_table_command: false, ..s }) ==> statement_policy(
            seq![s],
            mode,
            identity_enabled,
        ) == Err::<(StatementKind, Option<Seq<char>>), Refusal>(("0A000"@, "TABLE query form is not supported by QuackGIS authorization or catalog routing"@)),
        s.invalid_information_schema_factor == true && plain_shape(StatementShape { invalid_information_schema_factor: false, ..s }) ==> statement_policy(
            seq![s],
            mode,
            identity_enabled,
        ) == Err::<(StatementKind, Option<Seq<char>>), Refusal>(("0A000"@, "PostgreSQL information-schema relations do not accept table-function modifiers"@)),
        s.catalog_query_shape_supported == false && plain_shape(StatementShape { catalog_query_shape_supported: true, ..s }) ==> statement_policy(
            seq![s],
            mode,
            identity_enabled,
        ) == Err::<(StatementKind, Option<Seq<char>>), Refusal>(("0A000"@, "PostgreSQL catalog query shape is outside the maintained projection contract"@)),
        s.forbidden_client_scalar_function is Some && plain_shape(StatementShape { forbidden_client_scalar_function: None, ..s }) ==> statement_policy(seq![s], mode, identity_enabled) == Err::<
            (StatementKind, Option<Seq<char>>),
            Refusal,
        >(("0A000"@, "DuckDB scalar function "@ + s.forbidden_client_scalar_function->0@ + " is not exposed through pgwire"@)),
        s.forbidden_catalog_table_function is Some && plain_shape(StatementShape { forbidden_catalog_table_function: None, ..s }) ==> statement_policy(seq![s], mode, identity_enabled) == Err::<
            (StatementKind, Option<Seq<char>>),
            Refusal,
        >(("0A000"@, "DuckDB table function "@ + s.forbidden_catalog_table_function->0@ + " is not exposed through pgwire"@)),
        s.reserved_catalog_cte is Some && plain_shape(StatementShape { reserved_catalog_cte: None, ..s }) ==> statement_policy(seq![s], mode, identity_enabled) == Err::<
            (StatementKind, Option<Seq<char>>),
            Refusal,
        >(("0A000"@, "CTE name "@ + s.reserved_catalog_cte->0@ + " conflicts with the reserved PostgreSQL catalog namespace"@)),
        s.unsupported_catalog_relation is Some && plain_shape(StatementShape { unsupported_catalog_relation: None, ..s }) ==> statement_policy(seq![s], mode, identity_enabled) == Err::<
            (StatementKind, Option<Seq<char>>),
            Refusal,
        >(("0A000"@, "PostgreSQL catalog relation "@ + s.unsupported_catalog_relation->0@ + " is not implemented by QuackGIS"@)),
        s.identity_catalog_feature is Some && plain_shape(StatementShape { identity_catalog_feature: None, ..s }) && !identity_enabled ==> statement_policy(seq![s], mode, identity_enabled) == Err::<
            (StatementKind, Option<Seq<char>>),
            Refusal,
        >(("0A000"@, "PostgreSQL catalog feature "@ + s.identity_catalog_feature->0@ + " requires durable catalog identity"@)),
        s.identity_catalog_feature is Some && plain_shape(StatementShape { identity_catalog_feature: None, ..s })
            && identity_enabled ==> shape_refusal(s, identity_enabled) is None,
{
}

} // verus!
