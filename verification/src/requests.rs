//! How the wire server routes a client request: which path a statement text
//! takes when it is prepared, how a prepared statement's parameters are
//! typed, and what executing a prepared statement does. The server performs
//! each decided action (admission, engine calls, responses) and reports the
//! outcome back where a later decision needs it.
use vstd::prelude::*;

use crate::execution_control::OperationClass;
use crate::pg_names::{class_of, failed_transaction_error, StatementKind};
use crate::session::{answers, client_error, ClientError};

verus! {

// ─── Preparing a statement ──────────────────────────────────────────────────

/// The path a statement text takes when it is prepared.
#[derive(Clone, Copy, Debug)]
pub enum RequestRoute {
    /// A `COPY ... FROM STDIN` into a table.
    Copy,
    /// A SQL cursor command.
    Cursor,
    /// Any other statement: it goes through the statement policy.
    Statement,
}

/// The answer for a statement other than COMMIT or ROLLBACK in a failed
/// transaction.
pub open spec fn failed_transaction(e: ClientError) -> bool {
    answers(e, "25P02"@, "current transaction is aborted, commands ignored until end of transaction block"@)
}

/// Route a statement text being prepared: in a failed transaction only a
/// plain COMMIT or ROLLBACK may proceed (25P02); a COPY target comes first,
/// then a cursor command, then the statement policy.
pub fn route_request(failed_transaction_state: bool, transaction_end: bool, copy_target: bool, cursor_command: bool) -> (r:
    Result<RequestRoute, ClientError>)
    ensures
        failed_transaction_state && !transaction_end ==> (r matches Err(e) && failed_transaction(e)),
        !(failed_transaction_state && !transaction_end) ==> {
            if copy_target {
                r matches Ok(RequestRoute::Copy)
            } else if cursor_command {
                if failed_transaction_state {
                    r matches Err(e) && failed_transaction(e)
                } else {
                    r matches Ok(RequestRoute::Cursor)
                }
            } else {
                r matches Ok(RequestRoute::Statement)
            }
        },
{
    if failed_transaction_state && !transaction_end {
        return Err(failed_error());
    }
    if copy_target {
        return Ok(RequestRoute::Copy);
    }
    if cursor_command {
        if failed_transaction_state {
            return Err(failed_error());
        }
        return Ok(RequestRoute::Cursor);
    }
    Ok(RequestRoute::Statement)
}

fn failed_error() -> (e: ClientError)
    ensures
        failed_transaction(e),
{
    let f = failed_transaction_error();
    client_error(f.sqlstate, f.message)
}

/// How a validated statement is prepared: a request-context statement with
/// a literal or a parameter value, a transaction or session command that
/// needs no description, or a statement the engine describes under the
/// admission class of its kind.
#[derive(Clone, Copy, Debug)]
pub enum PreparePlan {
    RequestContext { parameter: bool },
    Immediate,
    Describe { class: OperationClass },
}

/// The preparation of a statement of kind `kind`.
pub open spec fn prepare_plan_of(kind: StatementKind, parameter_value: bool) -> PreparePlan {
    match kind {
        StatementKind::RequestContext => PreparePlan::RequestContext { parameter: parameter_value },
        StatementKind::Begin { .. } | StatementKind::Commit | StatementKind::Rollback | StatementKind::SessionSet
        | StatementKind::Role => PreparePlan::Immediate,
        _ => PreparePlan::Describe { class: class_of(kind) },
    }
}

/// Decide how a validated statement is prepared; `parameter_value` tells
/// whether a request-context statement takes its value as a parameter.
pub fn prepare_plan(kind: StatementKind, parameter_value: bool) -> (p: PreparePlan)
    ensures
        p == prepare_plan_of(kind, parameter_value),
{
    match kind {
        StatementKind::RequestContext => PreparePlan::RequestContext { parameter: parameter_value },
        StatementKind::Begin { .. } | StatementKind::Commit | StatementKind::Rollback | StatementKind::SessionSet
        | StatementKind::Role => PreparePlan::Immediate,
        _ => PreparePlan::Describe { class: kind.operation_class() },
    }
}

/// The type OID PostgreSQL gives `oid`.
pub const OID_TYPE: u32 = 26;

/// How a described parameter is typed: as an `oid`, nullable or not; as
/// the type the client declared for it; or as the engine described it.
#[derive(Clone, Copy, Debug)]
pub enum ParameterPlan {
    Oid { nullable: bool },
    ClientType { oid: u32 },
    Described,
}

/// The typing of parameter `index`: a client-declared `oid` wins; an
/// untyped parameter takes the client's declared type, or is an `oid` where
/// the statement compares it with an OID column.
pub open spec fn parameter_plan_of(
    index: int,
    declared: Seq<Option<u32>>,
    untyped: bool,
    oid_position: bool,
) -> ParameterPlan {
    let given = if 0 <= index < declared.len() { declared[index] } else { None };
    if given == Some(OID_TYPE) {
        ParameterPlan::Oid { nullable: true }
    } else if untyped && given is Some {
        ParameterPlan::ClientType { oid: given->0 }
    } else if untyped && oid_position {
        ParameterPlan::Oid { nullable: false }
    } else {
        ParameterPlan::Described
    }
}

/// Decide how parameter `index` of a described statement is typed, from the
/// types the client declared (`None` where it left one open).
pub fn parameter_plan(index: usize, declared: &[Option<u32>], untyped: bool, oid_position: bool) -> (p:
    ParameterPlan)
    ensures
        p == parameter_plan_of(index as int, declared@, untyped, oid_position),
{
    let given = if index < declared.len() {
        declared[index]
    } else {
        None
    };
    match given {
        Some(t) => if t == OID_TYPE {
            ParameterPlan::Oid { nullable: true }
        } else if untyped {
            ParameterPlan::ClientType { oid: t }
        } else {
            ParameterPlan::Described
        },
        None => if untyped && oid_position {
            ParameterPlan::Oid { nullable: false }
        } else {
            ParameterPlan::Described
        },
    }
}

// ─── Executing a prepared statement ─────────────────────────────────────────

/// What executing a prepared statement does.
#[derive(Clone, Copy, Debug)]
pub enum QueryAction {
    /// Open a COPY into the statement's target.
    BeginCopy,
    /// Run the statement's SQL cursor command.
    Cursor,
    /// Admit under `class`, stream the query's rows, and check the result
    /// type against the prepared one.
    RunQuery { class: OperationClass },
    /// Admit under `class`, run the update, and answer with `tag`.
    RunUpdate { class: OperationClass, tag: &'static str },
    /// Answer `SET`.
    SessionSet,
    /// Apply the statement's role command.
    Role,
    /// Set the statement's request-context value.
    RequestContext,
    Begin { read_only: bool },
    Commit,
    Rollback,
}

/// What executing a prepared statement does, or why it is refused: a
/// statement prepared under another role or request context is stale
/// (0A000); cursor commands take no parameters (08P01); COPY, cursor and
/// maintenance kinds do not run in the extended protocol (0A000).
pub open spec fn query_transition(
    session_epoch: u64,
    statement_epoch: u64,
    copy_target: bool,
    cursor_command: bool,
    parameters: nat,
    kind: StatementKind,
) -> Result<QueryAction, (Seq<char>, Seq<char>)> {
    if session_epoch != statement_epoch {
        Err(("0A000"@, "cached PostgreSQL statement was invalidated by a role or request-context change"@))
    } else if copy_target {
        Ok(QueryAction::BeginCopy)
    } else if cursor_command {
        if parameters != 0 {
            Err(("08P01"@, "unexpected cursor parameters"@))
        } else {
            Ok(QueryAction::Cursor)
        }
    } else {
        match kind {
            StatementKind::Read => Ok(QueryAction::RunQuery { class: OperationClass::Reader }),
            StatementKind::Write(tag) => Ok(QueryAction::RunUpdate { class: OperationClass::Writer, tag }),
            StatementKind::SessionSet => Ok(QueryAction::SessionSet),
            StatementKind::Role => Ok(QueryAction::Role),
            StatementKind::RequestContext => Ok(QueryAction::RequestContext),
            StatementKind::Begin { read_only } => Ok(QueryAction::Begin { read_only }),
            StatementKind::Commit => Ok(QueryAction::Commit),
            StatementKind::Rollback => Ok(QueryAction::Rollback),
            _ => Err(("0A000"@, "extended protocol does not support this DuckDB statement shape"@)),
        }
    }
}

/// Decide what executing a prepared statement does.
pub fn query_step(
    session_epoch: u64,
    statement_epoch: u64,
    copy_target: bool,
    cursor_command: bool,
    parameters: usize,
    kind: StatementKind,
) -> (r: Result<QueryAction, ClientError>)
    ensures
        match r {
            Ok(a) => query_transition(session_epoch, statement_epoch, copy_target, cursor_command, parameters as nat, kind)
                == Ok::<QueryAction, (Seq<char>, Seq<char>)>(a),
            Err(e) => query_transition(session_epoch, statement_epoch, copy_target, cursor_command, parameters as nat, kind)
                == Err::<QueryAction, (Seq<char>, Seq<char>)>((e.sqlstate@, e.message@)),
        },
{
    if session_epoch != statement_epoch {
        return Err(
            client_error("0A000", "cached PostgreSQL statement was invalidated by a role or request-context change"),
        );
    }
    if copy_target {
        return Ok(QueryAction::BeginCopy);
    }
    if cursor_command {
        if parameters != 0 {
            return Err(client_error("08P01", "unexpected cursor parameters"));
        }
        return Ok(QueryAction::Cursor);
    }
    match kind {
        StatementKind::Read => Ok(QueryAction::RunQuery { class: OperationClass::Reader }),
        StatementKind::Write(tag) => Ok(QueryAction::RunUpdate { class: OperationClass::Writer, tag }),
        StatementKind::SessionSet => Ok(QueryAction::SessionSet),
        StatementKind::Role => Ok(QueryAction::Role),
        StatementKind::RequestContext => Ok(QueryAction::RequestContext),
        StatementKind::Begin { read_only } => Ok(QueryAction::Begin { read_only }),
        StatementKind::Commit => Ok(QueryAction::Commit),
        StatementKind::Rollback => Ok(QueryAction::Rollback),
        StatementKind::Maintenance | StatementKind::Copy | StatementKind::SqlCursor => Err(
            client_error("0A000", "extended protocol does not support this DuckDB statement shape"),
        ),
    }
}

/// Check a streamed query's result type against the prepared one (0A000
/// when it changed).
pub fn check_result_type(compatible: bool) -> (r: Result<(), ClientError>)
    ensures
        compatible ==> r is Ok,
        !compatible ==> (r matches Err(e) && answers(e, "0A000"@, "cached PostgreSQL statement result type changed"@)),
{
    if compatible {
        Ok(())
    } else {
        Err(client_error("0A000", "cached PostgreSQL statement result type changed"))
    }
}

/// The row count an update's command tag carries: the engine's count where
/// it reported one that is a valid `usize`.
pub open spec fn tag_rows_of(affected: Option<i64>) -> Option<usize> {
    match affected {
        Some(n) => if 0 <= n && n <= usize::MAX {
            Some(n as usize)
        } else {
            None
        },
        None => None,
    }
}

/// The row count for an update's command tag.
pub fn tag_rows(affected: Option<i64>) -> (r: Option<usize>)
    ensures
        r == tag_rows_of(affected),
{
    match affected {
        Some(n) => if n >= 0 && (n as u64) <= (usize::MAX as u64) {
            Some(n as usize)
        } else {
            None
        },
        None => None,
    }
}

/// Executing a prepared statement does what its kind says: a read streams
/// rows under the reader limit, a write runs under the writer limit with
/// its own command tag, COMMIT commits, ROLLBACK rolls back, BEGIN keeps its
/// access mode; COPY, cursor and maintenance kinds are refused; and a
/// statement prepared under another role or request context is refused
/// whatever it is.
pub proof fn lemma_execution_follows_kind(
    session_epoch: u64,
    statement_epoch: u64,
    copy_target: bool,
    cursor_command: bool,
    parameters: nat,
    kind: StatementKind,
)
    ensures
        session_epoch != statement_epoch ==> query_transition(
            session_epoch,
            statement_epoch,
            copy_target,
            cursor_command,
            parameters,
            kind,
        ) == Err::<QueryAction, (Seq<char>, Seq<char>)>(
            ("0A000"@, "cached PostgreSQL statement was invalidated by a role or request-context change"@),
        ),
        session_epoch == statement_epoch && copy_target ==> query_transition(
            session_epoch,
            statement_epoch,
            copy_target,
            cursor_command,
            parameters,
            kind,
        ) == Ok::<QueryAction, (Seq<char>, Seq<char>)>(QueryAction::BeginCopy),
        session_epoch == statement_epoch && !copy_target && !cursor_command ==> {
            let r = query_transition(session_epoch, statement_epoch, copy_target, cursor_command, parameters, kind);
            &&& kind matches StatementKind::Commit ==> r == Ok::<QueryAction, (Seq<char>, Seq<char>)>(
                QueryAction::Commit,
            )
            &&& kind matches StatementKind::Rollback ==> r == Ok::<QueryAction, (Seq<char>, Seq<char>)>(
                QueryAction::Rollback,
            )
            &&& kind matches StatementKind::Read ==> r == Ok::<QueryAction, (Seq<char>, Seq<char>)>(
                QueryAction::RunQuery { class: OperationClass::Reader },
            )
            &&& kind matches StatementKind::Write(tag) ==> r == Ok::<QueryAction, (Seq<char>, Seq<char>)>(
                QueryAction::RunUpdate { class: OperationClass::Writer, tag },
            )
            &&& kind matches StatementKind::Begin { read_only } ==> r == Ok::<QueryAction, (Seq<char>, Seq<char>)>(
                QueryAction::Begin { read_only },
            )
            &&& kind matches StatementKind::SessionSet ==> r == Ok::<QueryAction, (Seq<char>, Seq<char>)>(
                QueryAction::SessionSet,
            )
            &&& kind matches StatementKind::Role ==> r == Ok::<QueryAction, (Seq<char>, Seq<char>)>(QueryAction::Role)
            &&& kind matches StatementKind::RequestContext ==> r == Ok::<QueryAction, (Seq<char>, Seq<char>)>(
                QueryAction::RequestContext,
            )
            &&& (kind matches StatementKind::Copy || kind matches StatementKind::SqlCursor
                || kind matches StatementKind::Maintenance) ==> r is Err
        },
{
}

/// Preparing a statement admits it under its kind's limit: reads and
/// session statements as readers, writes, transaction control, COPY and
/// cursors as writers, maintenance as maintenance; transaction and session
/// commands are prepared without asking the engine.
pub proof fn lemma_preparation_follows_kind(kind: StatementKind, parameter_value: bool)
    ensures
        kind matches StatementKind::Read ==> prepare_plan_of(kind, parameter_value) == (PreparePlan::Describe {
            class: OperationClass::Reader,
        }),
        kind matches StatementKind::Write(_) ==> prepare_plan_of(kind, parameter_value) == (PreparePlan::Describe {
            class: OperationClass::Writer,
        }),
        kind matches StatementKind::Maintenance ==> prepare_plan_of(kind, parameter_value) == (PreparePlan::Describe {
            class: OperationClass::Maintenance,
        }),
        (kind matches StatementKind::Commit || kind matches StatementKind::Rollback || kind matches StatementKind::Begin {
            ..
        } || kind matches StatementKind::SessionSet || kind matches StatementKind::Role) ==> prepare_plan_of(
            kind,
            parameter_value,
        ) == PreparePlan::Immediate,
        kind matches StatementKind::RequestContext ==> prepare_plan_of(kind, parameter_value) == (
        PreparePlan::RequestContext { parameter: parameter_value }),
        (kind matches StatementKind::Read || kind matches StatementKind::SessionSet || kind matches StatementKind::Role
            || kind matches StatementKind::RequestContext) ==> class_of(kind) == OperationClass::Reader,
        (kind matches StatementKind::Write(_) || kind matches StatementKind::Begin { .. }
            || kind matches StatementKind::Commit || kind matches StatementKind::Rollback
            || kind matches StatementKind::Copy || kind matches StatementKind::SqlCursor) ==> class_of(kind)
            == OperationClass::Writer,
        kind matches StatementKind::Maintenance ==> class_of(kind) == OperationClass::Maintenance,
{
}

/// A parameter the client declared as `oid` is a nullable `oid`; an
/// untyped parameter takes the type the client declared; an untyped
/// parameter compared with an OID column and left open by the client is a
/// non-null `oid`; anything else keeps the engine's description.
pub proof fn lemma_parameter_typing(index: int, declared: Seq<Option<u32>>, untyped: bool, oid_position: bool)
    requires
        0 <= index < declared.len(),
    ensures
        declared[index] == Some(26u32) ==> parameter_plan_of(index, declared, untyped, oid_position)
            == (ParameterPlan::Oid { nullable: true }),
        declared[index] is Some && declared[index]->0 != 26 && untyped ==> parameter_plan_of(
            index,
            declared,
            untyped,
            oid_position,
        ) == (ParameterPlan::ClientType { oid: declared[index]->0 }),
        declared[index] is None && untyped && oid_position ==> parameter_plan_of(index, declared, untyped, oid_position)
            == (ParameterPlan::Oid { nullable: false }),
        !untyped && declared[index] != Some(26u32) ==> parameter_plan_of(index, declared, untyped, oid_position)
            == ParameterPlan::Described,
{
}

} // verus!
