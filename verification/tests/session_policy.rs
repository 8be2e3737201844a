use quackgis_server::execution_control::{
    blocking_workers_active, blocking_workers_high_water, cancellations_completed_total, cancellations_failed_total,
    cancellations_requested_total, ActiveQueryRegistry, EngineCancellation, ExecutionCounters, OperationClass,
};
use quackgis_server::pg_names::StatementKind;
use quackgis_server::requests::{
    check_result_type, parameter_plan, prepare_plan, query_step, route_request, tag_rows, ParameterPlan, PreparePlan,
    QueryAction, RequestRoute,
};
use quackgis_server::session::{copy_begin, CursorTable, FetchAction, PortalState, ResultFormat};
use quackgis_server::statement_policy::{
    validate_statement, MaintenanceCall, ProtocolMode, StatementForm, StatementShape,
};

fn names(items: &[&str]) -> Vec<String> {
    items.iter().map(|s| s.to_string()).collect()
}

fn shape(form: StatementForm) -> StatementShape {
    StatementShape {
        form,
        unsupported_spatial_function: None,
        invalid_quoted_catalog_reference: false,
        private_catalog_reference: false,
        forbidden_client_scalar_function: None,
        invalid_session_identity_function: false,
        request_context: Ok(false),
        invalid_request_context_function: false,
        privilege_error: None,
        invalid_maintained_function: None,
        invalid_maintained_cast: false,
        operator_syntax_supported: true,
        identity_catalog_feature: None,
        internal_control_schema_reference: false,
        forbidden_catalog_table_function: None,
        reserved_catalog_cte: None,
        contains_table_command: false,
        unsupported_catalog_relation: None,
        invalid_information_schema_factor: false,
        catalog_query_shape_supported: true,
        role_command: false,
        maintenance: MaintenanceCall::Unknown,
    }
}

#[test]
fn copy_resolves_columns_by_name_and_refuses_in_order() {
    let table = names(&["id", "geom", "name"]);
    assert_eq!(copy_begin(false, &table, &names(&["name", "id"])).unwrap(), vec![2, 0]);
    assert_eq!(copy_begin(false, &table, &names(&[])).unwrap(), Vec::<usize>::new());
    let e = copy_begin(false, &table, &names(&["id", "z", "y"])).unwrap_err();
    assert_eq!((e.sqlstate, e.message.as_str()), ("42703", "COPY column does not exist: z"));
    let e = copy_begin(true, &table, &names(&["id"])).unwrap_err();
    assert_eq!((e.sqlstate, e.message.as_str()), ("55000", "another COPY operation is already active"));
    let e = copy_begin(true, &table, &names(&["nope"])).unwrap_err();
    assert_eq!(e.sqlstate, "42703");
}

#[test]
fn cursors_need_a_transaction_unique_names_and_room() {
    let mut t = CursorTable::new();
    let e = t.begin_declare(false, "ogr_reader").unwrap_err();
    assert_eq!((e.sqlstate, e.message.as_str()), ("25001", "PostgreSQL cursors require an explicit transaction"));
    t.begin_declare(true, "ogr_reader").unwrap();
    let e = t.finish_declare("ogr_reader".to_string(), false, false, 1).unwrap_err();
    assert_eq!(
        (e.sqlstate, e.message.as_str()),
        ("0A000", "DECLARE CURSOR supports parameter-free SELECT queries only")
    );
    assert_eq!(t.len(), 0);
    t.finish_declare("ogr_reader".to_string(), false, true, 1).unwrap();
    let e = t.begin_declare(true, "ogr_reader").unwrap_err();
    assert_eq!((e.sqlstate, e.message.as_str()), ("42P03", "cursor \"ogr_reader\" already exists"));
    for i in 1..16 {
        let name = format!("c{i}");
        t.begin_declare(true, &name).unwrap();
        t.finish_declare(name, false, true, 1).unwrap();
    }
    assert_eq!(t.len(), 16);
    let e = t.begin_declare(true, "one_more").unwrap_err();
    assert_eq!((e.sqlstate, e.message.as_str()), ("54000", "session exceeds the 16-cursor limit"));
}

#[test]
fn cursor_fetches_fix_formats_and_end_empty() {
    let mut t = CursorTable::new();
    t.finish_declare("reader".to_string(), false, true, 2).unwrap();
    t.finish_declare("qgis".to_string(), true, true, 1).unwrap();
    assert!(matches!(
        t.fetch(true, "reader", 0, &ResultFormat::Binary, PortalState::Initial),
        Ok(FetchAction::Empty)
    ));
    match t.fetch(true, "reader", 500, &ResultFormat::Text, PortalState::Initial) {
        Ok(FetchAction::Start { formats }) => assert_eq!(formats, vec![false, false]),
        other => panic!("unexpected {other:?}"),
    }
    t.fix_formats("reader", vec![false, false]).unwrap();
    assert!(matches!(
        t.fetch(true, "reader", 500, &ResultFormat::Individual(vec![false, false]), PortalState::Running),
        Ok(FetchAction::Continue)
    ));
    let e = t.fetch(true, "reader", 500, &ResultFormat::Binary, PortalState::Running).unwrap_err();
    assert_eq!(
        (e.sqlstate, e.message.as_str()),
        ("0A000", "PostgreSQL cursor result format cannot change between FETCH statements")
    );
    let e = t.fetch(true, "reader", 5, &ResultFormat::Individual(vec![true]), PortalState::Running).unwrap_err();
    assert_eq!((e.sqlstate, e.message.as_str()), ("08P01", "cursor result format count does not match its columns"));
    assert!(matches!(
        t.fetch(true, "reader", 5, &ResultFormat::Text, PortalState::Finished),
        Ok(FetchAction::Empty)
    ));
    match t.fetch(true, "qgis", 10, &ResultFormat::Text, PortalState::Initial) {
        Ok(FetchAction::Start { formats }) => assert_eq!(formats, vec![true]),
        other => panic!("unexpected {other:?}"),
    }
    let e = t.fetch(true, "nope", 1, &ResultFormat::Text, PortalState::Initial).unwrap_err();
    assert_eq!((e.sqlstate, e.message.as_str()), ("34000", "cursor \"nope\" does not exist"));
    let e = t.fetch(false, "reader", 1, &ResultFormat::Text, PortalState::Running).unwrap_err();
    assert_eq!(e.sqlstate, "25001");
    let e = t.fix_formats("nope", vec![]).unwrap_err();
    assert_eq!(e.sqlstate, "34000");
}

#[test]
fn closing_cursors_one_or_all() {
    let mut t = CursorTable::new();
    t.finish_declare("a".to_string(), false, true, 1).unwrap();
    t.finish_declare("b".to_string(), false, true, 1).unwrap();
    t.finish_declare("c".to_string(), false, true, 1).unwrap();
    let e = t.close(true, Some("zz")).unwrap_err();
    assert_eq!((e.sqlstate, e.message.as_str()), ("34000", "cursor \"zz\" does not exist"));
    assert_eq!(t.close(true, Some("b")).unwrap(), names(&["b"]));
    assert_eq!(t.len(), 2);
    assert_eq!(t.entry(1).name, "c");
    assert_eq!(t.close(false, None).unwrap_err().sqlstate, "25001");
    assert_eq!(t.close(true, None).unwrap(), names(&["a", "c"]));
    assert_eq!(t.len(), 0);
}

#[test]
fn policy_accepts_one_statement_of_a_supported_shape() {
    let e = validate_statement(&[shape(StatementForm::Query), shape(StatementForm::Query)], ProtocolMode::Simple, true)
        .unwrap_err();
    assert_eq!((e.sqlstate, e.message.as_str()), ("0A000", "DuckDB pgwire backend supports exactly one statement"));
    let e = validate_statement(&[shape(StatementForm::Other)], ProtocolMode::Simple, true).unwrap_err();
    assert_eq!((e.sqlstate, e.message.as_str()), ("0A000", "unsupported DuckDB pgwire statement shape"));
    let v = validate_statement(&[shape(StatementForm::Begin { access: Some(false) })], ProtocolMode::Extended, true).unwrap();
    assert!(matches!(v.kind, StatementKind::Begin { read_only: false }));
    let v = validate_statement(&[shape(StatementForm::Begin { access: Some(true) })], ProtocolMode::Extended, true).unwrap();
    assert!(matches!(v.kind, StatementKind::Begin { read_only: true }));
    assert!(validate_statement(&[shape(StatementForm::Begin { access: None })], ProtocolMode::Extended, true).is_err());
    assert!(validate_statement(&[shape(StatementForm::Rollback { plain: false })], ProtocolMode::Simple, true).is_err());
    let v = validate_statement(&[shape(StatementForm::Insert)], ProtocolMode::Simple, true).unwrap();
    assert!(matches!(v.kind, StatementKind::Write("INSERT")));
    assert!(v.show_sql.is_none());
    let mut request = shape(StatementForm::Query);
    request.request_context = Ok(true);
    assert!(matches!(validate_statement(&[request], ProtocolMode::Extended, true).unwrap().kind, StatementKind::RequestContext));
}

#[test]
fn policy_show_rewrites_and_maintenance_calls() {
    let v = validate_statement(&[shape(StatementForm::Show { variable: "Server_Version".to_string() })], ProtocolMode::Simple, true)
        .unwrap();
    assert!(matches!(v.kind, StatementKind::Read));
    assert_eq!(v.show_sql.as_deref(), Some("SELECT '18.4'::VARCHAR AS server_version"));
    let v = validate_statement(&[shape(StatementForm::Show { variable: "search_path".to_string() })], ProtocolMode::Simple, true)
        .unwrap();
    assert_eq!(v.show_sql.as_deref(), Some("SELECT 'public'::VARCHAR AS search_path"));
    assert!(validate_statement(&[shape(StatementForm::Show { variable: "work_mem".to_string() })], ProtocolMode::Simple, true)
        .is_err());
    let mut call = shape(StatementForm::Call);
    call.maintenance = MaintenanceCall::Known;
    assert!(matches!(validate_statement(&[call], ProtocolMode::Simple, true).unwrap().kind, StatementKind::Maintenance));
    let mut call = shape(StatementForm::Call);
    call.maintenance = MaintenanceCall::Known;
    assert_eq!(validate_statement(&[call], ProtocolMode::Extended, true).unwrap_err().message, "unsupported DuckDB pgwire statement shape");
    let e = validate_statement(&[shape(StatementForm::Call)], ProtocolMode::Simple, true).unwrap_err();
    assert_eq!(e.message, "unsupported DuckDB maintenance procedure");
}

#[test]
fn policy_refusals_come_in_order() {
    let mut s = shape(StatementForm::Query);
    s.internal_control_schema_reference = true;
    s.unsupported_spatial_function = Some("ST_SetSRID".to_string());
    let e = validate_statement(&[s], ProtocolMode::Simple, true).unwrap_err();
    assert_eq!((e.sqlstate, e.message.as_str()), ("0A000", "PostGIS function ST_SetSRID is not supported by QuackGIS"));
    let mut s = shape(StatementForm::Query);
    s.internal_control_schema_reference = true;
    let e = validate_statement(&[s], ProtocolMode::Simple, true).unwrap_err();
    assert_eq!(e.sqlstate, "42501");
    let mut s = shape(StatementForm::Query);
    s.identity_catalog_feature = Some("pg_attrdef".to_string());
    assert!(validate_statement(&[s], ProtocolMode::Simple, true).is_ok());
    let mut s = shape(StatementForm::Query);
    s.identity_catalog_feature = Some("pg_attrdef".to_string());
    let e = validate_statement_without_identity(s);
    assert_eq!(e, "PostgreSQL catalog feature pg_attrdef requires durable catalog identity");
    let mut s = shape(StatementForm::Query);
    s.reserved_catalog_cte = Some("pg_class".to_string());
    let e = validate_statement(&[s], ProtocolMode::Simple, true).unwrap_err();
    assert_eq!(e.message, "CTE name pg_class conflicts with the reserved PostgreSQL catalog namespace");
}

fn validate_statement_without_identity(s: StatementShape) -> String {
    quackgis_server::statement_policy::validate_statement(&[s], ProtocolMode::Simple, false).unwrap_err().message
}

#[test]
fn requests_route_copy_cursor_and_failed_transactions() {
    let e = route_request(true, false, false, false).unwrap_err();
    assert_eq!(
        (e.sqlstate, e.message.as_str()),
        ("25P02", "current transaction is aborted, commands ignored until end of transaction block")
    );
    assert!(matches!(route_request(true, true, false, false), Ok(RequestRoute::Statement)));
    assert!(matches!(route_request(false, false, true, true), Ok(RequestRoute::Copy)));
    assert!(matches!(route_request(false, false, false, true), Ok(RequestRoute::Cursor)));
    assert_eq!(route_request(true, true, false, true).unwrap_err().sqlstate, "25P02");
    assert!(matches!(prepare_plan(StatementKind::Commit, false), PreparePlan::Immediate));
    assert!(matches!(prepare_plan(StatementKind::RequestContext, true), PreparePlan::RequestContext { parameter: true }));
    assert!(matches!(
        prepare_plan(StatementKind::Write("UPDATE"), false),
        PreparePlan::Describe { class: OperationClass::Writer }
    ));
    assert!(matches!(parameter_plan(0, &[Some(26)], false, false), ParameterPlan::Oid { nullable: true }));
    assert!(matches!(parameter_plan(0, &[Some(25)], true, true), ParameterPlan::ClientType { oid: 25 }));
    assert!(matches!(parameter_plan(1, &[Some(25)], true, true), ParameterPlan::Oid { nullable: false }));
    assert!(matches!(parameter_plan(1, &[None, None], false, true), ParameterPlan::Described));
}

#[test]
fn executing_prepared_statements() {
    let e = query_step(2, 1, false, false, 0, StatementKind::Read).unwrap_err();
    assert_eq!(
        (e.sqlstate, e.message.as_str()),
        ("0A000", "cached PostgreSQL statement was invalidated by a role or request-context change")
    );
    assert!(matches!(query_step(1, 1, true, false, 3, StatementKind::Copy), Ok(QueryAction::BeginCopy)));
    let e = query_step(1, 1, false, true, 1, StatementKind::SqlCursor).unwrap_err();
    assert_eq!((e.sqlstate, e.message.as_str()), ("08P01", "unexpected cursor parameters"));
    assert!(matches!(query_step(1, 1, false, true, 0, StatementKind::SqlCursor), Ok(QueryAction::Cursor)));
    assert!(matches!(
        query_step(1, 1, false, false, 0, StatementKind::Read),
        Ok(QueryAction::RunQuery { class: OperationClass::Reader })
    ));
    assert!(matches!(
        query_step(1, 1, false, false, 0, StatementKind::Write("DELETE")),
        Ok(QueryAction::RunUpdate { class: OperationClass::Writer, tag: "DELETE" })
    ));
    assert!(matches!(query_step(1, 1, false, false, 0, StatementKind::Begin { read_only: true }), Ok(QueryAction::Begin { read_only: true })));
    let e = query_step(1, 1, false, false, 0, StatementKind::Maintenance).unwrap_err();
    assert_eq!(e.message, "extended protocol does not support this DuckDB statement shape");
    assert!(check_result_type(true).is_ok());
    assert_eq!(check_result_type(false).unwrap_err().message, "cached PostgreSQL statement result type changed");
    assert_eq!(tag_rows(Some(3)), Some(3));
    assert_eq!(tag_rows(Some(-1)), None);
    assert_eq!(tag_rows(None), None);
}

struct Answer(Result<(), String>);

impl EngineCancellation for Answer {
    fn cancel(&self) -> Result<(), String> {
        self.0.clone()
    }
}

#[test]
fn cancel_outcomes_never_exceed_requests_and_high_water_never_falls() {
    let mut c = ExecutionCounters::new();
    let mut registry = ActiveQueryRegistry::new();
    let _ok = registry.register(1, vec![1], Answer(Ok(())));
    let _bad = registry.register(2, vec![2], Answer(Err("no".to_string())));
    for (pid, key) in [(1, 1u8), (2, 2), (3, 3), (1, 1)] {
        let _ = registry.cancel(&mut c, pid, &[key]);
        assert!(cancellations_completed_total(&c) + cancellations_failed_total(&c) <= cancellations_requested_total(&c));
    }
    assert_eq!(cancellations_requested_total(&c), 4);
    assert_eq!(cancellations_completed_total(&c), 2);
    assert_eq!(cancellations_failed_total(&c), 1);

    c.blocking_queued();
    c.blocking_queued();
    c.blocking_started(false);
    c.blocking_started(true);
    assert_eq!(blocking_workers_high_water(&c), 2);
    c.blocking_finished(false);
    c.blocking_finished(true);
    assert_eq!(blocking_workers_active(&c), 0);
    assert_eq!(blocking_workers_high_water(&c), 2);
}
