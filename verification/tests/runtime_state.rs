use quackgis_server::execution_control::{
    active_operations, active_operations_for, blocking_control_active, blocking_regular_active,
    blocking_workers_active, blocking_workers_high_water, blocking_workers_queued, cancellations_completed_total,
    cancellations_failed_total, cancellations_requested_total, operations_high_water_for, queue_timeouts_total,
    queued_operations, queued_operations_for, regular_worker_slots, rejected_total, started_total,
    statement_timeouts_total, update_high_water, ActiveQueryRegistry, AdmissionError, EngineCancellation,
    ExecutionCounters, OperationClass, WaitOutcome,
};
use quackgis_server::lifecycle::{ReadinessState, RuntimeLifecycle};

#[test]
fn drain_rejects_new_transactions_and_waits_for_active_ones() {
    let mut lifecycle = RuntimeLifecycle::default();
    assert_eq!(lifecycle.readiness(), ReadinessState::Starting);
    lifecycle.mark_storage_ready();
    assert_eq!(lifecycle.readiness(), ReadinessState::Ready);
    lifecycle.mark_storage_unavailable();
    assert_eq!(lifecycle.readiness(), ReadinessState::StorageUnavailable);
    lifecycle.mark_storage_ready();
    assert!(lifecycle.try_start_transaction());
    assert!(!lifecycle.begin_drain());
    assert!(!lifecycle.is_accepting());
    assert_eq!(lifecycle.readiness(), ReadinessState::Draining);
    lifecycle.mark_storage_ready();
    assert_eq!(lifecycle.readiness(), ReadinessState::Draining);
    assert!(!lifecycle.try_start_transaction());
    assert_eq!(lifecycle.active_transactions(), 1);
    assert!(lifecycle.transaction_finished());
    assert_eq!(lifecycle.active_transactions(), 0);
}

#[test]
fn drain_with_no_transactions_is_immediately_drained() {
    let mut lifecycle = RuntimeLifecycle::default();
    assert!(lifecycle.is_accepting());
    assert!(lifecycle.try_start_transaction());
    assert!(lifecycle.try_start_transaction());
    assert!(!lifecycle.transaction_finished());
    assert!(lifecycle.transaction_finished());
    assert!(lifecycle.begin_drain());
    lifecycle.mark_storage_unavailable();
    assert_eq!(lifecycle.readiness(), ReadinessState::Draining);
}

#[test]
fn admission_gauges_return_after_release() {
    let mut c = ExecutionCounters::new();
    c.admission_queued(OperationClass::Reader);
    assert_eq!(queued_operations(&c), 1);
    assert_eq!(queued_operations_for(&c, OperationClass::Reader), 1);
    assert_eq!(c.admission_resolved(OperationClass::Reader, WaitOutcome::Admitted), Ok(()));
    assert_eq!(queued_operations(&c), 0);
    assert_eq!(active_operations(&c), 1);
    assert_eq!(active_operations_for(&c, OperationClass::Reader), 1);
    assert_eq!(operations_high_water_for(&c, OperationClass::Reader), 1);
    assert_eq!(started_total(&c), 1);
    c.admission_released(OperationClass::Reader);
    assert_eq!(active_operations(&c), 0);
    assert_eq!(active_operations_for(&c, OperationClass::Reader), 0);
    assert_eq!(operations_high_water_for(&c, OperationClass::Reader), 1);
    assert_eq!(active_operations_for(&c, OperationClass::Writer), 0);
}

#[test]
fn admission_failures_are_counted() {
    let mut c = ExecutionCounters::new();
    assert_eq!(c.admission_rejected(), AdmissionError::QueueFull);
    assert_eq!(rejected_total(&c), 1);
    c.admission_queued(OperationClass::Writer);
    assert_eq!(c.admission_resolved(OperationClass::Writer, WaitOutcome::TimedOut), Err(AdmissionError::QueueTimeout));
    assert_eq!(queue_timeouts_total(&c), 1);
    c.admission_queued(OperationClass::Maintenance);
    assert_eq!(c.admission_resolved(OperationClass::Maintenance, WaitOutcome::Closed), Err(AdmissionError::Closed));
    assert_eq!(queue_timeouts_total(&c), 1);
    assert_eq!(queued_operations(&c), 0);
    assert_eq!(active_operations(&c), 0);
    assert_eq!(started_total(&c), 0);
    c.statement_timed_out();
    assert_eq!(statement_timeouts_total(&c), 1);
}

#[test]
fn blocking_workers_split_regular_and_control() {
    assert_eq!(regular_worker_slots(2), 1);
    assert_eq!(regular_worker_slots(9), 8);
    let mut c = ExecutionCounters::new();
    c.blocking_queued();
    c.blocking_queued();
    assert_eq!(blocking_workers_queued(&c), 2);
    c.blocking_started(false);
    c.blocking_started(true);
    assert_eq!(blocking_workers_active(&c), 2);
    assert_eq!(blocking_regular_active(&c), 1);
    assert_eq!(blocking_control_active(&c), 1);
    assert_eq!(blocking_workers_high_water(&c), 2);
    c.blocking_finished(true);
    c.blocking_finished(false);
    assert_eq!(blocking_workers_active(&c), 0);
    assert_eq!(blocking_workers_high_water(&c), 2);
    c.blocking_queued();
    c.blocking_abandoned();
    assert_eq!(blocking_workers_queued(&c), 0);
}

#[test]
fn high_water_only_rises() {
    let mut mark = 3usize;
    update_high_water(&mut mark, 2);
    assert_eq!(mark, 3);
    update_high_water(&mut mark, 7);
    assert_eq!(mark, 7);
}

struct Cancel(Result<(), String>);

impl EngineCancellation for Cancel {
    fn cancel(&self) -> Result<(), String> {
        self.0.clone()
    }
}

#[test]
fn cancel_requests_reach_only_registered_queries() {
    let mut registry: ActiveQueryRegistry<Cancel> = ActiveQueryRegistry::new();
    let mut c = ExecutionCounters::new();
    let guard = registry.register(7, vec![1, 2, 3], Cancel(Ok(())));
    let failing = registry.register(8, vec![9], Cancel(Err("engine says no".to_string())));
    assert_eq!(registry.cancel(&mut c, 7, &[1, 2, 3]), Ok(true));
    assert_eq!(registry.cancel(&mut c, 7, &[1, 2]), Ok(false));
    assert_eq!(registry.cancel(&mut c, 8, &[9]), Err("engine says no".to_string()));
    assert_eq!(cancellations_requested_total(&c), 3);
    assert_eq!(cancellations_completed_total(&c), 1);
    assert_eq!(cancellations_failed_total(&c), 1);
    registry.unregister(guard);
    assert_eq!(registry.cancel(&mut c, 7, &[1, 2, 3]), Ok(false));
    registry.unregister(failing);
    assert_eq!(registry.cancel(&mut c, 8, &[9]), Ok(false));
    assert_eq!(cancellations_requested_total(&c), 5);
}
