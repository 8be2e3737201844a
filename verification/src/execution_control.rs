//! Operation admission bookkeeping: the process-wide gauges and totals that
//! admission, blocking workers and cancellation keep, and the registry of
//! cancellable running queries.
//!
//! Waiting for capacity is the runtime's work; every decision taken when a
//! wait starts or ends, and every counter it moves, is here.
use vstd::prelude::*;

verus! {

/// The kind of work an operation does, each with its own concurrency limit.
#[derive(Clone, Copy, Debug, PartialEq, Eq, Structural)]
pub enum OperationClass {
    Reader,
    Writer,
    Maintenance,
}

/// Why an operation was not admitted.
#[derive(Clone, Copy, Debug, PartialEq, Eq, Structural)]
pub enum AdmissionError {
    QueueFull,
    QueueTimeout,
    Closed,
}

/// How waiting for an admission permit ended.
#[derive(Clone, Copy, Debug, PartialEq, Eq, Structural)]
pub enum WaitOutcome {
    /// Both the class permit and the global permit were granted.
    Admitted,
    /// A limit was closed while waiting.
    Closed,
    /// The queue timeout elapsed first.
    TimedOut,
}

/// Gauges of one operation class.
#[derive(Clone, Copy, Debug)]
pub struct ClassCounters {
    pub active: usize,
    pub queued: usize,
    pub high_water: usize,
}

/// The process-wide admission, worker and cancellation counters.
#[derive(Clone, Copy, Debug)]
pub struct ExecutionCounters {
    pub active: usize,
    pub queued: usize,
    pub started: u64,
    pub rejected: u64,
    pub queue_timeouts: u64,
    pub reader: ClassCounters,
    pub writer: ClassCounters,
    pub maintenance: ClassCounters,
    pub cancel_requested: u64,
    pub cancel_completed: u64,
    pub cancel_failed: u64,
    pub statement_timeouts: u64,
    pub blocking_active: usize,
    pub blocking_regular_active: usize,
    pub blocking_control_active: usize,
    pub blocking_queued: usize,
    pub blocking_high_water: usize,
}

/// A total that wraps around at `u64::MAX`, as an atomic counter does.
pub open spec fn bumped(total: u64) -> u64 {
    if total < u64::MAX { (total + 1) as u64 } else { 0 }
}

fn bump(total: u64) -> (next: u64)
    ensures
        next == bumped(total),
{
    if total < u64::MAX { total + 1 } else { 0 }
}

/// The larger of two gauge readings.
pub open spec fn larger(a: usize, b: usize) -> usize {
    if a >= b { a } else { b }
}

/// Raise a high-water mark to `value` if `value` is above it.
pub fn update_high_water(target: &mut usize, value: usize)
    ensures
        *final(target) == larger(*old(target), value),
{
    if value > *target {
        *target = value;
    }
}

impl ClassCounters {
    /// The gauges of a class: the high-water mark is never below the active
    /// count.
    pub open spec fn wf(self) -> bool {
        self.active <= self.high_water
    }
}

impl ExecutionCounters {
    /// The gauges of a class.
    pub open spec fn class(self, class: OperationClass) -> ClassCounters {
        match class {
            OperationClass::Reader => self.reader,
            OperationClass::Writer => self.writer,
            OperationClass::Maintenance => self.maintenance,
        }
    }

    /// The counters with the gauges of one class replaced.
    pub open spec fn with_class(self, class: OperationClass, c: ClassCounters) -> ExecutionCounters {
        match class {
            OperationClass::Reader => ExecutionCounters { reader: c, ..self },
            OperationClass::Writer => ExecutionCounters { writer: c, ..self },
            OperationClass::Maintenance => ExecutionCounters { maintenance: c, ..self },
        }
    }

    /// What every operation keeps: the global gauges are the sums of the
    /// class gauges, every high-water mark covers its gauge, and the blocking
    /// workers are the regular ones and the control ones.
    pub open spec fn wf(self) -> bool {
        &&& self.active == self.reader.active + self.writer.active + self.maintenance.active
        &&& self.queued == self.reader.queued + self.writer.queued + self.maintenance.queued
        &&& self.reader.wf()
        &&& self.writer.wf()
        &&& self.maintenance.wf()
        &&& self.blocking_active == self.blocking_regular_active + self.blocking_control_active
        &&& self.blocking_active <= self.blocking_high_water
    }

    /// All counters at zero.
    pub fn new() -> (c: ExecutionCounters)
        ensures
            c.wf(),
            c.active == 0 && c.queued == 0 && c.started == 0 && c.rejected == 0,
            c.queue_timeouts == 0 && c.cancel_requested == 0 && c.cancel_completed == 0,
            c.cancel_failed == 0 && c.statement_timeouts == 0,
            c.blocking_active == 0 && c.blocking_queued == 0 && c.blocking_high_water == 0,
            c.blocking_regular_active == 0 && c.blocking_control_active == 0,
            c.reader == (ClassCounters { active: 0, queued: 0, high_water: 0 }),
            c.writer == (ClassCounters { active: 0, queued: 0, high_water: 0 }),
            c.maintenance == (ClassCounters { active: 0, queued: 0, high_water: 0 }),
    {
        let zero = ClassCounters { active: 0, queued: 0, high_water: 0 };
        ExecutionCounters {
            active: 0,
            queued: 0,
            started: 0,
            rejected: 0,
            queue_timeouts: 0,
            reader: zero,
            writer: zero,
            maintenance: zero,
            cancel_requested: 0,
            cancel_completed: 0,
            cancel_failed: 0,
            statement_timeouts: 0,
            blocking_active: 0,
            blocking_regular_active: 0,
            blocking_control_active: 0,
            blocking_queued: 0,
            blocking_high_water: 0,
        }
    }

    fn class_mut(&mut self, class: OperationClass) -> (c: &mut ClassCounters)
        ensures
            *c == old(self).class(class),
            *final(self) == old(self).with_class(class, *final(c)),
    {
        match class {
            OperationClass::Reader => &mut self.reader,
            OperationClass::Writer => &mut self.writer,
            OperationClass::Maintenance => &mut self.maintenance,
        }
    }

    /// The queue had no free slot: the operation is refused.
    pub fn admission_rejected(&mut self) -> (e: AdmissionError)
        requires
            old(self).wf(),
        ensures
            final(self).wf(),
            e == AdmissionError::QueueFull,
            *final(self) == (ExecutionCounters { rejected: bumped(old(self).rejected), ..*old(self) }),
    {
        self.rejected = bump(self.rejected);
        AdmissionError::QueueFull
    }

    /// The counters after an operation of `class` took a queue slot.
    pub open spec fn after_queued(self, class: OperationClass) -> ExecutionCounters {
        ExecutionCounters {
            queued: (self.queued + 1) as usize,
            ..self.with_class(
                class,
                ClassCounters { queued: (self.class(class).queued + 1) as usize, ..self.class(class) },
            )
        }
    }

    /// The counters after the wait of an operation of `class` ended with
    /// `outcome`: it left the queue and, if admitted, became active.
    pub open spec fn after_resolved(self, class: OperationClass, outcome: WaitOutcome) -> ExecutionCounters {
        let left = ExecutionCounters {
            queued: (self.queued - 1) as usize,
            ..self.with_class(
                class,
                ClassCounters { queued: (self.class(class).queued - 1) as usize, ..self.class(class) },
            )
        };
        let c = left.class(class);
        match outcome {
            WaitOutcome::Admitted => ExecutionCounters {
                active: (left.active + 1) as usize,
                started: bumped(left.started),
                ..left.with_class(
                    class,
                    ClassCounters {
                        active: (c.active + 1) as usize,
                        high_water: larger(c.high_water, (c.active + 1) as usize),
                        ..c
                    },
                )
            },
            WaitOutcome::Closed => left,
            WaitOutcome::TimedOut => ExecutionCounters { queue_timeouts: bumped(left.queue_timeouts), ..left },
        }
    }

    /// The counters after an admitted operation of `class` gave its permits
    /// back.
    pub open spec fn after_released(self, class: OperationClass) -> ExecutionCounters {
        ExecutionCounters {
            active: (self.active - 1) as usize,
            ..self.with_class(
                class,
                ClassCounters { active: (self.class(class).active - 1) as usize, ..self.class(class) },
            )
        }
    }

    /// An operation of `class` took a queue slot and starts waiting.
    pub fn admission_queued(&mut self, class: OperationClass)
        requires
            old(self).wf(),
            old(self).queued < usize::MAX,
        ensures
            final(self).wf(),
            *final(self) == old(self).after_queued(class),
    {
        self.queued = self.queued + 1;
        let c = self.class_mut(class);
        c.queued = c.queued + 1;
    }

    /// The wait of an operation of `class` ended with `outcome`: it leaves
    /// the queue, and either becomes active or fails with the error the
    /// outcome calls for.
    pub fn admission_resolved(&mut self, class: OperationClass, outcome: WaitOutcome) -> (r: Result<
        (),
        AdmissionError,
    >)
        requires
            old(self).wf(),
            old(self).class(class).queued > 0,
            outcome == WaitOutcome::Admitted ==> old(self).active < usize::MAX,
        ensures
            final(self).wf(),
            *final(self) == old(self).after_resolved(class, outcome),
            final(self).queued == old(self).queued - 1,
            final(self).class(class).queued == old(self).class(class).queued - 1,
            r == (match outcome {
                WaitOutcome::Admitted => Ok(()),
                WaitOutcome::Closed => Err(AdmissionError::Closed),
                WaitOutcome::TimedOut => Err(AdmissionError::QueueTimeout),
            }),
            outcome == WaitOutcome::Admitted ==> {
                &&& final(self).active == old(self).active + 1
                &&& final(self).class(class).active == old(self).class(class).active + 1
                &&& final(self).class(class).high_water == larger(
                    old(self).class(class).high_water,
                    (old(self).class(class).active + 1) as usize,
                )
                &&& final(self).started == bumped(old(self).started)
                &&& final(self).queue_timeouts == old(self).queue_timeouts
            },
            outcome == WaitOutcome::Closed ==> {
                &&& final(self).active == old(self).active
                &&& final(self).class(class).active == old(self).class(class).active
                &&& final(self).started == old(self).started
                &&& final(self).queue_timeouts == old(self).queue_timeouts
            },
            outcome == WaitOutcome::TimedOut ==> {
                &&& final(self).active == old(self).active
                &&& final(self).class(class).active == old(self).class(class).active
                &&& final(self).started == old(self).started
                &&& final(self).queue_timeouts == bumped(old(self).queue_timeouts)
            },
            forall|other: OperationClass| other != class ==> #[trigger] final(self).class(other) == old(
                self,
            ).class(other),
            final(self).rejected == old(self).rejected,
            final(self).cancel_requested == old(self).cancel_requested,
            final(self).cancel_completed == old(self).cancel_completed,
            final(self).cancel_failed == old(self).cancel_failed,
            final(self).statement_timeouts == old(self).statement_timeouts,
            final(self).blocking_active == old(self).blocking_active,
            final(self).blocking_regular_active == old(self).blocking_regular_active,
            final(self).blocking_control_active == old(self).blocking_control_active,
            final(self).blocking_queued == old(self).blocking_queued,
            final(self).blocking_high_water == old(self).blocking_high_water,
    {
        self.queued = self.queued - 1;
        {
            let c = self.class_mut(class);
            c.queued = c.queued - 1;
        }
        match outcome {
            WaitOutcome::Admitted => {
                self.active = self.active + 1;
                let c = self.class_mut(class);
                c.active = c.active + 1;
                let count = c.active;
                update_high_water(&mut c.high_water, count);
                self.started = bump(self.started);
                Ok(())
            },
            WaitOutcome::Closed => Err(AdmissionError::Closed),
            WaitOutcome::TimedOut => {
                self.queue_timeouts = bump(self.queue_timeouts);
                Err(AdmissionError::QueueTimeout)
            },
        }
    }

    /// An admitted operation of `class` finished and gave its permits back.
    pub fn admission_released(&mut self, class: OperationClass)
        requires
            old(self).wf(),
            old(self).class(class).active > 0,
        ensures
            final(self).wf(),
            *final(self) == old(self).after_released(class),
    {
        self.active = self.active - 1;
        let c = self.class_mut(class);
        c.active = c.active - 1;
    }

    /// A blocking task starts waiting for a worker.
    pub fn blocking_queued(&mut self)
        requires
            old(self).wf(),
            old(self).blocking_queued < usize::MAX,
        ensures
            final(self).wf(),
            *final(self) == old(self).after_blocking(BlockingEvent::Queued),
    {
        self.blocking_queued = self.blocking_queued + 1;
    }

    /// A blocking task got its worker; `control` tells whether it runs on
    /// the reserved control slot.
    pub fn blocking_started(&mut self, control: bool)
        requires
            old(self).wf(),
            old(self).blocking_queued > 0,
            old(self).blocking_active < usize::MAX,
        ensures
            final(self).wf(),
            *final(self) == old(self).after_blocking(BlockingEvent::Started(control)),
            final(self).blocking_queued == old(self).blocking_queued - 1,
            final(self).blocking_active == old(self).blocking_active + 1,
            final(self).blocking_high_water == larger(
                old(self).blocking_high_water,
                (old(self).blocking_active + 1) as usize,
            ),
            control ==> final(self).blocking_control_active == old(self).blocking_control_active + 1
                && final(self).blocking_regular_active == old(self).blocking_regular_active,
            !control ==> final(self).blocking_regular_active == old(self).blocking_regular_active + 1
                && final(self).blocking_control_active == old(self).blocking_control_active,
            *final(self) == (ExecutionCounters {
                blocking_queued: final(self).blocking_queued,
                blocking_active: final(self).blocking_active,
                blocking_high_water: final(self).blocking_high_water,
                blocking_control_active: final(self).blocking_control_active,
                blocking_regular_active: final(self).blocking_regular_active,
                ..*old(self)
            }),
    {
        self.blocking_queued = self.blocking_queued - 1;
        self.blocking_active = self.blocking_active + 1;
        let active = self.blocking_active;
        update_high_water(&mut self.blocking_high_water, active);
        if control {
            self.blocking_control_active = self.blocking_control_active + 1;
        } else {
            self.blocking_regular_active = self.blocking_regular_active + 1;
        }
    }

    /// A blocking task gave up waiting for a worker.
    pub fn blocking_abandoned(&mut self)
        requires
            old(self).wf(),
            old(self).blocking_queued > 0,
        ensures
            final(self).wf(),
            *final(self) == old(self).after_blocking(BlockingEvent::Abandoned),
    {
        self.blocking_queued = self.blocking_queued - 1;
    }

    /// A blocking task finished and released its worker.
    pub fn blocking_finished(&mut self, control: bool)
        requires
            old(self).wf(),
            control ==> old(self).blocking_control_active > 0,
            !control ==> old(self).blocking_regular_active > 0,
        ensures
            final(self).wf(),
            *final(self) == old(self).after_blocking(BlockingEvent::Finished(control)),
            final(self).blocking_active == old(self).blocking_active - 1,
            control ==> final(self).blocking_control_active == old(self).blocking_control_active - 1
                && final(self).blocking_regular_active == old(self).blocking_regular_active,
            !control ==> final(self).blocking_regular_active == old(self).blocking_regular_active - 1
                && final(self).blocking_control_active == old(self).blocking_control_active,
            *final(self) == (ExecutionCounters {
                blocking_active: final(self).blocking_active,
                blocking_control_active: final(self).blocking_control_active,
                blocking_regular_active: final(self).blocking_regular_active,
                ..*old(self)
            }),
    {
        self.blocking_active = self.blocking_active - 1;
        if control {
            self.blocking_control_active = self.blocking_control_active - 1;
        } else {
            self.blocking_regular_active = self.blocking_regular_active - 1;
        }
    }

    /// A statement ran past its deadline and was cancelled.
    pub fn statement_timed_out(&mut self)
        requires
            old(self).wf(),
        ensures
            final(self).wf(),
            *final(self) == (ExecutionCounters {
                statement_timeouts: bumped(old(self).statement_timeouts),
                ..*old(self)
            }),
    {
        self.statement_timeouts = bump(self.statement_timeouts);
    }
}

/// A step of the blocking worker pool's accounting.
#[derive(Clone, Copy, Debug)]
pub enum BlockingEvent {
    /// A task starts waiting for a worker.
    Queued,
    /// A waiting task got a worker; `true` for the reserved control slot.
    Started(bool),
    /// A waiting task gave up.
    Abandoned,
    /// A running task released its worker; `true` for the control slot.
    Finished(bool),
}

/// The outcome of a cancel request.
#[derive(Clone, Copy, Debug)]
pub enum CancelOutcome {
    /// No query was registered under the key.
    NotFound,
    /// The engine cancelled the query.
    Completed,
    /// The engine's cancellation failed.
    Failed,
}

impl ExecutionCounters {
    /// Whether a blocking step may happen in these counters: a task to
    /// start or abandon is waiting, a finishing task holds a worker of its
    /// kind, and no gauge is at its limit.
    pub open spec fn blocking_step_allowed(self, e: BlockingEvent) -> bool {
        match e {
            BlockingEvent::Queued => self.blocking_queued < usize::MAX,
            BlockingEvent::Started(_) => self.blocking_queued > 0 && self.blocking_active < usize::MAX,
            BlockingEvent::Abandoned => self.blocking_queued > 0,
            BlockingEvent::Finished(control) => self.blocking_active > 0 && if control {
                self.blocking_control_active > 0
            } else {
                self.blocking_regular_active > 0
            },
        }
    }

    /// The counters after a blocking step.
    pub open spec fn after_blocking(self, e: BlockingEvent) -> ExecutionCounters {
        match e {
            BlockingEvent::Queued => ExecutionCounters { blocking_queued: (self.blocking_queued + 1) as usize, ..self },
            BlockingEvent::Started(control) => ExecutionCounters {
                blocking_queued: (self.blocking_queued - 1) as usize,
                blocking_active: (self.blocking_active + 1) as usize,
                blocking_high_water: larger(self.blocking_high_water, (self.blocking_active + 1) as usize),
                blocking_control_active: if control {
                    (self.blocking_control_active + 1) as usize
                } else {
                    self.blocking_control_active
                },
                blocking_regular_active: if control {
                    self.blocking_regular_active
                } else {
                    (self.blocking_regular_active + 1) as usize
                },
                ..self
            },
            BlockingEvent::Abandoned => ExecutionCounters { blocking_queued: (self.blocking_queued - 1) as usize, ..self },
            BlockingEvent::Finished(control) => ExecutionCounters {
                blocking_active: (self.blocking_active - 1) as usize,
                blocking_control_active: if control {
                    (self.blocking_control_active - 1) as usize
                } else {
                    self.blocking_control_active
                },
                blocking_regular_active: if control {
                    self.blocking_regular_active
                } else {
                    (self.blocking_regular_active - 1) as usize
                },
                ..self
            },
        }
    }

    /// The counters after a run of blocking steps, in order.
    pub open spec fn after_blocking_steps(self, events: Seq<BlockingEvent>) -> ExecutionCounters
        decreases events.len(),
    {
        if events.len() == 0 {
            self
        } else {
            self.after_blocking_steps(events.drop_last()).after_blocking(events.last())
        }
    }

    /// Whether every step of a run may happen where it comes.
    pub open spec fn blocking_steps_allowed(self, events: Seq<BlockingEvent>) -> bool
        decreases events.len(),
    {
        events.len() == 0 || (self.blocking_steps_allowed(events.drop_last()) && self.after_blocking_steps(
            events.drop_last(),
        ).blocking_step_allowed(events.last()))
    }

    /// The counters after a cancel request with the given outcome.
    pub open spec fn after_cancel(self, outcome: CancelOutcome) -> ExecutionCounters {
        let requested = ExecutionCounters { cancel_requested: bumped(self.cancel_requested), ..self };
        match outcome {
            CancelOutcome::NotFound => requested,
            CancelOutcome::Completed => ExecutionCounters {
                cancel_completed: bumped(self.cancel_completed),
                ..requested
            },
            CancelOutcome::Failed => ExecutionCounters { cancel_failed: bumped(self.cancel_failed), ..requested },
        }
    }

    /// The counters after a run of cancel requests, in order.
    pub open spec fn after_cancels(self, outcomes: Seq<CancelOutcome>) -> ExecutionCounters
        decreases outcomes.len(),
    {
        if outcomes.len() == 0 {
            self
        } else {
            self.after_cancels(outcomes.drop_last()).after_cancel(outcomes.last())
        }
    }
}

/// The blocking high-water mark never falls: over any run of blocking
/// steps it only rises, and once it covers the active workers it keeps
/// covering them.
pub proof fn lemma_blocking_high_water_never_decreases(c: ExecutionCounters, events: Seq<BlockingEvent>)
    requires
        c.blocking_steps_allowed(events),
    ensures
        c.after_blocking_steps(events).blocking_high_water >= c.blocking_high_water,
        c.blocking_high_water >= c.blocking_active ==> c.after_blocking_steps(events).blocking_high_water
            >= c.after_blocking_steps(events).blocking_active,
    decreases events.len(),
{
    if events.len() > 0 {
        lemma_blocking_high_water_never_decreases(c, events.drop_last());
    }
}

/// Cancel accounting never over-counts: after any run of cancel requests,
/// completed and failed cancellations together are at most the requests,
/// and each request counted exactly one, as long as the request count does
/// not reach its maximum.
pub proof fn lemma_cancel_accounting(c: ExecutionCounters, outcomes: Seq<CancelOutcome>)
    requires
        c.cancel_completed + c.cancel_failed <= c.cancel_requested,
        c.cancel_requested + outcomes.len() < u64::MAX,
    ensures
        c.after_cancels(outcomes).cancel_requested == c.cancel_requested + outcomes.len(),
        c.after_cancels(outcomes).cancel_completed + c.after_cancels(outcomes).cancel_failed
            <= c.after_cancels(outcomes).cancel_requested,
    decreases outcomes.len(),
{
    if outcomes.len() > 0 {
        lemma_cancel_accounting(c, outcomes.drop_last());
    }
}

/// How many of `max_workers` blocking workers regular tasks may hold: all
/// but the one reserved for control tasks.
pub fn regular_worker_slots(max_workers: usize) -> (slots: usize)
    requires
        max_workers >= 2,
    ensures
        slots == max_workers - 1,
        0 < slots < max_workers,
{
    max_workers - 1
}

/// An operation that queues, is admitted and gives its permits back leaves
/// every active and queued gauge, global and per class, where it was; only
/// the started total and the high-water marks have moved.
pub proof fn lemma_admitted_operation_restores_gauges(c: ExecutionCounters, class: OperationClass)
    requires
        c.wf(),
        c.queued < usize::MAX,
        c.active < usize::MAX,
    ensures
        ({
            let d = c.after_queued(class).after_resolved(class, WaitOutcome::Admitted).after_released(class);
            &&& d.wf()
            &&& d.active == c.active
            &&& d.queued == c.queued
            &&& forall|k: OperationClass| #[trigger] d.class(k).active == c.class(k).active
            &&& forall|k: OperationClass| #[trigger] d.class(k).queued == c.class(k).queued
            &&& d.class(class).high_water == larger(c.class(class).high_water, (c.class(class).active + 1) as usize)
            &&& d.started == bumped(c.started)
            &&& d.rejected == c.rejected
            &&& d.queue_timeouts == c.queue_timeouts
        }),
{
}

/// An operation that queues and then stops waiting, because a limit closed
/// or its queue timeout elapsed, leaves every gauge as it was; a timeout is
/// counted.
pub proof fn lemma_abandoned_wait_restores_gauges(
    c: ExecutionCounters,
    class: OperationClass,
    outcome: WaitOutcome,
)
    requires
        c.wf(),
        c.queued < usize::MAX,
        outcome != WaitOutcome::Admitted,
    ensures
        ({
            let d = c.after_queued(class).after_resolved(class, outcome);
            &&& d.wf()
            &&& d == (ExecutionCounters { queue_timeouts: d.queue_timeouts, ..c })
            &&& d.queue_timeouts == if outcome == WaitOutcome::TimedOut {
                bumped(c.queue_timeouts)
            } else {
                c.queue_timeouts
            }
        }),
{
    let d = c.after_queued(class).after_resolved(class, outcome);
    assert(d.class(class) == c.class(class));
    assert(d.reader == c.reader && d.writer == c.writer && d.maintenance == c.maintenance);
}

pub fn active_operations(counters: &ExecutionCounters) -> (n: usize)
    ensures
        n == counters.active,
{
    counters.active
}

pub fn queued_operations(counters: &ExecutionCounters) -> (n: usize)
    ensures
        n == counters.queued,
{
    counters.queued
}

pub fn active_operations_for(counters: &ExecutionCounters, class: OperationClass) -> (n: usize)
    ensures
        n == counters.class(class).active,
{
    match class {
        OperationClass::Reader => counters.reader.active,
        OperationClass::Writer => counters.writer.active,
        OperationClass::Maintenance => counters.maintenance.active,
    }
}

pub fn queued_operations_for(counters: &ExecutionCounters, class: OperationClass) -> (n: usize)
    ensures
        n == counters.class(class).queued,
{
    match class {
        OperationClass::Reader => counters.reader.queued,
        OperationClass::Writer => counters.writer.queued,
        OperationClass::Maintenance => counters.maintenance.queued,
    }
}

pub fn operations_high_water_for(counters: &ExecutionCounters, class: OperationClass) -> (n: usize)
    ensures
        n == counters.class(class).high_water,
{
    match class {
        OperationClass::Reader => counters.reader.high_water,
        OperationClass::Writer => counters.writer.high_water,
        OperationClass::Maintenance => counters.maintenance.high_water,
    }
}

pub fn started_total(counters: &ExecutionCounters) -> (n: u64)
    ensures
        n == counters.started,
{
    counters.started
}

pub fn rejected_total(counters: &ExecutionCounters) -> (n: u64)
    ensures
        n == counters.rejected,
{
    counters.rejected
}

pub fn queue_timeouts_total(counters: &ExecutionCounters) -> (n: u64)
    ensures
        n == counters.queue_timeouts,
{
    counters.queue_timeouts
}

pub fn cancellations_requested_total(counters: &ExecutionCounters) -> (n: u64)
    ensures
        n == counters.cancel_requested,
{
    counters.cancel_requested
}

pub fn cancellations_completed_total(counters: &ExecutionCounters) -> (n: u64)
    ensures
        n == counters.cancel_completed,
{
    counters.cancel_completed
}

pub fn cancellations_failed_total(counters: &ExecutionCounters) -> (n: u64)
    ensures
        n == counters.cancel_failed,
{
    counters.cancel_failed
}

pub fn statement_timeouts_total(counters: &ExecutionCounters) -> (n: u64)
    ensures
        n == counters.statement_timeouts,
{
    counters.statement_timeouts
}

pub fn blocking_workers_active(counters: &ExecutionCounters) -> (n: usize)
    ensures
        n == counters.blocking_active,
{
    counters.blocking_active
}

pub fn blocking_regular_active(counters: &ExecutionCounters) -> (n: usize)
    ensures
        n == counters.blocking_regular_active,
{
    counters.blocking_regular_active
}

pub fn blocking_control_active(counters: &ExecutionCounters) -> (n: usize)
    ensures
        n == counters.blocking_control_active,
{
    counters.blocking_control_active
}

pub fn blocking_workers_queued(counters: &ExecutionCounters) -> (n: usize)
    ensures
        n == counters.blocking_queued,
{
    counters.blocking_queued
}

pub fn blocking_workers_high_water(counters: &ExecutionCounters) -> (n: usize)
    ensures
        n == counters.blocking_high_water,
{
    counters.blocking_high_water
}


// ─── Cancellable running queries ───────────────────────────────────────────

/// A running query's handle for cancelling it in the engine.
pub trait EngineCancellation {
    /// Ask the engine to cancel the query; an engine error is its message.
    fn cancel(&self) -> Result<(), String>;
}

/// One registered query: the backend key a client presents to cancel it,
/// and its cancellation handle.
pub struct ActiveQuery<C> {
    pub pid: i32,
    pub secret: Vec<u8>,
    pub cancellation: C,
}

/// The running queries that a cancel request may reach, keyed by backend
/// process id and secret key.
pub struct ActiveQueryRegistry<C> {
    entries: Vec<ActiveQuery<C>>,
}

/// The key a registration returns; giving it back removes the query.
pub struct ActiveQueryGuard {
    pub pid: i32,
    pub secret: Vec<u8>,
}

/// Two byte strings hold the same bytes.
pub fn same_bytes(a: &[u8], b: &[u8]) -> (r: bool)
    ensures
        r == (a@ == b@),
{
    if a.len() != b.len() {
        return false;
    }
    let mut i: usize = 0;
    while i < a.len()
        invariant
            i <= a.len() == b.len(),
            a@.subrange(0, i as int) == b@.subrange(0, i as int),
        decreases a.len() - i,
    {
        if a[i] != b[i] {
            assert(a@[i as int] != b@[i as int]);
            return false;
        }
        i = i + 1;
        assert(a@.subrange(0, i as int) =~= b@.subrange(0, i as int));
    }
    assert(a@ =~= a@.subrange(0, i as int));
    assert(b@ =~= b@.subrange(0, i as int));
    true
}

impl<C> ActiveQueryRegistry<C> {
    /// The backend keys with a registered query.
    pub closed spec fn keys(&self) -> Set<(i32, Seq<u8>)> {
        Set::new(|k: (i32, Seq<u8>)| exists|i: int| 0 <= i < self.entries@.len() && Self::key_of(self.entries@[i]) == k)
    }

    /// The backend key of an entry.
    pub open spec fn key_of(e: ActiveQuery<C>) -> (i32, Seq<u8>) {
        (e.pid, e.secret@)
    }

    /// The entries, as a map from backend key to cancellation handle.
    pub closed spec fn view_map(&self) -> Map<(i32, Seq<u8>), C> {
        Map::new(
            |k: (i32, Seq<u8>)| self.keys().contains(k),
            |k: (i32, Seq<u8>)|
                self.entries@[choose|i: int| 0 <= i < self.entries@.len() && Self::key_of(self.entries@[i]) == k].cancellation,
        )
    }

    /// No backend key is registered twice.
    pub closed spec fn wf(&self) -> bool {
        forall|i: int, j: int|
            0 <= i < j < self.entries@.len() ==> Self::key_of(#[trigger] self.entries@[i]) != Self::key_of(
                #[trigger] self.entries@[j],
            )
    }

    /// An empty registry.
    pub fn new() -> (r: Self)
        ensures
            r.wf(),
            r.view_map() == Map::<(i32, Seq<u8>), C>::empty(),
    {
        let r = ActiveQueryRegistry { entries: Vec::new() };
        assert(r.view_map() =~= Map::<(i32, Seq<u8>), C>::empty());
        r
    }

    fn find(&self, pid: i32, secret: &[u8]) -> (r: Option<usize>)
        requires
            self.wf(),
        ensures
            match r {
                Some(i) => i < self.entries@.len() && Self::key_of(self.entries@[i as int]) == (pid, secret@),
                None => !self.keys().contains((pid, secret@)),
            },
    {
        let mut i: usize = 0;
        while i < self.entries.len()
            invariant
                i <= self.entries@.len(),
                forall|k: int| 0 <= k < i ==> Self::key_of(#[trigger] self.entries@[k]) != (pid, secret@),
            decreases self.entries.len() - i,
        {
            let e = &self.entries[i];
            if e.pid == pid && same_bytes(e.secret.as_slice(), secret) {
                return Some(i);
            }
            i = i + 1;
        }
        None
    }

    proof fn lemma_lookup(&self, i: int)
        requires
            self.wf(),
            0 <= i < self.entries@.len(),
        ensures
            self.keys().contains(Self::key_of(self.entries@[i])),
            self.view_map()[Self::key_of(self.entries@[i])] == self.entries@[i].cancellation,
    {
        let k = Self::key_of(self.entries@[i]);
        assert(self.keys().contains(k));
        let j = choose|j: int| 0 <= j < self.entries@.len() && Self::key_of(self.entries@[j]) == k;
        if j != i {
            if j < i {
                assert(Self::key_of(self.entries@[j]) != Self::key_of(self.entries@[i]));
            } else {
                assert(Self::key_of(self.entries@[i]) != Self::key_of(self.entries@[j]));
            }
        }
    }

    /// Register a running query under its backend key, replacing any query
    /// registered under the same key.
    pub fn register(&mut self, pid: i32, secret: Vec<u8>, cancellation: C) -> (guard: ActiveQueryGuard)
        requires
            old(self).wf(),
        ensures
            final(self).wf(),
            final(self).view_map() == old(self).view_map().insert((pid, secret@), cancellation),
            guard.pid == pid,
            guard.secret@ == secret@,
    {
        let ghost old_map = self.view_map();
        let ghost key = (pid, secret@);
        let guard_secret = copy_bytes(secret.as_slice());
        let found = self.find(pid, secret.as_slice());
        match found {
            Some(i) => {
                let ghost before = self.entries@;
                let entry = ActiveQuery { pid, secret, cancellation };
                self.entries.set(i, entry);
                assert forall|a: int, b: int|
                    0 <= a < b < self.entries@.len() implies Self::key_of(#[trigger] self.entries@[a])
                    != Self::key_of(#[trigger] self.entries@[b]) by {
                    assert(Self::key_of(self.entries@[a]) == Self::key_of(before[a]));
                    assert(Self::key_of(self.entries@[b]) == Self::key_of(before[b]));
                }
                assert forall|k: (i32, Seq<u8>)| #[trigger] self.keys().contains(k) == old_map.insert(
                    key,
                    cancellation,
                ).dom().contains(k) by {
                    if self.keys().contains(k) {
                        let j = choose|j: int| 0 <= j < self.entries@.len() && Self::key_of(self.entries@[j]) == k;
                        assert(Self::key_of(before[j]) == k);
                    }
                    if old_map.dom().contains(k) {
                        let j = choose|j: int| 0 <= j < before.len() && Self::key_of(before[j]) == k;
                        assert(Self::key_of(self.entries@[j]) == k);
                    }
                }
                assert forall|k: (i32, Seq<u8>)| #[trigger] self.keys().contains(k) implies self.view_map()[k]
                    == old_map.insert(key, cancellation)[k] by {
                    let j = choose|j: int| 0 <= j < self.entries@.len() && Self::key_of(self.entries@[j]) == k;
                    self.lemma_lookup(j);
                    if k != key {
                        assert(Self::key_of(before[j]) == k);
                        old(self).lemma_lookup(j);
                    }
                }
                assert(self.view_map() =~= old_map.insert(key, cancellation));
            },
            None => {
                let ghost before = self.entries@;
                let entry = ActiveQuery { pid, secret, cancellation };
                self.entries.push(entry);
                assert forall|a: int, b: int|
                    0 <= a < b < self.entries@.len() implies Self::key_of(#[trigger] self.entries@[a])
                    != Self::key_of(#[trigger] self.entries@[b]) by {
                    if b == before.len() {
                        assert(Self::key_of(before[a]) != key);
                    }
                }
                assert forall|k: (i32, Seq<u8>)| #[trigger] self.keys().contains(k) == old_map.insert(
                    key,
                    cancellation,
                ).dom().contains(k) by {
                    if self.keys().contains(k) && k != key {
                        let j = choose|j: int| 0 <= j < self.entries@.len() && Self::key_of(self.entries@[j]) == k;
                        assert(Self::key_of(before[j]) == k);
                    }
                    if old_map.dom().contains(k) {
                        let j = choose|j: int| 0 <= j < before.len() && Self::key_of(before[j]) == k;
                        assert(Self::key_of(self.entries@[j]) == k);
                    }
                    if k == key {
                        assert(Self::key_of(self.entries@[before.len() as int]) == k);
                    }
                }
                assert forall|k: (i32, Seq<u8>)| #[trigger] self.keys().contains(k) implies self.view_map()[k]
                    == old_map.insert(key, cancellation)[k] by {
                    let j = choose|j: int| 0 <= j < self.entries@.len() && Self::key_of(self.entries@[j]) == k;
                    self.lemma_lookup(j);
                    if k != key {
                        assert(j < before.len());
                        assert(Self::key_of(before[j]) == k);
                        old(self).lemma_lookup(j);
                    }
                }
                assert(self.view_map() =~= old_map.insert(key, cancellation));
            },
        }
        ActiveQueryGuard { pid, secret: guard_secret }
    }

    /// Remove the query a guard registered.
    pub fn unregister(&mut self, guard: ActiveQueryGuard)
        requires
            old(self).wf(),
        ensures
            final(self).wf(),
            final(self).view_map() == old(self).view_map().remove((guard.pid, guard.secret@)),
    {
        let ghost old_map = self.view_map();
        let ghost key = (guard.pid, guard.secret@);
        match self.find(guard.pid, guard.secret.as_slice()) {
            Some(i) => {
                let ghost before = self.entries@;
                let _removed = self.entries.remove(i);
                assert forall|a: int, b: int|
                    0 <= a < b < self.entries@.len() implies Self::key_of(#[trigger] self.entries@[a])
                    != Self::key_of(#[trigger] self.entries@[b]) by {
                    let a0 = if a < i { a } else { a + 1 };
                    let b0 = if b < i { b } else { b + 1 };
                    assert(self.entries@[a] == before[a0]);
                    assert(self.entries@[b] == before[b0]);
                    assert(Self::key_of(before[a0]) != Self::key_of(before[b0]));
                }
                assert forall|k: (i32, Seq<u8>)| #[trigger] self.keys().contains(k) == old_map.remove(
                    key,
                ).dom().contains(k) by {
                    if self.keys().contains(k) {
                        let j = choose|j: int| 0 <= j < self.entries@.len() && Self::key_of(self.entries@[j]) == k;
                        let j0 = if j < i { j } else { j + 1 };
                        assert(self.entries@[j] == before[j0]);
                        assert(Self::key_of(before[j0]) == k);
                        assert(j0 != i);
                        assert(Self::key_of(before[i as int]) == key);
                        if j0 < i {
                            assert(Self::key_of(before[j0]) != Self::key_of(before[i as int]));
                        } else {
                            assert(Self::key_of(before[i as int]) != Self::key_of(before[j0]));
                        }
                    }
                    if old_map.dom().contains(k) && k != key {
                        let j = choose|j: int| 0 <= j < before.len() && Self::key_of(before[j]) == k;
                        assert(j != i);
                        let j1 = if j < i { j } else { j - 1 };
                        assert(self.entries@[j1] == before[j]);
                    }
                }
                assert forall|k: (i32, Seq<u8>)| #[trigger] self.keys().contains(k) implies self.view_map()[k]
                    == old_map.remove(key)[k] by {
                    let j = choose|j: int| 0 <= j < self.entries@.len() && Self::key_of(self.entries@[j]) == k;
                    self.lemma_lookup(j);
                    let j0 = if j < i { j } else { j + 1 };
                    assert(self.entries@[j] == before[j0]);
                    old(self).lemma_lookup(j0);
                }
                assert(self.view_map() =~= old_map.remove(key));
            },
            None => {
                assert(self.view_map() =~= old_map.remove(key));
            },
        }
    }
}

impl<C> ActiveQueryRegistry<C> {
    /// Giving back the guard of a registration undoes it: where no query
    /// held the key before, the registry maps exactly the keys it mapped
    /// before, to the same handles.
    pub proof fn lemma_unregister_undoes_register(&self, pid: i32, secret: Seq<u8>, cancellation: C)
        requires
            self.wf(),
            !self.view_map().dom().contains((pid, secret)),
        ensures
            self.view_map().insert((pid, secret), cancellation).remove((pid, secret)) == self.view_map(),
    {
        assert(self.view_map().insert((pid, secret), cancellation).remove((pid, secret)) =~= self.view_map());
    }
}

pub(crate) fn copy_bytes(b: &[u8]) -> (r: Vec<u8>)
    ensures
        r@ == b@,
{
    let mut r: Vec<u8> = Vec::new();
    let mut i: usize = 0;
    while i < b.len()
        invariant
            i <= b.len(),
            r@ == b@.subrange(0, i as int),
        decreases b.len() - i,
    {
        r.push(b[i]);
        i = i + 1;
        assert(r@ =~= b@.subrange(0, i as int));
    }
    assert(b@.subrange(0, i as int) =~= b@);
    r
}

impl<C: EngineCancellation> ActiveQueryRegistry<C> {
    /// Handle a cancel request for a backend key: no registered query
    /// answers `Ok(false)`; otherwise the query's cancellation runs, and its
    /// outcome is the answer (`Ok(true)` or the engine's error). Every
    /// request, and every outcome, is counted.
    pub fn cancel(&self, counters: &mut ExecutionCounters, pid: i32, secret: &[u8]) -> (r: Result<
        bool,
        String,
    >)
        requires
            self.wf(),
            old(counters).wf(),
        ensures
            final(counters).wf(),
            final(counters).cancel_requested == bumped(old(counters).cancel_requested),
            !self.view_map().dom().contains((pid, secret@)) ==> {
                &&& r == Ok::<bool, String>(false)
                &&& final(counters).cancel_completed == old(counters).cancel_completed
                &&& final(counters).cancel_failed == old(counters).cancel_failed
            },
            self.view_map().dom().contains((pid, secret@)) ==> match r {
                Ok(b) => b && final(counters).cancel_completed == bumped(old(counters).cancel_completed)
                    && final(counters).cancel_failed == old(counters).cancel_failed,
                Err(_) => final(counters).cancel_failed == bumped(old(counters).cancel_failed)
                    && final(counters).cancel_completed == old(counters).cancel_completed,
            },
            self.view_map().dom().contains((pid, secret@)) ==> exists|e: Result<(), String>|
                #[trigger] call_ensures(<C as EngineCancellation>::cancel, (&self.view_map()[(pid, secret@)],), e)
                    && r == (match e {
                    Ok(_) => Ok::<bool, String>(true),
                    Err(m) => Err::<bool, String>(m),
                }),
            *final(counters) == old(counters).after_cancel(
                if !self.view_map().dom().contains((pid, secret@)) {
                    CancelOutcome::NotFound
                } else if r is Ok {
                    CancelOutcome::Completed
                } else {
                    CancelOutcome::Failed
                },
            ),
            *final(counters) == (ExecutionCounters {
                cancel_requested: final(counters).cancel_requested,
                cancel_completed: final(counters).cancel_completed,
                cancel_failed: final(counters).cancel_failed,
                ..*old(counters)
            }),
    {
        counters.cancel_requested = bump(counters.cancel_requested);
        match self.find(pid, secret) {
            None => {
                assert(!self.view_map().dom().contains((pid, secret@)));
                Ok(false)
            },
            Some(i) => {
                proof {
                    self.lemma_lookup(i as int);
                }
                match self.entries[i].cancellation.cancel() {
                    Ok(()) => {
                        counters.cancel_completed = bump(counters.cancel_completed);
                        Ok(true)
                    },
                    Err(error) => {
                        counters.cancel_failed = bump(counters.cancel_failed);
                        Err(error)
                    },
                }
            },
        }
    }
}

} // verus!
