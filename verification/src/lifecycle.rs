//! Process-local readiness and transaction-drain state.
//!
//! Once a drain begins the server stops accepting transactions for good and
//! reports itself as draining; the runtime waits until the transactions
//! that were already running have finished.
use vstd::prelude::*;

verus! {

#[derive(Clone, Copy, Debug, PartialEq, Eq, Structural)]
pub enum ReadinessState {
    Starting,
    Ready,
    StorageUnavailable,
    Draining,
}

#[derive(Debug)]
pub struct RuntimeLifecycle {
    accepting: bool,
    readiness: ReadinessState,
    active_transactions: usize,
}

impl RuntimeLifecycle {
    pub closed spec fn spec_accepting(&self) -> bool {
        self.accepting
    }

    pub closed spec fn spec_readiness(&self) -> ReadinessState {
        self.readiness
    }

    pub closed spec fn spec_active_transactions(&self) -> nat {
        self.active_transactions as nat
    }

    /// The server accepts transactions exactly until it starts draining.
    #[verifier::type_invariant]
    spec fn accepting_until_drain(&self) -> bool {
        self.accepting <==> self.readiness != ReadinessState::Draining
    }

    pub fn is_accepting(&self) -> (r: bool)
        ensures
            r == self.spec_accepting(),
            r <==> self.spec_readiness() != ReadinessState::Draining,
    {
        proof {
            use_type_invariant(self);
        }
        self.accepting
    }

    pub fn active_transactions(&self) -> (n: usize)
        ensures
            n == self.spec_active_transactions(),
    {
        self.active_transactions
    }

    pub fn readiness(&self) -> (r: ReadinessState)
        ensures
            r == self.spec_readiness(),
    {
        self.readiness
    }

    pub fn mark_storage_ready(&mut self)
        ensures
            final(self).spec_readiness() == if old(self).spec_readiness() == ReadinessState::Draining {
                ReadinessState::Draining
            } else {
                ReadinessState::Ready
            },
            final(self).spec_accepting() == old(self).spec_accepting(),
            final(self).spec_active_transactions() == old(self).spec_active_transactions(),
    {
        self.update_readiness(ReadinessState::Ready);
    }

    pub fn mark_storage_unavailable(&mut self)
        ensures
            final(self).spec_readiness() == if old(self).spec_readiness() == ReadinessState::Draining {
                ReadinessState::Draining
            } else {
                ReadinessState::StorageUnavailable
            },
            final(self).spec_accepting() == old(self).spec_accepting(),
            final(self).spec_active_transactions() == old(self).spec_active_transactions(),
    {
        self.update_readiness(ReadinessState::StorageUnavailable);
    }

    /// Move to `next` unless a drain has begun; a drain is final.
    fn update_readiness(&mut self, next: ReadinessState)
        requires
            next != ReadinessState::Draining,
        ensures
            final(self).spec_readiness() == if old(self).spec_readiness() == ReadinessState::Draining {
                ReadinessState::Draining
            } else {
                next
            },
            final(self).spec_accepting() == old(self).spec_accepting(),
            final(self).spec_active_transactions() == old(self).spec_active_transactions(),
    {
        proof {
            use_type_invariant(&*self);
        }
        if self.readiness != ReadinessState::Draining {
            self.readiness = next;
        }
    }

    /// Stop accepting transactions and report draining. Returns whether no
    /// transaction is running, so that those waiting for the drain are to
    /// be woken now.
    pub fn begin_drain(&mut self) -> (drained: bool)
        ensures
            !final(self).spec_accepting(),
            final(self).spec_readiness() == ReadinessState::Draining,
            final(self).spec_active_transactions() == old(self).spec_active_transactions(),
            drained == (old(self).spec_active_transactions() == 0),
    {
        let active = self.active_transactions;
        *self = RuntimeLifecycle {
            accepting: false,
            readiness: ReadinessState::Draining,
            active_transactions: active,
        };
        active == 0
    }

    /// Join the drain set while transactions are still accepted.
    pub fn try_start_transaction(&mut self) -> (started: bool)
        requires
            old(self).spec_active_transactions() < usize::MAX,
        ensures
            started == old(self).spec_accepting(),
            started <==> old(self).spec_readiness() != ReadinessState::Draining,
            final(self).spec_active_transactions() == old(self).spec_active_transactions() + if started {
                1int
            } else {
                0int
            },
            final(self).spec_accepting() == old(self).spec_accepting(),
            final(self).spec_readiness() == old(self).spec_readiness(),
    {
        proof {
            use_type_invariant(&*self);
        }
        if !self.accepting {
            return false;
        }
        self.active_transactions = self.active_transactions + 1;
        true
    }

    /// A transaction ended. Returns whether it was the last one running, so
    /// that those waiting for the drain are to be woken now.
    pub fn transaction_finished(&mut self) -> (last: bool)
        requires
            old(self).spec_active_transactions() > 0,
        ensures
            final(self).spec_active_transactions() == old(self).spec_active_transactions() - 1,
            last == (old(self).spec_active_transactions() == 1),
            final(self).spec_accepting() == old(self).spec_accepting(),
            final(self).spec_readiness() == old(self).spec_readiness(),
    {
        proof {
            use_type_invariant(&*self);
        }
        let previous = self.active_transactions;
        self.active_transactions = previous - 1;
        previous == 1
    }
}

impl Default for RuntimeLifecycle {
    fn default() -> (r: Self)
        ensures
            r.spec_accepting(),
            r.spec_readiness() == ReadinessState::Starting,
            r.spec_active_transactions() == 0,
    {
        RuntimeLifecycle { accepting: true, readiness: ReadinessState::Starting, active_transactions: 0 }
    }
}

} // verus!
