use vstd::prelude::*;

use std::collections::HashMap;

verus! {

broadcast use vstd::std_specs::hash::group_hash_axioms;

/// What the registry keeps for one live worker.
#[derive(Clone, Copy, Debug, PartialEq, Eq, Structural)]
pub struct PoolRecord {
    /// Connections routed to the worker so far.
    pub routed: u64,
}

/// A message to the registry.
#[derive(Clone, Copy, Debug, PartialEq, Eq, Structural)]
pub enum PoolMessage {
    /// The worker with this identity has shut down.
    Shutdown(u128),
}

#[derive(Clone, Copy, Debug, PartialEq, Eq, Structural)]
pub enum PoolError {
    /// A live worker already holds this identity.
    DuplicateIdentity,
    /// No live worker holds this identity.
    UnknownIdentity,
}

/// The registry of live workers, keyed by identity.
#[derive(Debug)]
pub struct WorkerPool {
    workers: HashMap<u128, PoolRecord>,
    retired: u64,
}

impl View for WorkerPool {
    type V = Map<u128, PoolRecord>;

    closed spec fn view(&self) -> Map<u128, PoolRecord> {
        self.workers@
    }
}

impl WorkerPool {
    /// How many workers the registry has released.
    pub closed spec fn retired_count(self) -> nat {
        self.retired as nat
    }

    /// An empty registry.
    pub fn new() -> (r: WorkerPool)
        ensures
            r@ == Map::<u128, PoolRecord>::empty(),
            r.retired_count() == 0,
    {
        WorkerPool { workers: HashMap::new(), retired: 0 }
    }

    /// Whether a live worker holds this identity.
    pub fn contains(&self, key: u128) -> (r: bool)
        ensures
            r == self@.contains_key(key),
    {
        self.workers.contains_key(&key)
    }

    /// How many workers are live.
    pub fn active_count(&self) -> (r: usize)
        ensures
            r == self@.len(),
    {
        self.workers.len()
    }

    /// How many workers the registry has released.
    pub fn retired(&self) -> (r: u64)
        ensures
            r == self.retired_count(),
    {
        self.retired
    }

    /// Registers a new live worker; an identity is held by at most one live worker.
    pub fn register(&mut self, key: u128) -> (r: Result<(), PoolError>)
        ensures
            r is Ok <==> !old(self)@.contains_key(key),
            r is Err ==> r == Err::<(), PoolError>(PoolError::DuplicateIdentity) && final(self)@
                == old(self)@,
            r is Ok ==> final(self)@ == old(self)@.insert(key, PoolRecord { routed: 0 }),
            final(self).retired_count() == old(self).retired_count(),
    {
        if self.workers.contains_key(&key) {
            Err(PoolError::DuplicateIdentity)
        } else {
            self.workers.insert(key, PoolRecord { routed: 0 });
            Ok(())
        }
    }

    /// Counts one connection routed to a live worker.
    pub fn route_connection(&mut self, key: u128) -> (r: Result<(), PoolError>)
        ensures
            r is Ok <==> old(self)@.contains_key(key),
            r is Err ==> r == Err::<(), PoolError>(PoolError::UnknownIdentity) && final(self)@
                == old(self)@,
            r is Ok ==> final(self)@ == old(self)@.insert(
                key,
                PoolRecord { routed: sat_inc(old(self)@[key].routed) },
            ),
            final(self).retired_count() == old(self).retired_count(),
    {
        match self.workers.get(&key) {
            Some(rec) => {
                let routed = if rec.routed < u64::MAX {
                    rec.routed + 1
                } else {
                    u64::MAX
                };
                self.workers.insert(key, PoolRecord { routed });
                Ok(())
            },
            None => Err(PoolError::UnknownIdentity),
        }
    }

    /// Consumes one message. `Shutdown(key)` releases the worker's record if
    /// it is live and returns whether it was; for an identity with no live
    /// record it changes nothing and is no error.
    pub fn handle_message(&mut self, msg: PoolMessage) -> (r: bool)
        ensures
            ({
                let PoolMessage::Shutdown(key) = msg;
                &&& r == old(self)@.contains_key(key)
                &&& final(self)@ == old(self)@.remove(key)
                &&& r ==> final(self).retired_count() == sat_inc(old(self).retired_count() as u64)
                &&& !r ==> final(self)@ == old(self)@ && final(self).retired_count() == old(
                    self,
                ).retired_count()
            }),
    {
        let PoolMessage::Shutdown(key) = msg;
        match self.workers.remove(&key) {
            Some(_) => {
                if self.retired < u64::MAX {
                    self.retired = self.retired + 1;
                }
                true
            },
            None => {
                assert(self.workers@ =~= old(self).workers@);
                false
            },
        }
    }
}

/// `n + 1`, held at `u64::MAX`.
pub open spec fn sat_inc(n: u64) -> u64 {
    if n < u64::MAX {
        (n + 1) as u64
    } else {
        n
    }
}

} // verus!
