//! Lifecycle decisions for the single persistent worker.
//!
//! The supervisor owns "the current worker, if any" and decides, before each
//! request, whether that worker can be reused or must be replaced.  The
//! operating-system side of a worker (the process, its pipes, the clock) lives
//! outside the library; it reports here as plain values: a liveness probe
//! result and the current time in seconds.

use crate::framing::ChannelError;
use vstd::prelude::*;

verus! {

/// Idle time in seconds after which a live worker is still recycled,
/// guarding against unbounded resource growth in a long-lived process.
pub const IDLE_RECYCLE_SECS: u64 = 600;

/// Outcome of a non-blocking liveness probe of the worker process.
#[derive(Clone, Copy, PartialEq, Eq, Structural, Debug)]
pub enum Liveness {
    /// The process has not exited.
    Alive,
    /// The process has already exited.
    Exited,
    /// The probe itself failed; the process state is unknown.
    Unknown,
}

impl Liveness {
    /// A worker is healthy only when the probe positively reports it running.
    pub open spec fn spec_is_healthy(self) -> bool {
        self is Alive
    }

    /// Healthiness of a probe outcome: an exited process and an indeterminate
    /// probe are both treated as unhealthy.
    pub fn is_healthy(self) -> (b: bool)
        ensures
            b == self.spec_is_healthy(),
    {
        matches!(self, Liveness::Alive)
    }
}

/// The supervisor's record of the current worker: which spawn produced it and
/// when it last completed an exchange (seconds on a monotonic clock).
#[derive(Clone, Copy, PartialEq, Eq, Structural, Debug)]
pub struct WorkerRecord {
    /// Serial number of the spawn that produced this worker (0 for the first).
    pub spawn_id: u64,
    /// Time of the last successful exchange, in seconds.
    pub last_exchange: u64,
}

impl WorkerRecord {
    /// A worker is stale when more than `IDLE_RECYCLE_SECS` have passed since
    /// its last successful exchange.
    pub open spec fn spec_is_stale(self, now: u64) -> bool {
        now >= self.last_exchange && now - self.last_exchange > IDLE_RECYCLE_SECS
    }

    /// Staleness check against the current time.
    pub fn is_stale(&self, now: u64) -> (b: bool)
        ensures
            b == self.spec_is_stale(now),
    {
        now >= self.last_exchange && now - self.last_exchange > IDLE_RECYCLE_SECS
    }
}

/// The exclusive owner of the current worker, if any.
///
/// The surrounding program must hold one `Supervisor` behind a single
/// exclusive lock for the whole of each request/response exchange; every
/// method takes `&mut self`, so exchanges on one value never interleave.
pub struct Supervisor {
    /// The current worker's record, if a worker is installed.
    pub worker: Option<WorkerRecord>,
    /// How many workers have been spawned so far.
    pub spawns: u64,
}

impl Supervisor {
    /// A fresh supervisor: no worker yet, nothing spawned.
    pub fn new() -> (s: Supervisor)
        ensures
            s.worker is None,
            s.spawns == 0,
    {
        Supervisor { worker: None, spawns: 0 }
    }

    /// Whether the next request needs a new worker: there is none, or the
    /// probe does not report it healthy, or it has idled past the limit.
    pub open spec fn spec_needs_new(self, probe: Liveness, now: u64) -> bool {
        match self.worker {
            None => true,
            Some(w) => !probe.spec_is_healthy() || w.spec_is_stale(now),
        }
    }

    /// Decides whether the current worker (probed as `probe`) can serve a
    /// request at time `now`, or a new one must be spawned first.
    pub fn needs_new_worker(&self, probe: Liveness, now: u64) -> (b: bool)
        ensures
            b == self.spec_needs_new(probe, now),
    {
        match &self.worker {
            None => true,
            Some(w) => !probe.is_healthy() || w.is_stale(now),
        }
    }

    /// Gives up the current worker, if any, so the caller can terminate the
    /// underlying process (best-effort cleanup, errors there are discarded).
    pub fn retire_worker(&mut self) -> (had: Option<WorkerRecord>)
        ensures
            final(self).worker is None,
            final(self).spawns == old(self).spawns,
            had == old(self).worker,
    {
        self.worker.take()
    }

    /// Records that a fresh worker was spawned at time `now` and makes it the
    /// current one.  Returns the new worker's spawn serial number.
    pub fn install_worker(&mut self, now: u64) -> (id: u64)
        requires
            old(self).worker is None,
            old(self).spawns < u64::MAX,
        ensures
            id == old(self).spawns,
            final(self).worker == Some(WorkerRecord { spawn_id: id, last_exchange: now }),
            final(self).spawns == old(self).spawns + 1,
    {
        let id = self.spawns;
        self.worker = Some(WorkerRecord { spawn_id: id, last_exchange: now });
        self.spawns = self.spawns + 1;
        id
    }

    /// Records a successful exchange at time `now` on the current worker.
    pub fn record_exchange(&mut self, now: u64)
        requires
            old(self).worker is Some,
        ensures
            final(self).worker == Some(
                WorkerRecord { spawn_id: old(self).worker->0.spawn_id, last_exchange: now },
            ),
            final(self).spawns == old(self).spawns,
    {
        match &mut self.worker {
            Some(w) => {
                w.last_exchange = now;
            },
            None => {},
        }
    }

    /// The supervisor's state after one full exchange at time `now`, given
    /// how the outside world answered: `probe` is the liveness probe of the
    /// current worker, `spawn_ok` whether a spawn attempt (if one was needed)
    /// succeeded, and `delivered` whether the channel delivered a response.
    pub open spec fn spec_step(
        self,
        now: u64,
        probe: Liveness,
        spawn_ok: bool,
        delivered: bool,
    ) -> Supervisor {
        if self.spec_needs_new(probe, now) {
            if spawn_ok {
                Supervisor {
                    worker: Some(WorkerRecord { spawn_id: self.spawns, last_exchange: now }),
                    spawns: (self.spawns + 1) as u64,
                }
            } else {
                Supervisor { worker: None, spawns: self.spawns }
            }
        } else {
            if delivered {
                Supervisor {
                    worker: Some(
                        WorkerRecord { spawn_id: self.worker->0.spawn_id, last_exchange: now },
                    ),
                    spawns: self.spawns,
                }
            } else {
                self
            }
        }
    }
}

/// What a spawn attempt reported, as observed by the surrounding program.
#[derive(PartialEq, Eq, Debug)]
pub enum SpawnOutcome {
    /// The worker process started and its streams were captured.
    Spawned,
    /// The worker could not be started; the message says why.
    SpawnFailed(String),
}

/// What one send/receive attempt on the worker's streams reported.
#[derive(PartialEq, Eq, Debug)]
pub enum ChannelOutcome {
    /// A whole response was read; the carried text is its raw body.
    Delivered(String),
    /// The worker's output stream closed before the response was complete.
    Terminated,
    /// Writing or reading the streams failed; the message says why.
    IoFailure(String),
}

/// Why a supervised exchange failed.
#[derive(PartialEq, Eq, Debug)]
pub enum ExecutionError {
    /// A new worker was needed and could not be spawned.  Fatal to this
    /// attempt; the supervisor does not retry.
    Spawn(String),
    /// The exchange itself failed; the next call's probe will recycle the
    /// worker.
    Channel(ChannelError),
}

impl Supervisor {
    /// One full supervised exchange, with the outside world's answers handed
    /// in as values: `probe` is the liveness probe of the current worker (if
    /// any), `spawn` what a spawn attempt would report, and `channel` what
    /// the send/receive on the current worker's streams would report.
    ///
    /// The surrounding program performs the same steps with real calls in
    /// between, via `needs_new_worker`, `retire_worker`, `install_worker` and
    /// `record_exchange`; this function is the complete decision path of one
    /// call, so simulated workers can be driven through it unchanged.
    ///
    /// A channel failure leaves the worker in place: the next call's probe
    /// detects the breakage and recycles it then.
    pub fn execute(
        &mut self,
        now: u64,
        probe: Liveness,
        spawn: SpawnOutcome,
        channel: ChannelOutcome,
    ) -> (r: Result<String, ExecutionError>)
        requires
            old(self).spawns < u64::MAX,
        ensures
            *final(self) == old(self).spec_step(now, probe, spawn is Spawned, channel is Delivered),
            old(self).spec_needs_new(probe, now) ==> (spawn matches SpawnOutcome::SpawnFailed(m)
                ==> r == Err::<String, ExecutionError>(ExecutionError::Spawn(m))),
            !old(self).spec_needs_new(probe, now) || spawn is Spawned ==> match channel {
                ChannelOutcome::Delivered(raw) => r == Ok::<String, ExecutionError>(raw),
                ChannelOutcome::Terminated => r == Err::<String, ExecutionError>(
                    ExecutionError::Channel(ChannelError::TerminatedUnexpectedly),
                ),
                ChannelOutcome::IoFailure(m) => r == Err::<String, ExecutionError>(
                    ExecutionError::Channel(ChannelError::Io(m)),
                ),
            },
    {
        if self.needs_new_worker(probe, now) {
            let _old = self.retire_worker();
            match spawn {
                SpawnOutcome::Spawned => {
                    self.install_worker(now);
                },
                SpawnOutcome::SpawnFailed(m) => {
                    return Err(ExecutionError::Spawn(m));
                },
            }
        }
        match channel {
            ChannelOutcome::Delivered(raw) => {
                self.record_exchange(now);
                Ok(raw)
            },
            ChannelOutcome::Terminated => Err(
                ExecutionError::Channel(ChannelError::TerminatedUnexpectedly),
            ),
            ChannelOutcome::IoFailure(m) => Err(ExecutionError::Channel(ChannelError::Io(m))),
        }
    }
}

/// Law: a request sent twice in a row with no induced failure reuses the same
/// worker.  After any successful exchange at `t1`, a second call at `t2` —
/// probed alive, within the idle limit — needs no new worker: it spawns
/// nothing and exchanges on the worker the first call left behind.
pub proof fn lemma_second_call_reuses_worker(s0: Supervisor, t1: u64, t2: u64, probe1: Liveness)
    requires
        t1 <= t2,
        t2 - t1 <= IDLE_RECYCLE_SECS,
    ensures
        ({
            let s1 = s0.spec_step(t1, probe1, true, true);
            let s2 = s1.spec_step(t2, Liveness::Alive, true, true);
            &&& s1.worker is Some
            &&& !s1.spec_needs_new(Liveness::Alive, t2)
            &&& s2.spawns == s1.spawns
            &&& s2.worker is Some
            &&& s2.worker->0.spawn_id == s1.worker->0.spawn_id
        }),
{
}

/// Law: a worker that exited between two calls is replaced by exactly one
/// respawn before the second call's exchange.
pub proof fn lemma_exited_worker_respawns_once(s1: Supervisor, t2: u64)
    requires
        s1.worker is Some,
        s1.spawns < u64::MAX,
    ensures
        s1.spec_needs_new(Liveness::Exited, t2),
        ({
            let s2 = s1.spec_step(t2, Liveness::Exited, true, true);
            &&& s2.spawns == s1.spawns + 1
            &&& s2.worker is Some
            &&& s2.worker->0.spawn_id == s1.spawns
        }),
{
}

/// Law: a worker idle for more than the limit since its last exchange is
/// recycled on the next call even if it is still alive.
pub proof fn lemma_stale_worker_recycled(s1: Supervisor, t2: u64)
    requires
        s1.worker is Some,
        t2 >= s1.worker->0.last_exchange,
        t2 - s1.worker->0.last_exchange > IDLE_RECYCLE_SECS,
        s1.spawns < u64::MAX,
    ensures
        s1.spec_needs_new(Liveness::Alive, t2),
        ({
            let s2 = s1.spec_step(t2, Liveness::Alive, true, true);
            &&& s2.spawns == s1.spawns + 1
            &&& s2.worker is Some
            &&& s2.worker->0.spawn_id == s1.spawns
        }),
{
}

} // verus!
