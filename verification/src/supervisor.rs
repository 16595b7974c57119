//! Supervision of the single engine child process: idempotent start,
//! liveness-aware reuse, and forced termination on shutdown.
//!
//! The supervisor holds at most one process reference, identified by a
//! token the host side pairs with the real child handle. All access is
//! serialized by the host (one caller at a time), so a history of
//! concurrent start/stop calls is a sequence of the operations below.

use vstd::prelude::*;

verus! {

/// What a `start` call must do, given the held reference and its liveness.
#[derive(Clone, Copy, Debug, PartialEq, Eq, Structural)]
pub enum StartAction {
    /// A held process is still live: keep it, spawn nothing.
    AlreadyRunning,
    /// Nothing live is held: a new process must be spawned.
    Spawn,
}

/// The action `start` takes when the held reference is `held` and the held
/// process is live iff `live`.
pub open spec fn start_action_spec(held: Option<u64>, live: bool) -> StartAction {
    if held is Some && live {
        StartAction::AlreadyRunning
    } else {
        StartAction::Spawn
    }
}

/// One serialized supervisor operation, as observed by the host: a start
/// call (with the liveness it found and the outcome of the spawn it
/// performed, if it performed one), or a stop call.
#[derive(Clone, Copy, Debug, PartialEq, Eq, Structural)]
pub enum SupervisorOp {
    Start { live: bool, spawn_ok: bool, pid: u64 },
    Stop,
}

/// The held reference after one operation: a start keeps a live process,
/// records a successful spawn, and leaves the reference alone when the
/// spawn fails; a stop always clears it.
pub open spec fn apply_op(held: Option<u64>, op: SupervisorOp) -> Option<u64> {
    match op {
        SupervisorOp::Start { live, spawn_ok, pid } => {
            if start_action_spec(held, live) == StartAction::AlreadyRunning {
                held
            } else if spawn_ok {
                Some(pid)
            } else {
                held
            }
        },
        SupervisorOp::Stop => None,
    }
}

/// The held reference after a serialized history of operations.
pub open spec fn apply_ops(held: Option<u64>, ops: Seq<SupervisorOp>) -> Option<u64>
    decreases ops.len(),
{
    if ops.len() == 0 {
        held
    } else {
        apply_ops(apply_op(held, ops[0]), ops.drop_first())
    }
}

/// How many processes a history spawns: one per start whose action is
/// [`StartAction::Spawn`] and whose spawn succeeds.
pub open spec fn spawns_of(held: Option<u64>, ops: Seq<SupervisorOp>) -> nat
    decreases ops.len(),
{
    if ops.len() == 0 {
        0
    } else {
        (match ops[0] {
            SupervisorOp::Start { live, spawn_ok, pid } => {
                if start_action_spec(held, live) == StartAction::Spawn && spawn_ok {
                    1nat
                } else {
                    0nat
                }
            },
            SupervisorOp::Stop => 0nat,
        }) + spawns_of(apply_op(held, ops[0]), ops.drop_first())
    }
}

/// How many process references a value holds.
pub open spec fn held_count(held: Option<u64>) -> nat {
    if held is Some {
        1nat
    } else {
        0nat
    }
}

/// Singleton invariant: after any serialized history of start and stop
/// operations, at most one process reference is held. The supervisor
/// models the held reference as an `Option`, so this holds of every
/// reachable state, whatever the history.
pub proof fn lemma_singleton(held: Option<u64>, ops: Seq<SupervisorOp>)
    ensures
        held_count(apply_ops(held, ops)) <= 1,
{
}

/// Start idempotence: starting, then starting again while the spawned
/// process remains live, spawns exactly one process.
pub proof fn lemma_start_idempotent(held: Option<u64>, live: bool, pid: u64, pid2: u64)
    ensures
        spawns_of(
            None,
            seq![
                SupervisorOp::Start { live, spawn_ok: true, pid },
                SupervisorOp::Start { live: true, spawn_ok: true, pid: pid2 },
            ],
        ) == 1,
{
    let ops = seq![
        SupervisorOp::Start { live, spawn_ok: true, pid },
        SupervisorOp::Start { live: true, spawn_ok: true, pid: pid2 },
    ];
    assert(ops.drop_first() =~= seq![
        SupervisorOp::Start { live: true, spawn_ok: true, pid: pid2 },
    ]);
    assert(ops.drop_first().drop_first() =~= Seq::<SupervisorOp>::empty());
    assert(ops[0] == SupervisorOp::Start { live, spawn_ok: true, pid });
    assert(apply_op(None, ops[0]) == Some(pid));
    assert(spawns_of(Some(pid), ops.drop_first().drop_first()) == 0);
    assert(start_action_spec(Some(pid), true) == StartAction::AlreadyRunning);
    assert(spawns_of(Some(pid), ops.drop_first()) == 0);
    assert(spawns_of(None, ops) == 1);
}

/// More generally: a start observed while some process is held and live
/// spawns nothing.
pub proof fn lemma_live_start_spawns_nothing(
    held: Option<u64>,
    spawn_ok: bool,
    pid: u64,
    rest: Seq<SupervisorOp>,
)
    requires
        held is Some,
    ensures
        spawns_of(held, seq![SupervisorOp::Start { live: true, spawn_ok, pid }] + rest)
            == spawns_of(held, rest),
{
    let ops = seq![SupervisorOp::Start { live: true, spawn_ok, pid }] + rest;
    assert(ops.drop_first() =~= rest);
    assert(apply_op(held, ops[0]) == held);
}

/// Owns the reference to the at-most-one engine child process. The host
/// keeps the real child handle under the same serialization and pairs it
/// with the token stored here.
pub struct ProcessSupervisor {
    held: Option<u64>,
}

impl ProcessSupervisor {
    /// The held process token, if a process is held.
    pub closed spec fn held(self) -> Option<u64> {
        self.held
    }

    /// A supervisor holding no process.
    pub fn new() -> (r: Self)
        ensures
            r.held() is None,
    {
        ProcessSupervisor { held: None }
    }

    /// Decides what a `start` call must do: keep a live held process, or
    /// spawn. `live` reports whether the held process (if any) is still
    /// running, as the host observed it under the lock.
    pub fn start_action(&self, live: bool) -> (r: StartAction)
        ensures
            r == start_action_spec(self.held(), live),
    {
        match self.held {
            Option::Some(_) => {
                if live {
                    StartAction::AlreadyRunning
                } else {
                    StartAction::Spawn
                }
            },
            Option::None => StartAction::Spawn,
        }
    }

    /// Records the successful spawn of a new engine process: afterwards
    /// exactly that process is held.
    pub fn note_spawned(&mut self, pid: u64)
        ensures
            final(self).held() == Some(pid),
            final(self).held() == apply_op(
                old(self).held(),
                SupervisorOp::Start { live: false, spawn_ok: true, pid },
            ),
    {
        self.held = Some(pid);
    }

    /// Releases the held process for termination: returns the token of the
    /// process to kill, if one is held, and afterwards holds nothing. Safe
    /// to call when nothing is held.
    pub fn stop(&mut self) -> (r: Option<u64>)
        ensures
            final(self).held() is None,
            r == old(self).held(),
            final(self).held() == apply_op(old(self).held(), SupervisorOp::Stop),
    {
        let r = self.held;
        self.held = None;
        r
    }
}

/// The shutdown hook: stops the supervised engine process, handing the
/// host the token of the process to kill, if any; afterwards no process is
/// held.
pub fn stop_ollama(supervisor: &mut ProcessSupervisor) -> (r: Option<u64>)
    ensures
        final(supervisor).held() is None,
        r == old(supervisor).held(),
{
    supervisor.stop()
}

} // verus!
