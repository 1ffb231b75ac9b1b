//! The process supervisor: owns the set of managed agent processes,
//! assigns each spawned process an identity that is unique among the
//! currently live entries, and applies a per-agent restart policy when
//! a process exits.
//!
//! The supervisor itself performs no process control; the surrounding
//! control loop spawns and kills operating-system processes and feeds
//! the resulting lifecycle events into [`Supervisor::handle_exit`] and
//! [`Supervisor::register_spawn`].  Every bookkeeping decision — which
//! entry an exit event belongs to, whether the agent is respawned,
//! which processes a shutdown must kill — is made here.

use vstd::prelude::*;

verus! {

/// Governs whether the supervisor respawns an agent after its process
/// exits: never, only when the exit was a failure, or on every exit.
#[derive(Debug, Clone, Copy, PartialEq, Eq, Structural)]
pub enum RestartPolicy {
    Never,
    OnFailure,
    Always,
}

/// Static configuration for one agent: a unique name, the executable
/// it runs, whether it is enabled, and its restart policy.  Loaded once
/// at startup and immutable thereafter.
#[derive(Debug, Clone)]
pub struct AgentConfig {
    pub name: String,
    pub bin: String,
    pub enabled: bool,
    pub restart: RestartPolicy,
}

/// Runtime record for one live managed process: its configuration and
/// the numeric identity the supervisor assigned when it was spawned.
#[derive(Debug, Clone)]
pub struct ManagedAgent {
    pub id: u64,
    pub config: AgentConfig,
}

impl ManagedAgent {
    /// The configured name of this agent.
    pub fn name(&self) -> (r: &str)
        ensures
            r@ == self.config.name@,
    {
        self.config.name.as_str()
    }
}

/// Where the supervisor stands in its own lifecycle: spawning the
/// initial topology, running its control loop, or shut down.
#[derive(Debug, Clone, Copy, PartialEq, Eq, Structural)]
pub enum SupervisorPhase {
    Startup,
    Running,
    Stopped,
}

/// What the control loop must do after an exit event was handled:
/// spawn a fresh process for the agent, or let it go.
#[derive(Debug, Clone)]
pub enum ExitAction {
    Respawn(AgentConfig),
    Remove,
}

/// Whether an agent with the given restart policy is respawned after
/// an exit.  `clean_exit` reports whether the process ended with a
/// success status: `Always` restarts regardless of it, `OnFailure`
/// only when the exit was not clean, `Never` not at all.
pub open spec fn restart_applies(policy: RestartPolicy, clean_exit: bool) -> bool {
    match policy {
        RestartPolicy::Never => false,
        RestartPolicy::OnFailure => !clean_exit,
        RestartPolicy::Always => true,
    }
}

/// Whether some entry of `s` carries the identity `id`.
pub open spec fn has_agent(s: Seq<ManagedAgent>, id: u64) -> bool {
    exists|i: int| 0 <= i < s.len() && (#[trigger] s[i]).id == id
}

/// The index of the entry of `s` carrying the identity `id`; in a
/// well-formed supervisor that entry is unique.
pub open spec fn agent_index(s: Seq<ManagedAgent>, id: u64) -> int {
    choose|i: int| 0 <= i < s.len() && (#[trigger] s[i]).id == id
}

/// The process supervisor.  The managed set is mutated only through
/// the methods below, so the identity invariant — no two live entries
/// share an identity — holds at every instant.
pub struct Supervisor {
    agents: Vec<ManagedAgent>,
    next_id: u64,
    phase: SupervisorPhase,
}

impl Supervisor {
    /// The current managed set, in spawn order.
    pub closed spec fn agents_seq(&self) -> Seq<ManagedAgent> {
        self.agents@
    }

    /// The identity the next spawned process will receive.
    pub closed spec fn spec_next_id(&self) -> u64 {
        self.next_id
    }

    /// The supervisor's own lifecycle phase.
    pub closed spec fn spec_phase(&self) -> SupervisorPhase {
        self.phase
    }

    /// Identities are assigned from a counter that only grows, so every
    /// live entry's identity is below the counter and no two live
    /// entries share one.  This holds of every supervisor value; it is
    /// established by [`Self::new`] and preserved by every method.
    #[verifier::type_invariant]
    pub closed spec fn wf(&self) -> bool {
        &&& forall|i: int|
            0 <= i < self.agents@.len() ==> (#[trigger] self.agents@[i]).id < self.next_id
        &&& forall|i: int, j: int|
            #![trigger self.agents@[i], self.agents@[j]]
            0 <= i < j < self.agents@.len() ==> self.agents@[i].id != self.agents@[j].id
    }

    /// A fresh supervisor holds no managed processes and is about to
    /// spawn the configured topology.
    pub fn new() -> (s: Supervisor)
        ensures
            s.agents_seq().len() == 0,
            s.spec_next_id() == 0,
            s.spec_phase() == SupervisorPhase::Startup,
    {
        Supervisor { agents: Vec::new(), next_id: 0, phase: SupervisorPhase::Startup }
    }

    /// Records that the whole configured topology was spawned and the
    /// control loop is now running.
    pub fn startup_complete(&mut self)
        requires
            old(self).spec_phase() == SupervisorPhase::Startup,
        ensures
            final(self).spec_phase() == SupervisorPhase::Running,
            final(self).agents_seq() == old(self).agents_seq(),
            final(self).spec_next_id() == old(self).spec_next_id(),
    {
        proof {
            use_type_invariant(&*self);
        }
        self.phase = SupervisorPhase::Running;
    }

    /// Whether a failure to spawn a process is fatal: it is during the
    /// initial startup, where the configured topology could not be
    /// established, and it is not afterwards, where the agent is merely
    /// dropped and degraded operation continues.
    pub fn spawn_failure_is_fatal(&self) -> (r: bool)
        ensures
            r == (self.spec_phase() == SupervisorPhase::Startup),
    {
        self.phase == SupervisorPhase::Startup
    }

    /// The identity the next spawned process will receive; callers
    /// check it against the counter's ceiling before registering.
    pub fn next_spawn_id(&self) -> (n: u64)
        ensures
            n == self.spec_next_id(),
    {
        self.next_id
    }

    /// Number of currently managed processes.
    pub fn agent_count(&self) -> (n: usize)
        ensures
            n == self.agents_seq().len(),
    {
        self.agents.len()
    }

    /// The managed entry at position `i` of the set.
    pub fn agent_at(&self, i: usize) -> (a: &ManagedAgent)
        requires
            i < self.agents_seq().len(),
        ensures
            *a == self.agents_seq()[i as int],
    {
        &self.agents[i]
    }

    /// Whether the managed set is empty; the control loop stops when
    /// the last managed process is gone.
    pub fn is_idle(&self) -> (r: bool)
        ensures
            r == (self.agents_seq().len() == 0),
    {
        self.agents.len() == 0
    }

    /// Enters a freshly spawned process into the managed set and
    /// returns its identity, which no current entry shares.
    pub fn register_spawn(&mut self, config: AgentConfig) -> (id: u64)
        requires
            old(self).spec_next_id() < u64::MAX,
        ensures
            id == old(self).spec_next_id(),
            forall|i: int|
                0 <= i < old(self).agents_seq().len() ==> (#[trigger] old(self).agents_seq()[i]).id
                    != id,
            final(self).agents_seq() == old(self).agents_seq().push(
                (ManagedAgent { id, config }),
            ),
            final(self).spec_next_id() == old(self).spec_next_id() + 1,
            final(self).spec_phase() == old(self).spec_phase(),
    {
        proof {
            use_type_invariant(&*self);
        }
        let ghost s0 = self.agents@;
        let id = self.next_id;
        let mut agents = Vec::new();
        std::mem::swap(&mut agents, &mut self.agents);
        self.next_id = id + 1;
        agents.push(ManagedAgent { id, config });
        proof {
            assert forall|i: int, j: int|
                #![trigger agents@[i], agents@[j]]
                0 <= i < j < agents@.len() implies agents@[i].id != agents@[j].id by {
                if j < s0.len() {
                    assert(agents@[i] == s0[i] && agents@[j] == s0[j]);
                } else {
                    assert(agents@[j].id == id && agents@[i] == s0[i]);
                }
            }
        }
        self.agents = agents;
        id
    }

    /// Handles the lifecycle event for an exited process: the entry
    /// with the event's identity leaves the managed set, and the
    /// agent's restart policy decides whether the control loop must
    /// spawn it afresh.  An event whose identity is no longer managed
    /// changes nothing.
    pub fn handle_exit(&mut self, id: u64, clean_exit: bool) -> (action: ExitAction)
        ensures
            final(self).spec_next_id() == old(self).spec_next_id(),
            final(self).spec_phase() == old(self).spec_phase(),
            !has_agent(old(self).agents_seq(), id) ==> {
                &&& final(self).agents_seq() == old(self).agents_seq()
                &&& action is Remove
            },
            has_agent(old(self).agents_seq(), id) ==> {
                let exited = old(self).agents_seq()[agent_index(old(self).agents_seq(), id)];
                &&& final(self).agents_seq() == old(self).agents_seq().remove(
                    agent_index(old(self).agents_seq(), id),
                )
                &&& (action == (ExitAction::Respawn(exited.config)) <==> restart_applies(
                    exited.config.restart,
                    clean_exit,
                ))
                &&& (action is Remove <==> !restart_applies(exited.config.restart, clean_exit))
            },
            !has_agent(final(self).agents_seq(), id),
    {
        proof {
            use_type_invariant(&*self);
        }
        let ghost s0 = self.agents@;
        let found = find_agent_index(&self.agents, id);
        match found {
            None => {
                proof {
                    assert(!has_agent(s0, id));
                }
                ExitAction::Remove
            },
            Some(idx) => {
                let ghost k = agent_index(s0, id);
                proof {
                    assert(has_agent(s0, id));
                    assert(0 <= k < s0.len() && s0[k].id == id);
                    assert(k == idx as int);
                    s0.remove_ensures(idx as int);
                }
                let mut agents = Vec::new();
                std::mem::swap(&mut agents, &mut self.agents);
                let exited = agents.remove(idx);
                proof {
                    assert(exited == s0[k]);
                    assert forall|i: int, j: int|
                        #![trigger agents@[i], agents@[j]]
                        0 <= i < j < agents@.len() implies agents@[i].id != agents@[j].id by {}
                    assert(!has_agent(agents@, id)) by {
                        assert forall|i: int| 0 <= i < agents@.len() implies (#[trigger] agents@[i]).id
                            != id by {
                            if i < k {
                                assert(agents@[i] == s0[i]);
                            } else {
                                assert(agents@[i] == s0[i + 1]);
                            }
                        }
                    }
                }
                self.agents = agents;
                let respawn = match exited.config.restart {
                    RestartPolicy::Never => false,
                    RestartPolicy::OnFailure => !clean_exit,
                    RestartPolicy::Always => true,
                };
                if respawn {
                    ExitAction::Respawn(exited.config)
                } else {
                    ExitAction::Remove
                }
            },
        }
    }

    /// Begins the operator-requested shutdown: every managed entry is
    /// handed back so the control loop can kill its process, the
    /// managed set becomes empty, and the supervisor stops.
    pub fn begin_shutdown(&mut self) -> (doomed: Vec<ManagedAgent>)
        ensures
            doomed@ == old(self).agents_seq(),
            final(self).agents_seq().len() == 0,
            final(self).spec_phase() == SupervisorPhase::Stopped,
            final(self).spec_next_id() == old(self).spec_next_id(),
    {
        proof {
            use_type_invariant(&*self);
        }
        self.phase = SupervisorPhase::Stopped;
        let mut doomed: Vec<ManagedAgent> = Vec::new();
        std::mem::swap(&mut doomed, &mut self.agents);
        doomed
    }

    /// Whether the supervisor has shut down.
    pub fn is_stopped(&self) -> (r: bool)
        ensures
            r == (self.spec_phase() == SupervisorPhase::Stopped),
    {
        self.phase == SupervisorPhase::Stopped
    }
}

/// Finds the position of the entry carrying `id`, if any.
fn find_agent_index(agents: &Vec<ManagedAgent>, id: u64) -> (r: Option<usize>)
    ensures
        match r {
            Some(i) => i < agents@.len() && agents@[i as int].id == id,
            None => !has_agent(agents@, id),
        },
{
    let mut i: usize = 0;
    while i < agents.len()
        invariant
            i <= agents@.len(),
            forall|k: int| 0 <= k < i ==> (#[trigger] agents@[k]).id != id,
        decreases agents@.len() - i,
    {
        if agents[i].id == id {
            return Some(i);
        }
        i = i + 1;
    }
    None
}

/// Law (identity non-collision): at any instant, no two entries of the
/// managed set share an identity.
pub proof fn lemma_identity_non_collision(s: &Supervisor, i: int, j: int)
    requires
        s.wf(),
        0 <= i < s.agents_seq().len(),
        0 <= j < s.agents_seq().len(),
        i != j,
    ensures
        s.agents_seq()[i].id != s.agents_seq()[j].id,
{
}

/// Law (restart policy): an agent configured `Never` is never
/// respawned, one configured `Always` is respawned on every exit, and
/// one configured `OnFailure` is respawned exactly when the exit was
/// not clean.
pub proof fn lemma_restart_policy(clean_exit: bool)
    ensures
        !restart_applies(RestartPolicy::Never, clean_exit),
        restart_applies(RestartPolicy::Always, clean_exit),
        restart_applies(RestartPolicy::OnFailure, clean_exit) == !clean_exit,
{
}

/// Number of entries of `s` configured with the given agent name.
pub open spec fn count_with_name(s: Seq<ManagedAgent>, name: Seq<char>) -> nat
    decreases s.len(),
{
    if s.len() == 0 {
        0
    } else {
        count_with_name(s.drop_last(), name) + (if s.last().config.name@ == name {
            1nat
        } else {
            0nat
        })
    }
}

proof fn lemma_count_push(s: Seq<ManagedAgent>, e: ManagedAgent, name: Seq<char>)
    ensures
        count_with_name(s.push(e), name) == count_with_name(s, name) + (if e.config.name@ == name {
            1nat
        } else {
            0nat
        }),
{
    assert(s.push(e).drop_last() =~= s);
    assert(s.push(e).last() == e);
}

proof fn lemma_count_remove(s: Seq<ManagedAgent>, i: int, name: Seq<char>)
    requires
        0 <= i < s.len(),
    ensures
        count_with_name(s, name) == count_with_name(s.remove(i), name) + (
        if s[i].config.name@ == name {
            1nat
        } else {
            0nat
        }),
    decreases s.len(),
{
    if i == s.len() - 1 {
        assert(s.remove(i) =~= s.drop_last());
    } else {
        assert(s.remove(i).drop_last() =~= s.drop_last().remove(i));
        assert(s.remove(i).last() == s.last());
        lemma_count_remove(s.drop_last(), i, name);
        assert(s.drop_last()[i] == s[i]);
    }
}

/// Law (no duplication in a crash loop): when the exited entry at
/// position `k` leaves the managed set and a fresh entry for the same
/// agent name is spawned in its place, the set holds exactly as many
/// entries bearing that name as before the exit — however often this
/// repeats.
pub proof fn lemma_crash_loop_preserves_count(s: Seq<ManagedAgent>, k: int, e: ManagedAgent)
    requires
        0 <= k < s.len(),
        e.config.name@ == s[k].config.name@,
    ensures
        count_with_name(s.remove(k).push(e), s[k].config.name@) == count_with_name(
            s,
            s[k].config.name@,
        ),
{
    lemma_count_remove(s, k, s[k].config.name@);
    lemma_count_push(s.remove(k), e, s[k].config.name@);
}

} // verus!
