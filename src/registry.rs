//! The agent registry: a fixed-capacity table of registered agents, keyed by
//! their ids, which are unique.

use vstd::prelude::*;
use vstd::string::*;

use crate::agent::{AgentEntry, AgentStatus, AgentType};

verus! {

/// Registry errors.
#[derive(Debug, Clone)]
pub enum RegistryError {
    AlreadyRegistered(String),
    NotFound(String),
    CapacityExceeded,
}

/// Whether an entry with the given id is present.
pub open spec fn has_id(es: Seq<AgentEntry>, id: Seq<char>) -> bool {
    exists|i: int| 0 <= i < es.len() && (#[trigger] es[i]).agent_id@ == id
}

/// No two entries share an id.
pub open spec fn ids_unique(es: Seq<AgentEntry>) -> bool {
    forall|i: int, j: int|
        0 <= i < es.len() && 0 <= j < es.len() && i != j ==> (#[trigger] es[i]).agent_id@
            != (#[trigger] es[j]).agent_id@
}

/// The entry that a fresh registration adds.
pub open spec fn fresh_entry(
    e: AgentEntry,
    id: Seq<char>,
    agent_type: AgentType,
    registered_at: Seq<char>,
) -> bool {
    &&& e.agent_id@ == id
    &&& e.agent_type == agent_type
    &&& e.status == AgentStatus::Registered
    &&& e.registered_at@ == registered_at
    &&& e.last_step == 0
}

/// `new` is `old` with a fresh entry for the agent appended.
pub open spec fn added(
    old: Seq<AgentEntry>,
    new: Seq<AgentEntry>,
    id: Seq<char>,
    agent_type: AgentType,
    registered_at: Seq<char>,
) -> bool {
    &&& new.len() == old.len() + 1
    &&& new.subrange(0, old.len() as int) == old
    &&& fresh_entry(new.last(), id, agent_type, registered_at)
}

proof fn lemma_unique_index(es: Seq<AgentEntry>, i: int, id: Seq<char>)
    requires
        ids_unique(es),
        0 <= i < es.len(),
        es[i].agent_id@ == id,
    ensures
        forall|j: int| 0 <= j < es.len() && es[j].agent_id@ == id ==> j == i,
{
}

/// Registry of the agents of one environment.
pub struct AgentRegistry {
    agents: Vec<AgentEntry>,
    max_agents: usize,
}

impl AgentRegistry {
    /// The entries, in order of registration.
    pub closed spec fn entries(&self) -> Seq<AgentEntry> {
        self.agents@
    }

    /// The capacity.
    pub closed spec fn capacity(&self) -> nat {
        self.max_agents as nat
    }

    /// Whether no room is left.
    pub open spec fn is_full(&self) -> bool {
        self.entries().len() >= self.capacity()
    }

    /// The registry's invariant: unique ids, and no more entries than room.
    pub open spec fn wf(&self) -> bool {
        ids_unique(self.entries()) && self.entries().len() <= self.capacity()
    }

    /// An empty registry with room for `max_agents` agents.
    pub fn new(max_agents: usize) -> (r: AgentRegistry)
        ensures
            r.wf(),
            r.entries() == Seq::<AgentEntry>::empty(),
            r.capacity() == max_agents,
    {
        AgentRegistry { agents: Vec::new(), max_agents }
    }

    fn find(&self, agent_id: &String) -> (r: Option<usize>)
        ensures
            r is None <==> !has_id(self.entries(), agent_id@),
            r matches Some(i) ==> i < self.entries().len() && self.entries()[i as int].agent_id@
                == agent_id@,
    {
        let mut i: usize = 0;
        while i < self.agents.len()
            invariant
                0 <= i <= self.agents@.len(),
                forall|j: int| 0 <= j < i ==> (#[trigger] self.agents@[j]).agent_id@ != agent_id@,
            decreases self.agents@.len() - i,
        {
            if self.agents[i].agent_id == *agent_id {
                return Some(i);
            }
            i = i + 1;
        }
        None
    }

    /// Registers an agent, stamped with the time of registration that the
    /// caller read from its clock. An id already present is a success that
    /// changes nothing; otherwise a full registry refuses with
    /// `CapacityExceeded`, and one with room adds a fresh entry.
    pub fn register(&mut self, agent_id: String, agent_type: AgentType, registered_at: String) -> (r:
        Result<(), RegistryError>)
        requires
            old(self).wf(),
        ensures
            final(self).wf(),
            final(self).capacity() == old(self).capacity(),
            has_id(old(self).entries(), agent_id@) ==> (r is Ok && final(self).entries()
                == old(self).entries()),
            !has_id(old(self).entries(), agent_id@) && old(self).is_full() ==> ((r matches Err(
                RegistryError::CapacityExceeded,
            )) && final(self).entries() == old(self).entries()),
            !has_id(old(self).entries(), agent_id@) && !old(self).is_full() ==> (r is Ok && added(
                old(self).entries(),
                final(self).entries(),
                agent_id@,
                agent_type,
                registered_at@,
            )),
    {
        if self.find(&agent_id).is_some() {
            return Ok(());
        }
        if self.agents.len() >= self.max_agents {
            return Err(RegistryError::CapacityExceeded);
        }
        let entry = AgentEntry {
            agent_id,
            agent_type,
            status: AgentStatus::Registered,
            registered_at,
            last_step: 0,
        };
        let ghost old_es = self.agents@;
        self.agents.push(entry);
        assert(self.agents@.subrange(0, old_es.len() as int) =~= old_es);
        Ok(())
    }

    /// Removes an agent; an unknown id is `NotFound`.
    pub fn deregister(&mut self, agent_id: &String) -> (r: Result<(), RegistryError>)
        requires
            old(self).wf(),
        ensures
            final(self).wf(),
            final(self).capacity() == old(self).capacity(),
            r is Ok <==> has_id(old(self).entries(), agent_id@),
            r matches Err(e) ==> (e matches RegistryError::NotFound(s) && s@ == agent_id@),
            r is Err ==> final(self).entries() == old(self).entries(),
            r is Ok ==> exists|i: int|
                0 <= i < old(self).entries().len() && old(self).entries()[i].agent_id@
                    == agent_id@ && final(self).entries() == old(self).entries().remove(i),
            !has_id(final(self).entries(), agent_id@),
    {
        match self.find(agent_id) {
            Some(i) => {
                let ghost old_es = self.agents@;
                self.agents.remove(i);
                assert(self.agents@ == old_es.remove(i as int));
                assert forall|j: int| 0 <= j < self.agents@.len() implies (
                #[trigger] self.agents@[j]).agent_id@ != agent_id@ by {
                    if j < i {
                        assert(self.agents@[j] == old_es[j]);
                    } else {
                        assert(self.agents@[j] == old_es[j + 1]);
                    }
                }
                Ok(())
            },
            None => Err(RegistryError::NotFound(agent_id.clone())),
        }
    }

    /// The entry of an agent, if registered.
    pub fn get(&self, agent_id: &String) -> (r: Option<&AgentEntry>)
        ensures
            r is Some <==> has_id(self.entries(), agent_id@),
            r matches Some(e) ==> e.agent_id@ == agent_id@ && exists|i: int|
                0 <= i < self.entries().len() && self.entries()[i] == *e,
    {
        match self.find(agent_id) {
            Some(i) => Some(&self.agents[i]),
            None => None,
        }
    }

    /// Sets the status of an agent; an unknown id changes nothing.
    pub fn set_status(&mut self, agent_id: &String, status: AgentStatus)
        requires
            old(self).wf(),
        ensures
            final(self).wf(),
            final(self).capacity() == old(self).capacity(),
            !has_id(old(self).entries(), agent_id@) ==> final(self).entries()
                == old(self).entries(),
            forall|i: int|
                0 <= i < old(self).entries().len() && old(self).entries()[i].agent_id@
                    == agent_id@ ==> final(self).entries() == old(self).entries().update(
                    i,
                    AgentEntry { status, ..old(self).entries()[i] },
                ),
    {
        if let Some(i) = self.find(agent_id) {
            let mut e = self.agents.remove(i);
            e.status = status;
            self.agents.insert(i, e);
            proof {
                lemma_unique_index(old(self).entries(), i as int, agent_id@);
            }
        }
    }

    /// Counts a completed step of an agent; an unknown id changes nothing.
    /// The counter stops at its largest value.
    pub fn record_step(&mut self, agent_id: &String)
        requires
            old(self).wf(),
        ensures
            final(self).wf(),
            final(self).capacity() == old(self).capacity(),
            !has_id(old(self).entries(), agent_id@) ==> final(self).entries()
                == old(self).entries(),
            forall|i: int|
                0 <= i < old(self).entries().len() && old(self).entries()[i].agent_id@
                    == agent_id@ ==> final(self).entries() == old(self).entries().update(
                    i,
                    AgentEntry {
                        last_step: if old(self).entries()[i].last_step < u64::MAX {
                            (old(self).entries()[i].last_step + 1) as u64
                        } else {
                            u64::MAX
                        },
                        ..old(self).entries()[i]
                    },
                ),
    {
        if let Some(i) = self.find(agent_id) {
            let mut e = self.agents.remove(i);
            if e.last_step < u64::MAX {
                e.last_step = e.last_step + 1;
            }
            self.agents.insert(i, e);
            proof {
                lemma_unique_index(old(self).entries(), i as int, agent_id@);
            }
        }
    }

    /// The registered agents, in order of registration.
    pub fn list(&self) -> (r: Vec<&AgentEntry>)
        ensures
            r@.len() == self.entries().len(),
            forall|i: int| 0 <= i < r@.len() ==> *r@[i] == self.entries()[i],
    {
        let mut out: Vec<&AgentEntry> = Vec::new();
        let mut i: usize = 0;
        while i < self.agents.len()
            invariant
                0 <= i <= self.agents@.len(),
                out@.len() == i,
                forall|j: int| 0 <= j < i ==> *out@[j] == self.agents@[j],
            decreases self.agents@.len() - i,
        {
            out.push(&self.agents[i]);
            i = i + 1;
        }
        out
    }

    /// Number of registered agents.
    pub fn count(&self) -> (r: usize)
        ensures
            r == self.entries().len(),
    {
        self.agents.len()
    }

    /// Room left for more agents.
    pub fn available_slots(&self) -> (r: usize)
        requires
            self.wf(),
        ensures
            r == self.capacity() - self.entries().len(),
    {
        self.max_agents - self.agents.len()
    }
}

} // verus!
