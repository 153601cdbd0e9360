//! Agent kinds and the state of a registered agent.

use vstd::prelude::*;
use vstd::string::*;

verus! {

/// Standard agent archetypes.
#[derive(Debug, Clone, PartialEq, Eq)]
pub enum AgentType {
    /// Controls a single game entity (NPC, unit, pawn, survivor).
    EntityBehavior,
    /// Player-controlled character.
    Player,
    /// High-level strategic control of many entities.
    StrategyController,
    /// Older name of the strategic controller.
    ColonyManager,
    /// Controls environmental systems (weather, economy, spawning).
    WorldSimulation,
    /// Narrative control, event triggering, difficulty adjustment.
    GameMaster,
    /// Controls dialogue.
    DialogueAgent,
    /// Orchestrates combat encounters.
    CombatDirector,
    /// A kind that the game defines.
    Custom(String),
}

/// Lifecycle of a registered agent.
#[derive(Debug, Clone, Copy, PartialEq, Eq, Structural)]
pub enum AgentStatus {
    Registered,
    Active,
    Terminal,
    Disconnected,
}

/// What the registry keeps of one agent. The cumulative reward is a
/// floating-point sum and is kept beside the registry by the server.
#[derive(Debug, Clone)]
pub struct AgentEntry {
    pub agent_id: String,
    pub agent_type: AgentType,
    pub status: AgentStatus,
    pub registered_at: String,
    pub last_step: u64,
}

/// Observation profile of an agent whose configuration names none.
pub fn default_observation_profile() -> (r: String)
    ensures
        r@ == "default"@,
{
    String::from_str("default")
}

} // verus!
