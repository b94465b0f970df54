//! The dashboard data model: one snapshot of the observed agent's state.
//!
//! Unit-scaled emotional values and thought salience are held in
//! ten-thousandths of a unit (a value of 1.0 is stored as 10000), the
//! resolution at which the dashboard displays them. Points in time are held
//! as seconds since the Unix epoch.

use vstd::prelude::*;

verus! {

/// One complete, self-consistent set of dashboard values as emitted by the
/// agent at one moment. Each received frame fully replaces the prior one.
#[derive(Clone, Debug)]
pub struct DashboardMetrics {
    /// When the snapshot was taken, absent before any data has arrived.
    pub timestamp: Option<i64>,
    pub identity: IdentityMetrics,
    pub cognitive: CognitiveMetrics,
    pub emotional: EmotionalMetrics,
    pub actors: ActorMetrics,
    /// Recent thoughts in the order the source delivered them, keyed by
    /// `id` for stable render identity.
    pub recent_thoughts: Vec<ThoughtSummary>,
}

#[derive(Clone, Debug)]
pub struct IdentityMetrics {
    pub name: String,
    pub uptime_seconds: u64,
    pub lifetime_thoughts: u64,
    pub session_thoughts: u64,
    pub restart_count: u32,
}

#[derive(Clone, Debug)]
pub struct CognitiveMetrics {
    pub conscious_memories: u64,
    pub unconscious_memories: u64,
    pub lifetime_dreams: u64,
    pub current_cycle: u64,
}

/// Emotional parameters, each in ten-thousandths of a unit.
#[derive(Clone, Copy, Debug)]
pub struct EmotionalMetrics {
    pub valence: i32,
    pub arousal: i32,
    pub dominance: i32,
    pub connection_drive: i32,
    pub emotional_intensity: i32,
}

/// Health of the four named subordinate actors.
#[derive(Clone, Debug)]
pub struct ActorMetrics {
    pub memory_actor: ActorStatus,
    pub attention_actor: ActorStatus,
    pub salience_actor: ActorStatus,
    pub volition_actor: ActorStatus,
}

#[derive(Clone, Debug)]
pub struct ActorStatus {
    pub name: String,
    pub alive: bool,
    pub restart_count: u32,
}

/// One entry of the recent-thoughts feed.
#[derive(Clone, Debug)]
pub struct ThoughtSummary {
    /// Unique identity of the thought, stable across snapshots.
    pub id: String,
    pub content_preview: String,
    /// Salience in ten-thousandths of a unit.
    pub salience: i32,
    /// When the thought occurred, as seconds since the Unix epoch.
    pub timestamp: Option<i64>,
}

impl IdentityMetrics {
    /// The empty value shown before any data has arrived.
    pub open spec fn is_default(self) -> bool {
        &&& self.name@ == Seq::<char>::empty()
        &&& self.uptime_seconds == 0
        &&& self.lifetime_thoughts == 0
        &&& self.session_thoughts == 0
        &&& self.restart_count == 0
    }
}

impl Default for IdentityMetrics {
    fn default() -> (r: Self)
        ensures
            r.is_default(),
    {
        IdentityMetrics {
            name: String::new(),
            uptime_seconds: 0,
            lifetime_thoughts: 0,
            session_thoughts: 0,
            restart_count: 0,
        }
    }
}

impl CognitiveMetrics {
    /// The empty value shown before any data has arrived.
    pub open spec fn is_default(self) -> bool {
        &&& self.conscious_memories == 0
        &&& self.unconscious_memories == 0
        &&& self.lifetime_dreams == 0
        &&& self.current_cycle == 0
    }
}

impl Default for CognitiveMetrics {
    fn default() -> (r: Self)
        ensures
            r.is_default(),
    {
        CognitiveMetrics {
            conscious_memories: 0,
            unconscious_memories: 0,
            lifetime_dreams: 0,
            current_cycle: 0,
        }
    }
}

impl EmotionalMetrics {
    /// The empty value shown before any data has arrived.
    pub open spec fn is_default(self) -> bool {
        &&& self.valence == 0
        &&& self.arousal == 0
        &&& self.dominance == 0
        &&& self.connection_drive == 0
        &&& self.emotional_intensity == 0
    }
}

impl Default for EmotionalMetrics {
    fn default() -> (r: Self)
        ensures
            r.is_default(),
    {
        EmotionalMetrics { valence: 0, arousal: 0, dominance: 0, connection_drive: 0, emotional_intensity: 0 }
    }
}

impl ActorStatus {
    /// The empty value shown before any data has arrived.
    pub open spec fn is_default(self) -> bool {
        &&& self.name@ == Seq::<char>::empty()
        &&& !self.alive
        &&& self.restart_count == 0
    }
}

impl Default for ActorStatus {
    fn default() -> (r: Self)
        ensures
            r.is_default(),
    {
        ActorStatus { name: String::new(), alive: false, restart_count: 0 }
    }
}

impl ActorMetrics {
    /// The empty value shown before any data has arrived.
    pub open spec fn is_default(self) -> bool {
        &&& self.memory_actor.is_default()
        &&& self.attention_actor.is_default()
        &&& self.salience_actor.is_default()
        &&& self.volition_actor.is_default()
    }
}

impl Default for ActorMetrics {
    fn default() -> (r: Self)
        ensures
            r.is_default(),
    {
        ActorMetrics {
            memory_actor: ActorStatus::default(),
            attention_actor: ActorStatus::default(),
            salience_actor: ActorStatus::default(),
            volition_actor: ActorStatus::default(),
        }
    }
}

impl DashboardMetrics {
    /// The empty snapshot shown before any frame has arrived.
    pub open spec fn is_default(self) -> bool {
        &&& self.timestamp is None
        &&& self.identity.is_default()
        &&& self.cognitive.is_default()
        &&& self.emotional.is_default()
        &&& self.actors.is_default()
        &&& self.recent_thoughts@.len() == 0
    }
}

impl Default for DashboardMetrics {
    fn default() -> (r: Self)
        ensures
            r.is_default(),
    {
        DashboardMetrics {
            timestamp: None,
            identity: IdentityMetrics::default(),
            cognitive: CognitiveMetrics::default(),
            emotional: EmotionalMetrics::default(),
            actors: ActorMetrics::default(),
            recent_thoughts: Vec::new(),
        }
    }
}

} // verus!
