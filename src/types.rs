//! Plain records of the environment's description: capabilities, conformance,
//! episode ends and vision streams.

use vstd::prelude::*;

verus! {

/// Capabilities that a game announces in its `Ready` message.
#[derive(Debug, Clone, Copy, PartialEq, Eq, Structural)]
pub struct GameCapabilities {
    pub multi_agent: bool,
    pub max_agents: usize,
    pub deterministic: bool,
    pub headless: bool,
}

/// Capabilities of an environment.
#[derive(Debug, Clone)]
pub struct Capabilities {
    /// Supports multiple agents.
    pub multi_agent: bool,
    /// Maximum number of agents.
    pub max_agents: usize,
    /// Supported agent types.
    pub agent_types: Vec<String>,
    /// Deterministic simulation.
    pub deterministic: bool,
    /// Supports trajectory save and replay.
    pub save_replay: bool,
    /// Supports domain randomization.
    pub domain_randomization: bool,
    /// Supports headless operation.
    pub headless: bool,
    /// Supports a variable timestep.
    pub variable_timestep: bool,
}

/// Maximum number of agents of an environment that announces none.
pub fn default_max_agents() -> (r: usize)
    ensures
        r == 1,
{
    1
}

/// Simulation tick rate of an environment that announces none.
pub fn default_tick_rate() -> (r: u32)
    ensures
        r == 60,
{
    60
}

impl Default for Capabilities {
    fn default() -> (r: Capabilities)
        ensures
            !r.multi_agent,
            r.max_agents == 1,
            r.agent_types@.len() == 0,
            !r.deterministic,
            !r.save_replay,
            !r.domain_randomization,
            !r.headless,
            !r.variable_timestep,
    {
        Capabilities {
            multi_agent: false,
            max_agents: default_max_agents(),
            agent_types: Vec::new(),
            deterministic: false,
            save_replay: false,
            domain_randomization: false,
            headless: false,
            variable_timestep: false,
        }
    }
}

/// The capabilities an environment reports: those the game announced, or
/// the fallback when it announced none; every other capability is off.
pub fn capabilities_from(announced: Option<GameCapabilities>, fallback: GameCapabilities) -> (r:
    Capabilities)
    ensures
        ({
            let c = if announced is Some {
                announced->Some_0
            } else {
                fallback
            };
            &&& r.multi_agent == c.multi_agent
            &&& r.max_agents == c.max_agents
            &&& r.deterministic == c.deterministic
            &&& r.headless == c.headless
        }),
        r.agent_types@.len() == 0,
        !r.save_replay,
        !r.domain_randomization,
        !r.variable_timestep,
{
    let c = match announced {
        Some(c) => c,
        None => fallback,
    };
    Capabilities {
        multi_agent: c.multi_agent,
        max_agents: c.max_agents,
        agent_types: Vec::new(),
        deterministic: c.deterministic,
        save_replay: false,
        domain_randomization: false,
        headless: c.headless,
        variable_timestep: false,
    }
}

/// Conformance declaration.
#[derive(Debug, Clone, PartialEq, Eq)]
pub struct Compliance {
    /// Conformance level (1, 2 or 3).
    pub level: u8,
    /// Protocol version.
    pub version: String,
    /// Where the test results are published.
    pub test_results_url: Option<String>,
}

/// Why an episode ended.
#[derive(Debug, Clone, Copy, PartialEq, Eq, Structural)]
pub enum TerminationReason {
    Success,
    Failure,
    Timeout,
    External,
}

/// Pixel format of a vision stream.
#[derive(Debug, Clone, Copy, PartialEq, Eq, Structural)]
pub enum PixelFormat {
    Rgba8,
    Bgra8,
    Rgb8,
    R32f,
    Rg32f,
}

/// Bytes per pixel of a format.
pub open spec fn bytes_per_pixel_spec(f: PixelFormat) -> usize {
    match f {
        PixelFormat::Rgba8 | PixelFormat::Bgra8 => 4,
        PixelFormat::Rgb8 => 3,
        PixelFormat::R32f => 4,
        PixelFormat::Rg32f => 8,
    }
}

impl PixelFormat {
    /// Bytes per pixel.
    pub fn bytes_per_pixel(&self) -> (r: usize)
        ensures
            r == bytes_per_pixel_spec(*self),
    {
        match self {
            PixelFormat::Rgba8 | PixelFormat::Bgra8 => 4,
            PixelFormat::Rgb8 => 3,
            PixelFormat::R32f => 4,
            PixelFormat::Rg32f => 8,
        }
    }
}

/// How the pixels of a vision stream are shared.
#[derive(Debug, Clone, PartialEq, Eq)]
pub enum StreamTransport {
    /// macOS IOSurface.
    IOSurface { surface_ids: Vec<u64> },
    /// POSIX shared memory.
    Shm { shm_name: String, offsets: Vec<u64> },
    /// Windows DXGI shared texture.
    Dxgi { shared_handles: Vec<u64> },
    /// Inline in the message (fallback, slow).
    Inline,
}

/// How the frames of a vision stream are synchronized.
#[derive(Debug, Clone, PartialEq, Eq)]
pub enum StreamSync {
    MetalEvent { handle: u64 },
    D3dFence { handle: u64 },
    Semaphore { name: String },
    Polling,
}

/// An opaque descriptor of a configured vision stream.
#[derive(Debug, Clone, PartialEq, Eq)]
pub struct StreamDescriptor {
    pub stream_id: String,
    pub width: u32,
    pub height: u32,
    pub pixel_format: PixelFormat,
    pub ring_count: u32,
    pub transport: StreamTransport,
    pub sync: Option<StreamSync>,
}

/// Kind of a vision stream.
#[derive(Debug, Clone, Copy, PartialEq, Eq, Structural)]
pub enum StreamType {
    Rgb,
    Depth,
    Segmentation,
    Flow,
}

/// Configuration of one stream of a profile.
#[derive(Debug, Clone, PartialEq, Eq)]
pub struct StreamConfig {
    pub name: String,
    pub stream_type: StreamType,
    pub width: u32,
    pub height: u32,
    pub camera: Option<String>,
}

/// A named set of streams.
#[derive(Debug, Clone, PartialEq, Eq)]
pub struct StreamProfile {
    pub name: String,
    pub streams: Vec<StreamConfig>,
}

} // verus!
