//! The tool dispatch surface: its fixed method set, its tools and their
//! schemas, its resources, and the plain records it exchanges.

use vstd::prelude::*;
use vstd::string::*;
use vstd::utf8::*;

verus! {

broadcast use vstd::utf8::group_utf8_lib;

/// Code for a method outside the fixed set.
pub const METHOD_NOT_FOUND: i32 = -32601;

/// Code for parameters that do not decode.
pub const INVALID_PARAMS: i32 = -32602;

/// Protocol version announced by the initialize handshake.
pub fn protocol_version() -> (r: String)
    ensures
        r@ == "2025-11-25"@,
{
    String::from_str("2025-11-25")
}

/// Request id, a number or a string.
#[derive(Debug, Clone, PartialEq, Eq)]
pub enum RequestId {
    Number(i64),
    String(String),
}

/// Resource capabilities of a client.
#[derive(Debug, Clone, Copy, PartialEq, Eq, Structural, Default)]
pub struct ResourceCapabilities {
    pub subscribe: bool,
}

/// Name and version of a client.
#[derive(Debug, Clone, PartialEq, Eq)]
pub struct ClientInfo {
    pub name: String,
    pub version: String,
}

/// Tools capability of the server.
#[derive(Debug, Clone, Copy, PartialEq, Eq, Structural)]
pub struct ToolsCapability {
    pub list_changed: bool,
}

/// Resources capability of the server.
#[derive(Debug, Clone, Copy, PartialEq, Eq, Structural)]
pub struct ResourcesCapability {
    pub subscribe: bool,
    pub list_changed: bool,
}

/// Name and versions of the server.
#[derive(Debug, Clone, PartialEq, Eq)]
pub struct ServerInfo {
    pub name: String,
    pub version: String,
    pub game_rl_version: String,
}

/// Parameters of the reset tool.
#[derive(Debug, Clone, PartialEq, Eq)]
pub struct ResetParams {
    pub seed: Option<u64>,
    pub scenario: Option<String>,
}

/// Parameters of the configure-streams tool.
#[derive(Debug, Clone, PartialEq, Eq)]
pub struct ConfigureStreamsParams {
    pub agent_id: String,
    pub profile: String,
}

/// Ticks of a simulation step whose request names none.
pub fn default_ticks() -> (r: u32)
    ensures
        r == 1,
{
    1
}

/// Whether two texts are equal, compared byte by byte.
pub fn str_eq(a: &str, b: &str) -> (r: bool)
    ensures
        r == (a@ == b@),
{
    let x = a.as_bytes();
    let y = b.as_bytes();
    if x.len() != y.len() {
        return false;
    }
    let mut i: usize = 0;
    while i < x.len()
        invariant
            x@ == a.spec_bytes(),
            y@ == b.spec_bytes(),
            x@.len() == y@.len(),
            0 <= i <= x@.len(),
            forall|j: int| 0 <= j < i ==> x@[j] == y@[j],
        decreases x@.len() - i,
    {
        if x[i] != y[i] {
            return false;
        }
        i = i + 1;
    }
    assert(x@ =~= y@);
    assert(decode_utf8(encode_utf8(a@)) == a@);
    assert(decode_utf8(encode_utf8(b@)) == b@);
    true
}

/// Methods of the dispatch server.
#[derive(Debug, Clone, Copy, PartialEq, Eq, Structural)]
pub enum Method {
    Initialize,
    Initialized,
    ToolsList,
    ToolsCall,
    ResourcesList,
    ResourcesRead,
    Unknown,
}

/// The method a name stands for.
pub open spec fn method_spec(m: Seq<char>) -> Method {
    if m == "initialize"@ {
        Method::Initialize
    } else if m == "initialized"@ {
        Method::Initialized
    } else if m == "tools/list"@ {
        Method::ToolsList
    } else if m == "tools/call"@ {
        Method::ToolsCall
    } else if m == "resources/list"@ {
        Method::ResourcesList
    } else if m == "resources/read"@ {
        Method::ResourcesRead
    } else {
        Method::Unknown
    }
}

/// Routes a request by its method name.
pub fn route_method(method: &str) -> (r: Method)
    ensures
        r == method_spec(method@),
{
    if str_eq(method, "initialize") {
        Method::Initialize
    } else if str_eq(method, "initialized") {
        Method::Initialized
    } else if str_eq(method, "tools/list") {
        Method::ToolsList
    } else if str_eq(method, "tools/call") {
        Method::ToolsCall
    } else if str_eq(method, "resources/list") {
        Method::ResourcesList
    } else if str_eq(method, "resources/read") {
        Method::ResourcesRead
    } else {
        Method::Unknown
    }
}

/// The tools of the dispatch server.
#[derive(Debug, Clone, Copy, PartialEq, Eq, Structural)]
pub enum Tool {
    RegisterAgent,
    DeregisterAgent,
    SimStep,
    Reset,
    GetStateHash,
    ConfigureStreams,
}

/// The tool a name stands for, if any.
pub open spec fn tool_spec(name: Seq<char>) -> Option<Tool> {
    if name == "register_agent"@ {
        Some(Tool::RegisterAgent)
    } else if name == "deregister_agent"@ {
        Some(Tool::DeregisterAgent)
    } else if name == "sim_step"@ {
        Some(Tool::SimStep)
    } else if name == "reset"@ {
        Some(Tool::Reset)
    } else if name == "get_state_hash"@ {
        Some(Tool::GetStateHash)
    } else if name == "configure_streams"@ {
        Some(Tool::ConfigureStreams)
    } else {
        None
    }
}

/// Looks a tool up by name; an unknown name is `None`.
pub fn tool_of(name: &str) -> (r: Option<Tool>)
    ensures
        r == tool_spec(name@),
{
    if str_eq(name, "register_agent") {
        Some(Tool::RegisterAgent)
    } else if str_eq(name, "deregister_agent") {
        Some(Tool::DeregisterAgent)
    } else if str_eq(name, "sim_step") {
        Some(Tool::SimStep)
    } else if str_eq(name, "reset") {
        Some(Tool::Reset)
    } else if str_eq(name, "get_state_hash") {
        Some(Tool::GetStateHash)
    } else if str_eq(name, "configure_streams") {
        Some(Tool::ConfigureStreams)
    } else {
        None
    }
}

/// The resources the server can read.
#[derive(Debug, Clone, Copy, PartialEq, Eq, Structural)]
pub enum Resource {
    Manifest,
    Agents,
}

/// The resource a URI names, if any.
pub open spec fn resource_spec(uri: Seq<char>) -> Option<Resource> {
    if uri == "game://manifest"@ {
        Some(Resource::Manifest)
    } else if uri == "game://agents"@ {
        Some(Resource::Agents)
    } else {
        None
    }
}

/// Looks a resource up by URI; an unknown URI is `None`.
pub fn resource_of(uri: &str) -> (r: Option<Resource>)
    ensures
        r == resource_spec(uri@),
{
    if str_eq(uri, "game://manifest") {
        Some(Resource::Manifest)
    } else if str_eq(uri, "game://agents") {
        Some(Resource::Agents)
    } else {
        None
    }
}

/// A tool as `tools/list` describes it. The input schema is JSON text.
#[derive(Debug, Clone, PartialEq, Eq)]
pub struct ToolDef {
    pub name: String,
    pub description: String,
    pub input_schema: String,
}

fn tool_def(name: &str, description: &str, input_schema: &str) -> (r: ToolDef)
    ensures
        r.name@ == name@,
        r.description@ == description@,
        r.input_schema@ == input_schema@,
{
    ToolDef {
        name: String::from_str(name),
        description: String::from_str(description),
        input_schema: String::from_str(input_schema),
    }
}

/// Names of the tools, in the order `tools/list` gives them.
pub open spec fn tool_names() -> Seq<Seq<char>> {
    seq![
        "register_agent"@,
        "deregister_agent"@,
        "sim_step"@,
        "reset"@,
        "get_state_hash"@,
        "configure_streams"@,
    ]
}

/// Descriptions of the tools, in the same order.
pub open spec fn tool_descriptions() -> Seq<Seq<char>> {
    seq![
        "Register an agent with the environment"@,
        "Deregister an agent"@,
        "Execute action and advance simulation"@,
        "Reset the environment"@,
        "Get state hash for determinism verification"@,
        "Configure vision streams"@,
    ]
}

/// Input schemas of the tools, in the same order: JSON objects of type
/// `object`, as text.
pub open spec fn tool_schemas() -> Seq<Seq<char>> {
    seq![
        "{\"type\":\"object\",\"properties\":{\"agent_id\":{\"type\":\"string\"},\"agent_type\":{\"type\":\"string\"},\"config\":{\"type\":\"object\"}},\"required\":[\"agent_id\",\"agent_type\"]}"@,
        "{\"type\":\"object\",\"properties\":{\"agent_id\":{\"type\":\"string\"}},\"required\":[\"agent_id\"]}"@,
        "{\"type\":\"object\",\"properties\":{\"agent_id\":{\"type\":\"string\"},\"action\":{},\"ticks\":{\"type\":\"integer\",\"default\":1}},\"required\":[\"agent_id\",\"action\"]}"@,
        "{\"type\":\"object\",\"properties\":{\"seed\":{\"type\":\"integer\"},\"scenario\":{\"type\":\"string\"}}}"@,
        "{\"type\":\"object\",\"properties\":{}}"@,
        "{\"type\":\"object\",\"properties\":{\"agent_id\":{\"type\":\"string\"},\"profile\":{\"type\":\"string\"}},\"required\":[\"agent_id\",\"profile\"]}"@,
    ]
}

/// The tools, with their descriptions and input schemas.
pub fn list_tools() -> (r: Vec<ToolDef>)
    ensures
        r@.len() == tool_names().len(),
        forall|i: int|
            0 <= i < r@.len() ==> {
                &&& (#[trigger] r@[i]).name@ == tool_names()[i]
                &&& r@[i].description@ == tool_descriptions()[i]
                &&& r@[i].input_schema@ == tool_schemas()[i]
            },
{
    let mut v: Vec<ToolDef> = Vec::new();
    v.push(
        tool_def(
            "register_agent",
            "Register an agent with the environment",
            "{\"type\":\"object\",\"properties\":{\"agent_id\":{\"type\":\"string\"},\"agent_type\":{\"type\":\"string\"},\"config\":{\"type\":\"object\"}},\"required\":[\"agent_id\",\"agent_type\"]}",
        ),
    );
    v.push(
        tool_def(
            "deregister_agent",
            "Deregister an agent",
            "{\"type\":\"object\",\"properties\":{\"agent_id\":{\"type\":\"string\"}},\"required\":[\"agent_id\"]}",
        ),
    );
    v.push(
        tool_def(
            "sim_step",
            "Execute action and advance simulation",
            "{\"type\":\"object\",\"properties\":{\"agent_id\":{\"type\":\"string\"},\"action\":{},\"ticks\":{\"type\":\"integer\",\"default\":1}},\"required\":[\"agent_id\",\"action\"]}",
        ),
    );
    v.push(
        tool_def(
            "reset",
            "Reset the environment",
            "{\"type\":\"object\",\"properties\":{\"seed\":{\"type\":\"integer\"},\"scenario\":{\"type\":\"string\"}}}",
        ),
    );
    v.push(
        tool_def(
            "get_state_hash",
            "Get state hash for determinism verification",
            "{\"type\":\"object\",\"properties\":{}}",
        ),
    );
    v.push(
        tool_def(
            "configure_streams",
            "Configure vision streams",
            "{\"type\":\"object\",\"properties\":{\"agent_id\":{\"type\":\"string\"},\"profile\":{\"type\":\"string\"}},\"required\":[\"agent_id\",\"profile\"]}",
        ),
    );
    v
}

/// Every tool that `tools/list` names is one that a call can reach.
pub proof fn lemma_listed_tools_callable(i: int)
    requires
        0 <= i < tool_names().len(),
    ensures
        tool_spec(tool_names()[i]) is Some,
{
}

} // verus!
