use game_rl::filepoll::{ready_marker, response_timeout, ZomboidConfig};
use game_rl::error::GameRLError;
use game_rl::mcp::{
    default_ticks, list_tools, protocol_version, resource_of, route_method, str_eq, tool_of,
    Method, Resource, Tool,
};
use game_rl::types::{
    capabilities_from, default_max_agents, default_tick_rate, Capabilities, GameCapabilities,
    PixelFormat,
};

#[test]
fn method_routing() {
    assert_eq!(route_method("initialize"), Method::Initialize);
    assert_eq!(route_method("initialized"), Method::Initialized);
    assert_eq!(route_method("tools/list"), Method::ToolsList);
    assert_eq!(route_method("tools/call"), Method::ToolsCall);
    assert_eq!(route_method("resources/list"), Method::ResourcesList);
    assert_eq!(route_method("resources/read"), Method::ResourcesRead);
    assert_eq!(route_method("tools/lis"), Method::Unknown);
    assert_eq!(route_method(""), Method::Unknown);
}

#[test]
fn tool_lookup() {
    assert_eq!(tool_of("register_agent"), Some(Tool::RegisterAgent));
    assert_eq!(tool_of("sim_step"), Some(Tool::SimStep));
    assert_eq!(tool_of("get_state_hash"), Some(Tool::GetStateHash));
    assert_eq!(tool_of("fly"), None);
    assert_eq!(resource_of("game://manifest"), Some(Resource::Manifest));
    assert_eq!(resource_of("game://agents"), Some(Resource::Agents));
    assert_eq!(resource_of("game://other"), None);
}

#[test]
fn tool_catalog() {
    let tools = list_tools();
    let names: Vec<&str> = tools.iter().map(|t| t.name.as_str()).collect();
    assert_eq!(
        names,
        vec!["register_agent", "deregister_agent", "sim_step", "reset", "get_state_hash", "configure_streams"]
    );
    assert_eq!(tools[0].description, "Register an agent with the environment");
    assert_eq!(tools[4].input_schema, r#"{"type":"object","properties":{}}"#);
    for t in &tools {
        assert!(!t.description.is_empty());
        assert!(tool_of(&t.name).is_some());
        let schema: serde_json::Value = serde_json::from_str(&t.input_schema).unwrap();
        assert!(schema.is_object());
        assert_eq!(schema["type"], "object");
    }
    assert_eq!(default_ticks(), 1);
    assert_eq!(protocol_version(), "2025-11-25");
}

#[test]
fn text_equality() {
    assert!(str_eq("héllo", "héllo"));
    assert!(!str_eq("héllo", "hello"));
    assert!(str_eq("", ""));
}

#[test]
fn capabilities() {
    let d = Capabilities::default();
    assert_eq!(d.max_agents, 1);
    assert!(!d.multi_agent);
    let fallback = GameCapabilities { multi_agent: true, max_agents: 4, deterministic: false, headless: false };
    let c = capabilities_from(None, fallback);
    assert!(c.multi_agent);
    assert_eq!(c.max_agents, 4);
    let announced = GameCapabilities { multi_agent: false, max_agents: 8, deterministic: true, headless: true };
    let c = capabilities_from(Some(announced), fallback);
    assert_eq!(c.max_agents, 8);
    assert!(c.deterministic && c.headless && !c.save_replay);
    assert_eq!(default_max_agents(), 1);
    assert_eq!(default_tick_rate(), 60);
}

#[test]
fn pixel_sizes() {
    assert_eq!(PixelFormat::Rgba8.bytes_per_pixel(), 4);
    assert_eq!(PixelFormat::Bgra8.bytes_per_pixel(), 4);
    assert_eq!(PixelFormat::Rgb8.bytes_per_pixel(), 3);
    assert_eq!(PixelFormat::R32f.bytes_per_pixel(), 4);
    assert_eq!(PixelFormat::Rg32f.bytes_per_pixel(), 8);
}

#[test]
fn file_poll_layout() {
    let c = ZomboidConfig::with_home("/home/u");
    assert_eq!(c.ipc_path, "/home/u/Zomboid/Lua");
    assert_eq!(c.command_file(), "/home/u/Zomboid/Lua/gamerl_command.json");
    assert_eq!(c.response_file(), "/home/u/Zomboid/Lua/gamerl_response.json");
    assert_eq!(c.status_file(), "/home/u/Zomboid/Lua/gamerl_status.json");
    assert!(!c.wait_expired(false, 30000));
    assert!(c.wait_expired(false, 30001));
    assert!(!c.wait_expired(true, 10_000_000));
    assert_eq!(ready_marker(), r#"{"status":"ready","version":"0.5.0"}"#);
    assert!(matches!(response_timeout(), GameRLError::IpcError(_)));
}
