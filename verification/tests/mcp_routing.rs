use vobes::mcp::{
    missing_argument, recent_limit, route, search_by_name, tool_named, tool_specs, vobe_not_found,
    RpcAction, Tool,
};
use vobes::model::vobe::Vobe;

#[test]
fn requests_are_routed_by_method() {
    assert_eq!(route("initialize", true), RpcAction::Initialize);
    assert_eq!(route("ping", true), RpcAction::Ping);
    assert_eq!(route("tools/list", true), RpcAction::ListTools);
    assert_eq!(route("tools/call", true), RpcAction::CallTool);
    assert_eq!(route("resources/list", true), RpcAction::NotFound("method not found: resources/list".into()));
    assert_eq!(route("notifications/initialized", false), RpcAction::Ignore);
    assert_eq!(route("initialize", false), RpcAction::Ignore);
}

#[test]
fn tools_are_named() {
    assert_eq!(tool_named("vobes_list"), Ok(Tool::List));
    assert_eq!(tool_named("vobes_show"), Ok(Tool::Show));
    assert_eq!(tool_named("vobes_search"), Ok(Tool::Search));
    assert_eq!(tool_named("vobes_recent_activity"), Ok(Tool::RecentActivity));
    assert_eq!(tool_named("vobes_context"), Ok(Tool::Context));
    assert_eq!(tool_named("rm_rf"), Err("unknown tool: rm_rf".to_string()));
}

#[test]
fn tool_list_shape() {
    let specs = tool_specs();
    let names: Vec<&str> = specs.iter().map(|t| t.name).collect();
    assert_eq!(names, vec!["vobes_list", "vobes_show", "vobes_search", "vobes_recent_activity", "vobes_context"]);
    assert!(specs[0].params.is_empty());
    assert_eq!(specs[2].params[0].name, "query");
    assert!(specs[2].params[0].required);
    assert_eq!(specs[3].params[0].default, Some(20));
    assert!(!specs[3].params[0].required);
}

#[test]
fn arguments_and_messages() {
    assert_eq!(recent_limit(None), 20);
    assert_eq!(recent_limit(Some(5)), 5);
    assert_eq!(missing_argument("name"), "missing string argument: name");
    assert_eq!(vobe_not_found("x"), "vobe not found: x");
}

#[test]
fn search_ignores_case() {
    let vobes = vec![Vobe::new("MyApp", "/a"), Vobe::new("other", "/b"), Vobe::new("app-two", "/c")];
    let found = search_by_name(&vobes, "APP");
    let names: Vec<&str> = found.iter().map(|v| v.name.as_str()).collect();
    assert_eq!(names, vec!["MyApp", "app-two"]);
    assert_eq!(found[0], vobes[0]);
    assert_eq!(search_by_name(&vobes, "").len(), 3);
    assert!(search_by_name(&vobes, "zzz").is_empty());
}

#[test]
fn every_listed_tool_can_be_called() {
    let called: Vec<Tool> = tool_specs().iter().map(|t| tool_named(t.name).unwrap()).collect();
    assert_eq!(called, vec![Tool::List, Tool::Show, Tool::Search, Tool::RecentActivity, Tool::Context]);
}
