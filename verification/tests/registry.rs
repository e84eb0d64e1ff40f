use mcp_registry::inputs::{parse_risk_class, tool_record_from_input, tool_records_from_inputs, ToolInput};
use mcp_registry::store::RegistryStore;
use mcp_registry::text::{compose_server_id, server_id_for, text_contains, underscore_separators_of};
use mcp_registry::types::{AuditDetails, ParameterSchema, HealthState, HealthStatus, RiskLevel, ServerStatus, Transport};

fn strings(v: &[&str]) -> Vec<String> {
    v.iter().map(|s| s.to_string()).collect()
}

fn register_github(store: &mut RegistryStore) -> String {
    let r = store.register_server(
        "github-tools".to_string(),
        "GitHub access".to_string(),
        "platform-team".to_string(),
        "developer".to_string(),
        "staging".to_string(),
        Transport::Stdio,
        Some("npx -y @modelcontextprotocol/server-github".to_string()),
        None,
        strings(&["vault://github/token"]),
        strings(&["internal"]),
        strings(&["git"]),
    );
    r.id
}

fn tool(name: &str, risk: Option<&str>) -> ToolInput {
    ToolInput {
        name: name.to_string(),
        description: format!("{} tool", name),
        risk_class: risk.map(|s| s.to_string()),
        scope: None,
        side_effect: None,
    }
}

#[test]
fn register_returns_readme_id_and_first_version() {
    let mut store = RegistryStore::new();
    let r = store.register_server(
        "github-tools".to_string(),
        "d".to_string(),
        "o".to_string(),
        "developer".to_string(),
        "staging".to_string(),
        Transport::Stdio,
        Some("npx".to_string()),
        None,
        vec![],
        vec![],
        vec![],
    );
    assert_eq!(r.id, "mcp_github_tools_sta");
    assert_eq!(r.version, 1);
    assert_eq!(r.status, ServerStatus::Active);
    assert!(r.tools.is_empty());
    assert!(r.allowlist.is_empty());
    assert_eq!(r.health.state, HealthState::Unknown);
    assert_eq!(r.created_at, r.updated_at);
}

#[test]
fn server_id_lowercases_and_replaces_separators() {
    assert_eq!(server_id_for("My Cool-Server", "production"), "mcp_my_cool_server_pro");
    assert_eq!(server_id_for("X", "qa"), "mcp_x_qa");
    assert_eq!(server_id_for("", ""), "mcp__");
    assert_eq!(compose_server_id("abc", "development"), "mcp_abc_dev");
    assert_eq!(underscore_separators_of("a-b c"), "a_b_c");
}

#[test]
fn get_after_register_returns_the_record() {
    let mut store = RegistryStore::new();
    let id = register_github(&mut store);
    let got = store.get_server(&id).unwrap();
    assert_eq!(got.id, id);
    assert_eq!(got.name, "github-tools");
    assert_eq!(got.owner, "platform-team");
    assert_eq!(got.credential_bindings, vec!["vault://github/token".to_string()]);
    assert!(store.get_server("mcp_missing_sta").is_none());
}

#[test]
fn reregistering_replaces_the_record() {
    let mut store = RegistryStore::new();
    register_github(&mut store);
    store.update_server("mcp_github_tools_sta", None, None, None, None, Some("x".to_string()), None, None).unwrap();
    let id = register_github(&mut store);
    assert_eq!(store.list_servers(None, None, None, None).len(), 1);
    assert_eq!(store.get_server(&id).unwrap().version, 1);
}

#[test]
fn environments_keep_servers_apart() {
    let mut store = RegistryStore::new();
    let a = store.register_server("svc".into(), "".into(), "o".into(), "d".into(), "staging".into(), Transport::Sse, None, Some("http://a".into()), vec![], vec![], vec![]);
    let b = store.register_server("svc".into(), "".into(), "o".into(), "d".into(), "production".into(), Transport::Sse, None, Some("http://b".into()), vec![], vec![], vec![]);
    assert_ne!(a.id, b.id);
    assert_eq!(store.list_servers(None, None, None, None).len(), 2);
}

#[test]
fn update_bumps_version_and_changes_given_fields() {
    let mut store = RegistryStore::new();
    let id = register_github(&mut store);
    let r = store
        .update_server(&id, None, Some("https://x".to_string()), Some(Transport::Sse), None, None, Some(strings(&["pii"])), None)
        .unwrap();
    assert_eq!(r.version, 2);
    assert_eq!(r.url.as_deref(), Some("https://x"));
    assert_eq!(r.transport, Transport::Sse);
    assert_eq!(r.command.as_deref(), Some("npx -y @modelcontextprotocol/server-github"));
    assert_eq!(r.policy_labels, strings(&["pii"]));
    assert_eq!(r.environment, "staging");
    let r2 = store.update_server(&id, None, None, None, None, None, None, None).unwrap();
    assert_eq!(r2.version, 3);
}

#[test]
fn update_of_unknown_server_fails() {
    let mut store = RegistryStore::new();
    let e = store.update_server("nope", None, None, None, None, None, None, None).unwrap_err();
    assert_eq!(e, "Server not found: nope");
    assert_eq!(store.export_inventory().audit_events, 0);
}

#[test]
fn test_server_with_endpoint_passes() {
    let mut store = RegistryStore::new();
    let id = register_github(&mut store);
    let r = store.test_server(&id).unwrap();
    assert!(r.connectivity);
    assert!(!r.tools_listed);
    assert!(r.schema_valid);
    assert_eq!(r.latency_ms, 45);
    assert!(r.errors.is_empty());
    assert_eq!(r.outcome(), "passed");
    let s = store.get_server(&id).unwrap();
    assert_eq!(s.health.state, HealthState::Healthy);
    assert_eq!(s.health.latency_ms, Some(45));
    assert_eq!(s.health.error_rate_ppm, Some(0));
    assert_eq!(s.health.message.as_deref(), Some("Passed"));
    assert!(s.health.checked_at.is_some());
}

#[test]
fn test_server_without_endpoint_fails() {
    let mut store = RegistryStore::new();
    let r = store.register_server("bare".into(), "".into(), "o".into(), "d".into(), "dev".into(), Transport::Custom, None, None, vec![], vec![], vec![]);
    let t = store.test_server(&r.id).unwrap();
    assert!(!t.connectivity);
    assert_eq!(t.errors, strings(&["No command or URL configured"]));
    assert_eq!(t.outcome(), "failed");
    let s = store.get_server(&r.id).unwrap();
    assert_eq!(s.health.state, HealthState::Unknown);
    assert_eq!(s.health.message.as_deref(), Some("No endpoint"));
    assert_eq!(s.updated_at, r.updated_at);
    assert_eq!(store.test_server("zzz").unwrap_err(), "Server not found: zzz");
}

#[test]
fn discovery_reports_diff_and_exposes_nothing() {
    let mut store = RegistryStore::new();
    let id = register_github(&mut store);
    let snap = store
        .discover_tool_inputs(&id, &vec![tool("search_repositories", Some("low")), tool("get_file_contents", None)])
        .unwrap();
    assert!(snap.id.starts_with("disc_"));
    assert_eq!(snap.id.len(), 5 + 32);
    assert_eq!(snap.tools_count, 2);
    assert_eq!(snap.status, "completed");
    assert_eq!(snap.server_version, 1);
    let diff = snap.diff.unwrap();
    assert_eq!(diff.added_tools, strings(&["search_repositories", "get_file_contents"]));
    assert!(diff.removed_tools.is_empty());
    assert!(diff.changed_tools.is_empty());
    let s = store.get_server(&id).unwrap();
    assert_eq!(s.tools.len(), 2);
    assert!(s.tools.iter().all(|t| !t.allowed));
    assert!(s.allowlist.is_empty());
    assert_eq!(s.tools[0].risk_class, RiskLevel::Low);
    assert_eq!(s.tools[1].risk_class, RiskLevel::Medium);
    assert_eq!(s.tools[0].scope, "read");
    assert!(matches!(s.tools[0].parameters_schema, ParameterSchema::EmptyObject));

    let again = store
        .discover_tool_inputs(&id, &vec![tool("get_file_contents", None), tool("create_issue", Some("high"))])
        .unwrap();
    let d = again.diff.unwrap();
    assert_eq!(d.added_tools, strings(&["create_issue"]));
    assert_eq!(d.removed_tools, strings(&["search_repositories"]));
    let same = store
        .discover_tool_inputs(&id, &vec![tool("get_file_contents", None), tool("create_issue", None)])
        .unwrap();
    assert!(same.diff.is_none());
    assert_eq!(store.export_inventory().discovery_snapshots, 3);
}

#[test]
fn discovery_on_unknown_server_fails() {
    let mut store = RegistryStore::new();
    let e = store.discover_tools("ghost", vec![]).unwrap_err();
    assert_eq!(e, "Server not found: ghost");
    assert_eq!(store.export_inventory().discovery_snapshots, 0);
}

#[test]
fn allowlist_marks_named_tools_and_writes_entries() {
    let mut store = RegistryStore::new();
    let id = register_github(&mut store);
    store
        .discover_tool_inputs(&id, &vec![tool("a", None), tool("b", None), tool("c", None)])
        .unwrap();
    let entries = store
        .set_allowlist(&id, strings(&["a", "c"]), "staging", strings(&["agent-1"]), "needed")
        .unwrap();
    assert_eq!(entries.len(), 2);
    assert_eq!(entries[0].tool_name, "a");
    assert_eq!(entries[1].tool_name, "c");
    assert!(entries[0].id.starts_with("allow_"));
    assert_eq!(entries[0].status, "active");
    assert_eq!(entries[0].risk, RiskLevel::Medium);
    assert_eq!(entries[0].environment, "staging");
    assert_eq!(entries[0].agents, strings(&["agent-1"]));
    assert_eq!(entries[0].reason, "needed");
    assert!(entries[0].policy_labels.is_empty());
    let s = store.get_server(&id).unwrap();
    assert_eq!(s.allowlist, strings(&["a", "c"]));
    assert!(s.tools[0].allowed);
    assert!(!s.tools[1].allowed);
    assert!(s.tools[2].allowed);
    let inv = store.export_inventory();
    assert_eq!(inv.allowlist_entries, 2);
}

#[test]
fn allowlist_rejects_undiscovered_tool_and_changes_nothing() {
    let mut store = RegistryStore::new();
    let id = register_github(&mut store);
    store.discover_tool_inputs(&id, &vec![tool("a", None), tool("b", None)]).unwrap();
    let before = store.export_inventory().audit_events;
    let e = store
        .set_allowlist(&id, strings(&["b", "x", "a"]), "staging", vec![], "r")
        .unwrap_err();
    assert_eq!(e, "Tool 'x' not discovered on server 'mcp_github_tools_sta'");
    let s = store.get_server(&id).unwrap();
    assert!(!s.tools[0].allowed);
    assert!(!s.tools[1].allowed);
    assert!(s.allowlist.is_empty());
    let inv = store.export_inventory();
    assert_eq!(inv.allowlist_entries, 0);
    assert_eq!(inv.audit_events, before);
    assert_eq!(store.set_allowlist("none", vec![], "s", vec![], "r").unwrap_err(), "Server not found: none");
}

#[test]
fn allowlist_marks_only_first_tool_of_a_name() {
    let mut store = RegistryStore::new();
    let id = register_github(&mut store);
    store.discover_tool_inputs(&id, &vec![tool("a", None), tool("a", None)]).unwrap();
    store.set_allowlist(&id, strings(&["a", "a"]), "dev", vec![], "r").unwrap();
    let s = store.get_server(&id).unwrap();
    assert!(s.tools[0].allowed);
    assert!(!s.tools[1].allowed);
}

#[test]
fn restart_makes_server_healthy() {
    let mut store = RegistryStore::new();
    let id = register_github(&mut store);
    let r = store.restart_server(&id).unwrap();
    assert_eq!(r.health.state, HealthState::Healthy);
    assert_eq!(r.health.message.as_deref(), Some("Restarted"));
    assert_eq!(r.health.latency_ms, None);
    assert_eq!(r.health.error_rate_ppm, Some(0));
    assert_eq!(r.version, 1);
    assert_eq!(store.restart_server("q").unwrap_err(), "Server not found: q");
}

#[test]
fn disable_keeps_the_record() {
    let mut store = RegistryStore::new();
    let id = register_github(&mut store);
    store.discover_tool_inputs(&id, &vec![tool("a", None)]).unwrap();
    let r = store.disable_server(&id).unwrap();
    assert_eq!(r.status, ServerStatus::Disabled);
    assert_eq!(r.health.state, HealthState::Disabled);
    assert_eq!(r.tools.len(), 1);
    assert_eq!(r.version, 1);
    assert_eq!(store.list_servers(None, None, None, None).len(), 1);
    assert_eq!(store.disable_server("q").unwrap_err(), "Server not found: q");
}

#[test]
fn list_filters_by_each_field() {
    let mut store = RegistryStore::new();
    let id = register_github(&mut store);
    store.register_server("other".into(), "".into(), "ops".into(), "platform".into(), "production".into(), Transport::Managed, None, None, vec![], vec![], vec![]);
    assert_eq!(store.list_servers(Some("staging"), None, None, None).len(), 1);
    assert_eq!(store.list_servers(None, None, Some("platform"), None).len(), 1);
    assert_eq!(store.list_servers(None, None, None, Some("platform-team"))[0].id, id);
    assert_eq!(store.list_servers(Some("staging"), None, Some("platform"), None).len(), 0);
    assert_eq!(store.list_servers(None, Some("active"), None, None).len(), 2);
    assert_eq!(store.list_servers(None, Some("act"), None, None).len(), 2);
    assert_eq!(store.list_servers(None, Some(""), None, None).len(), 2);
    store.disable_server(&id).unwrap();
    assert_eq!(store.list_servers(None, Some("active"), None, None).len(), 1);
    assert_eq!(store.list_servers(None, Some("disabled"), None, None)[0].id, id);
    assert_eq!(store.list_servers(None, Some("Active"), None, None).len(), 0);
}

#[test]
fn audit_trail_records_each_mutation() {
    let mut store = RegistryStore::new();
    let id = register_github(&mut store);
    store.update_server(&id, None, None, None, None, None, None, None).unwrap();
    store.discover_tool_inputs(&id, &vec![tool("a", None)]).unwrap();
    store.set_allowlist(&id, strings(&["a"]), "staging", vec![], "r").unwrap();
    store.test_server(&id).unwrap();
    store.restart_server(&id).unwrap();
    store.disable_server(&id).unwrap();
    store.get_server(&id);
    store.list_servers(None, None, None, None);
    let inv = store.export_inventory();
    assert_eq!(inv.audit_events, 7);
    assert_eq!(inv.servers, 1);
    assert_eq!(inv.servers_list.len(), 1);
    assert_eq!(inv.discovery_snapshots, 1);
    assert_eq!(inv.allowlist_entries, 1);
}

#[test]
fn audit_details_kinds_are_distinct() {
    assert_ne!(AuditDetails::Version(1), AuditDetails::Count(1));
    assert_eq!(AuditDetails::Empty, AuditDetails::Empty);
}

#[test]
fn risk_labels_map_to_levels() {
    assert_eq!(parse_risk_class(Some("high")), RiskLevel::High);
    assert_eq!(parse_risk_class(Some("critical")), RiskLevel::Critical);
    assert_eq!(parse_risk_class(Some("low")), RiskLevel::Low);
    assert_eq!(parse_risk_class(Some("HIGH")), RiskLevel::Medium);
    assert_eq!(parse_risk_class(None), RiskLevel::Medium);
}

#[test]
fn tool_records_keep_input_fields() {
    let input = ToolInput {
        name: "t".into(),
        description: "desc".into(),
        risk_class: Some("critical".into()),
        scope: Some("write".into()),
        side_effect: Some("sends mail".into()),
    };
    let r = tool_record_from_input(&input);
    assert_eq!(r.name, "t");
    assert_eq!(r.description, "desc");
    assert_eq!(r.risk_class, RiskLevel::Critical);
    assert_eq!(r.scope, "write");
    assert_eq!(r.side_effect.as_deref(), Some("sends mail"));
    assert!(!r.allowed);
    assert!(matches!(r.parameters_schema, ParameterSchema::EmptyObject));
    let all = tool_records_from_inputs(&vec![input]);
    assert_eq!(all.len(), 1);
}

#[test]
fn text_contains_finds_substrings() {
    assert!(text_contains("unhealthy", "health"));
    assert!(text_contains("abc", ""));
    assert!(!text_contains("ab", "abc"));
    assert!(!text_contains("unknown", "active"));
}

#[test]
fn health_default_is_unprobed() {
    let h = HealthStatus::default();
    assert_eq!(h.state, HealthState::Unknown);
    assert!(h.checked_at.is_none() && h.latency_ms.is_none() && h.error_rate_ppm.is_none() && h.message.is_none());
}

#[test]
fn generated_ids_are_prefixed_hex() {
    let mut store = RegistryStore::new();
    let id = register_github(&mut store);
    store.discover_tool_inputs(&id, &vec![tool("a", None)]).unwrap();
    let entries = store.set_allowlist(&id, strings(&["a"]), "staging", vec![], "r").unwrap();
    let suffix = &entries[0].id["allow_".len()..];
    assert_eq!(suffix.len(), 32);
    assert!(suffix.chars().all(|c| c.is_ascii_digit() || ('a'..='f').contains(&c)));
    let snap = store.discover_tool_inputs(&id, &vec![tool("a", None)]).unwrap();
    assert_ne!(snap.id, entries[0].id);
}

#[test]
fn cloned_tool_keeps_its_schema() {
    let mut schema = serde_json::Map::new();
    schema.insert("type".to_string(), serde_json::Value::String("object".to_string()));
    let t = mcp_registry::types::ToolRecord {
        name: "n".into(),
        description: "d".into(),
        parameters_schema: ParameterSchema::Json(serde_json::Value::Object(schema.clone())),
        risk_class: RiskLevel::High,
        scope: "read".into(),
        side_effect: None,
        allowed: true,
        discovered_at: mcp_registry::types::Timestamp { secs: 5, nanos: 7 },
    };
    let c = t.clone();
    match (&c.parameters_schema, &t.parameters_schema) {
        (ParameterSchema::Json(a), ParameterSchema::Json(b)) => {
            assert_eq!(a, b);
            assert_eq!(a, &serde_json::Value::Object(schema));
        }
        _ => panic!("schema changed kind"),
    }
    assert_eq!(c.name, "n");
    assert!(c.allowed);
    assert_eq!(c.discovered_at, t.discovered_at);
}

#[test]
fn cloned_server_record_keeps_every_field() {
    let mut store = RegistryStore::new();
    let id = register_github(&mut store);
    store.discover_tool_inputs(&id, &vec![tool("a", Some("high"))]).unwrap();
    let r = store.get_server(&id).unwrap();
    let c = r.clone();
    assert_eq!(c.id, r.id);
    assert_eq!(c.tags, r.tags);
    assert_eq!(c.tools.len(), 1);
    assert_eq!(c.tools[0].name, "a");
    assert_eq!(c.tools[0].risk_class, RiskLevel::High);
    assert_eq!(c.command, r.command);
    assert_eq!(c.created_at, r.created_at);
}

#[test]
fn rejected_allowlist_leaves_discovered_tool_unallowed() {
    let mut store = RegistryStore::new();
    let r = store.register_server("x".into(), "d".into(), "o".into(), "dev".into(), "development".into(), Transport::Stdio, None, None, vec![], vec![], vec![]);
    assert_eq!(r.id, "mcp_x_dev");
    store.discover_tool_inputs(&r.id, &vec![tool("a", None)]).unwrap();
    let e = store.set_allowlist(&r.id, strings(&["a", "b"]), "development", vec![], "r").unwrap_err();
    assert_eq!(e, "Tool 'b' not discovered on server 'mcp_x_dev'");
    let s = store.get_server(&r.id).unwrap();
    assert!(!s.tools[0].allowed);
    assert!(s.allowlist.is_empty());
    assert_eq!(store.export_inventory().allowlist_entries, 0);
}

#[test]
fn export_lists_servers_in_registration_order_and_repeats() {
    let mut store = RegistryStore::new();
    let a = store.register_server("alpha".into(), "".into(), "o".into(), "d".into(), "dev".into(), Transport::Stdio, None, None, vec![], vec![], vec![]);
    let b = store.register_server("beta".into(), "".into(), "o".into(), "d".into(), "dev".into(), Transport::Stdio, None, None, vec![], vec![], vec![]);
    let c = store.register_server("gamma".into(), "".into(), "o".into(), "d".into(), "dev".into(), Transport::Stdio, None, None, vec![], vec![], vec![]);
    store.register_server("alpha".into(), "again".into(), "o".into(), "d".into(), "dev".into(), Transport::Stdio, None, None, vec![], vec![], vec![]);
    let first = store.export_inventory();
    let second = store.export_inventory();
    let ids = |v: &Vec<mcp_registry::types::ServerRecord>| v.iter().map(|s| s.id.clone()).collect::<Vec<_>>();
    assert_eq!(ids(&first.servers_list), vec![a.id.clone(), b.id.clone(), c.id.clone()]);
    assert_eq!(ids(&first.servers_list), ids(&second.servers_list));
    assert_eq!(first.servers_list[0].description, "again");
    assert_eq!(first.audit_events, second.audit_events);
    assert_eq!(first.audit_events, 4);
}

#[test]
fn version_counts_updates_since_registration() {
    let mut store = RegistryStore::new();
    let id = register_github(&mut store);
    store.update_server(&id, None, None, None, None, None, None, None).unwrap();
    store.discover_tool_inputs(&id, &vec![tool("a", None)]).unwrap();
    store.update_server(&id, None, None, None, None, None, None, None).unwrap();
    store.test_server(&id).unwrap();
    store.set_allowlist(&id, strings(&["a"]), "staging", vec![], "r").unwrap();
    store.restart_server(&id).unwrap();
    assert!(store.update_server("other", None, None, None, None, None, None, None).is_err());
    let r = store.update_server(&id, None, None, None, None, None, None, None).unwrap();
    assert_eq!(r.version, 4);
    store.disable_server(&id).unwrap();
    assert_eq!(store.get_server(&id).unwrap().version, 4);
    register_github(&mut store);
    assert_eq!(store.get_server(&id).unwrap().version, 1);
}
