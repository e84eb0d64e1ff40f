//! The registry's records and their mathematical views.

use vstd::prelude::*;
use crate::outside::{clock_now, clone_json};

verus! {

/// How a client reaches an MCP server.
#[derive(Clone, Copy, Debug, PartialEq, Eq, Structural)]
pub enum Transport {
    Stdio,
    Sse,
    StreamableHttp,
    Managed,
    Custom,
}

/// Whether a server takes part in agent routing.
#[derive(Clone, Copy, Debug, PartialEq, Eq, Structural)]
pub enum ServerStatus {
    Active,
    Disabled,
    Unhealthy,
    Unknown,
}

/// How much harm a tool can do.
#[derive(Clone, Copy, Debug, PartialEq, Eq, Structural)]
pub enum RiskLevel {
    Low,
    Medium,
    High,
    Critical,
}

/// The outcome of the last health probe of a server.
#[derive(Clone, Copy, Debug, PartialEq, Eq, Structural)]
pub enum HealthState {
    Healthy,
    Degraded,
    Failing,
    Disabled,
    Unknown,
}

/// An instant in UTC: whole seconds since the Unix epoch and the
/// nanoseconds past that second.
#[derive(Clone, Copy, Debug, PartialEq, Eq, Structural)]
pub struct Timestamp {
    pub secs: i64,
    pub nanos: u32,
}

/// The current time.
pub(crate) fn timestamp_now() -> (t: Timestamp) {
    let (secs, nanos) = clock_now();
    Timestamp { secs, nanos }
}

/// What an audit event records besides its action.
#[derive(Clone, Copy, Debug, PartialEq, Eq, Structural)]
pub enum AuditDetails {
    /// The definition version after the action.
    Version(u32),
    /// How many tools a discovery found.
    ToolsCount(usize),
    /// How many allow-list entries were written.
    Count(usize),
    /// Whether a connectivity test reached the server.
    Connectivity(bool),
    /// Nothing more.
    Empty,
}

/// The characters of each string.
pub open spec fn texts(v: Seq<String>) -> Seq<Seq<char>> {
    v.map_values(|s: String| s@)
}

/// The characters of an optional string.
pub open spec fn opt_text(o: Option<String>) -> Option<Seq<char>> {
    match o {
        Some(s) => Some(s@),
        None => None,
    }
}

/// Copies a list of strings.
pub fn clone_strings(v: &Vec<String>) -> (r: Vec<String>)
    ensures
        texts(r@) == texts(v@),
        r@.len() == v@.len(),
{
    let r = v.clone();
    assert(r@ =~= v@);
    r
}

/// Copies an optional string.
pub fn clone_opt_string(o: &Option<String>) -> (r: Option<String>)
    ensures
        opt_text(r) == opt_text(*o),
{
    match o {
        Some(s) => Some(s.clone()),
        None => None,
    }
}

/// The health of a server as last probed.
#[derive(Debug)]
pub struct HealthStatus {
    pub state: HealthState,
    pub checked_at: Option<Timestamp>,
    pub latency_ms: Option<u64>,
    /// Share of failed calls, in parts per million.
    pub error_rate_ppm: Option<u32>,
    pub message: Option<String>,
}

pub struct HealthStatusView {
    pub state: HealthState,
    pub checked_at: Option<Timestamp>,
    pub latency_ms: Option<u64>,
    pub error_rate_ppm: Option<u32>,
    pub message: Option<Seq<char>>,
}

impl View for HealthStatus {
    type V = HealthStatusView;

    open spec fn view(&self) -> HealthStatusView {
        HealthStatusView {
            state: self.state,
            checked_at: self.checked_at,
            latency_ms: self.latency_ms,
            error_rate_ppm: self.error_rate_ppm,
            message: opt_text(self.message),
        }
    }
}

impl HealthStatusView {
    /// Health before any probe: unknown, with nothing measured.
    pub open spec fn unprobed() -> HealthStatusView {
        HealthStatusView {
            state: HealthState::Unknown,
            checked_at: None,
            latency_ms: None,
            error_rate_ppm: None,
            message: None,
        }
    }
}

impl Default for HealthStatus {
    fn default() -> (h: Self)
        ensures
            h@ == HealthStatusView::unprobed(),
    {
        HealthStatus {
            state: HealthState::Unknown,
            checked_at: None,
            latency_ms: None,
            error_rate_ppm: None,
            message: None,
        }
    }
}

impl Clone for HealthStatus {
    fn clone(&self) -> (r: Self)
        ensures
            r@ == self@,
    {
        HealthStatus {
            state: self.state,
            checked_at: self.checked_at,
            latency_ms: self.latency_ms,
            error_rate_ppm: self.error_rate_ppm,
            message: clone_opt_string(&self.message),
        }
    }
}

/// The JSON schema of a tool's parameters.
#[derive(Debug)]
pub enum ParameterSchema {
    /// The empty JSON object `{}`: the schema a discovered tool starts with.
    EmptyObject,
    /// Any other schema, as a JSON value.
    Json(serde_json::Value),
}

impl Clone for ParameterSchema {
    fn clone(&self) -> (r: Self)
        ensures
            r == *self,
    {
        match self {
            ParameterSchema::EmptyObject => ParameterSchema::EmptyObject,
            ParameterSchema::Json(v) => ParameterSchema::Json(clone_json(v)),
        }
    }
}

/// A tool that a server offers.
#[derive(Debug)]
pub struct ToolRecord {
    pub name: String,
    pub description: String,
    pub parameters_schema: ParameterSchema,
    pub risk_class: RiskLevel,
    pub scope: String,
    pub side_effect: Option<String>,
    /// Whether agents may call the tool.
    pub allowed: bool,
    pub discovered_at: Timestamp,
}

pub struct ToolRecordView {
    pub name: Seq<char>,
    pub description: Seq<char>,
    pub parameters_schema: ParameterSchema,
    pub risk_class: RiskLevel,
    pub scope: Seq<char>,
    pub side_effect: Option<Seq<char>>,
    pub allowed: bool,
    pub discovered_at: Timestamp,
}

impl View for ToolRecord {
    type V = ToolRecordView;

    open spec fn view(&self) -> ToolRecordView {
        ToolRecordView {
            name: self.name@,
            description: self.description@,
            parameters_schema: self.parameters_schema,
            risk_class: self.risk_class,
            scope: self.scope@,
            side_effect: opt_text(self.side_effect),
            allowed: self.allowed,
            discovered_at: self.discovered_at,
        }
    }
}

impl Clone for ToolRecord {
    fn clone(&self) -> (r: Self)
        ensures
            r@ == self@,
    {
        ToolRecord {
            name: self.name.clone(),
            description: self.description.clone(),
            parameters_schema: self.parameters_schema.clone(),
            risk_class: self.risk_class,
            scope: self.scope.clone(),
            side_effect: clone_opt_string(&self.side_effect),
            allowed: self.allowed,
            discovered_at: self.discovered_at,
        }
    }
}

/// The views of a list of tools.
pub open spec fn tool_views(v: Seq<ToolRecord>) -> Seq<ToolRecordView> {
    v.map_values(|t: ToolRecord| t@)
}

/// Copies a list of tools.
pub fn clone_tools(v: &Vec<ToolRecord>) -> (r: Vec<ToolRecord>)
    ensures
        tool_views(r@) == tool_views(v@),
{
    let mut r: Vec<ToolRecord> = Vec::new();
    let mut i: usize = 0;
    while i < v.len()
        invariant
            i <= v@.len(),
            tool_views(r@) == tool_views(v@.take(i as int)),
        decreases v@.len() - i,
    {
        let t = v[i].clone();
        let ghost before = r@;
        r.push(t);
        assert(v@.take(i + 1) =~= v@.take(i as int).push(v@[i as int]));
        assert(r@ =~= before.push(t));
        assert(tool_views(r@) =~= tool_views(before).push(t@));
        assert(tool_views(r@) =~= tool_views(v@.take(i + 1)));
        i += 1;
    }
    assert(v@.take(v@.len() as int) =~= v@);
    r
}

/// A registered MCP server definition.
#[derive(Debug)]
pub struct ServerRecord {
    pub id: String,
    pub name: String,
    pub description: String,
    pub owner: String,
    pub domain: String,
    pub environment: String,
    pub transport: Transport,
    pub command: Option<String>,
    pub url: Option<String>,
    pub status: ServerStatus,
    /// Bumped by every update of the definition.
    pub version: u32,
    pub credential_bindings: Vec<String>,
    pub policy_labels: Vec<String>,
    pub tags: Vec<String>,
    pub tools: Vec<ToolRecord>,
    /// Names of the tools that agents may use.
    pub allowlist: Vec<String>,
    pub health: HealthStatus,
    pub created_at: Timestamp,
    pub updated_at: Timestamp,
}

pub struct ServerRecordView {
    pub id: Seq<char>,
    pub name: Seq<char>,
    pub description: Seq<char>,
    pub owner: Seq<char>,
    pub domain: Seq<char>,
    pub environment: Seq<char>,
    pub transport: Transport,
    pub command: Option<Seq<char>>,
    pub url: Option<Seq<char>>,
    pub status: ServerStatus,
    pub version: u32,
    pub credential_bindings: Seq<Seq<char>>,
    pub policy_labels: Seq<Seq<char>>,
    pub tags: Seq<Seq<char>>,
    pub tools: Seq<ToolRecordView>,
    pub allowlist: Seq<Seq<char>>,
    pub health: HealthStatusView,
    pub created_at: Timestamp,
    pub updated_at: Timestamp,
}

impl View for ServerRecord {
    type V = ServerRecordView;

    open spec fn view(&self) -> ServerRecordView {
        ServerRecordView {
            id: self.id@,
            name: self.name@,
            description: self.description@,
            owner: self.owner@,
            domain: self.domain@,
            environment: self.environment@,
            transport: self.transport,
            command: opt_text(self.command),
            url: opt_text(self.url),
            status: self.status,
            version: self.version,
            credential_bindings: texts(self.credential_bindings@),
            policy_labels: texts(self.policy_labels@),
            tags: texts(self.tags@),
            tools: tool_views(self.tools@),
            allowlist: texts(self.allowlist@),
            health: self.health@,
            created_at: self.created_at,
            updated_at: self.updated_at,
        }
    }
}

impl Clone for ServerRecord {
    fn clone(&self) -> (r: Self)
        ensures
            r@ == self@,
    {
        ServerRecord {
            id: self.id.clone(),
            name: self.name.clone(),
            description: self.description.clone(),
            owner: self.owner.clone(),
            domain: self.domain.clone(),
            environment: self.environment.clone(),
            transport: self.transport,
            command: clone_opt_string(&self.command),
            url: clone_opt_string(&self.url),
            status: self.status,
            version: self.version,
            credential_bindings: clone_strings(&self.credential_bindings),
            policy_labels: clone_strings(&self.policy_labels),
            tags: clone_strings(&self.tags),
            tools: clone_tools(&self.tools),
            allowlist: clone_strings(&self.allowlist),
            health: self.health.clone(),
            created_at: self.created_at,
            updated_at: self.updated_at,
        }
    }
}

/// The views of a list of servers.
pub open spec fn server_views(v: Seq<ServerRecord>) -> Seq<ServerRecordView> {
    v.map_values(|s: ServerRecord| s@)
}

/// An approval for agents to use one tool of one server.
#[derive(Debug)]
pub struct AllowlistEntry {
    pub id: String,
    pub server_id: String,
    pub tool_name: String,
    pub environment: String,
    pub agents: Vec<String>,
    pub risk: RiskLevel,
    pub policy_labels: Vec<String>,
    pub status: String,
    pub reason: String,
    pub created_at: Timestamp,
}

pub struct AllowlistEntryView {
    pub id: Seq<char>,
    pub server_id: Seq<char>,
    pub tool_name: Seq<char>,
    pub environment: Seq<char>,
    pub agents: Seq<Seq<char>>,
    pub risk: RiskLevel,
    pub policy_labels: Seq<Seq<char>>,
    pub status: Seq<char>,
    pub reason: Seq<char>,
    pub created_at: Timestamp,
}

impl View for AllowlistEntry {
    type V = AllowlistEntryView;

    open spec fn view(&self) -> AllowlistEntryView {
        AllowlistEntryView {
            id: self.id@,
            server_id: self.server_id@,
            tool_name: self.tool_name@,
            environment: self.environment@,
            agents: texts(self.agents@),
            risk: self.risk,
            policy_labels: texts(self.policy_labels@),
            status: self.status@,
            reason: self.reason@,
            created_at: self.created_at,
        }
    }
}

impl Clone for AllowlistEntry {
    fn clone(&self) -> (r: Self)
        ensures
            r@ == self@,
    {
        AllowlistEntry {
            id: self.id.clone(),
            server_id: self.server_id.clone(),
            tool_name: self.tool_name.clone(),
            environment: self.environment.clone(),
            agents: clone_strings(&self.agents),
            risk: self.risk,
            policy_labels: clone_strings(&self.policy_labels),
            status: self.status.clone(),
            reason: self.reason.clone(),
            created_at: self.created_at,
        }
    }
}

/// The views of a list of allow-list entries.
pub open spec fn entry_views(v: Seq<AllowlistEntry>) -> Seq<AllowlistEntryView> {
    v.map_values(|e: AllowlistEntry| e@)
}

/// How a discovery changed the tool names of a server.
#[derive(Debug)]
pub struct DiscoveryDiff {
    pub added_tools: Vec<String>,
    pub removed_tools: Vec<String>,
    pub changed_tools: Vec<String>,
}

pub struct DiscoveryDiffView {
    pub added_tools: Seq<Seq<char>>,
    pub removed_tools: Seq<Seq<char>>,
    pub changed_tools: Seq<Seq<char>>,
}

impl View for DiscoveryDiff {
    type V = DiscoveryDiffView;

    open spec fn view(&self) -> DiscoveryDiffView {
        DiscoveryDiffView {
            added_tools: texts(self.added_tools@),
            removed_tools: texts(self.removed_tools@),
            changed_tools: texts(self.changed_tools@),
        }
    }
}

impl Clone for DiscoveryDiff {
    fn clone(&self) -> (r: Self)
        ensures
            r@ == self@,
    {
        DiscoveryDiff {
            added_tools: clone_strings(&self.added_tools),
            removed_tools: clone_strings(&self.removed_tools),
            changed_tools: clone_strings(&self.changed_tools),
        }
    }
}

/// The view of an optional diff.
pub open spec fn opt_diff(d: Option<DiscoveryDiff>) -> Option<DiscoveryDiffView> {
    match d {
        Some(x) => Some(x@),
        None => None,
    }
}

/// The result of one tool discovery on a server.
#[derive(Debug)]
pub struct DiscoverySnapshot {
    pub id: String,
    pub server_id: String,
    pub server_version: u32,
    pub tools_count: usize,
    pub tools: Vec<ToolRecord>,
    pub diff: Option<DiscoveryDiff>,
    pub status: String,
    pub created_at: Timestamp,
}

pub struct DiscoverySnapshotView {
    pub id: Seq<char>,
    pub server_id: Seq<char>,
    pub server_version: u32,
    pub tools_count: usize,
    pub tools: Seq<ToolRecordView>,
    pub diff: Option<DiscoveryDiffView>,
    pub status: Seq<char>,
    pub created_at: Timestamp,
}

impl View for DiscoverySnapshot {
    type V = DiscoverySnapshotView;

    open spec fn view(&self) -> DiscoverySnapshotView {
        DiscoverySnapshotView {
            id: self.id@,
            server_id: self.server_id@,
            server_version: self.server_version,
            tools_count: self.tools_count,
            tools: tool_views(self.tools@),
            diff: opt_diff(self.diff),
            status: self.status@,
            created_at: self.created_at,
        }
    }
}

impl Clone for DiscoverySnapshot {
    fn clone(&self) -> (r: Self)
        ensures
            r@ == self@,
    {
        let diff = match &self.diff {
            Some(d) => Some(d.clone()),
            None => None,
        };
        DiscoverySnapshot {
            id: self.id.clone(),
            server_id: self.server_id.clone(),
            server_version: self.server_version,
            tools_count: self.tools_count,
            tools: clone_tools(&self.tools),
            diff,
            status: self.status.clone(),
            created_at: self.created_at,
        }
    }
}

/// One entry of the audit trail.
#[derive(Debug)]
pub struct AuditEvent {
    pub id: String,
    pub server_id: String,
    pub action: String,
    pub actor: String,
    pub details: AuditDetails,
    pub timestamp: Timestamp,
}

pub struct AuditEventView {
    pub id: Seq<char>,
    pub server_id: Seq<char>,
    pub action: Seq<char>,
    pub actor: Seq<char>,
    pub details: AuditDetails,
    pub timestamp: Timestamp,
}

impl View for AuditEvent {
    type V = AuditEventView;

    open spec fn view(&self) -> AuditEventView {
        AuditEventView {
            id: self.id@,
            server_id: self.server_id@,
            action: self.action@,
            actor: self.actor@,
            details: self.details,
            timestamp: self.timestamp,
        }
    }
}

impl Clone for AuditEvent {
    fn clone(&self) -> (r: Self)
        ensures
            r@ == self@,
    {
        AuditEvent {
            id: self.id.clone(),
            server_id: self.server_id.clone(),
            action: self.action.clone(),
            actor: self.actor.clone(),
            details: self.details,
            timestamp: self.timestamp,
        }
    }
}

/// The outcome of a connectivity and schema check.
#[derive(Debug)]
pub struct TestResult {
    pub server_id: String,
    pub connectivity: bool,
    pub tools_listed: bool,
    pub schema_valid: bool,
    pub latency_ms: u64,
    pub errors: Vec<String>,
    pub tested_at: Timestamp,
}

pub struct TestResultView {
    pub server_id: Seq<char>,
    pub connectivity: bool,
    pub tools_listed: bool,
    pub schema_valid: bool,
    pub latency_ms: u64,
    pub errors: Seq<Seq<char>>,
    pub tested_at: Timestamp,
}

impl View for TestResult {
    type V = TestResultView;

    open spec fn view(&self) -> TestResultView {
        TestResultView {
            server_id: self.server_id@,
            connectivity: self.connectivity,
            tools_listed: self.tools_listed,
            schema_valid: self.schema_valid,
            latency_ms: self.latency_ms,
            errors: texts(self.errors@),
            tested_at: self.tested_at,
        }
    }
}

impl TestResult {
    /// `passed` when the server was reached and its schema is valid,
    /// `failed` otherwise.
    pub fn outcome(&self) -> (r: &'static str)
        ensures
            r@ == (if self.connectivity && self.schema_valid {
                "passed"@
            } else {
                "failed"@
            }),
    {
        if self.connectivity && self.schema_valid {
            "passed"
        } else {
            "failed"
        }
    }
}

} // verus!
