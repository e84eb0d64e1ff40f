//! The requests that the registry's tools accept, and the conversion of
//! discovered tool definitions into tool records.

use vstd::prelude::*;
use crate::store::RegistryStore;
use crate::transitions::{change_effect, has_effect, discovered_record, is_snapshot_of, not_found_message};
use crate::text::same_str;
use crate::types::timestamp_now;
use crate::types::{
    DiscoverySnapshot, ParameterSchema, RiskLevel, ToolRecord, ToolRecordView, Transport, opt_text,
};

verus! {

/// A request to register a server.
#[derive(Debug)]
pub struct RegisterMcpServerInput {
    pub name: String,
    pub description: String,
    pub owner: String,
    pub domain: String,
    pub environment: String,
    pub transport: Transport,
    pub command: Option<String>,
    pub url: Option<String>,
    pub credential_bindings: Vec<String>,
    pub policy_labels: Vec<String>,
    pub tags: Vec<String>,
}

/// A request to change a server's definition.
#[derive(Debug)]
pub struct UpdateMcpServerInput {
    pub server_id: String,
    pub command: Option<String>,
    pub url: Option<String>,
    pub transport: Option<Transport>,
    pub environment: Option<String>,
    pub owner: Option<String>,
    pub policy_labels: Option<Vec<String>>,
    pub credential_bindings: Option<Vec<String>>,
}

/// A request to list servers, each filter optional.
#[derive(Debug)]
pub struct ListMcpServersInput {
    pub environment: Option<String>,
    pub status: Option<String>,
    pub domain: Option<String>,
    pub owner: Option<String>,
}

/// A request to inspect one server.
#[derive(Debug)]
pub struct GetMcpServerInput {
    pub server_id: String,
}

/// A request to record the tools a server offers.
#[derive(Debug)]
pub struct DiscoverMcpToolsInput {
    pub server_id: String,
    pub tools: Vec<ToolInput>,
}

/// A tool definition as a server reports it.
#[derive(Debug)]
pub struct ToolInput {
    pub name: String,
    pub description: String,
    pub risk_class: Option<String>,
    pub scope: Option<String>,
    pub side_effect: Option<String>,
}

/// A request to approve tools for agents.
#[derive(Debug)]
pub struct SetToolAllowlistInput {
    pub server_id: String,
    pub tool_names: Vec<String>,
    pub environment: String,
    pub agents: Vec<String>,
    pub reason: String,
}

/// A request to test a server.
#[derive(Debug)]
pub struct TestMcpServerInput {
    pub server_id: String,
}

/// A request to restart a server.
#[derive(Debug)]
pub struct RestartMcpServerInput {
    pub server_id: String,
}

/// A request to take a server out of routing.
#[derive(Debug)]
pub struct DisableMcpServerInput {
    pub server_id: String,
}

/// The risk named by a label: `high`, `critical` and `low` name their
/// levels; any other label, or none, means medium.
pub open spec fn risk_from(label: Option<Seq<char>>) -> RiskLevel {
    match label {
        Some(l) => if l == "high"@ {
            RiskLevel::High
        } else if l == "critical"@ {
            RiskLevel::Critical
        } else if l == "low"@ {
            RiskLevel::Low
        } else {
            RiskLevel::Medium
        },
        None => RiskLevel::Medium,
    }
}

/// The risk level that a tool definition's label names.
pub fn parse_risk_class(label: Option<&str>) -> (r: RiskLevel)
    ensures
        r == risk_from(
            match label {
                Some(l) => Some(l@),
                None => None,
            },
        ),
{
    match label {
        Some(l) => if same_str(l, "high") {
            RiskLevel::High
        } else if same_str(l, "critical") {
            RiskLevel::Critical
        } else if same_str(l, "low") {
            RiskLevel::Low
        } else {
            RiskLevel::Medium
        },
        None => RiskLevel::Medium,
    }
}

/// `t` is the record of the tool that `input` defines: the same name,
/// description and side effect, the risk its label names, the scope given
/// or else `read`, the empty parameter schema, and not allowed.
pub open spec fn is_tool_from(t: ToolRecordView, input: ToolInput) -> bool {
    &&& t.name == input.name@
    &&& t.description == input.description@
    &&& t.risk_class == risk_from(opt_text(input.risk_class))
    &&& t.scope == (if input.scope is Some {
        input.scope->0@
    } else {
        "read"@
    })
    &&& t.side_effect == opt_text(input.side_effect)
    &&& t.parameters_schema == ParameterSchema::EmptyObject
    &&& !t.allowed
}

/// The record of a discovered tool: not allowed until an allow-list names
/// it, with an empty parameter schema, discovered now.
pub fn tool_record_from_input(input: &ToolInput) -> (t: ToolRecord)
    ensures
        is_tool_from(t@, *input),
{
    let label = match &input.risk_class {
        Some(l) => Some(l.as_str()),
        None => None,
    };
    let scope = match &input.scope {
        Some(s) => s.clone(),
        None => String::from_str("read"),
    };
    let side_effect = match &input.side_effect {
        Some(s) => Some(s.clone()),
        None => None,
    };
    ToolRecord {
        name: input.name.clone(),
        description: input.description.clone(),
        parameters_schema: ParameterSchema::EmptyObject,
        risk_class: parse_risk_class(label),
        scope,
        side_effect,
        allowed: false,
        discovered_at: timestamp_now(),
    }
}

/// The records of discovered tools, in the order given.
pub fn tool_records_from_inputs(inputs: &Vec<ToolInput>) -> (r: Vec<ToolRecord>)
    ensures
        r@.len() == inputs@.len(),
        forall|i: int| 0 <= i < inputs@.len() ==> is_tool_from(#[trigger] r@[i]@, inputs@[i]),
{
    let mut r: Vec<ToolRecord> = Vec::new();
    let mut i: usize = 0;
    while i < inputs.len()
        invariant
            i <= inputs@.len(),
            r@.len() == i,
            forall|k: int| 0 <= k < i ==> is_tool_from(#[trigger] r@[k]@, inputs@[k]),
        decreases inputs@.len() - i,
    {
        r.push(tool_record_from_input(&inputs[i]));
        i += 1;
    }
    r
}

impl RegistryStore {
    /// Records the tools that a server reports. Discovery exposes nothing:
    /// every recorded tool is not allowed, and the server's allow-list and
    /// the allow-list entries stay as they were.
    pub fn discover_tool_inputs(&mut self, server_id: &str, inputs: &Vec<ToolInput>) -> (r: Result<
        DiscoverySnapshot,
        String,
    >)
        requires
            old(self).wf(),
        ensures
            final(self).wf(),
            has_effect(old(self)@, final(self)@, change_effect(r is Ok, None, 1, 0)),
            match r {
                Ok(snap) => {
                    &&& old(self)@.servers.contains_key(server_id@)
                    &&& snap@.tools.len() == inputs@.len()
                    &&& forall|i: int|
                        0 <= i < inputs@.len() ==> is_tool_from(#[trigger] snap@.tools[i], inputs@[i])
                    &&& is_snapshot_of(snap@, server_id@, old(self)@.servers[server_id@], snap@.tools)
                    &&& final(self)@.servers.contains_key(server_id@)
                    &&& final(self)@.order == old(self)@.order
                    &&& final(self)@.servers == old(self)@.servers.insert(
                        server_id@,
                        discovered_record(
                            old(self)@.servers[server_id@],
                            snap@.tools,
                            final(self)@.servers[server_id@].updated_at,
                        ),
                    )
                    &&& forall|i: int|
                        0 <= i < final(self)@.servers[server_id@].tools.len()
                            ==> !(#[trigger] final(self)@.servers[server_id@].tools[i]).allowed
                    &&& final(self)@.servers[server_id@].allowlist
                        == old(self)@.servers[server_id@].allowlist
                    &&& final(self)@.snapshots == old(self)@.snapshots.push(snap@)
                    &&& final(self)@.allowlist == old(self)@.allowlist
                },
                Err(e) => {
                    &&& !old(self)@.servers.contains_key(server_id@)
                    &&& e@ == not_found_message(server_id@)
                    &&& final(self)@ == old(self)@
                },
            },
    {
        let tools = tool_records_from_inputs(inputs);
        self.discover_tools(server_id, tools)
    }
}

} // verus!
