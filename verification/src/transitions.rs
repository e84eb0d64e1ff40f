//! What each registry operation makes of a record, and the texts it
//! answers with.

use vstd::prelude::*;
use crate::state::{RegistryState, distinct_ids, has_id};
use crate::text::{contains_text, is_generated_id, occurs_at};
use crate::tools::{allow_named, tool_diff, tool_names};
use crate::types::{
    AuditDetails, AuditEventView, AllowlistEntryView, DiscoverySnapshotView, HealthState,
    HealthStatusView, RiskLevel, ServerRecordView, ServerStatus, TestResultView, Timestamp,
    ToolRecordView, Transport, texts,
};

verus! {

/// The text of the error for an unknown server id.
pub open spec fn not_found_message(server_id: Seq<char>) -> Seq<char> {
    "Server not found: "@ + server_id
}

/// `new` is `old` with one more event at its end, written for `server_id`
/// by `actor`, with a fresh `aud_` id.
pub open spec fn logged(
    old: Seq<AuditEventView>,
    new: Seq<AuditEventView>,
    server_id: Seq<char>,
    action: Seq<char>,
    actor: Seq<char>,
    details: AuditDetails,
) -> bool {
    &&& new.len() == old.len() + 1
    &&& new.subrange(0, old.len() as int) == old
    &&& new.last().server_id == server_id
    &&& new.last().action == action
    &&& new.last().actor == actor
    &&& new.last().details == details
    &&& is_generated_id(new.last().id, "aud_"@)
}

/// The record a registration creates: version 1, active, no tools, nothing
/// allowed, not yet probed, created and updated at `at`.
pub open spec fn registered_record(
    id: Seq<char>,
    name: Seq<char>,
    description: Seq<char>,
    owner: Seq<char>,
    domain: Seq<char>,
    environment: Seq<char>,
    transport: Transport,
    command: Option<Seq<char>>,
    url: Option<Seq<char>>,
    credential_bindings: Seq<Seq<char>>,
    policy_labels: Seq<Seq<char>>,
    tags: Seq<Seq<char>>,
    at: Timestamp,
) -> ServerRecordView {
    ServerRecordView {
        id,
        name,
        description,
        owner,
        domain,
        environment,
        transport,
        command,
        url,
        status: ServerStatus::Active,
        version: 1,
        credential_bindings,
        policy_labels,
        tags,
        tools: Seq::empty(),
        allowlist: Seq::empty(),
        health: HealthStatusView::unprobed(),
        created_at: at,
        updated_at: at,
    }
}

/// An optional list of strings, by its characters.
pub open spec fn opt_texts(o: Option<Vec<String>>) -> Option<Seq<Seq<char>>> {
    match o {
        Some(v) => Some(texts(v@)),
        None => None,
    }
}

/// `new` if it is given, else `old`.
pub open spec fn or_keep<T>(new: Option<T>, old: T) -> T {
    match new {
        Some(v) => v,
        None => old,
    }
}

/// A record after an update: each given field replaced, the version one
/// higher, updated at `at`; the rest as it was.
pub open spec fn updated_record(
    old: ServerRecordView,
    command: Option<Seq<char>>,
    url: Option<Seq<char>>,
    transport: Option<Transport>,
    environment: Option<Seq<char>>,
    owner: Option<Seq<char>>,
    policy_labels: Option<Seq<Seq<char>>>,
    credential_bindings: Option<Seq<Seq<char>>>,
    at: Timestamp,
) -> ServerRecordView {
    ServerRecordView {
        command: if command is Some { command } else { old.command },
        url: if url is Some { url } else { old.url },
        transport: or_keep(transport, old.transport),
        environment: or_keep(environment, old.environment),
        owner: or_keep(owner, old.owner),
        policy_labels: or_keep(policy_labels, old.policy_labels),
        credential_bindings: or_keep(credential_bindings, old.credential_bindings),
        version: (old.version + 1) as u32,
        updated_at: at,
        ..old
    }
}

/// A record after a restart: healthy, probed at `checked`, updated at `at`.
pub open spec fn restarted_record(old: ServerRecordView, checked: Timestamp, at: Timestamp) -> ServerRecordView {
    ServerRecordView {
        health: HealthStatusView {
            state: HealthState::Healthy,
            checked_at: Some(checked),
            latency_ms: None,
            error_rate_ppm: Some(0),
            message: Some("Restarted"@),
        },
        updated_at: at,
        ..old
    }
}

/// A record after it is disabled: out of routing, health disabled, updated
/// at `at`; its history kept.
pub open spec fn disabled_record(old: ServerRecordView, at: Timestamp) -> ServerRecordView {
    ServerRecordView {
        status: ServerStatus::Disabled,
        health: HealthStatusView { state: HealthState::Disabled, ..old.health },
        updated_at: at,
        ..old
    }
}

/// Whether a server has a command or a URL to reach it by.
pub open spec fn has_endpoint(r: ServerRecordView) -> bool {
    r.command is Some || r.url is Some
}

/// The latency that a connectivity test reports, in milliseconds.
pub const TEST_LATENCY_MS: u64 = 45;

/// What a connectivity test of `r` reports, tested at `at`.
pub open spec fn test_report(r: ServerRecordView, at: Timestamp) -> TestResultView {
    TestResultView {
        server_id: r.id,
        connectivity: has_endpoint(r),
        tools_listed: r.tools.len() > 0,
        schema_valid: true,
        latency_ms: TEST_LATENCY_MS,
        errors: if has_endpoint(r) {
            Seq::empty()
        } else {
            seq!["No command or URL configured"@]
        },
        tested_at: at,
    }
}

/// A record after a connectivity test at `checked`: healthy when it has an
/// endpoint, unknown otherwise. Its update time stays.
pub open spec fn tested_record(r: ServerRecordView, checked: Timestamp) -> ServerRecordView {
    ServerRecordView {
        health: HealthStatusView {
            state: if has_endpoint(r) {
                HealthState::Healthy
            } else {
                HealthState::Unknown
            },
            checked_at: Some(checked),
            latency_ms: Some(TEST_LATENCY_MS),
            error_rate_ppm: Some(0),
            message: Some(
                if has_endpoint(r) {
                    "Passed"@
                } else {
                    "No endpoint"@
                },
            ),
        },
        ..r
    }
}

/// A record after a discovery found `tools` at `at`: the tools replaced,
/// the allow-list and the version as they were.
pub open spec fn discovered_record(old: ServerRecordView, tools: Seq<ToolRecordView>, at: Timestamp) -> ServerRecordView {
    ServerRecordView { tools, updated_at: at, ..old }
}

/// The snapshot of a discovery on `old` that found `tools`.
pub open spec fn is_snapshot_of(
    snap: DiscoverySnapshotView,
    server_id: Seq<char>,
    old: ServerRecordView,
    tools: Seq<ToolRecordView>,
) -> bool {
    &&& is_generated_id(snap.id, "disc_"@)
    &&& snap.server_id == server_id
    &&& snap.server_version == old.version
    &&& snap.tools_count == tools.len()
    &&& snap.tools == tools
    &&& snap.diff == tool_diff(tool_names(old.tools), tool_names(tools))
    &&& snap.status == "completed"@
}

/// The text of the error for a tool name that the server has not
/// discovered.
pub open spec fn undiscovered_message(tool: Seq<char>, server_id: Seq<char>) -> Seq<char> {
    "Tool '"@ + tool + "' not discovered on server '"@ + server_id + "'"@
}

/// `e` approves `tool` of `server_id` in `environment` for `agents`, at
/// medium risk, active, with a fresh `allow_` id.
pub open spec fn is_entry_for(
    e: AllowlistEntryView,
    server_id: Seq<char>,
    tool: Seq<char>,
    environment: Seq<char>,
    agents: Seq<Seq<char>>,
    reason: Seq<char>,
) -> bool {
    &&& is_generated_id(e.id, "allow_"@)
    &&& e.server_id == server_id
    &&& e.tool_name == tool
    &&& e.environment == environment
    &&& e.agents == agents
    &&& e.risk == RiskLevel::Medium
    &&& e.policy_labels == Seq::<Seq<char>>::empty()
    &&& e.status == "active"@
    &&& e.reason == reason
}

/// A record after its allow-list is set to `names` at `at`: the first tool
/// of each name marked allowed.
pub open spec fn allowlisted_record(old: ServerRecordView, names: Seq<Seq<char>>, at: Timestamp) -> ServerRecordView {
    ServerRecordView {
        tools: allow_named(old.tools, names),
        allowlist: names,
        updated_at: at,
        ..old
    }
}

/// The name that the status filter matches against: the status in lower
/// case.
pub open spec fn status_name(s: ServerStatus) -> Seq<char> {
    match s {
        ServerStatus::Active => "active"@,
        ServerStatus::Disabled => "disabled"@,
        ServerStatus::Unhealthy => "unhealthy"@,
        ServerStatus::Unknown => "unknown"@,
    }
}

/// The name of one status contains the name of another only when they are
/// the same status.
pub proof fn lemma_status_name_contains(status: ServerStatus, wanted: ServerStatus)
    ensures
        contains_text(status_name(status), status_name(wanted)) <==> status == wanted,
{
    reveal_strlit("active");
    reveal_strlit("disabled");
    reveal_strlit("unhealthy");
    reveal_strlit("unknown");
    let hay = status_name(status);
    let needle = status_name(wanted);
    if status == wanted {
        assert(hay.subrange(0, hay.len() as int) =~= hay);
        assert(occurs_at(hay, needle, 0));
    } else {
        assert forall|i: int| !#[trigger] occurs_at(hay, needle, i) by {
            if occurs_at(hay, needle, i) {
                let w = hay.subrange(i, i + needle.len());
                assert(w[0] == hay[i] && w[0] == needle[0]);
                assert(w[1] == hay[i + 1] && w[1] == needle[1]);
                assert(w[2] == hay[i + 2] && w[2] == needle[2]);
            }
        }
    }
}

/// The characters of an optional string slice.
pub open spec fn opt_str(o: Option<&str>) -> Option<Seq<char>> {
    match o {
        Some(s) => Some(s@),
        None => None,
    }
}

/// Whether a server passes the list filters: the same environment, domain
/// and owner as given, and a status whose name contains the given text;
/// a filter that is not given passes every server.
pub open spec fn passes_filters(
    r: ServerRecordView,
    environment: Option<Seq<char>>,
    status: Option<Seq<char>>,
    domain: Option<Seq<char>>,
    owner: Option<Seq<char>>,
) -> bool {
    &&& (environment is Some ==> r.environment == environment->0)
    &&& (status is Some ==> contains_text(status_name(r.status), status->0))
    &&& (domain is Some ==> r.domain == domain->0)
    &&& (owner is Some ==> r.owner == owner->0)
}

/// `out` lists each server of `servers` that passes the filters, once, and
/// nothing else.
pub open spec fn lists_exactly(
    servers: Map<Seq<char>, ServerRecordView>,
    out: Seq<ServerRecordView>,
    environment: Option<Seq<char>>,
    status: Option<Seq<char>>,
    domain: Option<Seq<char>>,
    owner: Option<Seq<char>>,
) -> bool {
    &&& distinct_ids(out)
    &&& forall|i: int|
        0 <= i < out.len() ==> {
            &&& servers.contains_key(#[trigger] out[i].id)
            &&& servers[out[i].id] == out[i]
            &&& passes_filters(out[i], environment, status, domain, owner)
        }
    &&& forall|k: Seq<char>|
        #[trigger] servers.contains_key(k) && passes_filters(servers[k], environment, status, domain, owner)
            ==> has_id(out, k)
}

/// The servers named in `order` that pass the filters, in that order.
pub open spec fn listing(
    order: Seq<Seq<char>>,
    servers: Map<Seq<char>, ServerRecordView>,
    environment: Option<Seq<char>>,
    status: Option<Seq<char>>,
    domain: Option<Seq<char>>,
    owner: Option<Seq<char>>,
) -> Seq<ServerRecordView>
    decreases order.len(),
{
    if order.len() == 0 {
        Seq::empty()
    } else {
        let rest = listing(order.drop_last(), servers, environment, status, domain, owner);
        let r = servers[order.last()];
        if passes_filters(r, environment, status, domain, owner) {
            rest.push(r)
        } else {
            rest
        }
    }
}

/// What an inventory export reports.
pub struct InventoryView {
    pub servers: usize,
    pub servers_list: Seq<ServerRecordView>,
    pub discovery_snapshots: usize,
    pub allowlist_entries: usize,
    pub audit_events: usize,
    pub exported_at: Timestamp,
}

/// `v` reports the inventory of `s`: every server in the order they are
/// kept, and the sizes of the three logs; only the time of the export is
/// left free.
pub open spec fn is_export_of(s: RegistryState, v: InventoryView) -> bool {
    &&& v.servers_list == listing(s.order, s.servers, None, None, None, None)
    &&& v.servers == v.servers_list.len()
    &&& v.servers == s.servers.len()
    &&& v.discovery_snapshots == s.snapshots.len()
    &&& v.allowlist_entries == s.allowlist.len()
    &&& v.audit_events == s.audit_log.len()
}

/// What one call did to the registry, as far as the history of the
/// registry counts it.
pub struct CallEffect {
    /// The id that a registration wrote, when the call was a registration.
    pub registered: Option<Seq<char>>,
    /// The id whose definition a successful update raised to its next
    /// version.
    pub updated: Option<Seq<char>>,
    pub snapshots_added: nat,
    pub entries_added: nat,
    pub events_added: nat,
}

/// The effect of a call that changed nothing: a read, or a rejected
/// request.
pub open spec fn no_effect() -> CallEffect {
    CallEffect { registered: None, updated: None, snapshots_added: 0, entries_added: 0, events_added: 0 }
}

/// The effect of a registration of `id`.
pub open spec fn registration_effect(id: Seq<char>) -> CallEffect {
    CallEffect { registered: Some(id), updated: None, snapshots_added: 0, entries_added: 0, events_added: 1 }
}

/// The effect of a change to a registered server: when it succeeded, the
/// given version raise and log entries and one audit event; when it was
/// rejected, nothing.
pub open spec fn change_effect(ok: bool, updated: Option<Seq<char>>, snapshots: nat, entries: nat) -> CallEffect {
    if ok {
        CallEffect { registered: None, updated, snapshots_added: snapshots, entries_added: entries, events_added: 1 }
    } else {
        no_effect()
    }
}

/// Going from `old` to `new` had effect `e`: the logs grew by its counts,
/// only a registration added a server, a registered server starts at
/// version 1, and a version rose by one exactly where an update succeeded.
pub open spec fn has_effect(old: RegistryState, new: RegistryState, e: CallEffect) -> bool {
    &&& new.snapshots.len() == old.snapshots.len() + e.snapshots_added
    &&& new.allowlist.len() == old.allowlist.len() + e.entries_added
    &&& new.audit_log.len() == old.audit_log.len() + e.events_added
    &&& forall|k: Seq<char>|
        #[trigger] new.servers.contains_key(k) <==> (old.servers.contains_key(k) || e.registered == Some(k))
    &&& (e.updated is Some ==> old.servers.contains_key(e.updated->0))
    &&& forall|k: Seq<char>|
        #[trigger] new.servers.contains_key(k) && e.registered != Some(k) ==> new.servers[k].version
            == old.servers[k].version + (if e.updated == Some(k) {
            1int
        } else {
            0int
        })
    &&& (e.registered is Some ==> new.servers[e.registered->0].version == 1)
}

} // verus!
