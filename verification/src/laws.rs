//! Properties of the registry that hold across its operations.

use vstd::prelude::*;
use crate::inputs::{ToolInput, is_tool_from, risk_from};
use crate::state::RegistryState;
use crate::transitions::{
    CallEffect, InventoryView, has_effect, is_export_of, no_effect,
    allowlisted_record, disabled_record, discovered_record, lemma_status_name_contains, logged,
    restarted_record, status_name, tested_record, updated_record, is_snapshot_of, listing,
    lists_exactly, passes_filters, registered_record, test_report, is_entry_for,
};
use crate::state::has_id;
use crate::text::{contains_text, first_chars, occurs_at, server_id_from, server_id_spec};
use crate::tools::{first_unknown, lemma_names_not_in, names_not_in, tool_names};
use crate::types::{
    AllowlistEntryView, AuditDetails, AuditEventView, DiscoverySnapshotView, HealthState,
    ParameterSchema, RiskLevel, opt_text, ServerRecordView, ServerStatus, Timestamp,
    ToolRecordView, Transport,
};

verus! {

/// Read after write: right after a registration the server is found under
/// the id the registration returned, with the record it returned, and every
/// other server is as it was.
pub proof fn law_registered_server_is_found(before: RegistryState, after: RegistryState, r: ServerRecordView)
    requires
        after.servers == before.servers.insert(r.id, r),
    ensures
        after.servers.contains_key(r.id),
        after.servers[r.id] == r,
        forall|k: Seq<char>|
            k != r.id ==> (#[trigger] after.servers.contains_key(k) == before.servers.contains_key(k)) && (
            before.servers.contains_key(k) ==> after.servers[k] == before.servers[k]),
{
}

/// Registering the same name in the same environment again replaces the
/// earlier record: the registry keeps one record for the pair, the later
/// one.
pub proof fn law_reregistration_replaces(
    servers: Map<Seq<char>, ServerRecordView>,
    name: Seq<char>,
    environment: Seq<char>,
    first: ServerRecordView,
    second: ServerRecordView,
)
    requires
        first.id == server_id_spec(name, environment),
        second.id == server_id_spec(name, environment),
    ensures
        servers.insert(first.id, first).insert(second.id, second) == servers.insert(second.id, second),
{
    assert(servers.insert(first.id, first).insert(second.id, second) =~= servers.insert(second.id, second));
}

/// Environment isolation: the same server name registered in two
/// environments whose first three characters differ gets two different ids,
/// so neither registration replaces the other.
pub proof fn law_environments_get_distinct_ids(name: Seq<char>, env1: Seq<char>, env2: Seq<char>)
    requires
        first_chars(env1, 3) != first_chars(env2, 3),
    ensures
        server_id_spec(name, env1) != server_id_spec(name, env2),
{
    let lowered = crate::outside::lowercase(crate::text::underscore_separators(name));
    let p = "mcp_"@ + lowered + "_"@;
    let f1 = first_chars(env1, 3);
    let f2 = first_chars(env2, 3);
    assert(server_id_from(lowered, env1) == p + f1);
    assert(server_id_from(lowered, env2) == p + f2);
    if p + f1 == p + f2 {
        assert((p + f1).subrange(p.len() as int, (p + f1).len() as int) =~= f1);
        assert((p + f2).subrange(p.len() as int, (p + f2).len() as int) =~= f2);
    }
}

/// Filtering by the full name of a status lists exactly the servers with
/// that status.
pub proof fn law_status_filter_by_name(status: ServerStatus, wanted: ServerStatus)
    ensures
        contains_text(status_name(status), status_name(wanted)) <==> status == wanted,
{
    lemma_status_name_contains(status, wanted);
}

/// Filtering by the empty status text lists every server.
pub proof fn law_empty_status_filter_passes(status: ServerStatus)
    ensures
        contains_text(status_name(status), Seq::<char>::empty()),
{
    assert(status_name(status).subrange(0, 0) =~= Seq::<char>::empty());
    assert(occurs_at(status_name(status), Seq::<char>::empty(), 0));
}

/// Versioned definitions: an update makes the next version of a definition
/// and keeps its identity and creation time.
pub proof fn law_update_bumps_version(
    old: ServerRecordView,
    command: Option<Seq<char>>,
    url: Option<Seq<char>>,
    transport: Option<Transport>,
    environment: Option<Seq<char>>,
    owner: Option<Seq<char>>,
    policy_labels: Option<Seq<Seq<char>>>,
    credential_bindings: Option<Seq<Seq<char>>>,
    at: Timestamp,
)
    requires
        old.version < u32::MAX,
    ensures
        ({
            let new = updated_record(
                old,
                command,
                url,
                transport,
                environment,
                owner,
                policy_labels,
                credential_bindings,
                at,
            );
            &&& new.version == old.version + 1
            &&& new.id == old.id
            &&& new.created_at == old.created_at
            &&& new.tools == old.tools
            &&& new.allowlist == old.allowlist
        }),
{
}

/// Only an update changes the version of a definition: discovery,
/// allow-listing, testing,
/// restarting and disabling keep it, together with the id and the creation
/// time.
pub proof fn law_other_operations_keep_version(
    old: ServerRecordView,
    tools: Seq<ToolRecordView>,
    names: Seq<Seq<char>>,
    at: Timestamp,
    checked: Timestamp,
)
    ensures
        discovered_record(old, tools, at).version == old.version,
        allowlisted_record(old, names, at).version == old.version,
        tested_record(old, checked).version == old.version,
        restarted_record(old, checked, at).version == old.version,
        disabled_record(old, at).version == old.version,
        discovered_record(old, tools, at).id == old.id,
        allowlisted_record(old, names, at).id == old.id,
        tested_record(old, checked).id == old.id,
        restarted_record(old, checked, at).id == old.id,
        disabled_record(old, at).id == old.id,
        discovered_record(old, tools, at).created_at == old.created_at,
        allowlisted_record(old, names, at).created_at == old.created_at,
        tested_record(old, checked).created_at == old.created_at,
        restarted_record(old, checked, at).created_at == old.created_at,
        disabled_record(old, at).created_at == old.created_at,
{
}

/// Discovery is not exposure: after tools are discovered from their
/// definitions, none of them is allowed and the allow-list is unchanged.
pub proof fn law_discovery_exposes_nothing(
    old: ServerRecordView,
    inputs: Seq<ToolInput>,
    tools: Seq<ToolRecordView>,
    at: Timestamp,
)
    requires
        tools.len() == inputs.len(),
        forall|i: int| 0 <= i < inputs.len() ==> is_tool_from(#[trigger] tools[i], inputs[i]),
    ensures
        forall|i: int|
            0 <= i < discovered_record(old, tools, at).tools.len() ==> !(#[trigger] discovered_record(
                old,
                tools,
                at,
            ).tools[i]).allowed,
        discovered_record(old, tools, at).allowlist == old.allowlist,
{
    assert forall|i: int| 0 <= i < discovered_record(old, tools, at).tools.len() implies !(
    #[trigger] discovered_record(old, tools, at).tools[i]).allowed by {
        assert(is_tool_from(tools[i], inputs[i]));
    }
}

/// Explicit allow-listing is the only exposure: after an allow-list is set,
/// a tool is allowed only if it was before or its name is on the list, and
/// when every listed name was discovered, each of them has an allowed tool.
pub proof fn law_allowlist_exposes_named_tools(old: ServerRecordView, names: Seq<Seq<char>>, at: Timestamp)
    ensures
        ({
            let new = allowlisted_record(old, names, at);
            &&& new.allowlist == names
            &&& new.tools.len() == old.tools.len()
            &&& forall|j: int|
                0 <= j < new.tools.len() && (#[trigger] new.tools[j]).allowed ==> old.tools[j].allowed
                    || names.contains(old.tools[j].name)
            &&& first_unknown(names, tool_names(old.tools)) == names.len() ==> forall|k: int|
                0 <= k < names.len() ==> exists|j: int|
                    0 <= j < new.tools.len() && (#[trigger] new.tools[j]).name == #[trigger] names[k]
                        && new.tools[j].allowed
        }),
{
    let new = allowlisted_record(old, names, at);
    let known = tool_names(old.tools);
    if first_unknown(names, known) == names.len() {
        let f = first_unknown(names, known);
        assert(crate::tools::is_first_unknown(names, known, f)) by {
            crate::tools::lemma_first_unknown_exists(names, known);
        }
        assert forall|k: int| 0 <= k < names.len() implies exists|j: int|
            0 <= j < new.tools.len() && (#[trigger] new.tools[j]).name == #[trigger] names[k]
                && new.tools[j].allowed by {
            assert(known.contains(names[k]));
            let j0 = choose|j: int| 0 <= j < known.len() && known[j] == names[k];
            let j = crate::tools::first_with_name(old.tools, j0);
            crate::tools::lemma_first_with_name(old.tools, j0);
            assert(old.tools[j0].name == known[j0]);
            assert(names.contains(old.tools[j].name)) by {
                assert(names[k] == old.tools[j].name);
            }
            assert(new.tools[j].name == names[k]);
            assert(new.tools[j].allowed);
        }
    }
}

/// Disabling keeps history: the definition, its tools, its allow-list and
/// its version stay; only the status, the health state and the update time
/// change.
pub proof fn law_disable_keeps_history(old: ServerRecordView, at: Timestamp)
    ensures
        ({
            let new = disabled_record(old, at);
            &&& new.status == ServerStatus::Disabled
            &&& new.health.state == HealthState::Disabled
            &&& new == (ServerRecordView {
                status: ServerStatus::Disabled,
                health: new.health,
                updated_at: at,
                ..old
            })
            &&& new.health.checked_at == old.health.checked_at
            &&& new.health.message == old.health.message
        }),
{
}

/// The audit trail only grows: an action appends one event and leaves the
/// earlier ones as they were.
pub proof fn law_audit_trail_is_append_only(
    old: Seq<AuditEventView>,
    new: Seq<AuditEventView>,
    server_id: Seq<char>,
    action: Seq<char>,
    actor: Seq<char>,
    details: AuditDetails,
)
    requires
        logged(old, new, server_id, action, actor, details),
    ensures
        new.len() == old.len() + 1,
        forall|i: int| 0 <= i < old.len() ==> #[trigger] new[i] == old[i],
        new[old.len() as int].action == action,
{
    assert forall|i: int| 0 <= i < old.len() implies #[trigger] new[i] == old[i] by {
        assert(new.subrange(0, old.len() as int)[i] == new[i]);
    }
}

/// Two exports of the same registry agree on everything but the time of
/// export: the same servers in the same order and the same log sizes.
/// Exporting takes the registry by shared reference, so it writes no audit
/// event.
pub proof fn law_exports_agree(s: RegistryState, a: InventoryView, b: InventoryView)
    requires
        is_export_of(s, a),
        is_export_of(s, b),
    ensures
        a.servers_list == b.servers_list,
        a.servers == b.servers,
        a.discovery_snapshots == b.discovery_snapshots,
        a.allowlist_entries == b.allowlist_entries,
        a.audit_events == b.audit_events,
{
}

/// A read leaves the registry as it was, which is the effect of a call
/// that changes nothing.
pub proof fn law_reads_have_no_effect(s: RegistryState)
    ensures
        has_effect(s, s, no_effect()),
{
}

/// How many snapshots the calls added.
pub open spec fn total_snapshots(effects: Seq<CallEffect>) -> nat
    decreases effects.len(),
{
    if effects.len() == 0 {
        0
    } else {
        total_snapshots(effects.drop_last()) + effects.last().snapshots_added
    }
}

/// How many allow-list entries the calls added.
pub open spec fn total_entries(effects: Seq<CallEffect>) -> nat
    decreases effects.len(),
{
    if effects.len() == 0 {
        0
    } else {
        total_entries(effects.drop_last()) + effects.last().entries_added
    }
}

/// How many audit events the calls added.
pub open spec fn total_events(effects: Seq<CallEffect>) -> nat
    decreases effects.len(),
{
    if effects.len() == 0 {
        0
    } else {
        total_events(effects.drop_last()) + effects.last().events_added
    }
}

/// How many of the calls were successful updates of `id`.
pub open spec fn updates_of(effects: Seq<CallEffect>, id: Seq<char>) -> nat
    decreases effects.len(),
{
    if effects.len() == 0 {
        0
    } else {
        updates_of(effects.drop_last(), id) + if effects.last().updated == Some(id) {
            1nat
        } else {
            0nat
        }
    }
}

/// Some call registered `id`.
pub open spec fn registered_in(effects: Seq<CallEffect>, id: Seq<char>) -> bool {
    exists|i: int| 0 <= i < effects.len() && #[trigger] effects[i].registered == Some(id)
}

/// `trace` is a history of registry states, each reached from the one
/// before by a call with the matching effect.
pub open spec fn is_history(trace: Seq<RegistryState>, effects: Seq<CallEffect>) -> bool {
    &&& trace.len() == effects.len() + 1
    &&& forall|i: int| 0 <= i < effects.len() ==> has_effect(trace[i], trace[i + 1], #[trigger] effects[i])
}

/// A history with its last call cut off is a history.
proof fn lemma_history_prefix(trace: Seq<RegistryState>, effects: Seq<CallEffect>)
    requires
        is_history(trace, effects),
        effects.len() > 0,
    ensures
        is_history(trace.drop_last(), effects.drop_last()),
{
    let t = trace.drop_last();
    let e = effects.drop_last();
    assert forall|i: int| 0 <= i < e.len() implies has_effect(t[i], t[i + 1], #[trigger] e[i]) by {
        assert(effects[i] == e[i]);
    }
}

/// The audit trail counts the calls: over any history, each log grows by
/// exactly what the calls added, and the registered servers are those there
/// at the start and those that some call registered.
pub proof fn law_history_counts(trace: Seq<RegistryState>, effects: Seq<CallEffect>)
    requires
        is_history(trace, effects),
    ensures
        trace.last().snapshots.len() == trace[0].snapshots.len() + total_snapshots(effects),
        trace.last().allowlist.len() == trace[0].allowlist.len() + total_entries(effects),
        trace.last().audit_log.len() == trace[0].audit_log.len() + total_events(effects),
        forall|k: Seq<char>|
            #[trigger] trace.last().servers.contains_key(k) <==> (trace[0].servers.contains_key(k)
                || registered_in(effects, k)),
    decreases effects.len(),
{
    let n = effects.len();
    if n > 0 {
        lemma_history_prefix(trace, effects);
        law_history_counts(trace.drop_last(), effects.drop_last());
        let prev = trace[n - 1];
        assert(trace.drop_last().last() == prev);
        assert(has_effect(prev, trace[n as int], effects[n - 1]));
        assert forall|k: Seq<char>|
            #[trigger] trace.last().servers.contains_key(k) <==> (trace[0].servers.contains_key(k)
                || registered_in(effects, k)) by {
            if registered_in(effects.drop_last(), k) {
                let i = choose|i: int| 0 <= i < n - 1 && #[trigger] effects.drop_last()[i].registered == Some(k);
                assert(effects[i].registered == Some(k));
            }
            if registered_in(effects, k) {
                let i = choose|i: int| 0 <= i < n && #[trigger] effects[i].registered == Some(k);
                if i < n - 1 {
                    assert(effects.drop_last()[i].registered == Some(k));
                }
            }
        }
    }
}

/// Versioned definitions: over any history in which `id` is not
/// registered again, its version rises by exactly the number of successful
/// updates of it.
pub proof fn law_version_counts_updates(trace: Seq<RegistryState>, effects: Seq<CallEffect>, id: Seq<char>)
    requires
        is_history(trace, effects),
        trace[0].servers.contains_key(id),
        forall|i: int| 0 <= i < effects.len() ==> #[trigger] effects[i].registered != Some(id),
    ensures
        trace.last().servers.contains_key(id),
        trace.last().servers[id].version == trace[0].servers[id].version + updates_of(effects, id),
    decreases effects.len(),
{
    let n = effects.len();
    if n > 0 {
        lemma_history_prefix(trace, effects);
        assert forall|i: int| 0 <= i < n - 1 implies #[trigger] effects.drop_last()[i].registered != Some(id) by {
            assert(effects[i].registered != Some(id));
        }
        law_version_counts_updates(trace.drop_last(), effects.drop_last(), id);
        let prev = trace[n - 1];
        assert(trace.drop_last().last() == prev);
        assert(has_effect(prev, trace[n as int], effects[n - 1]));
        assert(effects[n - 1].registered != Some(id));
        assert(trace.last().servers.contains_key(id));
    }
}

/// A server's version is one more than the number of successful updates
/// since it was last registered.
pub proof fn law_version_since_registration(
    trace: Seq<RegistryState>,
    effects: Seq<CallEffect>,
    id: Seq<char>,
    j: int,
)
    requires
        is_history(trace, effects),
        0 <= j < effects.len(),
        effects[j].registered == Some(id),
        forall|i: int| j < i < effects.len() ==> #[trigger] effects[i].registered != Some(id),
    ensures
        trace.last().servers.contains_key(id),
        trace.last().servers[id].version == 1 + updates_of(effects.subrange(j + 1, effects.len() as int), id),
{
    assert(has_effect(trace[j], trace[j + 1], effects[j]));
    let t = trace.subrange(j + 1, trace.len() as int);
    let e = effects.subrange(j + 1, effects.len() as int);
    assert forall|i: int| 0 <= i < e.len() implies has_effect(t[i], t[i + 1], #[trigger] e[i]) by {
        assert(t[i] == trace[j + 1 + i]);
        assert(t[i + 1] == trace[j + 2 + i]);
        assert(e[i] == effects[j + 1 + i]);
    }
    assert forall|i: int| 0 <= i < e.len() implies #[trigger] e[i].registered != Some(id) by {
        assert(e[i] == effects[j + 1 + i]);
    }
    assert(t[0] == trace[j + 1]);
    law_version_counts_updates(t, e, id);
    assert(t.last() == trace.last());
}

/// The inventory counts the history: exporting a registry that started
/// empty reports as many snapshots, allow-list entries and audit events as
/// the calls added, and as many servers as distinct ids were registered.
pub proof fn law_inventory_counts_history(
    trace: Seq<RegistryState>,
    effects: Seq<CallEffect>,
    v: InventoryView,
)
    requires
        is_history(trace, effects),
        trace[0].servers == Map::<Seq<char>, ServerRecordView>::empty(),
        trace[0].snapshots.len() == 0,
        trace[0].allowlist.len() == 0,
        trace[0].audit_log.len() == 0,
        is_export_of(trace.last(), v),
    ensures
        v.discovery_snapshots == total_snapshots(effects),
        v.allowlist_entries == total_entries(effects),
        v.audit_events == total_events(effects),
        v.servers == trace.last().servers.len(),
        trace.last().servers.dom() == Set::new(|k: Seq<char>| registered_in(effects, k)),
{
    law_history_counts(trace, effects);
    assert(trace.last().servers.dom() =~= Set::new(|k: Seq<char>| registered_in(effects, k)));
}

/// A discovery reports every change of tool names: a name that the
/// previous discovery had and this one lacks is among the removed tools, a
/// name that this one has and the previous one lacked is among the added
/// tools, and the diff is absent exactly when both discoveries have the
/// same names.
pub proof fn law_discovery_diff_reports_changes(
    snap: DiscoverySnapshotView,
    server_id: Seq<char>,
    old: ServerRecordView,
    tools: Seq<ToolRecordView>,
)
    requires
        is_snapshot_of(snap, server_id, old, tools),
    ensures
        forall|n: Seq<char>|
            #![trigger tool_names(old.tools).contains(n), tool_names(tools).contains(n)]
            tool_names(old.tools).contains(n) && !tool_names(tools).contains(n) ==> snap.diff is Some
                && snap.diff->0.removed_tools.contains(n),
        forall|n: Seq<char>|
            #![trigger tool_names(old.tools).contains(n), tool_names(tools).contains(n)]
            tool_names(tools).contains(n) && !tool_names(old.tools).contains(n) ==> snap.diff is Some
                && snap.diff->0.added_tools.contains(n),
        snap.diff is None <==> forall|n: Seq<char>|
            #![trigger tool_names(old.tools).contains(n), tool_names(tools).contains(n)]
            tool_names(old.tools).contains(n) <==> tool_names(tools).contains(n),
        snap.diff is Some ==> snap.diff->0.changed_tools.len() == 0,
{
    let prev = tool_names(old.tools);
    let next = tool_names(tools);
    lemma_names_not_in(next, prev);
    lemma_names_not_in(prev, next);
    let added = names_not_in(next, prev);
    let removed = names_not_in(prev, next);
    assert forall|n: Seq<char>|
        #![trigger prev.contains(n), next.contains(n)]
        prev.contains(n) && !next.contains(n) implies snap.diff is Some && snap.diff->0.removed_tools.contains(n) by {
        assert(removed.contains(n));
        let i = choose|i: int| 0 <= i < removed.len() && removed[i] == n;
        assert(removed.len() > 0);
    }
    assert forall|n: Seq<char>|
        #![trigger prev.contains(n), next.contains(n)]
        next.contains(n) && !prev.contains(n) implies snap.diff is Some && snap.diff->0.added_tools.contains(n) by {
        assert(added.contains(n));
        let i = choose|i: int| 0 <= i < added.len() && added[i] == n;
        assert(added.len() > 0);
    }
    if snap.diff is Some {
        if added.len() > 0 {
            assert(added.contains(added[0]));
            assert(next.contains(added[0]) && !prev.contains(added[0]));
        } else {
            assert(removed.contains(removed[0]));
            assert(prev.contains(removed[0]) && !next.contains(removed[0]));
        }
    } else {
        assert forall|n: Seq<char>|
            #![trigger prev.contains(n), next.contains(n)]
            prev.contains(n) <==> next.contains(n) by {
            if prev.contains(n) && !next.contains(n) {
                assert(removed.contains(n));
                let i = choose|i: int| 0 <= i < removed.len() && removed[i] == n;
            }
            if next.contains(n) && !prev.contains(n) {
                assert(added.contains(n));
                let i = choose|i: int| 0 <= i < added.len() && added[i] == n;
            }
        }
    }
}

/// Every server of a listing passes the list filters.
proof fn lemma_listing_passes(
    order: Seq<Seq<char>>,
    servers: Map<Seq<char>, ServerRecordView>,
    environment: Option<Seq<char>>,
    status: Option<Seq<char>>,
    domain: Option<Seq<char>>,
    owner: Option<Seq<char>>,
)
    ensures
        forall|i: int|
            0 <= i < listing(order, servers, environment, status, domain, owner).len() ==> passes_filters(
                #[trigger] listing(order, servers, environment, status, domain, owner)[i],
                environment,
                status,
                domain,
                owner,
            ),
    decreases order.len(),
{
    if order.len() > 0 {
        lemma_listing_passes(order.drop_last(), servers, environment, status, domain, owner);
        let rest = listing(order.drop_last(), servers, environment, status, domain, owner);
        let all = listing(order, servers, environment, status, domain, owner);
        assert forall|i: int| 0 <= i < all.len() implies passes_filters(
            #[trigger] all[i],
            environment,
            status,
            domain,
            owner,
        ) by {
            if i < rest.len() {
                assert(all[i] == rest[i]);
            }
        }
    }
}

/// A listing keeps only the servers that match every given filter: the
/// given environment, domain and owner exactly, and a status whose name
/// contains the given text.
pub proof fn law_listed_servers_match_filters(
    order: Seq<Seq<char>>,
    servers: Map<Seq<char>, ServerRecordView>,
    environment: Option<Seq<char>>,
    status: Option<Seq<char>>,
    domain: Option<Seq<char>>,
    owner: Option<Seq<char>>,
)
    ensures
        forall|i: int| 0 <= i < listing(order, servers, environment, status, domain, owner).len() ==> {
            let r = #[trigger] listing(order, servers, environment, status, domain, owner)[i];
            &&& (owner is Some ==> r.owner == owner->0)
            &&& (environment is Some ==> r.environment == environment->0)
            &&& (domain is Some ==> r.domain == domain->0)
            &&& (status is Some ==> contains_text(status_name(r.status), status->0))
        },
{
    lemma_listing_passes(order, servers, environment, status, domain, owner);
}

/// Listing by owner alone lists exactly the servers of that owner.
pub proof fn law_owner_filter_lists_exactly_that_owner(
    servers: Map<Seq<char>, ServerRecordView>,
    out: Seq<ServerRecordView>,
    owner: Seq<char>,
)
    requires
        lists_exactly(servers, out, None, None, None, Some(owner)),
    ensures
        forall|i: int| 0 <= i < out.len() ==> (#[trigger] out[i]).owner == owner,
        forall|k: Seq<char>|
            #[trigger] servers.contains_key(k) ==> (servers[k].owner == owner <==> has_id(out, k)),
{
    assert forall|i: int| 0 <= i < out.len() implies (#[trigger] out[i]).owner == owner by {
        assert(servers.contains_key(out[i].id));
    }
    assert forall|k: Seq<char>|
        #[trigger] servers.contains_key(k) implies (servers[k].owner == owner <==> has_id(out, k)) by {
        if has_id(out, k) {
            let i = choose|i: int| 0 <= i < out.len() && #[trigger] out[i].id == k;
            assert(servers.contains_key(out[i].id));
        }
    }
}

/// An update replaces exactly the fields it is given: each given field
/// takes the given value, each field not given keeps its value, and the
/// rest of the definition stays, with the version one higher.
pub proof fn law_update_replaces_given_fields(
    old: ServerRecordView,
    command: Option<Seq<char>>,
    url: Option<Seq<char>>,
    transport: Option<Transport>,
    environment: Option<Seq<char>>,
    owner: Option<Seq<char>>,
    policy_labels: Option<Seq<Seq<char>>>,
    credential_bindings: Option<Seq<Seq<char>>>,
    at: Timestamp,
    new: ServerRecordView,
)
    requires
        old.version < u32::MAX,
        new == updated_record(
            old,
            command,
            url,
            transport,
            environment,
            owner,
            policy_labels,
            credential_bindings,
            at,
        ),
    ensures
        command is Some ==> new.command == command,
        command is None ==> new.command == old.command,
        url is Some ==> new.url == url,
        url is None ==> new.url == old.url,
        transport is Some ==> new.transport == transport->0,
        transport is None ==> new.transport == old.transport,
        environment is Some ==> new.environment == environment->0,
        environment is None ==> new.environment == old.environment,
        owner is Some ==> new.owner == owner->0,
        owner is None ==> new.owner == old.owner,
        policy_labels is Some ==> new.policy_labels == policy_labels->0,
        policy_labels is None ==> new.policy_labels == old.policy_labels,
        credential_bindings is Some ==> new.credential_bindings == credential_bindings->0,
        credential_bindings is None ==> new.credential_bindings == old.credential_bindings,
        new.id == old.id,
        new.name == old.name,
        new.description == old.description,
        new.domain == old.domain,
        new.tags == old.tags,
        new.tools == old.tools,
        new.allowlist == old.allowlist,
        new.status == old.status,
        new.health == old.health,
        new.created_at == old.created_at,
        new.version == old.version + 1,
        new.updated_at == at,
{
}

/// A connectivity test reaches a server exactly when it has a command or a
/// URL: then the test reports no error and the server turns healthy; a
/// server with neither reports the missing endpoint and its health becomes
/// unknown.
pub proof fn law_test_reaches_configured_endpoints(r: ServerRecordView, at: Timestamp, checked: Timestamp)
    ensures
        test_report(r, at).connectivity <==> (r.command is Some || r.url is Some),
        r.url is Some ==> test_report(r, at).connectivity && test_report(r, at).errors.len() == 0,
        r.command is Some ==> test_report(r, at).connectivity && test_report(r, at).errors.len() == 0,
        (r.command is Some || r.url is Some) ==> tested_record(r, checked).health.state == HealthState::Healthy
            && tested_record(r, checked).health.message == Some("Passed"@),
        (r.command is None && r.url is None) ==> test_report(r, at).errors == seq!["No command or URL configured"@]
            && tested_record(r, checked).health.state == HealthState::Unknown
            && tested_record(r, checked).health.message == Some("No endpoint"@),
        test_report(r, at).tools_listed <==> r.tools.len() > 0,
        test_report(r, at).schema_valid,
        test_report(r, at).latency_ms == 45,
        tested_record(r, checked).health.latency_ms == Some(45u64),
        test_report(r, at).server_id == r.id,
        tested_record(r, checked).health.checked_at == Some(checked),
        tested_record(r, checked).updated_at == r.updated_at,
{
}

/// A registration records the definition it is given: every given field
/// is kept as given, and the server starts active at version 1 with no
/// tools, nothing allowed and no probe yet.
pub proof fn law_registration_keeps_given_fields(
    r: ServerRecordView,
    id: Seq<char>,
    name: Seq<char>,
    description: Seq<char>,
    owner: Seq<char>,
    domain: Seq<char>,
    environment: Seq<char>,
    transport: Transport,
    command: Option<Seq<char>>,
    url: Option<Seq<char>>,
    credential_bindings: Seq<Seq<char>>,
    policy_labels: Seq<Seq<char>>,
    tags: Seq<Seq<char>>,
    at: Timestamp,
)
    requires
        r == registered_record(
            id,
            name,
            description,
            owner,
            domain,
            environment,
            transport,
            command,
            url,
            credential_bindings,
            policy_labels,
            tags,
            at,
        ),
    ensures
        r.id == id,
        r.name == name,
        r.description == description,
        r.owner == owner,
        r.domain == domain,
        r.environment == environment,
        r.transport == transport,
        r.command == command,
        r.url == url,
        r.credential_bindings == credential_bindings,
        r.policy_labels == policy_labels,
        r.tags == tags,
        r.status == ServerStatus::Active,
        r.version == 1,
        r.tools.len() == 0,
        r.allowlist.len() == 0,
        r.health.state == HealthState::Unknown,
        r.health.checked_at is None,
        r.created_at == at,
        r.updated_at == at,
{
}

/// A restart brings a server back healthy: checked at the restart, with
/// no latency measured yet and no errors, and its definition unchanged.
pub proof fn law_restart_makes_healthy(r: ServerRecordView, checked: Timestamp, at: Timestamp)
    ensures
        restarted_record(r, checked, at).health.state == HealthState::Healthy,
        restarted_record(r, checked, at).health.checked_at == Some(checked),
        restarted_record(r, checked, at).health.latency_ms is None,
        restarted_record(r, checked, at).health.error_rate_ppm == Some(0u32),
        restarted_record(r, checked, at).health.message == Some("Restarted"@),
        restarted_record(r, checked, at).status == r.status,
        restarted_record(r, checked, at).tools == r.tools,
        restarted_record(r, checked, at).allowlist == r.allowlist,
        restarted_record(r, checked, at).command == r.command,
        restarted_record(r, checked, at).url == r.url,
        restarted_record(r, checked, at).owner == r.owner,
        restarted_record(r, checked, at).environment == r.environment,
        restarted_record(r, checked, at).updated_at == at,
{
}

/// A discovery replaces the tools with the ones found and changes nothing
/// else of the definition but its update time.
pub proof fn law_discovery_replaces_tools(r: ServerRecordView, tools: Seq<ToolRecordView>, at: Timestamp)
    ensures
        discovered_record(r, tools, at).tools == tools,
        discovered_record(r, tools, at).allowlist == r.allowlist,
        discovered_record(r, tools, at).status == r.status,
        discovered_record(r, tools, at).health == r.health,
        discovered_record(r, tools, at).command == r.command,
        discovered_record(r, tools, at).url == r.url,
        discovered_record(r, tools, at).owner == r.owner,
        discovered_record(r, tools, at).credential_bindings == r.credential_bindings,
        discovered_record(r, tools, at).updated_at == at,
{
}

/// The snapshot of a discovery describes it: the server and its version,
/// the tools found and how many, and a completed status.
pub proof fn law_snapshot_describes_discovery(
    snap: DiscoverySnapshotView,
    server_id: Seq<char>,
    old: ServerRecordView,
    tools: Seq<ToolRecordView>,
)
    requires
        is_snapshot_of(snap, server_id, old, tools),
    ensures
        snap.server_id == server_id,
        snap.server_version == old.version,
        snap.tools == tools,
        snap.tools_count == tools.len(),
        snap.status == "completed"@,
        snap.id.subrange(0, 5) == "disc_"@,
{
    reveal_strlit("disc_");
}

/// Setting an allow-list records the names, marks tools allowed only for
/// listed names (the first tool of each), and leaves the rest of the
/// definition as it was.
pub proof fn law_allowlist_records_names(r: ServerRecordView, names: Seq<Seq<char>>, at: Timestamp)
    ensures
        allowlisted_record(r, names, at).allowlist == names,
        allowlisted_record(r, names, at).tools.len() == r.tools.len(),
        forall|j: int|
            0 <= j < r.tools.len() ==> {
                let t = #[trigger] allowlisted_record(r, names, at).tools[j];
                &&& t.name == r.tools[j].name
                &&& t.description == r.tools[j].description
                &&& t.risk_class == r.tools[j].risk_class
                &&& (t.allowed <==> (r.tools[j].allowed || (names.contains(r.tools[j].name)
                    && forall|k: int| 0 <= k < j ==> r.tools[k].name != r.tools[j].name)))
            },
        allowlisted_record(r, names, at).status == r.status,
        allowlisted_record(r, names, at).health == r.health,
        allowlisted_record(r, names, at).command == r.command,
        allowlisted_record(r, names, at).url == r.url,
        allowlisted_record(r, names, at).owner == r.owner,
        allowlisted_record(r, names, at).updated_at == at,
{
}

/// Each allow-list entry records the approval it stands for: which tool of
/// which server, for which environment, agents and reason, at medium risk,
/// active, with no policy labels and a fresh `allow_` id.
pub proof fn law_entry_records_approval(
    e: AllowlistEntryView,
    server_id: Seq<char>,
    tool: Seq<char>,
    environment: Seq<char>,
    agents: Seq<Seq<char>>,
    reason: Seq<char>,
)
    requires
        is_entry_for(e, server_id, tool, environment, agents, reason),
    ensures
        e.server_id == server_id,
        e.tool_name == tool,
        e.environment == environment,
        e.agents == agents,
        e.reason == reason,
        e.risk == RiskLevel::Medium,
        e.status == "active"@,
        e.policy_labels.len() == 0,
        e.id.subrange(0, 6) == "allow_"@,
        e.id.len() == 38,
{
    reveal_strlit("allow_");
}

/// A risk label names its level: `low`, `high` and `critical` their own,
/// and any other label, or none, medium.
pub proof fn law_risk_labels(label: Seq<char>)
    ensures
        risk_from(Some("low"@)) == RiskLevel::Low,
        risk_from(Some("high"@)) == RiskLevel::High,
        risk_from(Some("critical"@)) == RiskLevel::Critical,
        risk_from(None) == RiskLevel::Medium,
        label != "low"@ && label != "high"@ && label != "critical"@ ==> risk_from(Some(label))
            == RiskLevel::Medium,
{
    reveal_strlit("low");
    reveal_strlit("high");
    reveal_strlit("critical");
    assert("low"@.len() == 3 && "high"@.len() == 4 && "critical"@.len() == 8);
    assert("low"@ != "high"@ && "low"@ != "critical"@ && "high"@ != "critical"@);
}

/// A discovered tool keeps the definition it was reported with; a tool
/// reported without a scope reads.
pub proof fn law_discovered_tool_keeps_definition(t: ToolRecordView, input: ToolInput)
    requires
        is_tool_from(t, input),
    ensures
        t.name == input.name@,
        t.description == input.description@,
        input.scope is Some ==> t.scope == input.scope->0@,
        input.scope is None ==> t.scope == "read"@,
        t.side_effect == opt_text(input.side_effect),
        input.risk_class is None ==> t.risk_class == RiskLevel::Medium,
        t.parameters_schema == ParameterSchema::EmptyObject,
        !t.allowed,
{
}

/// A server's id is `mcp_`, its lowercased name with separators turned
/// into `_`, another `_`, and the first three characters of its
/// environment (all of it when shorter).
pub proof fn law_server_id_shape(name: Seq<char>, environment: Seq<char>)
    ensures
        ({
            let id = server_id_spec(name, environment);
            let lowered = crate::outside::lowercase(crate::text::underscore_separators(name));
            let m = lowered.len() as int;
            let tail = if environment.len() <= 3 {
                environment
            } else {
                environment.subrange(0, 3)
            };
            &&& id.subrange(0, 4) == "mcp_"@
            &&& id.len() == 4 + lowered.len() + 1 + tail.len()
            &&& id.subrange(4, 4 + m) == lowered
            &&& id[4 + m] == '_'
            &&& id.subrange(5 + m, id.len() as int) == tail
        }),
{
    reveal_strlit("mcp_");
    reveal_strlit("_");
    let id = server_id_spec(name, environment);
    let lowered = crate::outside::lowercase(crate::text::underscore_separators(name));
    let m = lowered.len() as int;
    let tail = if environment.len() <= 3 {
        environment
    } else {
        environment.subrange(0, 3)
    };
    assert(id == "mcp_"@ + lowered + "_"@ + tail);
    assert(id.subrange(0, 4) =~= "mcp_"@);
    assert(id.subrange(4, 4 + m) =~= lowered);
    assert(id[4 + m] == '_');
    assert(id.subrange(5 + m, id.len() as int) =~= tail);
}

/// Separators become `_`: the name keeps its length, no `-` or space is
/// left, and every other character stays where it was.
pub proof fn law_separators_become_underscores(name: Seq<char>)
    ensures
        crate::text::underscore_separators(name).len() == name.len(),
        forall|i: int|
            0 <= i < name.len() ==> {
                let c = #[trigger] crate::text::underscore_separators(name)[i];
                &&& c != '-' && c != ' '
                &&& (name[i] == '-' || name[i] == ' ' ==> c == '_')
                &&& (name[i] != '-' && name[i] != ' ' ==> c == name[i])
            },
{
}

/// A listing holds exactly the servers that match every given filter: a
/// server is listed if and only if it has the given environment, domain
/// and owner and a status whose name contains the given text.
pub proof fn law_listing_is_complete(
    servers: Map<Seq<char>, ServerRecordView>,
    out: Seq<ServerRecordView>,
    environment: Option<Seq<char>>,
    status: Option<Seq<char>>,
    domain: Option<Seq<char>>,
    owner: Option<Seq<char>>,
)
    requires
        lists_exactly(servers, out, environment, status, domain, owner),
    ensures
        forall|k: Seq<char>|
            #[trigger] servers.contains_key(k) ==> (has_id(out, k) <==> {
                let r = servers[k];
                &&& (environment is Some ==> r.environment == environment->0)
                &&& (status is Some ==> contains_text(status_name(r.status), status->0))
                &&& (domain is Some ==> r.domain == domain->0)
                &&& (owner is Some ==> r.owner == owner->0)
            }),
{
    assert forall|k: Seq<char>| #[trigger] servers.contains_key(k) implies (has_id(out, k) <==> {
        let r = servers[k];
        &&& (environment is Some ==> r.environment == environment->0)
        &&& (status is Some ==> contains_text(status_name(r.status), status->0))
        &&& (domain is Some ==> r.domain == domain->0)
        &&& (owner is Some ==> r.owner == owner->0)
    }) by {
        if has_id(out, k) {
            let i = choose|i: int| 0 <= i < out.len() && #[trigger] out[i].id == k;
            assert(servers.contains_key(out[i].id));
        }
    }
}

} // verus!
