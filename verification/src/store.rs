//! The registry store: servers keyed by id, discovery snapshots,
//! allow-list entries and the audit trail.

use vstd::prelude::*;
use crate::state::{
    RegistryState, distinct_ids, has_id, ids_of, lemma_append_record, lemma_record_at,
    lemma_replace_record, records_by_id,
};
use crate::outside::is_ascii_text;
use crate::text::{
    ascii_server_id, generated_id, same_text, server_id_for, server_id_spec, text_contains,
};
use crate::tools::{
    allow_named, discovery_diff, find_tool, first_unknown, is_first_unknown, lemma_allow_keeps_names,
    lemma_allow_one_more, lemma_first_unknown, names_of,
};
use crate::transitions::{
    TEST_LATENCY_MS, allowlisted_record, discovered_record, disabled_record, is_entry_for,
    InventoryView, change_effect, has_effect, is_export_of, registration_effect, is_snapshot_of, listing, lists_exactly, logged, not_found_message, opt_str, opt_texts,
    passes_filters, registered_record, restarted_record, status_name,
    test_report, tested_record, undiscovered_message, updated_record,
};
use crate::types::{
    AllowlistEntry, AllowlistEntryView, AuditDetails, AuditEvent, AuditEventView,
    DiscoverySnapshot, DiscoverySnapshotView, HealthState, HealthStatus, RiskLevel, ServerRecord,
    ServerRecordView, ServerStatus, TestResult, Timestamp, ToolRecord, ToolRecordView, Transport,
    clone_strings, clone_tools, entry_views, opt_text, server_views, texts, timestamp_now,
    tool_views,
};

verus! {

/// The full inventory of the registry, for audit.
#[derive(Debug)]
pub struct InventorySummary {
    pub servers: usize,
    pub servers_list: Vec<ServerRecord>,
    pub discovery_snapshots: usize,
    pub allowlist_entries: usize,
    pub audit_events: usize,
    pub exported_at: Timestamp,
}

impl View for InventorySummary {
    type V = InventoryView;

    open spec fn view(&self) -> InventoryView {
        InventoryView {
            servers: self.servers,
            servers_list: server_views(self.servers_list@),
            discovery_snapshots: self.discovery_snapshots,
            allowlist_entries: self.allowlist_entries,
            audit_events: self.audit_events,
            exported_at: self.exported_at,
        }
    }
}

/// The registry of MCP servers.
#[derive(Debug)]
pub struct RegistryStore {
    servers: Vec<ServerRecord>,
    snapshots: Vec<DiscoverySnapshot>,
    allowlist: Vec<AllowlistEntry>,
    audit_log: Vec<AuditEvent>,
}

impl View for RegistryStore {
    type V = RegistryState;

    closed spec fn view(&self) -> RegistryState {
        RegistryState {
            servers: records_by_id(server_views(self.servers@)),
            order: ids_of(server_views(self.servers@)),
            snapshots: self.snapshots@.map_values(|s: DiscoverySnapshot| s@),
            allowlist: entry_views(self.allowlist@),
            audit_log: self.audit_log@.map_values(|e: AuditEvent| e@),
        }
    }
}

/// The error for an unknown server id.
fn not_found(server_id: &str) -> (e: String)
    ensures
        e@ == not_found_message(server_id@),
{
    let mut e = String::from_str("Server not found: ");
    e.append(server_id);
    e
}

/// The error for a tool name that the server has not discovered.
fn undiscovered(tool: &String, server_id: &str) -> (e: String)
    ensures
        e@ == undiscovered_message(tool@, server_id@),
{
    let mut e = String::from_str("Tool '");
    e.append(tool.as_str());
    e.append("' not discovered on server '");
    e.append(server_id);
    e.append("'");
    e
}

/// The name of a status in lower case.
fn status_text(s: ServerStatus) -> (r: &'static str)
    ensures
        r@ == status_name(s),
{
    match s {
        ServerStatus::Active => "active",
        ServerStatus::Disabled => "disabled",
        ServerStatus::Unhealthy => "unhealthy",
        ServerStatus::Unknown => "unknown",
    }
}

/// Whether a server passes the list filters.
fn passes(
    rec: &ServerRecord,
    environment: Option<&str>,
    status: Option<&str>,
    domain: Option<&str>,
    owner: Option<&str>,
) -> (b: bool)
    ensures
        b == passes_filters(rec@, opt_str(environment), opt_str(status), opt_str(domain), opt_str(owner)),
{
    let env_ok = match environment {
        Some(e) => same_text(&rec.environment, e),
        None => true,
    };
    let status_ok = match status {
        Some(st) => text_contains(status_text(rec.status), st),
        None => true,
    };
    let domain_ok = match domain {
        Some(d) => same_text(&rec.domain, d),
        None => true,
    };
    let owner_ok = match owner {
        Some(o) => same_text(&rec.owner, o),
        None => true,
    };
    env_ok && status_ok && domain_ok && owner_ok
}

impl RegistryStore {
    /// The store is well formed: no two servers share an id.
    pub closed spec fn wf(&self) -> bool {
        distinct_ids(server_views(self.servers@))
    }

    /// Every server is held under its own id.
    pub proof fn lemma_keys_are_ids(&self)
        ensures
            forall|k: Seq<char>| #[trigger]
                self@.servers.contains_key(k) ==> self@.servers[k].id == k,
    {
        let s = server_views(self.servers@);
        assert forall|k: Seq<char>| #[trigger] self@.servers.contains_key(k) implies self@.servers[k].id == k by {
            let a = choose|a: int| 0 <= a < s.len() && #[trigger] s[a].id == k;
        }
    }

    /// An empty registry.
    pub fn new() -> (r: Self)
        ensures
            r.wf(),
            r@.servers == Map::<Seq<char>, ServerRecordView>::empty(),
            r@.snapshots == Seq::<DiscoverySnapshotView>::empty(),
            r@.allowlist == Seq::<AllowlistEntryView>::empty(),
            r@.audit_log == Seq::<AuditEventView>::empty(),
    {
        let r = RegistryStore {
            servers: Vec::new(),
            snapshots: Vec::new(),
            allowlist: Vec::new(),
            audit_log: Vec::new(),
        };
        assert(r@.servers =~= Map::<Seq<char>, ServerRecordView>::empty());
        assert(r@.snapshots =~= Seq::<DiscoverySnapshotView>::empty());
        assert(r@.audit_log =~= Seq::<AuditEventView>::empty());
        r
    }

    /// Where the server with this id stands, if any.
    fn position_of(&self, server_id: &str) -> (r: Option<usize>)
        ensures
            match r {
                Some(i) => i < self.servers@.len() && self.servers@[i as int].id@ == server_id@,
                None => !has_id(server_views(self.servers@), server_id@),
            },
    {
        let mut i: usize = 0;
        while i < self.servers.len()
            invariant
                i <= self.servers@.len(),
                forall|j: int| 0 <= j < i ==> #[trigger] self.servers@[j].id@ != server_id@,
            decreases self.servers@.len() - i,
        {
            if same_text(&self.servers[i].id, server_id) {
                return Some(i);
            }
            i += 1;
        }
        proof {
            let s = server_views(self.servers@);
            if has_id(s, server_id@) {
                let a = choose|a: int| 0 <= a < s.len() && #[trigger] s[a].id == server_id@;
                assert(self.servers@[a].id@ == server_id@);
            }
        }
        None
    }

    /// The record of the server with this id, if it is registered.
    pub fn get_server(&self, server_id: &str) -> (r: Option<ServerRecord>)
        requires
            self.wf(),
        ensures
            match r {
                Some(rec) => self@.servers.contains_key(server_id@) && rec@ == self@.servers[server_id@],
                None => !self@.servers.contains_key(server_id@),
            },
    {
        match self.position_of(server_id) {
            Some(i) => {
                proof {
                    lemma_record_at(server_views(self.servers@), i as int);
                }
                Some(self.servers[i].clone())
            },
            None => None,
        }
    }

    /// Appends an event to the audit trail.
    fn emit_audit(&mut self, server_id: &str, action: &str, actor: &str, details: AuditDetails)
        requires
            old(self).wf(),
        ensures
            final(self).wf(),
            final(self)@.servers == old(self)@.servers,
            final(self)@.order == old(self)@.order,
            final(self)@.snapshots == old(self)@.snapshots,
            final(self)@.allowlist == old(self)@.allowlist,
            logged(old(self)@.audit_log, final(self)@.audit_log, server_id@, action@, actor@, details),
    {
        let event = AuditEvent {
            id: generated_id("aud_"),
            server_id: server_id.to_string(),
            action: action.to_string(),
            actor: actor.to_string(),
            details,
            timestamp: timestamp_now(),
        };
        let ghost before = self.audit_log@;
        self.audit_log.push(event);
        proof {
            let v = before.map_values(|e: AuditEvent| e@);
            let w = self.audit_log@.map_values(|e: AuditEvent| e@);
            assert(w.subrange(0, v.len() as int) =~= v);
        }
    }

    /// Puts a record under its id, replacing any record already there.
    fn put_record(&mut self, record: ServerRecord)
        requires
            old(self).wf(),
        ensures
            final(self).wf(),
            final(self)@.servers == old(self)@.servers.insert(record.id@, record@),
            final(self)@.order == if old(self)@.servers.contains_key(record.id@) {
                old(self)@.order
            } else {
                old(self)@.order.push(record.id@)
            },
            final(self)@.snapshots == old(self)@.snapshots,
            final(self)@.allowlist == old(self)@.allowlist,
            final(self)@.audit_log == old(self)@.audit_log,
    {
        let ghost s = server_views(self.servers@);
        match self.position_of(record.id.as_str()) {
            Some(i) => {
                proof {
                    lemma_replace_record(s, i as int, record@);
                    assert(server_views(self.servers@.update(i as int, record)) =~= s.update(
                        i as int,
                        record@,
                    ));
                    assert(ids_of(s.update(i as int, record@)) =~= ids_of(s));
                    lemma_record_at(s, i as int);
                }
                self.servers.set(i, record);
            },
            None => {
                proof {
                    lemma_append_record(s, record@);
                    assert(server_views(self.servers@.push(record)) =~= s.push(record@));
                    assert(ids_of(s.push(record@)) =~= ids_of(s).push(record@.id));
                }
                self.servers.push(record);
            },
        }
    }

    /// Registers a server under the id made from its name and environment,
    /// replacing any server that already has that id.
    pub fn register_server(
        &mut self,
        name: String,
        description: String,
        owner: String,
        domain: String,
        environment: String,
        transport: Transport,
        command: Option<String>,
        url: Option<String>,
        credential_bindings: Vec<String>,
        policy_labels: Vec<String>,
        tags: Vec<String>,
    ) -> (r: ServerRecord)
        requires
            old(self).wf(),
        ensures
            final(self).wf(),
            r@ == registered_record(
                server_id_spec(name@, environment@),
                name@,
                description@,
                owner@,
                domain@,
                environment@,
                transport,
                opt_text(command),
                opt_text(url),
                texts(credential_bindings@),
                texts(policy_labels@),
                texts(tags@),
                r@.created_at,
            ),
            is_ascii_text(name@) ==> r@.id == ascii_server_id(name@, environment@),
            has_effect(old(self)@, final(self)@, registration_effect(r@.id)),
            final(self)@.servers == old(self)@.servers.insert(r@.id, r@),
            final(self)@.order == if old(self)@.servers.contains_key(r@.id) {
                old(self)@.order
            } else {
                old(self)@.order.push(r@.id)
            },
            final(self)@.snapshots == old(self)@.snapshots,
            final(self)@.allowlist == old(self)@.allowlist,
            logged(old(self)@.audit_log, final(self)@.audit_log, r@.id, "register"@, owner@, AuditDetails::Version(1)),
    {
        let id = server_id_for(name.as_str(), environment.as_str());
        let now = timestamp_now();
        let record = ServerRecord {
            id,
            name,
            description,
            owner,
            domain,
            environment,
            transport,
            command,
            url,
            status: ServerStatus::Active,
            version: 1,
            credential_bindings,
            policy_labels,
            tags,
            tools: Vec::new(),
            allowlist: Vec::new(),
            health: HealthStatus::default(),
            created_at: now,
            updated_at: now,
        };
        proof {
            assert(tool_views(record.tools@) =~= Seq::<ToolRecordView>::empty());
            assert(texts(record.allowlist@) =~= Seq::<Seq<char>>::empty());
        }
        let result = record.clone();
        let id = record.id.clone();
        let actor = record.owner.clone();
        self.put_record(record);
        self.emit_audit(id.as_str(), "register", actor.as_str(), AuditDetails::Version(1));
        result
    }
    /// The position of a registered server; the record there is the one the
    /// map holds under `server_id`.
    fn locate(&self, server_id: &str) -> (r: Option<usize>)
        requires
            self.wf(),
        ensures
            match r {
                Some(i) => {
                    &&& i < self.servers@.len()
                    &&& self@.servers.contains_key(server_id@)
                    &&& self.servers@[i as int]@ == self@.servers[server_id@]
                    &&& self.servers@[i as int].id@ == server_id@
                },
                None => !self@.servers.contains_key(server_id@),
            },
    {
        let r = self.position_of(server_id);
        proof {
            if let Some(i) = r {
                lemma_record_at(server_views(self.servers@), i as int);
            }
        }
        r
    }

    /// Changes the given fields of a server's definition and bumps its
    /// version.
    pub fn update_server(
        &mut self,
        server_id: &str,
        command: Option<String>,
        url: Option<String>,
        transport: Option<Transport>,
        environment: Option<String>,
        owner: Option<String>,
        policy_labels: Option<Vec<String>>,
        credential_bindings: Option<Vec<String>>,
    ) -> (r: Result<ServerRecord, String>)
        requires
            old(self).wf(),
            old(self)@.servers.contains_key(server_id@) ==> old(self)@.servers[server_id@].version
                < u32::MAX,
        ensures
            final(self).wf(),
            has_effect(old(self)@, final(self)@, change_effect(r is Ok, Some(server_id@), 0, 0)),
            match r {
                Ok(rec) => {
                    &&& old(self)@.servers.contains_key(server_id@)
                    &&& rec@ == updated_record(
                        old(self)@.servers[server_id@],
                        opt_text(command),
                        opt_text(url),
                        transport,
                        opt_text(environment),
                        opt_text(owner),
                        opt_texts(policy_labels),
                        opt_texts(credential_bindings),
                        rec@.updated_at,
                    )
                    &&& final(self)@.order == old(self)@.order
                    &&& final(self)@.servers == old(self)@.servers.insert(server_id@, rec@)
                    &&& final(self)@.snapshots == old(self)@.snapshots
                    &&& final(self)@.allowlist == old(self)@.allowlist
                    &&& logged(
                        old(self)@.audit_log,
                        final(self)@.audit_log,
                        server_id@,
                        "update"@,
                        "system"@,
                        AuditDetails::Version(rec@.version),
                    )
                },
                Err(e) => {
                    &&& !old(self)@.servers.contains_key(server_id@)
                    &&& e@ == not_found_message(server_id@)
                    &&& final(self)@ == old(self)@
                },
            },
    {
        let i = match self.locate(server_id) {
            Some(i) => i,
            None => return Err(not_found(server_id)),
        };
        let mut rec = self.servers[i].clone();
        if let Some(c) = command {
            rec.command = Some(c);
        }
        if let Some(u) = url {
            rec.url = Some(u);
        }
        if let Some(t) = transport {
            rec.transport = t;
        }
        if let Some(e) = environment {
            rec.environment = e;
        }
        if let Some(o) = owner {
            rec.owner = o;
        }
        if let Some(p) = policy_labels {
            rec.policy_labels = p;
        }
        if let Some(c) = credential_bindings {
            rec.credential_bindings = c;
        }
        rec.version = rec.version + 1;
        rec.updated_at = timestamp_now();
        let result = rec.clone();
        let version = rec.version;
        self.put_record(rec);
        self.emit_audit(server_id, "update", "system", AuditDetails::Version(version));
        Ok(result)
    }

    /// Runs connectivity and schema checks on a server and records its
    /// health.
    pub fn test_server(&mut self, server_id: &str) -> (r: Result<TestResult, String>)
        requires
            old(self).wf(),
        ensures
            final(self).wf(),
            has_effect(old(self)@, final(self)@, change_effect(r is Ok, None, 0, 0)),
            match r {
                Ok(res) => {
                    &&& old(self)@.servers.contains_key(server_id@)
                    &&& res@ == test_report(old(self)@.servers[server_id@], res@.tested_at)
                    &&& final(self)@.servers.contains_key(server_id@)
                    &&& final(self)@.order == old(self)@.order
                    &&& final(self)@.servers == old(self)@.servers.insert(
                        server_id@,
                        tested_record(
                            old(self)@.servers[server_id@],
                            final(self)@.servers[server_id@].health.checked_at->0,
                        ),
                    )
                    &&& final(self)@.snapshots == old(self)@.snapshots
                    &&& final(self)@.allowlist == old(self)@.allowlist
                    &&& logged(
                        old(self)@.audit_log,
                        final(self)@.audit_log,
                        server_id@,
                        "test"@,
                        "system"@,
                        AuditDetails::Connectivity(res.connectivity),
                    )
                },
                Err(e) => {
                    &&& !old(self)@.servers.contains_key(server_id@)
                    &&& e@ == not_found_message(server_id@)
                    &&& final(self)@ == old(self)@
                },
            },
    {
        let i = match self.locate(server_id) {
            Some(i) => i,
            None => return Err(not_found(server_id)),
        };
        let mut rec = self.servers[i].clone();
        let reachable = rec.command.is_some() || rec.url.is_some();
        let mut errors: Vec<String> = Vec::new();
        if !reachable {
            errors.push(String::from_str("No command or URL configured"));
        }
        let result = TestResult {
            server_id: server_id.to_string(),
            connectivity: reachable,
            tools_listed: rec.tools.len() > 0,
            schema_valid: true,
            latency_ms: TEST_LATENCY_MS,
            errors,
            tested_at: timestamp_now(),
        };
        proof {
            if reachable {
                assert(texts(result.errors@) =~= Seq::<Seq<char>>::empty());
            } else {
                assert(texts(result.errors@) =~= seq!["No command or URL configured"@]);
            }
        }
        let message = if reachable {
            String::from_str("Passed")
        } else {
            String::from_str("No endpoint")
        };
        rec.health = HealthStatus {
            state: if reachable {
                HealthState::Healthy
            } else {
                HealthState::Unknown
            },
            checked_at: Some(timestamp_now()),
            latency_ms: Some(result.latency_ms),
            error_rate_ppm: Some(0),
            message: Some(message),
        };
        self.put_record(rec);
        self.emit_audit(server_id, "test", "system", AuditDetails::Connectivity(reachable));
        Ok(result)
    }

    /// Restarts a server's runtime; it comes back healthy.
    pub fn restart_server(&mut self, server_id: &str) -> (r: Result<ServerRecord, String>)
        requires
            old(self).wf(),
        ensures
            final(self).wf(),
            has_effect(old(self)@, final(self)@, change_effect(r is Ok, None, 0, 0)),
            match r {
                Ok(rec) => {
                    &&& old(self)@.servers.contains_key(server_id@)
                    &&& rec@ == restarted_record(
                        old(self)@.servers[server_id@],
                        rec@.health.checked_at->0,
                        rec@.updated_at,
                    )
                    &&& final(self)@.order == old(self)@.order
                    &&& final(self)@.servers == old(self)@.servers.insert(server_id@, rec@)
                    &&& final(self)@.snapshots == old(self)@.snapshots
                    &&& final(self)@.allowlist == old(self)@.allowlist
                    &&& logged(
                        old(self)@.audit_log,
                        final(self)@.audit_log,
                        server_id@,
                        "restart"@,
                        "system"@,
                        AuditDetails::Empty,
                    )
                },
                Err(e) => {
                    &&& !old(self)@.servers.contains_key(server_id@)
                    &&& e@ == not_found_message(server_id@)
                    &&& final(self)@ == old(self)@
                },
            },
    {
        let i = match self.locate(server_id) {
            Some(i) => i,
            None => return Err(not_found(server_id)),
        };
        let mut rec = self.servers[i].clone();
        rec.health = HealthStatus {
            state: HealthState::Healthy,
            checked_at: Some(timestamp_now()),
            latency_ms: None,
            error_rate_ppm: Some(0),
            message: Some(String::from_str("Restarted")),
        };
        rec.updated_at = timestamp_now();
        let result = rec.clone();
        self.put_record(rec);
        self.emit_audit(server_id, "restart", "system", AuditDetails::Empty);
        Ok(result)
    }

    /// Takes a server out of agent routing; its record and history stay.
    pub fn disable_server(&mut self, server_id: &str) -> (r: Result<ServerRecord, String>)
        requires
            old(self).wf(),
        ensures
            final(self).wf(),
            has_effect(old(self)@, final(self)@, change_effect(r is Ok, None, 0, 0)),
            match r {
                Ok(rec) => {
                    &&& old(self)@.servers.contains_key(server_id@)
                    &&& rec@ == disabled_record(old(self)@.servers[server_id@], rec@.updated_at)
                    &&& final(self)@.order == old(self)@.order
                    &&& final(self)@.servers == old(self)@.servers.insert(server_id@, rec@)
                    &&& final(self)@.snapshots == old(self)@.snapshots
                    &&& final(self)@.allowlist == old(self)@.allowlist
                    &&& logged(
                        old(self)@.audit_log,
                        final(self)@.audit_log,
                        server_id@,
                        "disable"@,
                        "system"@,
                        AuditDetails::Empty,
                    )
                },
                Err(e) => {
                    &&& !old(self)@.servers.contains_key(server_id@)
                    &&& e@ == not_found_message(server_id@)
                    &&& final(self)@ == old(self)@
                },
            },
    {
        let i = match self.locate(server_id) {
            Some(i) => i,
            None => return Err(not_found(server_id)),
        };
        let mut rec = self.servers[i].clone();
        rec.status = ServerStatus::Disabled;
        rec.health.state = HealthState::Disabled;
        rec.updated_at = timestamp_now();
        let result = rec.clone();
        self.put_record(rec);
        self.emit_audit(server_id, "disable", "system", AuditDetails::Empty);
        Ok(result)
    }
    /// Replaces a server's tools with the ones just discovered and records
    /// a snapshot of the discovery. The allow-list stays as it was.
    pub fn discover_tools(&mut self, server_id: &str, tools: Vec<ToolRecord>) -> (r: Result<
        DiscoverySnapshot,
        String,
    >)
        requires
            old(self).wf(),
        ensures
            final(self).wf(),
            has_effect(old(self)@, final(self)@, change_effect(r is Ok, None, 1, 0)),
            match r {
                Ok(snap) => {
                    &&& old(self)@.servers.contains_key(server_id@)
                    &&& is_snapshot_of(
                        snap@,
                        server_id@,
                        old(self)@.servers[server_id@],
                        tool_views(tools@),
                    )
                    &&& final(self)@.servers.contains_key(server_id@)
                    &&& final(self)@.order == old(self)@.order
                    &&& final(self)@.servers == old(self)@.servers.insert(
                        server_id@,
                        discovered_record(
                            old(self)@.servers[server_id@],
                            tool_views(tools@),
                            final(self)@.servers[server_id@].updated_at,
                        ),
                    )
                    &&& final(self)@.snapshots == old(self)@.snapshots.push(snap@)
                    &&& final(self)@.allowlist == old(self)@.allowlist
                    &&& logged(
                        old(self)@.audit_log,
                        final(self)@.audit_log,
                        server_id@,
                        "discover"@,
                        "system"@,
                        AuditDetails::ToolsCount(snap.tools_count),
                    )
                },
                Err(e) => {
                    &&& !old(self)@.servers.contains_key(server_id@)
                    &&& e@ == not_found_message(server_id@)
                    &&& final(self)@ == old(self)@
                },
            },
    {
        let i = match self.locate(server_id) {
            Some(i) => i,
            None => return Err(not_found(server_id)),
        };
        let mut rec = self.servers[i].clone();
        let prev = names_of(&rec.tools);
        let next = names_of(&tools);
        let diff = discovery_diff(&prev, &next);
        rec.tools = clone_tools(&tools);
        rec.updated_at = timestamp_now();
        let version = rec.version;
        self.put_record(rec);
        let count = tools.len();
        let snapshot = DiscoverySnapshot {
            id: generated_id("disc_"),
            server_id: server_id.to_string(),
            server_version: version,
            tools_count: count,
            tools,
            diff,
            status: String::from_str("completed"),
            created_at: timestamp_now(),
        };
        let ghost before = self.snapshots@;
        self.snapshots.push(snapshot.clone());
        proof {
            assert(self.snapshots@.map_values(|s: DiscoverySnapshot| s@) =~= before.map_values(
                |s: DiscoverySnapshot| s@,
            ).push(snapshot@));
        }
        self.emit_audit(server_id, "discover", "system", AuditDetails::ToolsCount(count));
        Ok(snapshot)
    }

    /// Approves the named tools of a server for agents in an environment.
    /// Every name must be a tool the server has discovered: a request that
    /// names any other tool is rejected whole and changes nothing. On
    /// success the first tool of each name is marked allowed.
    pub fn set_allowlist(
        &mut self,
        server_id: &str,
        tool_names: Vec<String>,
        environment: &str,
        agents: Vec<String>,
        reason: &str,
    ) -> (r: Result<Vec<AllowlistEntry>, String>)
        requires
            old(self).wf(),
        ensures
            final(self).wf(),
            has_effect(old(self)@, final(self)@, change_effect(r is Ok, None, 0, tool_names@.len())),
            match r {
                Ok(entries) => {
                    &&& old(self)@.servers.contains_key(server_id@)
                    &&& first_unknown(
                        texts(tool_names@),
                        crate::tools::tool_names(old(self)@.servers[server_id@].tools),
                    ) == tool_names@.len()
                    &&& final(self)@.servers.contains_key(server_id@)
                    &&& final(self)@.order == old(self)@.order
                    &&& final(self)@.servers == old(self)@.servers.insert(
                        server_id@,
                        allowlisted_record(
                            old(self)@.servers[server_id@],
                            texts(tool_names@),
                            final(self)@.servers[server_id@].updated_at,
                        ),
                    )
                    &&& entries@.len() == tool_names@.len()
                    &&& forall|k: int|
                        0 <= k < entries@.len() ==> is_entry_for(
                            #[trigger] entries@[k]@,
                            server_id@,
                            tool_names@[k]@,
                            environment@,
                            texts(agents@),
                            reason@,
                        )
                    &&& final(self)@.allowlist == old(self)@.allowlist + entry_views(entries@)
                    &&& final(self)@.snapshots == old(self)@.snapshots
                    &&& logged(
                        old(self)@.audit_log,
                        final(self)@.audit_log,
                        server_id@,
                        "set_allowlist"@,
                        "system"@,
                        AuditDetails::Count(entries@.len() as usize),
                    )
                },
                Err(e) => {
                    &&& if old(self)@.servers.contains_key(server_id@) {
                        let k = first_unknown(
                            texts(tool_names@),
                            crate::tools::tool_names(old(self)@.servers[server_id@].tools),
                        );
                        &&& k < tool_names@.len()
                        &&& e@ == undiscovered_message(tool_names@[k]@, server_id@)
                    } else {
                        e@ == not_found_message(server_id@)
                    }
                    &&& final(self)@ == old(self)@
                },
            },
    {
        let i = match self.locate(server_id) {
            Some(i) => i,
            None => return Err(not_found(server_id)),
        };
        let mut rec = self.servers[i].clone();
        let ghost old_rec = rec@;
        let ghost orig = old_rec.tools;
        let ghost names = texts(tool_names@);
        let ghost known = crate::tools::tool_names(orig);
        let mut c: usize = 0;
        while c < tool_names.len()
            invariant
                c <= tool_names@.len(),
                names == texts(tool_names@),
                rec@ == old_rec,
                orig == old_rec.tools,
                known == crate::tools::tool_names(orig),
                self.wf(),
                self@ == old(self)@,
                old(self)@.servers.contains_key(server_id@),
                old(self)@.servers[server_id@] == old_rec,
                forall|m: int| 0 <= m < c ==> known.contains(#[trigger] names[m]),
            decreases tool_names@.len() - c,
        {
            match find_tool(&rec.tools, &tool_names[c]) {
                None => {
                    proof {
                        assert(is_first_unknown(names, known, c as int));
                        lemma_first_unknown(names, known, c as int);
                    }
                    return Err(undiscovered(&tool_names[c], server_id));
                },
                Some(j) => {
                    proof {
                        assert(known[j as int] == names[c as int]);
                    }
                },
            }
            c += 1;
        }
        proof {
            assert(names.take(0) =~= Seq::<Seq<char>>::empty());
            assert(allow_named(orig, names.take(0)) =~= orig);
            assert(rec@ =~= (ServerRecordView { tools: allow_named(orig, names.take(0)), ..old_rec }));
        }
        let mut k: usize = 0;
        while k < tool_names.len()
            invariant
                k <= tool_names@.len(),
                names == texts(tool_names@),
                orig == old_rec.tools,
                known == crate::tools::tool_names(orig),
                rec@ == (ServerRecordView { tools: allow_named(orig, names.take(k as int)), ..old_rec }),
                forall|m: int| 0 <= m < tool_names@.len() ==> known.contains(#[trigger] names[m]),
                self.wf(),
                self@ == old(self)@,
                old(self)@.servers.contains_key(server_id@),
                old(self)@.servers[server_id@] == old_rec,
                old_rec.id == server_id@,
            decreases tool_names@.len() - k,
        {
            proof {
                lemma_allow_keeps_names(orig, names.take(k as int));
                assert(known.contains(names[k as int]));
            }
            if let Some(j) = find_tool(&rec.tools, &tool_names[k]) {
                let ghost marked = allow_named(orig, names.take(k as int));
                let mut t = rec.tools[j].clone();
                t.allowed = true;
                rec.tools.set(j, t);
                proof {
                    assert(names.take(k + 1) =~= names.take(k as int).push(names[k as int]));
                    lemma_allow_one_more(orig, names.take(k as int), names[k as int], j as int);
                    assert(tool_views(rec.tools@) =~= marked.update(
                        j as int,
                        ToolRecordView { allowed: true, ..orig[j as int] },
                    ));
                }
            }
            k += 1;
        }
        proof {
            assert(names.take(k as int) =~= names);
            assert(is_first_unknown(names, known, k as int));
            lemma_first_unknown(names, known, k as int);
        }
        rec.allowlist = clone_strings(&tool_names);
        rec.updated_at = timestamp_now();
        self.put_record(rec);
        let ghost mid = self@;
        let mut entries: Vec<AllowlistEntry> = Vec::new();
        let mut n: usize = 0;
        while n < tool_names.len()
            invariant
                n <= tool_names@.len(),
                entries@.len() == n,
                forall|m: int|
                    0 <= m < n ==> is_entry_for(
                        #[trigger] entries@[m]@,
                        server_id@,
                        tool_names@[m]@,
                        environment@,
                        texts(agents@),
                        reason@,
                    ),
                self.wf(),
                self@.servers == mid.servers,
                self@.order == mid.order,
                self@.snapshots == mid.snapshots,
                self@.audit_log == mid.audit_log,
                self@.allowlist == mid.allowlist + entry_views(entries@),
            decreases tool_names@.len() - n,
        {
            let entry = AllowlistEntry {
                id: generated_id("allow_"),
                server_id: server_id.to_string(),
                tool_name: tool_names[n].clone(),
                environment: environment.to_string(),
                agents: clone_strings(&agents),
                risk: RiskLevel::Medium,
                policy_labels: Vec::new(),
                status: String::from_str("active"),
                reason: reason.to_string(),
                created_at: timestamp_now(),
            };
            proof {
                assert(texts(entry.policy_labels@) =~= Seq::<Seq<char>>::empty());
            }
            let ghost before = self.allowlist@;
            let ghost listed = entries@;
            self.allowlist.push(entry.clone());
            entries.push(entry);
            proof {
                assert(entry_views(self.allowlist@) =~= entry_views(before).push(entry@));
                assert(entry_views(entries@) =~= entry_views(listed).push(entry@));
                assert(self@.allowlist =~= mid.allowlist + entry_views(entries@));
            }
            n += 1;
        }
        let count = entries.len();
        self.emit_audit(server_id, "set_allowlist", "system", AuditDetails::Count(count));
        Ok(entries)
    }
    /// The servers that pass the given filters, each once, in no promised
    /// order.
    pub fn list_servers(
        &self,
        environment: Option<&str>,
        status: Option<&str>,
        domain: Option<&str>,
        owner: Option<&str>,
    ) -> (r: Vec<ServerRecord>)
        requires
            self.wf(),
        ensures
            server_views(r@) == listing(
                self@.order,
                self@.servers,
                opt_str(environment),
                opt_str(status),
                opt_str(domain),
                opt_str(owner),
            ),
            lists_exactly(
                self@.servers,
                server_views(r@),
                opt_str(environment),
                opt_str(status),
                opt_str(domain),
                opt_str(owner),
            ),
    {
        let ghost s = server_views(self.servers@);
        let mut out: Vec<ServerRecord> = Vec::new();
        let ghost mut idx: Seq<int> = Seq::empty();
        let mut i: usize = 0;
        while i < self.servers.len()
            invariant
                i <= self.servers@.len(),
                s == server_views(self.servers@),
                distinct_ids(s),
                out@.len() == idx.len(),
                forall|m: int| 0 <= m < idx.len() ==> 0 <= #[trigger] idx[m] < i,
                forall|m: int, n: int| 0 <= m < n < idx.len() ==> #[trigger] idx[m] < #[trigger] idx[n],
                forall|m: int|
                    0 <= m < idx.len() ==> #[trigger] out@[m]@ == s[idx[m]] && passes_filters(
                        s[idx[m]],
                        opt_str(environment),
                        opt_str(status),
                        opt_str(domain),
                        opt_str(owner),
                    ),
                forall|j: int|
                    0 <= j < i && passes_filters(
                        #[trigger] s[j],
                        opt_str(environment),
                        opt_str(status),
                        opt_str(domain),
                        opt_str(owner),
                    ) ==> exists|m: int| 0 <= m < idx.len() && idx[m] == j,
                server_views(out@) == listing(
                    ids_of(s).take(i as int),
                    records_by_id(s),
                    opt_str(environment),
                    opt_str(status),
                    opt_str(domain),
                    opt_str(owner),
                ),
            decreases self.servers@.len() - i,
        {
            proof {
                lemma_record_at(s, i as int);
                assert(ids_of(s).take(i + 1).drop_last() =~= ids_of(s).take(i as int));
                assert(ids_of(s).take(i + 1).last() == s[i as int].id);
            }
            let ghost listed = out@;
            if passes(&self.servers[i], environment, status, domain, owner) {
                let ghost before = idx;
                out.push(self.servers[i].clone());
                proof {
                    assert(server_views(out@) =~= server_views(listed).push(s[i as int]));
                    idx = idx.push(i as int);
                    assert(idx[before.len() as int] == i);
                    assert forall|j: int|
                        0 <= j < i + 1 && passes_filters(
                            #[trigger] s[j],
                            opt_str(environment),
                            opt_str(status),
                            opt_str(domain),
                            opt_str(owner),
                        ) implies exists|m: int| 0 <= m < idx.len() && idx[m] == j by {
                        if j < i {
                            let m = choose|m: int| 0 <= m < before.len() && before[m] == j;
                            assert(idx[m] == j);
                        }
                    }
                }
            }
            i += 1;
        }
        proof {
            assert(ids_of(s).take(i as int) =~= ids_of(s));
            let o = server_views(out@);
            assert forall|a: int, b: int|
                0 <= a < o.len() && 0 <= b < o.len() && a != b implies #[trigger] o[a].id
                != #[trigger] o[b].id by {
                assert(o[a] == s[idx[a]]);
                assert(o[b] == s[idx[b]]);
                if a < b {
                    assert(idx[a] < idx[b]);
                } else {
                    assert(idx[b] < idx[a]);
                }
            }
            assert forall|m: int| 0 <= m < o.len() implies {
                &&& self@.servers.contains_key(#[trigger] o[m].id)
                &&& self@.servers[o[m].id] == o[m]
                &&& passes_filters(o[m], opt_str(environment), opt_str(status), opt_str(domain), opt_str(owner))
            } by {
                assert(out@[m]@ == s[idx[m]]);
                lemma_record_at(s, idx[m]);
            }
            assert forall|k: Seq<char>|
                #[trigger] self@.servers.contains_key(k) && passes_filters(
                    self@.servers[k],
                    opt_str(environment),
                    opt_str(status),
                    opt_str(domain),
                    opt_str(owner),
                ) implies has_id(o, k) by {
                let a = choose|a: int| 0 <= a < s.len() && #[trigger] s[a].id == k;
                lemma_record_at(s, a);
                assert(passes_filters(s[a], opt_str(environment), opt_str(status), opt_str(domain), opt_str(owner)));
                let m = choose|m: int| 0 <= m < idx.len() && idx[m] == a;
                assert(out@[m]@ == s[a]);
                assert(o[m].id == k);
            }
        }
        out
    }

    /// The whole inventory: every server, and the sizes of the logs.
    pub fn export_inventory(&self) -> (r: InventorySummary)
        requires
            self.wf(),
        ensures
            is_export_of(self@, r@),
            lists_exactly(self@.servers, r@.servers_list, None, None, None, None),
    {
        let list = self.list_servers(None, None, None, None);
        proof {
            let o = server_views(list@);
            let ids = o.map_values(|v: ServerRecordView| v.id);
            assert(ids.no_duplicates()) by {
                assert forall|a: int, b: int| 0 <= a < ids.len() && 0 <= b < ids.len() && a != b implies ids[a] != ids[b] by {
                    assert(o[a].id != o[b].id);
                }
            }
            ids.unique_seq_to_set();
            assert forall|k: Seq<char>| #[trigger] ids.to_set().contains(k) <==> self@.servers.dom().contains(k) by {
                if self@.servers.dom().contains(k) {
                    assert(self@.servers.contains_key(k));
                    let m = choose|m: int| 0 <= m < o.len() && #[trigger] o[m].id == k;
                    assert(ids[m] == k);
                }
                if ids.to_set().contains(k) {
                    let m = choose|m: int| 0 <= m < ids.len() && ids[m] == k;
                    assert(o[m].id == k);
                }
            }
            assert(ids.to_set() =~= self@.servers.dom());
        }
        let count = list.len();
        InventorySummary {
            servers: count,
            servers_list: list,
            discovery_snapshots: self.snapshots.len(),
            allowlist_entries: self.allowlist.len(),
            audit_events: self.audit_log.len(),
            exported_at: timestamp_now(),
        }
    }
}

} // verus!
