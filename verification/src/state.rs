//! The mathematical state of the registry, and the map of servers by id
//! that a list of records with distinct ids stands for.

use vstd::prelude::*;
use crate::types::{AllowlistEntryView, AuditEventView, DiscoverySnapshotView, ServerRecordView};

verus! {

/// What the store holds: each server under its id, the ids in the order
/// the servers are kept (first registration first), and the three logs in
/// the order their entries were written.
pub struct RegistryState {
    pub servers: Map<Seq<char>, ServerRecordView>,
    pub order: Seq<Seq<char>>,
    pub snapshots: Seq<DiscoverySnapshotView>,
    pub allowlist: Seq<AllowlistEntryView>,
    pub audit_log: Seq<AuditEventView>,
}

/// The ids of the records, in order.
pub open spec fn ids_of(s: Seq<ServerRecordView>) -> Seq<Seq<char>> {
    s.map_values(|r: ServerRecordView| r.id)
}

/// No two records share an id.
pub open spec fn distinct_ids(s: Seq<ServerRecordView>) -> bool {
    forall|i: int, j: int|
        0 <= i < s.len() && 0 <= j < s.len() && i != j ==> #[trigger] s[i].id != #[trigger] s[j].id
}

/// Some record of `s` has id `k`.
pub open spec fn has_id(s: Seq<ServerRecordView>, k: Seq<char>) -> bool {
    exists|i: int| 0 <= i < s.len() && #[trigger] s[i].id == k
}

/// The records of `s`, each under its id.
pub open spec fn records_by_id(s: Seq<ServerRecordView>) -> Map<Seq<char>, ServerRecordView> {
    Map::new(
        |k: Seq<char>| has_id(s, k),
        |k: Seq<char>| s[choose|i: int| 0 <= i < s.len() && #[trigger] s[i].id == k],
    )
}

/// A record found at position `i` is the one the map holds under its id.
pub proof fn lemma_record_at(s: Seq<ServerRecordView>, i: int)
    requires
        distinct_ids(s),
        0 <= i < s.len(),
    ensures
        records_by_id(s).contains_key(s[i].id),
        records_by_id(s)[s[i].id] == s[i],
{
    assert(has_id(s, s[i].id));
    let j = choose|j: int| 0 <= j < s.len() && #[trigger] s[j].id == s[i].id;
    assert(j == i);
}

/// Replacing the record at `i` by one with the same id replaces it in the
/// map.
pub proof fn lemma_replace_record(s: Seq<ServerRecordView>, i: int, r: ServerRecordView)
    requires
        distinct_ids(s),
        0 <= i < s.len(),
        s[i].id == r.id,
    ensures
        distinct_ids(s.update(i, r)),
        records_by_id(s.update(i, r)) == records_by_id(s).insert(r.id, r),
{
    let t = s.update(i, r);
    assert(distinct_ids(t)) by {
        assert forall|a: int, b: int|
            0 <= a < t.len() && 0 <= b < t.len() && a != b implies #[trigger] t[a].id
            != #[trigger] t[b].id by {
            assert(t[a].id == s[a].id);
            assert(t[b].id == s[b].id);
        }
    }
    let m = records_by_id(t);
    let n = records_by_id(s).insert(r.id, r);
    assert forall|k: Seq<char>| m.contains_key(k) <==> n.contains_key(k) by {
        if has_id(t, k) {
            let a = choose|a: int| 0 <= a < t.len() && #[trigger] t[a].id == k;
            assert(s[a].id == k);
        }
        if has_id(s, k) {
            let a = choose|a: int| 0 <= a < s.len() && #[trigger] s[a].id == k;
            assert(t[a].id == k);
        }
        if k == r.id {
            assert(t[i].id == k);
        }
    }
    assert forall|k: Seq<char>| m.contains_key(k) implies m[k] == n[k] by {
        let a = choose|a: int| 0 <= a < t.len() && #[trigger] t[a].id == k;
        lemma_record_at(t, a);
        if a == i {
        } else {
            lemma_record_at(s, a);
        }
    }
    assert(m =~= n);
}

/// Appending a record with a new id adds it to the map.
pub proof fn lemma_append_record(s: Seq<ServerRecordView>, r: ServerRecordView)
    requires
        distinct_ids(s),
        !has_id(s, r.id),
    ensures
        distinct_ids(s.push(r)),
        records_by_id(s.push(r)) == records_by_id(s).insert(r.id, r),
{
    let t = s.push(r);
    assert(distinct_ids(t)) by {
        assert forall|a: int, b: int|
            0 <= a < t.len() && 0 <= b < t.len() && a != b implies #[trigger] t[a].id
            != #[trigger] t[b].id by {
            if a < s.len() && b < s.len() {
                assert(t[a] == s[a] && t[b] == s[b]);
            } else if a < s.len() {
                assert(t[a] == s[a]);
            } else {
                assert(t[b] == s[b]);
            }
        }
    }
    let m = records_by_id(t);
    let n = records_by_id(s).insert(r.id, r);
    assert forall|k: Seq<char>| m.contains_key(k) <==> n.contains_key(k) by {
        if has_id(t, k) {
            let a = choose|a: int| 0 <= a < t.len() && #[trigger] t[a].id == k;
            if a < s.len() {
                assert(s[a].id == k);
            }
        }
        if has_id(s, k) {
            let a = choose|a: int| 0 <= a < s.len() && #[trigger] s[a].id == k;
            assert(t[a].id == k);
        }
        if k == r.id {
            assert(t[s.len() as int].id == k);
        }
    }
    assert forall|k: Seq<char>| m.contains_key(k) implies m[k] == n[k] by {
        let a = choose|a: int| 0 <= a < t.len() && #[trigger] t[a].id == k;
        lemma_record_at(t, a);
        if a < s.len() {
            assert(t[a] == s[a]);
            lemma_record_at(s, a);
        }
    }
    assert(m =~= n);
}

} // verus!
