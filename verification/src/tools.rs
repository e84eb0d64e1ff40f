//! Tool lists: their names, the difference between two discoveries, and
//! marking tools as allowed.

use vstd::prelude::*;
use crate::types::{
    DiscoveryDiff, DiscoveryDiffView, ToolRecord, ToolRecordView, opt_diff, texts, tool_views,
};

verus! {

/// The names of the tools, in order.
pub open spec fn tool_names(tools: Seq<ToolRecordView>) -> Seq<Seq<char>> {
    tools.map_values(|t: ToolRecordView| t.name)
}

/// The names of `a` that `b` does not hold, in the order of `a`.
pub open spec fn names_not_in(a: Seq<Seq<char>>, b: Seq<Seq<char>>) -> Seq<Seq<char>>
    decreases a.len(),
{
    if a.len() == 0 {
        Seq::empty()
    } else {
        let rest = names_not_in(a.drop_last(), b);
        if b.contains(a.last()) {
            rest
        } else {
            rest.push(a.last())
        }
    }
}

/// How the tool names changed from `prev` to `next`: the names that came and
/// the names that went; none when neither happened.
pub open spec fn tool_diff(prev: Seq<Seq<char>>, next: Seq<Seq<char>>) -> Option<DiscoveryDiffView> {
    let added = names_not_in(next, prev);
    let removed = names_not_in(prev, next);
    if added.len() > 0 || removed.len() > 0 {
        Some(DiscoveryDiffView { added_tools: added, removed_tools: removed, changed_tools: Seq::empty() })
    } else {
        None
    }
}

/// Whether `names` holds `name`.
pub fn contains_name(names: &Vec<String>, name: &String) -> (r: bool)
    ensures
        r == texts(names@).contains(name@),
{
    let mut i: usize = 0;
    while i < names.len()
        invariant
            i <= names@.len(),
            forall|j: int| 0 <= j < i ==> #[trigger] names@[j]@ != name@,
        decreases names@.len() - i,
    {
        if names[i] == *name {
            assert(texts(names@)[i as int] == name@);
            return true;
        }
        i += 1;
    }
    proof {
        if texts(names@).contains(name@) {
            let j = choose|j: int| 0 <= j < texts(names@).len() && texts(names@)[j] == name@;
            assert(names@[j]@ == name@);
        }
    }
    false
}

/// The names of the tools.
pub fn names_of(tools: &Vec<ToolRecord>) -> (r: Vec<String>)
    ensures
        texts(r@) == tool_names(tool_views(tools@)),
{
    let mut r: Vec<String> = Vec::new();
    let mut i: usize = 0;
    while i < tools.len()
        invariant
            i <= tools@.len(),
            texts(r@) == tool_names(tool_views(tools@.take(i as int))),
        decreases tools@.len() - i,
    {
        let ghost before = r@;
        r.push(tools[i].name.clone());
        assert(tools@.take(i + 1) =~= tools@.take(i as int).push(tools@[i as int]));
        assert(texts(r@) =~= texts(before).push(tools@[i as int].name@));
        assert(texts(r@) =~= tool_names(tool_views(tools@.take(i + 1))));
        i += 1;
    }
    assert(tools@.take(tools@.len() as int) =~= tools@);
    r
}

/// The names of `a` that `b` does not hold, in the order of `a`.
pub fn names_missing(a: &Vec<String>, b: &Vec<String>) -> (r: Vec<String>)
    ensures
        texts(r@) == names_not_in(texts(a@), texts(b@)),
{
    let mut r: Vec<String> = Vec::new();
    let mut i: usize = 0;
    while i < a.len()
        invariant
            i <= a@.len(),
            texts(r@) == names_not_in(texts(a@).take(i as int), texts(b@)),
        decreases a@.len() - i,
    {
        let ghost before = r@;
        let ghost prefix = texts(a@).take(i + 1);
        assert(prefix.drop_last() =~= texts(a@).take(i as int));
        assert(prefix.last() == a@[i as int]@);
        if !contains_name(b, &a[i]) {
            r.push(a[i].clone());
            assert(texts(r@) =~= texts(before).push(a@[i as int]@));
        }
        i += 1;
    }
    assert(texts(a@).take(a@.len() as int) =~= texts(a@));
    r
}

/// The difference between the tool names of two discoveries.
pub fn discovery_diff(prev: &Vec<String>, next: &Vec<String>) -> (r: Option<DiscoveryDiff>)
    ensures
        opt_diff(r) == tool_diff(texts(prev@), texts(next@)),
{
    let added = names_missing(next, prev);
    let removed = names_missing(prev, next);
    if added.len() > 0 || removed.len() > 0 {
        let changed: Vec<String> = Vec::new();
        assert(texts(changed@) =~= Seq::<Seq<char>>::empty());
        Some(DiscoveryDiff { added_tools: added, removed_tools: removed, changed_tools: changed })
    } else {
        None
    }
}

/// No tool before position `j` has the name of the tool at `j`.
pub open spec fn first_named(tools: Seq<ToolRecordView>, j: int) -> bool {
    forall|k: int| 0 <= k < j ==> #[trigger] tools[k].name != tools[j].name
}

/// The tools with the first tool of each name in `names` marked allowed.
pub open spec fn allow_named(tools: Seq<ToolRecordView>, names: Seq<Seq<char>>) -> Seq<ToolRecordView> {
    Seq::new(
        tools.len(),
        |j: int|
            if names.contains(tools[j].name) && first_named(tools, j) {
                ToolRecordView { allowed: true, ..tools[j] }
            } else {
                tools[j]
            },
    )
}

/// Position `k` of `names` is the first name that `known` does not hold,
/// or the end of `names` when it holds them all.
pub open spec fn is_first_unknown(names: Seq<Seq<char>>, known: Seq<Seq<char>>, k: int) -> bool {
    &&& 0 <= k <= names.len()
    &&& forall|m: int| 0 <= m < k ==> known.contains(#[trigger] names[m])
    &&& k < names.len() ==> !known.contains(names[k])
}

/// The position of the first name of `names` that `known` does not hold,
/// or the length of `names` when it holds them all.
pub open spec fn first_unknown(names: Seq<Seq<char>>, known: Seq<Seq<char>>) -> int {
    choose|k: int| is_first_unknown(names, known, k)
}

/// Only one position is the first unknown name, and `first_unknown` is it.
pub proof fn lemma_first_unknown(names: Seq<Seq<char>>, known: Seq<Seq<char>>, k: int)
    requires
        is_first_unknown(names, known, k),
    ensures
        first_unknown(names, known) == k,
{
    let c = first_unknown(names, known);
    assert(is_first_unknown(names, known, c));
    if c < k {
        assert(known.contains(names[c]));
    } else if k < c {
        assert(known.contains(names[k]));
    }
}

/// Some position is the first unknown name.
pub proof fn lemma_first_unknown_exists(names: Seq<Seq<char>>, known: Seq<Seq<char>>)
    ensures
        is_first_unknown(names, known, first_unknown(names, known)),
{
    if forall|m: int| 0 <= m < names.len() ==> known.contains(#[trigger] names[m]) {
        assert(is_first_unknown(names, known, names.len() as int));
    } else {
        let m = choose|m: int| 0 <= m < names.len() && !known.contains(#[trigger] names[m]);
        lemma_least_unknown(names, known, m);
    }
}

/// Below an unknown name at `m` lies a first one.
proof fn lemma_least_unknown(names: Seq<Seq<char>>, known: Seq<Seq<char>>, m: int)
    requires
        0 <= m < names.len(),
        !known.contains(names[m]),
    ensures
        exists|k: int| is_first_unknown(names, known, k),
    decreases m,
{
    if forall|x: int| 0 <= x < m ==> known.contains(#[trigger] names[x]) {
        assert(is_first_unknown(names, known, m));
    } else {
        let x = choose|x: int| 0 <= x < m && !known.contains(#[trigger] names[x]);
        lemma_least_unknown(names, known, x);
    }
}

/// The first position holding the name of the tool at `j`.
pub open spec fn first_with_name(tools: Seq<ToolRecordView>, j: int) -> int
    decreases j,
{
    if j <= 0 {
        0
    } else if exists|k: int| 0 <= k < j && tools[k].name == tools[j].name {
        first_with_name(tools, choose|k: int| 0 <= k < j && tools[k].name == tools[j].name)
    } else {
        j
    }
}

/// `first_with_name` finds the first tool of that name.
pub proof fn lemma_first_with_name(tools: Seq<ToolRecordView>, j: int)
    requires
        0 <= j < tools.len(),
    ensures
        0 <= first_with_name(tools, j) <= j,
        tools[first_with_name(tools, j)].name == tools[j].name,
        first_named(tools, first_with_name(tools, j)),
    decreases j,
{
    if j <= 0 {
    } else if exists|k: int| 0 <= k < j && tools[k].name == tools[j].name {
        let k = choose|k: int| 0 <= k < j && tools[k].name == tools[j].name;
        lemma_first_with_name(tools, k);
    }
}

/// Marking the tools of one more name marks the first tool of that name.
pub proof fn lemma_allow_one_more(
    tools: Seq<ToolRecordView>,
    names: Seq<Seq<char>>,
    name: Seq<char>,
    j: int,
)
    requires
        0 <= j < tools.len(),
        tools[j].name == name,
        first_named(tools, j),
    ensures
        allow_named(tools, names.push(name)) == allow_named(tools, names).update(
            j,
            ToolRecordView { allowed: true, ..tools[j] },
        ),
{
    let a = allow_named(tools, names.push(name));
    let b = allow_named(tools, names).update(j, ToolRecordView { allowed: true, ..tools[j] });
    assert forall|m: int| 0 <= m < tools.len() implies a[m] == b[m] by {
        assert(names.push(name).contains(name)) by {
            assert(names.push(name)[names.len() as int] == name);
        }
        if m != j {
            if tools[m].name == name {
                if j < m {
                    assert(!first_named(tools, m));
                } else {
                    assert(tools[j].name != tools[m].name);
                }
            } else {
                assert(names.push(name).contains(tools[m].name) == names.contains(tools[m].name))
                    by {
                    if names.push(name).contains(tools[m].name) {
                        let x = choose|x: int|
                            0 <= x < names.push(name).len() && names.push(name)[x]
                                == tools[m].name;
                        assert(names[x] == tools[m].name);
                    }
                    if names.contains(tools[m].name) {
                        let x = choose|x: int| 0 <= x < names.len() && names[x] == tools[m].name;
                        assert(names.push(name)[x] == tools[m].name);
                    }
                }
            }
        }
    }
    assert(a =~= b);
}

/// The position of the first tool with this name, if any.
pub fn find_tool(tools: &Vec<ToolRecord>, name: &String) -> (r: Option<usize>)
    ensures
        match r {
            Some(j) => j < tools@.len() && tools@[j as int].name@ == name@ && first_named(
                tool_views(tools@),
                j as int,
            ),
            None => !tool_names(tool_views(tools@)).contains(name@),
        },
{
    let mut i: usize = 0;
    while i < tools.len()
        invariant
            i <= tools@.len(),
            forall|k: int| 0 <= k < i ==> #[trigger] tools@[k].name@ != name@,
        decreases tools@.len() - i,
    {
        if tools[i].name == *name {
            assert(first_named(tool_views(tools@), i as int)) by {
                assert forall|k: int| 0 <= k < i implies #[trigger] tool_views(tools@)[k].name
                    != tool_views(tools@)[i as int].name by {
                    assert(tools@[k].name@ != name@);
                }
            }
            return Some(i);
        }
        i += 1;
    }
    proof {
        let ns = tool_names(tool_views(tools@));
        if ns.contains(name@) {
            let k = choose|k: int| 0 <= k < ns.len() && ns[k] == name@;
            assert(tools@[k].name@ == name@);
        }
    }
    None
}

/// Marking tools allowed keeps their names, and so which tool comes first
/// under each name.
pub proof fn lemma_allow_keeps_names(tools: Seq<ToolRecordView>, names: Seq<Seq<char>>)
    ensures
        tool_names(allow_named(tools, names)) == tool_names(tools),
        forall|j: int| 0 <= j < tools.len() ==> (#[trigger] first_named(allow_named(tools, names), j) <==> first_named(tools, j)),
{
    assert(tool_names(allow_named(tools, names)) =~= tool_names(tools));
    let a = allow_named(tools, names);
    assert forall|j: int| 0 <= j < tools.len() implies (#[trigger] first_named(a, j) <==> first_named(tools, j)) by {
        if first_named(tools, j) {
            assert forall|k: int| 0 <= k < j implies #[trigger] a[k].name != a[j].name by {
                assert(tools[k].name != tools[j].name);
            }
        }
        if first_named(a, j) {
            assert forall|k: int| 0 <= k < j implies #[trigger] tools[k].name != tools[j].name by {
                assert(a[k].name != a[j].name);
            }
        }
    }
}

/// A name is among the names of `a` missing from `b` exactly when `a` has
/// it and `b` does not.
pub proof fn lemma_names_not_in(a: Seq<Seq<char>>, b: Seq<Seq<char>>)
    ensures
        forall|n: Seq<char>|
            #[trigger] names_not_in(a, b).contains(n) <==> (a.contains(n) && !b.contains(n)),
    decreases a.len(),
{
    if a.len() > 0 {
        let p = a.drop_last();
        lemma_names_not_in(p, b);
        assert forall|n: Seq<char>|
            #[trigger] names_not_in(a, b).contains(n) <==> (a.contains(n) && !b.contains(n)) by {
            let rest = names_not_in(p, b);
            if a.contains(n) {
                let i = choose|i: int| 0 <= i < a.len() && a[i] == n;
                if i < a.len() - 1 {
                    assert(p[i] == n);
                }
            }
            if p.contains(n) {
                let i = choose|i: int| 0 <= i < p.len() && p[i] == n;
                assert(a[i] == n);
            }
            assert(a.contains(a.last())) by {
                assert(a[a.len() - 1] == a.last());
            }
            if !b.contains(a.last()) {
                let pushed = rest.push(a.last());
                assert(pushed[rest.len() as int] == a.last());
                if pushed.contains(n) {
                    let i = choose|i: int| 0 <= i < pushed.len() && pushed[i] == n;
                    if i < rest.len() {
                        assert(rest[i] == n);
                    }
                }
                if rest.contains(n) {
                    let i = choose|i: int| 0 <= i < rest.len() && rest[i] == n;
                    assert(pushed[i] == n);
                }
            }
        }
    }
}

} // verus!
