//! Patch inheritance of JSON-shaped documents: the keys a child document
//! states explicitly override its base, objects merge recursively, and
//! every other value of the child replaces the base's.
use vstd::prelude::*;
use crate::text::same_text;

verus! {

/// A JSON document as the merge sees it: objects (keys with their values)
/// and leaves (every non-object value, held as its
/// compact JSON text).
#[derive(Debug)]
pub enum JsonTree {
    Object(Vec<(String, JsonTree)>),
    Leaf(String),
}

/// The mathematical content of a [`JsonTree`].
pub enum JsonView {
    Object(Seq<(Seq<char>, JsonView)>),
    Leaf(Seq<char>),
}

/// The content of entries `k..` of an object.
pub open spec fn entries_view_from(es: Seq<(String, JsonTree)>, k: int) -> Seq<(Seq<char>, JsonView)>
    decreases es, es.len() - k,
{
    if k < 0 || k >= es.len() {
        Seq::empty()
    } else {
        seq![(es[k].0@, tree_view(es[k].1))] + entries_view_from(es, k + 1)
    }
}

/// The content of a tree.
pub open spec fn tree_view(t: JsonTree) -> JsonView
    decreases t,
{
    match t {
        JsonTree::Leaf(s) => JsonView::Leaf(s@),
        JsonTree::Object(es) => JsonView::Object(entries_view_from(es@, 0)),
    }
}

/// Position of the first entry, at `i` or later, whose key is `key`.
pub open spec fn position_from(es: Seq<(Seq<char>, JsonView)>, key: Seq<char>, i: int) -> Option<int>
    decreases es.len() - i,
{
    if i < 0 || i >= es.len() {
        None
    } else if es[i].0 == key {
        Some(i)
    } else {
        position_from(es, key, i + 1)
    }
}

/// The value stored under `key` (its first entry).
pub open spec fn lookup(es: Seq<(Seq<char>, JsonView)>, key: Seq<char>) -> Option<JsonView> {
    match position_from(es, key, 0) {
        Some(p) => Some(es[p].1),
        None => None,
    }
}

/// No key occurs twice.
pub open spec fn distinct_keys(es: Seq<(Seq<char>, JsonView)>) -> bool {
    forall|i: int, j: int| 0 <= i < j < es.len() ==> es[i].0 != es[j].0
}

/// Merges child entries `k..` into `out`: a key already present merges
/// with its value, a new key is appended.
pub open spec fn merge_entries(
    out: Seq<(Seq<char>, JsonView)>,
    ce: Seq<(Seq<char>, JsonView)>,
    k: int,
) -> Seq<(Seq<char>, JsonView)>
    decreases ce, ce.len() - k,
{
    if k < 0 || k >= ce.len() {
        out
    } else {
        let key = ce[k].0;
        let v = ce[k].1;
        let next = match position_from(out, key, 0) {
            Some(p) => out.update(p, (key, merge_view(out[p].1, v))),
            None => out.push((key, v)),
        };
        merge_entries(next, ce, k + 1)
    }
}

/// The merge of a child document over its base: two objects merge key by
/// key, recursively; any other child value replaces the base.
pub open spec fn merge_view(b: JsonView, c: JsonView) -> JsonView
    decreases c, 0int,
{
    match c {
        JsonView::Object(ce) => match b {
            JsonView::Object(be) => JsonView::Object(merge_entries(be, ce, 0)),
            JsonView::Leaf(_) => c,
        },
        JsonView::Leaf(_) => c,
    }
}

/// What a key holds after merging a child value (or none) over a base
/// value (or none).
pub open spec fn merged_value(base: Option<JsonView>, child: Option<JsonView>) -> Option<JsonView> {
    match child {
        None => base,
        Some(cv) => match base {
            None => Some(cv),
            Some(bv) => Some(merge_view(bv, cv)),
        },
    }
}

/// The value under `key` among entries `k..`.
pub open spec fn lookup_from(es: Seq<(Seq<char>, JsonView)>, key: Seq<char>, k: int) -> Option<JsonView> {
    match position_from(es, key, k) {
        Some(p) => Some(es[p].1),
        None => None,
    }
}

proof fn lemma_position_in_range(es: Seq<(Seq<char>, JsonView)>, key: Seq<char>, i: int)
    ensures
        position_from(es, key, i) matches Some(p) ==> (i <= p < es.len() && 0 <= p && es[p].0 == key),
    decreases es.len() - i,
{
    if 0 <= i < es.len() && es[i].0 != key {
        lemma_position_in_range(es, key, i + 1);
    }
}

proof fn lemma_position_same_keys(a: Seq<(Seq<char>, JsonView)>, b: Seq<(Seq<char>, JsonView)>, key: Seq<char>, i: int)
    requires
        a.len() == b.len(),
        forall|j: int| 0 <= j < a.len() ==> #[trigger] a[j].0 == b[j].0,
    ensures
        position_from(a, key, i) == position_from(b, key, i),
    decreases a.len() - i,
{
    if 0 <= i < a.len() {
        assert(a[i].0 == b[i].0);
        lemma_position_same_keys(a, b, key, i + 1);
    }
}

proof fn lemma_position_push(es: Seq<(Seq<char>, JsonView)>, e: (Seq<char>, JsonView), key: Seq<char>, i: int)
    requires
        0 <= i <= es.len(),
    ensures
        position_from(es.push(e), key, i) == match position_from(es, key, i) {
            Some(p) => Some(p),
            None => if e.0 == key {
                Some(es.len() as int)
            } else {
                None
            },
        },
    decreases es.len() - i,
{
    let t = es.push(e);
    if i < es.len() {
        assert(t[i] == es[i]);
        lemma_position_push(es, e, key, i + 1);
    } else {
        assert(t[i] == e);
        if e.0 != key {
            assert(position_from(t, key, i + 1) is None);
        }
    }
}

proof fn lemma_distinct_after(ce: Seq<(Seq<char>, JsonView)>, k: int, j: int)
    requires
        distinct_keys(ce),
        0 <= k < j,
    ensures
        position_from(ce, ce[k].0, j) is None,
    decreases ce.len() - j,
{
    if j < ce.len() {
        assert(ce[k].0 != ce[j].0);
        lemma_distinct_after(ce, k, j + 1);
    }
}

proof fn lemma_merge_entries_lookup(
    out: Seq<(Seq<char>, JsonView)>,
    ce: Seq<(Seq<char>, JsonView)>,
    k: int,
    key: Seq<char>,
)
    requires
        distinct_keys(ce),
        0 <= k <= ce.len(),
    ensures
        lookup(merge_entries(out, ce, k), key) == merged_value(lookup(out, key), lookup_from(ce, key, k)),
    decreases ce.len() - k,
{
    if k < ce.len() {
        let kk = ce[k].0;
        let v = ce[k].1;
        let next = match position_from(out, kk, 0) {
            Some(p) => out.update(p, (kk, merge_view(out[p].1, v))),
            None => out.push((kk, v)),
        };
        lemma_merge_entries_lookup(next, ce, k + 1, key);
        lemma_position_in_range(out, kk, 0);
        lemma_position_in_range(out, key, 0);
        match position_from(out, kk, 0) {
            Some(p) => {
                assert forall|j: int| 0 <= j < out.len() implies #[trigger] out[j].0 == next[j].0 by {}
                lemma_position_same_keys(out, next, key, 0);
            },
            None => {
                lemma_position_push(out, (kk, v), key, 0);
            },
        }
        if key == kk {
            lemma_distinct_after(ce, k, k + 1);
        }
    }
}

/// Patch inheritance: after merging a child object's entries (with
/// distinct keys) over a base object's, a key the child does not state
/// keeps the base's value, a key only the child states takes the child's
/// value, and a key both state holds the merge of the two values (the
/// child's value itself unless both are objects).
pub proof fn lemma_patch_inheritance(
    be: Seq<(Seq<char>, JsonView)>,
    ce: Seq<(Seq<char>, JsonView)>,
    key: Seq<char>,
)
    requires
        distinct_keys(ce),
    ensures
        lookup(merge_entries(be, ce, 0), key) == merged_value(lookup(be, key), lookup(ce, key)),
        merge_view(JsonView::Object(be), JsonView::Object(ce)) == JsonView::Object(merge_entries(be, ce, 0)),
{
    lemma_merge_entries_lookup(be, ce, 0, key);
}

// ---------------------------------------------------------------------
// Executable merge
// ---------------------------------------------------------------------

proof fn lemma_entries_view(s: Seq<(String, JsonTree)>, i: int)
    requires
        0 <= i <= s.len(),
    ensures
        entries_view_from(s, i).len() == s.len() - i,
        forall|j: int| 0 <= j < s.len() - i ==> #[trigger] entries_view_from(s, i)[j] == (s[i + j].0@, tree_view(s[i + j].1)),
    decreases s.len() - i,
{
    if i < s.len() {
        lemma_entries_view(s, i + 1);
        let rest = entries_view_from(s, i + 1);
        let whole = entries_view_from(s, i);
        assert(whole == seq![(s[i].0@, tree_view(s[i].1))] + rest);
        assert forall|j: int| 0 <= j < s.len() - i implies #[trigger] whole[j] == (s[i + j].0@, tree_view(s[i + j].1)) by {
            if j > 0 {
                assert(whole[j] == rest[j - 1]);
            }
        }
    }
}

/// Two entry lists with the same keys and views per position have the
/// same content.
proof fn lemma_entries_view_ext(a: Seq<(String, JsonTree)>, b: Seq<(Seq<char>, JsonView)>)
    requires
        a.len() == b.len(),
        forall|j: int| 0 <= j < a.len() ==> #[trigger] b[j] == (a[j].0@, tree_view(a[j].1)),
    ensures
        entries_view_from(a, 0) == b,
{
    lemma_entries_view(a, 0);
    assert(entries_view_from(a, 0) =~= b);
}

/// Position of the first entry whose key is `key`.
fn find_key(es: &Vec<(String, JsonTree)>, key: &str) -> (r: Option<usize>)
    ensures
        match r {
            Some(p) => position_from(entries_view_from(es@, 0), key@, 0) == Some(p as int) && p < es@.len(),
            None => position_from(entries_view_from(es@, 0), key@, 0) is None,
        },
{
    let ghost ev = entries_view_from(es@, 0);
    proof {
        lemma_entries_view(es@, 0);
    }
    let mut p: usize = 0;
    while p < es.len()
        invariant
            p <= es@.len(),
            ev == entries_view_from(es@, 0),
            ev.len() == es@.len(),
            forall|j: int| 0 <= j < es@.len() ==> #[trigger] ev[j] == (es@[j].0@, tree_view(es@[j].1)),
            position_from(ev, key@, 0) == position_from(ev, key@, p as int),
        decreases es.len() - p,
    {
        assert(ev[p as int] == (es@[p as int].0@, tree_view(es@[p as int].1)));
        if same_text(es[p].0.as_str(), key) {
            return Some(p);
        }
        p = p + 1;
    }
    None
}

/// Merges a child document over its base (see [`merge_view`]), taking
/// both by value.
pub fn deep_merge(base: JsonTree, child: JsonTree) -> (r: JsonTree)
    ensures
        tree_view(r) == merge_view(tree_view(base), tree_view(child)),
    decreases tree_view(child),
{
    match child {
        JsonTree::Leaf(s) => JsonTree::Leaf(s),
        JsonTree::Object(ce) => match base {
            JsonTree::Leaf(_) => JsonTree::Object(ce),
            JsonTree::Object(be) => {
                let ghost cev = entries_view_from(ce@, 0);
                let ghost bev = entries_view_from(be@, 0);
                proof {
                    lemma_entries_view(ce@, 0);
                    lemma_entries_view(be@, 0);
                }
                let mut out = be;
                let mut rest = ce;
                let ghost mut k: int = 0;
                while rest.len() > 0
                    invariant
                        0 <= k <= cev.len(),
                        rest@.len() == cev.len() - k,
                        forall|j: int| 0 <= j < rest@.len() ==> #[trigger] cev[k + j] == (rest@[j].0@, tree_view(rest@[j].1)),
                        cev == entries_view_from(ce@, 0),
                        merge_entries(bev, cev, 0) == merge_entries(entries_view_from(out@, 0), cev, k),
                        tree_view(child) == JsonView::Object(cev),
                    decreases rest.len(),
                {
                    let ghost old_rest = rest@;
                    let (key, v) = rest.remove(0);
                    proof {
                        assert(cev[k + 0] == (old_rest[0].0@, tree_view(old_rest[0].1)));
                        let cv = tree_view(child);
                        assert(decreases_to!(cv => cv->Object_0));
                        assert(decreases_to!(cv->Object_0 => cev[k]));
                        assert(decreases_to!(cev[k] => cev[k].1));
                        assert forall|j: int| 0 <= j < rest@.len() implies #[trigger] cev[(k + 1) + j] == (rest@[j].0@, tree_view(rest@[j].1)) by {
                            assert(rest@[j] == old_rest[j + 1]);
                            assert(cev[k + (j + 1)] == (old_rest[j + 1].0@, tree_view(old_rest[j + 1].1)));
                        }
                        lemma_entries_view(out@, 0);
                    }
                    let ghost outv = entries_view_from(out@, 0);
                    let pos = find_key(&out, key.as_str());
                    if let Some(p) = pos {
                        let ghost pre = out@;
                        proof {
                            lemma_position_in_range(outv, key@, 0);
                            assert(outv[p as int] == (pre[p as int].0@, tree_view(pre[p as int].1)));
                        }
                        let (kk, old) = out.remove(p);
                        let merged = deep_merge(old, v);
                        let ghost before = out@;
                        out.insert(p, (kk, merged));
                        proof {
                            let target = outv.update(p as int, (key@, merge_view(outv[p as int].1, tree_view(v))));
                            assert forall|j: int| 0 <= j < out@.len() implies #[trigger] target[j] == (out@[j].0@, tree_view(out@[j].1)) by {
                                if j < p {
                                    assert(out@[j] == before[j]);
                                } else if j > p {
                                    assert(out@[j] == before[j - 1]);
                                }
                            }
                            lemma_entries_view_ext(out@, target);
                        }
                    } else {
                        proof {
                            lemma_position_in_range(outv, key@, 0);
                        }
                        let ghost before = out@;
                        out.push((key, v));
                        proof {
                            let target = outv.push((key@, tree_view(v)));
                            assert forall|j: int| 0 <= j < out@.len() implies #[trigger] target[j] == (out@[j].0@, tree_view(out@[j].1)) by {
                                if j < before.len() {
                                    assert(out@[j] == before[j]);
                                }
                            }
                            lemma_entries_view_ext(out@, target);
                        }
                    }
                    proof {
                        k = k + 1;
                    }
                }
                JsonTree::Object(out)
            },
        },
    }
}

/// The contents of a list of documents.
pub open spec fn trees_view(ts: Seq<JsonTree>) -> Seq<JsonView> {
    ts.map_values(|t: JsonTree| tree_view(t))
}

/// An inheritance chain merged from the leaf up: `docs[0]` is the leaf,
/// each next document the base of the one before, and every base is laid
/// under everything merged so far.
pub open spec fn chain_merge(docs: Seq<JsonView>) -> JsonView
    decreases docs.len(),
{
    if docs.len() <= 1 {
        if docs.len() == 1 {
            docs[0]
        } else {
            JsonView::Object(Seq::empty())
        }
    } else {
        merge_view(docs.last(), chain_merge(docs.drop_last()))
    }
}

/// Merges an inheritance chain (leaf first, root last) into one document
/// (see [`chain_merge`]).
pub fn merge_chain(docs: Vec<JsonTree>) -> (r: JsonTree)
    requires
        docs@.len() >= 1,
    ensures
        tree_view(r) == chain_merge(trees_view(docs@)),
{
    let ghost all = trees_view(docs@);
    let mut rest = docs;
    let ghost d0 = rest@;
    let mut acc = rest.remove(0);
    let ghost mut k: int = 1;
    proof {
        assert(all.take(1).drop_last() =~= Seq::<JsonView>::empty());
        assert(chain_merge(all.take(1)) == all[0]);
    }
    while rest.len() > 0
        invariant
            all == trees_view(d0),
            1 <= k <= all.len(),
            rest@.len() == all.len() - k,
            forall|j: int| 0 <= j < rest@.len() ==> #[trigger] tree_view(rest@[j]) == all[k + j],
            tree_view(acc) == chain_merge(all.take(k)),
        decreases rest.len(),
    {
        let ghost before = rest@;
        let b = rest.remove(0);
        proof {
            assert(tree_view(before[0]) == all[k + 0]);
            assert forall|j: int| 0 <= j < rest@.len() implies #[trigger] tree_view(rest@[j]) == all[(k + 1) + j] by {
                assert(rest@[j] == before[j + 1]);
                assert(tree_view(before[j + 1]) == all[k + (j + 1)]);
            }
            assert(all.take(k + 1).drop_last() =~= all.take(k));
            assert(all.take(k + 1).last() == all[k]);
        }
        acc = deep_merge(b, acc);
        proof {
            k = k + 1;
        }
    }
    proof {
        assert(all.take(k) =~= all);
    }
    acc
}

} // verus!
