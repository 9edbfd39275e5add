//! The widget registry: the one map from logical ids to native widget
//! records, holding each record's handle, kind, parent and sibling position.
//!
//! Invariants: ids are unique and never the reserved root id; every parent
//! is a live earlier entry (so the parent relation is a forest and parents
//! stand before their children); the child indices under any one parent are
//! exactly `0 .. n` where `n` is that parent's live child count; handles are
//! unique and below the allocation counter.

use vstd::prelude::*;

verus! {

use crate::kind::WidgetKind;
use crate::strutil::str_eq;

/// The spec-level view of a sequence of owned `(id, record)` pairs.
pub open spec fn pairs_view(s: Seq<(String, WidgetInfo)>) -> Seq<(Seq<char>, WidgetRec)> {
    s.map_values(|p: (String, WidgetInfo)| (p.0@, p.1@))
}

/// The spec-level view of a sequence of owned strings.
pub open spec fn strs_view(s: Seq<String>) -> Seq<Seq<char>> {
    s.map_values(|x: String| x@)
}

/// The reserved logical id of the implicit root container.
pub open spec fn spec_root_key() -> Seq<char> {
    "__root__"@
}

/// Executable form of the reserved root id.
pub fn root_key() -> (r: &'static str)
    ensures
        r@ == spec_root_key(),
{
    "__root__"
}

/// One record per live widget.
#[derive(Debug, Clone)]
pub struct WidgetInfo {
    /// Handle of the native widget, owned by the native tree.
    pub widget_id: u64,
    /// Which native widget type was instantiated.
    pub kind: WidgetKind,
    /// Logical id of the parent; `None` means the implicit root container.
    pub parent_id: Option<String>,
    /// Position among the parent's current children.
    pub child_index: usize,
}

/// Spec-level form of a widget record.
pub ghost struct WidgetRec {
    /// Handle of the native widget.
    pub handle: u64,
    /// Which native widget type was instantiated.
    pub kind: WidgetKind,
    /// Parent key; `None` means the implicit root container.
    pub parent: Option<Seq<char>>,
    /// Position among the parent's current children.
    pub child_index: nat,
}

impl WidgetInfo {
    /// A field-wise copy whose view equals this record's view.
    pub fn duplicate(&self) -> (r: WidgetInfo)
        ensures
            r@ == self@,
    {
        WidgetInfo {
            widget_id: self.widget_id,
            kind: self.kind,
            parent_id: match &self.parent_id {
                Some(p) => Some(p.clone()),
                None => None,
            },
            child_index: self.child_index,
        }
    }
}

impl View for WidgetInfo {
    type V = WidgetRec;

    open spec fn view(&self) -> WidgetRec {
        WidgetRec {
            handle: self.widget_id,
            kind: self.kind,
            parent: match self.parent_id {
                Some(p) => Some(p@),
                None => None,
            },
            child_index: self.child_index as nat,
        }
    }
}

/// How many of the first `upto` entries have parent `p`.
pub open spec fn count_children_upto(
    ev: Seq<(Seq<char>, WidgetRec)>,
    p: Option<Seq<char>>,
    upto: int,
) -> nat
    decreases upto,
{
    if upto <= 0 {
        0
    } else {
        count_children_upto(ev, p, upto - 1) + if 0 <= upto - 1 < ev.len() && ev[upto - 1].1.parent
            == p {
            1nat
        } else {
            0nat
        }
    }
}

/// How many entries have parent `p`.
pub open spec fn count_children(ev: Seq<(Seq<char>, WidgetRec)>, p: Option<Seq<char>>) -> nat {
    count_children_upto(ev, p, ev.len() as int)
}

/// Some entry has parent `p` and child index `k`.
pub open spec fn has_child_at(
    ev: Seq<(Seq<char>, WidgetRec)>,
    p: Option<Seq<char>>,
    k: nat,
) -> bool {
    exists|i: int| 0 <= i < ev.len() && ev[i].1.parent == p && ev[i].1.child_index == k
}

/// No two entries share a key.
pub open spec fn keys_unique(ev: Seq<(Seq<char>, WidgetRec)>) -> bool {
    forall|i: int, j: int| 0 <= i < j < ev.len() ==> ev[i].0 != ev[j].0
}

/// No entry carries the reserved root id.
pub open spec fn no_root_key(ev: Seq<(Seq<char>, WidgetRec)>) -> bool {
    forall|i: int| 0 <= i < ev.len() ==> ev[i].0 != spec_root_key()
}

/// The parent of entry `i` is a live earlier entry (or the root).
pub open spec fn parent_ok_at(ev: Seq<(Seq<char>, WidgetRec)>, i: int) -> bool {
    match ev[i].1.parent {
        None => true,
        Some(p) => p != spec_root_key() && exists|j: int| 0 <= j < i && ev[j].0 == p,
    }
}

/// Every entry's parent is a live earlier entry (or the root).
pub open spec fn parents_precede(ev: Seq<(Seq<char>, WidgetRec)>) -> bool {
    forall|i: int| 0 <= i < ev.len() ==> #[trigger] parent_ok_at(ev, i)
}

/// No two children of one parent share a child index.
pub open spec fn siblings_distinct(ev: Seq<(Seq<char>, WidgetRec)>) -> bool {
    forall|i: int, j: int|
        0 <= i < j < ev.len() && ev[i].1.parent == ev[j].1.parent ==> ev[i].1.child_index != ev[
            j
        ].1.child_index
}

/// Every child index is below its parent's live child count.
pub open spec fn indices_bounded(ev: Seq<(Seq<char>, WidgetRec)>) -> bool {
    forall|i: int|
        0 <= i < ev.len() ==> (#[trigger] ev[i].1.child_index) < count_children(ev, ev[i].1.parent)
}

/// Every position `k` below a parent's child count is taken by some child:
/// with distinctness and boundedness, child indices under any parent are a
/// gap-free permutation of `0 .. n`.
pub open spec fn indices_complete(ev: Seq<(Seq<char>, WidgetRec)>) -> bool {
    forall|p: Option<Seq<char>>, k: nat|
        k < count_children(ev, p) ==> #[trigger] has_child_at(ev, p, k)
}

/// The parent selector a parent key names: the reserved root id selects the
/// root (`None`), any other key selects itself.
pub open spec fn spec_parent_sel(k: Seq<char>) -> Option<Seq<char>> {
    if k == spec_root_key() {
        None
    } else {
        Some(k)
    }
}

/// Counting only reads the first `upto` entries.
proof fn lemma_count_prefix_agree(
    ev1: Seq<(Seq<char>, WidgetRec)>,
    ev2: Seq<(Seq<char>, WidgetRec)>,
    p: Option<Seq<char>>,
    upto: int,
)
    requires
        upto <= ev1.len(),
        upto <= ev2.len(),
        forall|k: int| 0 <= k < upto ==> ev1[k] == ev2[k],
    ensures
        count_children_upto(ev1, p, upto) == count_children_upto(ev2, p, upto),
    decreases upto,
{
    if upto > 0 {
        lemma_count_prefix_agree(ev1, ev2, p, upto - 1);
    }
}

/// The count over a prefix never exceeds the prefix length.
proof fn lemma_count_le(ev: Seq<(Seq<char>, WidgetRec)>, p: Option<Seq<char>>, upto: int)
    requires
        0 <= upto,
    ensures
        count_children_upto(ev, p, upto) <= upto,
    decreases upto,
{
    if upto > 0 {
        lemma_count_le(ev, p, upto - 1);
    }
}

/// Appending one entry raises the count of its parent by one and leaves
/// every other count unchanged.
proof fn lemma_count_push(
    ev: Seq<(Seq<char>, WidgetRec)>,
    e: (Seq<char>, WidgetRec),
    p: Option<Seq<char>>,
)
    ensures
        count_children(ev.push(e), p) == count_children(ev, p) + if e.1.parent == p {
            1nat
        } else {
            0nat
        },
{
    let ev2 = ev.push(e);
    lemma_count_prefix_agree(ev2, ev, p, ev.len() as int);
    assert(count_children_upto(ev2, p, ev2.len() as int) == count_children_upto(
        ev2,
        p,
        ev.len() as int,
    ) + if ev2[ev.len() as int].1.parent == p {
        1nat
    } else {
        0nat
    });
}

/// Pushing a registrable entry keeps every registry invariant.
proof fn lemma_wf_push(m_next: u64, ev: Seq<(Seq<char>, WidgetRec)>, e: (Seq<char>, WidgetRec))
    requires
        keys_unique(ev),
        no_root_key(ev),
        parents_precede(ev),
        siblings_distinct(ev),
        indices_bounded(ev),
        indices_complete(ev),
        forall|i: int| 0 <= i < ev.len() ==> (#[trigger] ev[i].1.handle) < m_next,
        forall|i: int, j: int| 0 <= i < j < ev.len() ==> ev[i].1.handle != ev[j].1.handle,
        e.0 != spec_root_key(),
        forall|i: int| 0 <= i < ev.len() ==> (#[trigger] ev[i].0) != e.0,
        e.1.handle < m_next,
        forall|i: int| 0 <= i < ev.len() ==> (#[trigger] ev[i].1.handle) != e.1.handle,
        match e.1.parent {
            None => true,
            Some(p) => p != spec_root_key() && exists|j: int|
                0 <= j < ev.len() && (#[trigger] ev[j].0) == p,
        },
        e.1.child_index == count_children(ev, e.1.parent),
    ensures
        keys_unique(ev.push(e)),
        no_root_key(ev.push(e)),
        parents_precede(ev.push(e)),
        siblings_distinct(ev.push(e)),
        indices_bounded(ev.push(e)),
        indices_complete(ev.push(e)),
        forall|i: int| 0 <= i < ev.push(e).len() ==> (#[trigger] ev.push(e)[i].1.handle) < m_next,
        forall|i: int, j: int|
            0 <= i < j < ev.push(e).len() ==> ev.push(e)[i].1.handle != ev.push(e)[j].1.handle,
{
    let ev2 = ev.push(e);
    let n = ev.len() as int;
    assert forall|i: int| 0 <= i < ev2.len() implies #[trigger] parent_ok_at(ev2, i) by {
        if i < n {
            assert(parent_ok_at(ev, i));
            match ev[i].1.parent {
                None => {},
                Some(p) => {
                    let j = choose|j: int| 0 <= j < i && ev[j].0 == p;
                    assert(ev2[j].0 == p);
                },
            }
        } else {
            match e.1.parent {
                None => {},
                Some(p) => {
                    let j = choose|j: int| 0 <= j < ev.len() && ev[j].0 == p;
                    assert(ev2[j].0 == p);
                },
            }
        }
    }
    assert forall|p: Option<Seq<char>>| true implies count_children(ev2, p) == count_children(
        ev,
        p,
    ) + if e.1.parent == p {
        1nat
    } else {
        0nat
    } by {
        lemma_count_push(ev, e, p);
    }
    assert forall|i: int, j: int|
        0 <= i < j < ev2.len() && ev2[i].1.parent == ev2[j].1.parent implies ev2[i].1.child_index
        != ev2[j].1.child_index by {
        if j < n {
        } else {
            assert(ev2[i] == ev[i]);
            assert(ev[i].1.child_index < count_children(ev, ev[i].1.parent));
        }
    }
    assert forall|i: int|
        0 <= i < ev2.len() implies (#[trigger] ev2[i].1.child_index) < count_children(
        ev2,
        ev2[i].1.parent,
    ) by {
        if i < n {
            assert(ev[i].1.child_index < count_children(ev, ev[i].1.parent));
        }
    }
    assert forall|p: Option<Seq<char>>, k: nat|
        k < count_children(ev2, p) implies #[trigger] has_child_at(ev2, p, k) by {
        if p == e.1.parent && k == e.1.child_index {
            assert(ev2[n].1.parent == p && ev2[n].1.child_index == k);
        } else {
            assert(k < count_children(ev, p));
            assert(has_child_at(ev, p, k));
            let i = choose|i: int|
                0 <= i < ev.len() && ev[i].1.parent == p && ev[i].1.child_index == k;
            assert(ev2[i].1.parent == p && ev2[i].1.child_index == k);
        }
    }
}

/// The widget registry.
pub struct WidgetManager {
    entries: Vec<(String, WidgetInfo)>,
    next_handle: u64,
}

impl WidgetManager {
    /// The registry's contents: one `(id, record)` pair per live widget, in
    /// creation order (parents before their children).
    pub closed spec fn entries_view(&self) -> Seq<(Seq<char>, WidgetRec)> {
        pairs_view(self.entries@)
    }

    /// The allocation bound: every live handle is below it.
    pub closed spec fn spec_next_handle(&self) -> u64 {
        self.next_handle
    }

    /// A widget with id `k` is live.
    pub open spec fn spec_contains(&self, k: Seq<char>) -> bool {
        seq_contains_key(self.entries_view(), k)
    }

    /// The record registered under `k`.
    pub open spec fn spec_record_of(&self, k: Seq<char>) -> WidgetRec {
        self.entries_view()[spec_index_of(self.entries_view(), k)].1
    }

    /// Live child count of the parent selector `p`.
    pub open spec fn spec_child_count(&self, p: Option<Seq<char>>) -> nat {
        count_children(self.entries_view(), p)
    }

    /// Every handle is unique and below the allocation counter.
    pub open spec fn handles_ok(&self) -> bool {
        let ev = self.entries_view();
        &&& forall|i: int| 0 <= i < ev.len() ==> (#[trigger] ev[i].1.handle) < self.spec_next_handle()
        &&& forall|i: int, j: int|
            0 <= i < j < ev.len() ==> ev[i].1.handle != ev[j].1.handle
    }

    /// The registry invariant.
    pub open spec fn wf(&self) -> bool {
        let ev = self.entries_view();
        &&& keys_unique(ev)
        &&& no_root_key(ev)
        &&& parents_precede(ev)
        &&& siblings_distinct(ev)
        &&& indices_bounded(ev)
        &&& indices_complete(ev)
        &&& self.handles_ok()
    }

    /// An empty registry.
    pub fn new() -> (r: WidgetManager)
        ensures
            r.wf(),
            r.entries_view() =~= Seq::<(Seq<char>, WidgetRec)>::empty(),
    {
        let r = WidgetManager { entries: Vec::new(), next_handle: 1 };
        proof {
            assert(r.entries_view() =~= Seq::<(Seq<char>, WidgetRec)>::empty());
        }
        r
    }

    /// Hand out a handle no live widget carries, and never the same twice.
    pub fn fresh_handle(&mut self) -> (r: u64)
        ensures
            final(self).entries_view() == old(self).entries_view(),
            final(self).spec_next_handle() >= old(self).spec_next_handle(),
            r == old(self).spec_next_handle(),
            r < final(self).spec_next_handle() || old(self).spec_next_handle() == u64::MAX,
            old(self).wf() ==> final(self).wf(),
            old(self).wf() ==> forall|i: int|
                0 <= i < final(self).entries_view().len() ==> (#[trigger] final(self).entries_view()[i]).1.handle != r,
    {
        let r = self.next_handle;
        if self.next_handle < u64::MAX {
            self.next_handle = self.next_handle + 1;
        }
        r
    }

    /// Position of the entry registered under `id`, if any.
    fn find_index(&self, id: &str) -> (r: Option<usize>)
        ensures
            match r {
                Some(i) => i < self.entries_view().len() && self.entries_view()[i as int].0 == id@,
                None => !self.spec_contains(id@),
            },
    {
        let ghost ev = self.entries_view();
        let n = self.entries.len();
        let mut i: usize = 0;
        while i < n
            invariant
                0 <= i <= n,
                n == self.entries@.len(),
                ev == self.entries_view(),
                forall|k: int| 0 <= k < i ==> ev[k].0 != id@,
            decreases n - i,
        {
            if str_eq(self.entries[i].0.as_str(), id) {
                return Some(i);
            }
            i += 1;
        }
        None
    }

    /// Look an id up, handing back a copy of its record.
    pub fn get(&self, id: &str) -> (r: Option<WidgetInfo>)
        requires
            self.wf(),
        ensures
            match r {
                Some(info) => self.spec_contains(id@) && info@ == self.spec_record_of(id@),
                None => !self.spec_contains(id@),
            },
    {
        match self.find_index(id) {
            Some(i) => {
                let info = self.entries[i].1.duplicate();
                proof {
                    let ev = self.entries_view();
                    let j = choose|j: int| 0 <= j < ev.len() && ev[j].0 == id@;
                    assert(ev[j].0 == ev[i as int].0);
                    assert(j == i as int);
                }
                Some(info)
            },
            None => None,
        }
    }

    /// Live child count under `parent_key` (the reserved root id counts the
    /// root's children). Always recomputed from live records, never cached.
    pub fn current_child_count(&self, parent_key: &str) -> (r: usize)
        ensures
            r == self.spec_child_count(spec_parent_sel(parent_key@)),
    {
        let ghost ev = self.entries_view();
        let ghost p = spec_parent_sel(parent_key@);
        let n = self.entries.len();
        let mut c: usize = 0;
        let mut i: usize = 0;
        while i < n
            invariant
                0 <= i <= n,
                c <= i,
                n == self.entries@.len(),
                ev == self.entries_view(),
                p == spec_parent_sel(parent_key@),
                c == count_children_upto(ev, p, i as int),
            decreases n - i,
        {
            if parent_matches(&self.entries[i].1, parent_key) {
                c += 1;
            }
            i += 1;
        }
        c
    }

    /// The index a newly created child of `parent_key` should be recorded
    /// at: the current live child count.
    pub fn next_child_index(&self, parent_key: &str) -> (r: usize)
        ensures
            r == self.spec_child_count(spec_parent_sel(parent_key@)),
    {
        self.current_child_count(parent_key)
    }

    /// Insert a new record. The insertion is refused (`false`, no change)
    /// when the id is reserved or taken, the handle is stale or in use, the
    /// parent is not live, or the child index is not the parent's next one.
    #[verifier::loop_isolation(false)]
    pub fn register(&mut self, id: String, info: WidgetInfo) -> (r: bool)
        requires
            old(self).wf(),
        ensures
            final(self).wf(),
            r == spec_can_register(*old(self), id@, info@),
            final(self).spec_next_handle() == old(self).spec_next_handle(),
            r ==> final(self).entries_view() == old(self).entries_view().push((id@, info@)),
            !r ==> final(self).entries_view() == old(self).entries_view(),
    {
        let ghost ev = self.entries_view();
        if str_eq(id.as_str(), root_key()) {
            return false;
        }
        match self.find_index(id.as_str()) {
            Some(_) => {
                return false;
            },
            None => {},
        }
        if info.widget_id >= self.next_handle {
            return false;
        }
        let n = self.entries.len();
        let mut i: usize = 0;
        while i < n
            invariant
                0 <= i <= n,
                n == self.entries@.len(),
                ev == self.entries_view(),
                forall|k: int| 0 <= k < i ==> (#[trigger] ev[k].1.handle) != info.widget_id,
            decreases n - i,
        {
            if self.entries[i].1.widget_id == info.widget_id {
                proof {
                    assert(ev[i as int].1.handle == info@.handle);
                }
                return false;
            }
            i += 1;
        }
        let parent_live = match &info.parent_id {
            None => true,
            Some(p) => {
                if str_eq(p.as_str(), root_key()) {
                    false
                } else {
                    match self.find_index(p.as_str()) {
                        Some(_) => true,
                        None => false,
                    }
                }
            },
        };
        if !parent_live {
            return false;
        }
        let expected = match &info.parent_id {
            None => self.current_child_count(root_key()),
            Some(p) => self.current_child_count(p.as_str()),
        };
        if info.child_index != expected {
            return false;
        }
        proof {
            lemma_wf_push(self.spec_next_handle(), ev, (id@, info@));
        }
        self.entries.push((id, info));
        proof {
            assert(self.entries_view() =~= ev.push((id@, info@)));
        }
        true
    }

    /// Remove `id` and, transitively, every record whose parent chain leads
    /// to it, then pull the removed root's surviving later siblings down one
    /// position so child indices stay contiguous. Hands back the root record
    /// removed, or `None` (and no change) when `id` was already absent.
    #[verifier::loop_isolation(false)]
    pub fn remove_widget_subtree(&mut self, id: &str) -> (r: Option<WidgetInfo>)
        requires
            old(self).wf(),
        ensures
            final(self).wf(),
            final(self).spec_next_handle() == old(self).spec_next_handle(),
            !old(self).spec_contains(id@) ==> r is None && final(self).entries_view() == old(
                self,
            ).entries_view(),
            old(self).spec_contains(id@) ==> {
                let ev = old(self).entries_view();
                let rx = spec_index_of(ev, id@);
                &&& r matches Some(info) && info@ == old(self).spec_record_of(id@)
                &&& final(self).entries_view() == remove_result(ev, rx, ev.len() as int)
                &&& !final(self).spec_contains(id@)
                &&& final(self).spec_child_count(old(self).spec_record_of(id@).parent) + 1 == old(
                    self,
                ).spec_child_count(old(self).spec_record_of(id@).parent)
                &&& forall|k: Seq<char>|
                    final(self).spec_contains(k) <==> (old(self).spec_contains(k)
                        && !key_in_subtree(ev, rx, k))
            },
    {
        let ghost ev = self.entries_view();
        let r_idx = match self.find_index(id) {
            None => {
                return None;
            },
            Some(i) => i,
        };
        let ghost rx = r_idx as int;
        proof {
            assert(seq_contains_key(ev, id@));
            let c = spec_index_of(ev, id@);
            assert(0 <= c < ev.len() && ev[c].0 == id@);
            if c < rx {
                assert(ev[c].0 != ev[rx].0);
            } else if c > rx {
                assert(ev[rx].0 != ev[c].0);
            }
            assert(c == rx);
        }
        let removed = self.entries[r_idx].1.duplicate();
        let n = self.entries.len();
        let mut out: Vec<(String, WidgetInfo)> = Vec::new();
        let mut keys: Vec<String> = Vec::new();
        let mut i: usize = 0;
        while i < n
            invariant
                0 <= i <= n,
                strs_view(keys@) == subtree_keys_upto(ev, rx, i as int),
                pairs_view(out@) == remove_result(ev, rx, i as int),
            decreases n - i,
        {
            let is_member = if i == r_idx {
                true
            } else {
                match &self.entries[i].1.parent_id {
                    Some(p) => contains_string(&keys, p.as_str()),
                    None => false,
                }
            };
            proof {
                assert(is_member == in_subtree(ev, rx, i as int));
                lemma_keys_step(ev, rx, i as int);
            }
            if is_member {
                keys.push(self.entries[i].0.clone());
                proof {
                    assert(strs_view(keys@) =~= subtree_keys_upto(ev, rx, i as int + 1));
                }
            } else {
                let mut info2 = self.entries[i].1.duplicate();
                if opt_parent_eq(&info2.parent_id, &removed.parent_id) && info2.child_index
                    > removed.child_index {
                    info2.child_index = info2.child_index - 1;
                }
                proof {
                    assert((self.entries@[i as int].0@, info2@) == reindex_after(
                        ev[i as int],
                        ev[rx].1.parent,
                        ev[rx].1.child_index,
                    ));
                }
                out.push((self.entries[i].0.clone(), info2));
                proof {
                    assert(pairs_view(out@) =~= remove_result(ev, rx, i as int + 1));
                }
            }
            i += 1;
        }
        proof {
            lemma_wf_remove(self.spec_next_handle(), ev, rx);
        }
        self.entries = out;
        proof {
            assert(self.entries_view() == remove_result(ev, rx, ev.len() as int));
            assert(!key_in_subtree(ev, rx, id@) ==> false) by {
                if !key_in_subtree(ev, rx, id@) {
                    assert(in_subtree(ev, rx, rx) && ev[rx].0 == id@);
                }
            };
        }
        Some(removed)
    }
}

/// Whether the two optional parent ids name the same parent.
pub fn opt_parent_eq(a: &Option<String>, b: &Option<String>) -> (r: bool)
    ensures
        r == (spec_opt_view(*a) == spec_opt_view(*b)),
{
    match (a, b) {
        (None, None) => true,
        (Some(x), Some(y)) => str_eq(x.as_str(), y.as_str()),
        _ => false,
    }
}

/// The view of an optional owned string.
pub open spec fn spec_opt_view(o: Option<String>) -> Option<Seq<char>> {
    match o {
        Some(s) => Some(s@),
        None => None,
    }
}

/// Whether some string in `v` holds the characters of `s`.
fn contains_string(v: &Vec<String>, s: &str) -> (r: bool)
    ensures
        r == strs_view(v@).contains(s@),
{
    let n = v.len();
    let mut i: usize = 0;
    while i < n
        invariant
            0 <= i <= n,
            n == v@.len(),
            forall|k: int| 0 <= k < i ==> strs_view(v@)[k] != s@,
        decreases n - i,
    {
        if str_eq(v[i].as_str(), s) {
            proof {
                assert(strs_view(v@)[i as int] == s@);
            }
            return true;
        }
        i += 1;
    }
    proof {
        if strs_view(v@).contains(s@) {
            let k = choose|k: int| 0 <= k < strs_view(v@).len() && strs_view(v@)[k] == s@;
            assert(strs_view(v@)[k] != s@);
        }
    }
    false
}

/// Whether `register` accepts `(k, rec)` on registry `m`: the id is new and
/// not reserved, the handle fresh, the parent live (or the root), and the
/// child index the parent's next free position.
pub open spec fn spec_can_register(m: WidgetManager, k: Seq<char>, rec: WidgetRec) -> bool {
    let ev = m.entries_view();
    &&& k != spec_root_key()
    &&& !m.spec_contains(k)
    &&& rec.handle < m.spec_next_handle()
    &&& forall|i: int| 0 <= i < ev.len() ==> (#[trigger] ev[i].1.handle) != rec.handle
    &&& match rec.parent {
        None => true,
        Some(p) => p != spec_root_key() && m.spec_contains(p),
    }
    &&& rec.child_index == m.spec_child_count(rec.parent)
}

/// The keys of the subtree members among the first `upto` entries, in
/// order: the removed root's own key, then the key of every entry whose
/// parent key was already collected. Parents stand before children, so one
/// forward pass collects the whole subtree.
pub open spec fn subtree_keys_upto(
    ev: Seq<(Seq<char>, WidgetRec)>,
    r: int,
    upto: int,
) -> Seq<Seq<char>>
    decreases upto,
{
    if upto <= 0 || !(0 <= r < ev.len()) {
        Seq::empty()
    } else {
        let prev = subtree_keys_upto(ev, r, upto - 1);
        let i = upto - 1;
        let member = i < ev.len() && (i == r || match ev[i].1.parent {
            Some(p) => prev.contains(p),
            None => false,
        });
        if member {
            prev.push(ev[i].0)
        } else {
            prev
        }
    }
}

/// Entry `i` belongs to the subtree rooted at entry `r`: it is `r` itself,
/// or its parent key was collected from the entries before it.
pub open spec fn in_subtree(ev: Seq<(Seq<char>, WidgetRec)>, r: int, i: int) -> bool {
    &&& 0 <= r < ev.len()
    &&& 0 <= i < ev.len()
    &&& (i == r || match ev[i].1.parent {
        Some(p) => subtree_keys_upto(ev, r, i).contains(p),
        None => false,
    })
}

/// Key `k` names a member of the subtree rooted at entry `r`.
pub open spec fn key_in_subtree(ev: Seq<(Seq<char>, WidgetRec)>, r: int, k: Seq<char>) -> bool {
    exists|i: int| #![trigger in_subtree(ev, r, i)] in_subtree(ev, r, i) && ev[i].0 == k
}

/// One collection step: the keys over `i + 1` entries are the keys over `i`
/// entries, extended with entry `i`'s key exactly when it is a member.
proof fn lemma_keys_step(ev: Seq<(Seq<char>, WidgetRec)>, r: int, i: int)
    requires
        0 <= r < ev.len(),
        0 <= i < ev.len(),
    ensures
        subtree_keys_upto(ev, r, i + 1) == if in_subtree(ev, r, i) {
            subtree_keys_upto(ev, r, i).push(ev[i].0)
        } else {
            subtree_keys_upto(ev, r, i)
        },
{
}

/// Collected keys only grow along the pass.
proof fn lemma_keys_mono(ev: Seq<(Seq<char>, WidgetRec)>, r: int, u1: int, u2: int, k: Seq<char>)
    requires
        u1 <= u2,
        subtree_keys_upto(ev, r, u1).contains(k),
    ensures
        subtree_keys_upto(ev, r, u2).contains(k),
    decreases u2 - u1,
{
    if u1 < u2 {
        lemma_keys_mono(ev, r, u1, u2 - 1, k);
        let prev = subtree_keys_upto(ev, r, u2 - 1);
        let cur = subtree_keys_upto(ev, r, u2);
        if cur != prev {
            let idx = choose|idx: int| 0 <= idx < prev.len() && prev[idx] == k;
            assert(cur[idx] == k);
        }
    }
}

/// The key at position `idx` of the collected keys belongs to a subtree
/// member among the first `u` entries.
pub open spec fn collected_key_ok(ev: Seq<(Seq<char>, WidgetRec)>, r: int, u: int, idx: int) -> bool {
    exists|j: int|
        #![trigger in_subtree(ev, r, j)]
        0 <= j < u && in_subtree(ev, r, j) && ev[j].0 == subtree_keys_upto(ev, r, u)[idx]
}

/// Every collected key is the key of a subtree member, and every subtree
/// member's key is collected.
proof fn lemma_keys_elems(ev: Seq<(Seq<char>, WidgetRec)>, r: int, u: int)
    requires
        0 <= r < ev.len(),
        u <= ev.len(),
    ensures
        forall|idx: int|
            0 <= idx < subtree_keys_upto(ev, r, u).len() ==> #[trigger] collected_key_ok(
                ev,
                r,
                u,
                idx,
            ),
        forall|j: int|
            0 <= j < u && #[trigger] in_subtree(ev, r, j) ==> subtree_keys_upto(ev, r, u).contains(
                ev[j].0,
            ),
    decreases (if u >= 0 {
        u
    } else {
        0
    }),
{
    if u > 0 {
        lemma_keys_elems(ev, r, u - 1);
        let prev = subtree_keys_upto(ev, r, u - 1);
        let cur = subtree_keys_upto(ev, r, u);
        let i = u - 1;
        lemma_keys_step(ev, r, i);
        assert forall|idx: int| 0 <= idx < cur.len() implies #[trigger] collected_key_ok(
            ev,
            r,
            u,
            idx,
        ) by {
            if idx < prev.len() {
                assert(cur[idx] == prev[idx]);
                assert(collected_key_ok(ev, r, u - 1, idx));
                let j = choose|j: int|
                    #![trigger in_subtree(ev, r, j)]
                    0 <= j < u - 1 && in_subtree(ev, r, j) && ev[j].0 == prev[idx];
                assert(0 <= j < u && in_subtree(ev, r, j) && ev[j].0 == cur[idx]);
            } else {
                assert(in_subtree(ev, r, i) && ev[i].0 == cur[idx]);
            }
        }
        assert forall|j: int| 0 <= j < u && #[trigger] in_subtree(ev, r, j) implies cur.contains(
            ev[j].0,
        ) by {
            if j < u - 1 {
                assert(prev.contains(ev[j].0));
                let idx = choose|idx: int| 0 <= idx < prev.len() && prev[idx] == ev[j].0;
                assert(cur[idx] == ev[j].0);
            } else {
                assert(cur[prev.len() as int] == ev[j].0);
            }
        }
    }
}

/// Nothing is collected before the removed root's own position.
proof fn lemma_keys_empty_before_root(ev: Seq<(Seq<char>, WidgetRec)>, r: int, u: int)
    requires
        u <= r,
    ensures
        subtree_keys_upto(ev, r, u) == Seq::<Seq<char>>::empty(),
    decreases (if u >= 0 {
        u
    } else {
        0
    }),
{
    if u > 0 && 0 <= r < ev.len() {
        lemma_keys_empty_before_root(ev, r, u - 1);
    }
}

/// A subtree member never stands before the removed root.
proof fn lemma_subtree_after_root(ev: Seq<(Seq<char>, WidgetRec)>, r: int, i: int)
    requires
        in_subtree(ev, r, i),
    ensures
        r <= i < ev.len(),
{
    if i < r {
        lemma_keys_empty_before_root(ev, r, i);
    }
}

/// `e`, with its child index pulled down by one when it stands after the
/// removed child (same parent `p`, index above `idx`).
pub open spec fn reindex_after(
    e: (Seq<char>, WidgetRec),
    p: Option<Seq<char>>,
    idx: nat,
) -> (Seq<char>, WidgetRec) {
    if e.1.parent == p && e.1.child_index > idx {
        (
            e.0,
            WidgetRec {
                handle: e.1.handle,
                kind: e.1.kind,
                parent: e.1.parent,
                child_index: (e.1.child_index - 1) as nat,
            },
        )
    } else {
        e
    }
}

/// The registry contents after removing the subtree rooted at entry `r`:
/// the first `upto` entries, subtree members dropped, surviving siblings of
/// the removed root reindexed.
pub open spec fn remove_result(
    ev: Seq<(Seq<char>, WidgetRec)>,
    r: int,
    upto: int,
) -> Seq<(Seq<char>, WidgetRec)>
    decreases upto,
{
    if upto <= 0 {
        Seq::empty()
    } else {
        let prev = remove_result(ev, r, upto - 1);
        if in_subtree(ev, r, upto - 1) {
            prev
        } else {
            prev.push(reindex_after(ev[upto - 1], ev[r].1.parent, ev[r].1.child_index))
        }
    }
}

/// The position in `ev` that position `pos` of `remove_result(ev, r, upto)`
/// came from.
pub open spec fn rr_src(ev: Seq<(Seq<char>, WidgetRec)>, r: int, upto: int, pos: int) -> int
    decreases upto,
{
    if upto <= 0 {
        -1
    } else {
        let prevlen = remove_result(ev, r, upto - 1).len() as int;
        if !in_subtree(ev, r, upto - 1) && pos == prevlen {
            upto - 1
        } else {
            rr_src(ev, r, upto - 1, pos)
        }
    }
}

/// Each kept position comes from a unique surviving entry, in order, and
/// every surviving entry is kept.
proof fn lemma_rr_src(ev: Seq<(Seq<char>, WidgetRec)>, r: int, upto: int)
    requires
        0 <= r < ev.len(),
        0 <= upto <= ev.len(),
    ensures
        remove_result(ev, r, upto).len() <= upto,
        forall|pos: int|
            0 <= pos < remove_result(ev, r, upto).len() ==> {
                let i = #[trigger] rr_src(ev, r, upto, pos);
                0 <= i < upto && !in_subtree(ev, r, i) && remove_result(ev, r, upto)[pos]
                    == reindex_after(ev[i], ev[r].1.parent, ev[r].1.child_index)
            },
        forall|p1: int, p2: int|
            0 <= p1 < p2 < remove_result(ev, r, upto).len() ==> rr_src(ev, r, upto, p1) < rr_src(
                ev,
                r,
                upto,
                p2,
            ),
        forall|i: int|
            0 <= i < upto && !in_subtree(ev, r, i) ==> exists|pos: int|
                0 <= pos < remove_result(ev, r, upto).len() && #[trigger] rr_src(ev, r, upto, pos)
                    == i,
    decreases upto,
{
    if upto > 0 {
        lemma_rr_src(ev, r, upto - 1);
        let prev = remove_result(ev, r, upto - 1);
        let cur = remove_result(ev, r, upto);
        if !in_subtree(ev, r, upto - 1) {
            assert forall|pos: int| 0 <= pos < cur.len() implies {
                let i = #[trigger] rr_src(ev, r, upto, pos);
                0 <= i < upto && !in_subtree(ev, r, i) && cur[pos] == reindex_after(
                    ev[i],
                    ev[r].1.parent,
                    ev[r].1.child_index,
                )
            } by {
                if pos < prev.len() {
                    assert(rr_src(ev, r, upto, pos) == rr_src(ev, r, upto - 1, pos));
                    assert(cur[pos] == prev[pos]);
                } else {
                    assert(pos == prev.len());
                    assert(rr_src(ev, r, upto, pos) == upto - 1);
                }
            }
        } else {
            assert(cur == prev);
            assert forall|pos: int| 0 <= pos < cur.len() implies rr_src(ev, r, upto, pos) == rr_src(
                ev,
                r,
                upto - 1,
                pos,
            ) by {}
        }
        assert forall|i: int| 0 <= i < upto && !in_subtree(ev, r, i) implies exists|pos: int|
            0 <= pos < cur.len() && #[trigger] rr_src(ev, r, upto, pos) == i by {
            if i == upto - 1 {
                assert(rr_src(ev, r, upto, prev.len() as int) == i);
            } else {
                let pos = choose|pos: int|
                    0 <= pos < prev.len() && #[trigger] rr_src(ev, r, upto - 1, pos) == i;
                assert(rr_src(ev, r, upto, pos) == i);
                assert(0 <= pos < cur.len());
            }
        }
        assert forall|p1: int, p2: int| 0 <= p1 < p2 < cur.len() implies rr_src(ev, r, upto, p1)
            < rr_src(ev, r, upto, p2) by {
            if !in_subtree(ev, r, upto - 1) && p2 == prev.len() {
                assert(rr_src(ev, r, upto, p2) == upto - 1);
                assert(rr_src(ev, r, upto, p1) == rr_src(ev, r, upto - 1, p1));
                assert(0 <= rr_src(ev, r, upto - 1, p1) < upto - 1);
            } else {
                assert(rr_src(ev, r, upto, p1) == rr_src(ev, r, upto - 1, p1));
                assert(rr_src(ev, r, upto, p2) == rr_src(ev, r, upto - 1, p2));
            }
        }
    }
}

/// A child of a subtree member's key is itself in the subtree.
proof fn lemma_child_of_subtree_key(ev: Seq<(Seq<char>, WidgetRec)>, r: int, j: int, i: int)
    requires
        keys_unique(ev),
        parents_precede(ev),
        in_subtree(ev, r, j),
        0 <= i < ev.len(),
        ev[i].1.parent == Some(ev[j].0),
    ensures
        in_subtree(ev, r, i),
{
    assert(parent_ok_at(ev, i));
    lemma_subtree_after_root(ev, r, j);
    let j2 = choose|j2: int| 0 <= j2 < i && ev[j2].0 == ev[j].0;
    if j2 < j {
        assert(ev[j2].0 != ev[j].0);
        assert(false);
    } else if j2 > j {
        assert(ev[j].0 != ev[j2].0);
        assert(false);
    }
    assert(j == j2 && j < i);
    if i != r {
        lemma_keys_step(ev, r, j);
        assert(subtree_keys_upto(ev, r, j + 1).contains(ev[j].0)) by {
            let s = subtree_keys_upto(ev, r, j).push(ev[j].0);
            assert(s[s.len() - 1] == ev[j].0);
        };
        lemma_keys_mono(ev, r, j + 1, i, ev[j].0);
    }
}

/// A subtree member other than the root has a subtree member's key as its
/// parent.
proof fn lemma_member_parent_in_subtree(ev: Seq<(Seq<char>, WidgetRec)>, r: int, i: int)
    requires
        in_subtree(ev, r, i),
        i != r,
    ensures
        exists|j: int|
            #![trigger in_subtree(ev, r, j)]
            j < i && in_subtree(ev, r, j) && ev[i].1.parent == Some(ev[j].0),
{
    match ev[i].1.parent {
        Some(p) => {
            let keys = subtree_keys_upto(ev, r, i);
            let idx = choose|idx: int| 0 <= idx < keys.len() && keys[idx] == p;
            lemma_keys_elems(ev, r, i);
            assert(collected_key_ok(ev, r, i, idx));
            let j = choose|j: int|
                #![trigger in_subtree(ev, r, j)]
                0 <= j < i && in_subtree(ev, r, j) && ev[j].0 == keys[idx];
            assert(j < i && in_subtree(ev, r, j) && ev[i].1.parent == Some(ev[j].0));
        },
        None => {
            assert(false);
        },
    }
}

/// Among the removed root's siblings, only the root itself is in the subtree.
proof fn lemma_only_root_among_siblings(ev: Seq<(Seq<char>, WidgetRec)>, r: int, i: int)
    requires
        keys_unique(ev),
        parents_precede(ev),
        in_subtree(ev, r, i),
        ev[i].1.parent == ev[r].1.parent,
    ensures
        i == r,
{
    if i != r {
        lemma_member_parent_in_subtree(ev, r, i);
        let j = choose|j: int|
            #![trigger in_subtree(ev, r, j)]
            j < i && in_subtree(ev, r, j) && ev[i].1.parent == Some(ev[j].0);
        lemma_subtree_after_root(ev, r, j);
        assert(parent_ok_at(ev, r));
        match ev[r].1.parent {
            None => {
                assert(false);
            },
            Some(p) => {
                let j2 = choose|j2: int| 0 <= j2 < r && ev[j2].0 == p;
                assert(ev[j].0 == p);
                assert(j2 < r <= j);
                assert(false);
            },
        }
    }
}

/// Some entry carries key `k`.
pub open spec fn seq_contains_key(ev: Seq<(Seq<char>, WidgetRec)>, k: Seq<char>) -> bool {
    exists|i: int| 0 <= i < ev.len() && (#[trigger] ev[i]).0 == k
}

/// The position of the entry carrying key `k`.
pub open spec fn spec_index_of(ev: Seq<(Seq<char>, WidgetRec)>, k: Seq<char>) -> int {
    choose|i: int| 0 <= i < ev.len() && (#[trigger] ev[i]).0 == k
}

/// How many of the first `upto` entries are subtree members with parent `q`.
pub open spec fn count_sub_upto(
    ev: Seq<(Seq<char>, WidgetRec)>,
    r: int,
    q: Option<Seq<char>>,
    upto: int,
) -> nat
    decreases upto,
{
    if upto <= 0 {
        0
    } else {
        count_sub_upto(ev, r, q, upto - 1) + if 0 <= upto - 1 < ev.len() && in_subtree(
            ev,
            r,
            upto - 1,
        ) && ev[upto - 1].1.parent == q {
            1nat
        } else {
            0nat
        }
    }
}

/// The kept entries' count of parent `q` plus the removed members' count of
/// parent `q` makes the original count.
proof fn lemma_count_rr(ev: Seq<(Seq<char>, WidgetRec)>, r: int, q: Option<Seq<char>>, upto: int)
    requires
        0 <= r < ev.len(),
        0 <= upto <= ev.len(),
    ensures
        count_children(remove_result(ev, r, upto), q) + count_sub_upto(ev, r, q, upto)
            == count_children_upto(ev, q, upto),
    decreases upto,
{
    if upto > 0 {
        lemma_count_rr(ev, r, q, upto - 1);
        let prev = remove_result(ev, r, upto - 1);
        if !in_subtree(ev, r, upto - 1) {
            lemma_count_push(
                prev,
                reindex_after(ev[upto - 1], ev[r].1.parent, ev[r].1.child_index),
                q,
            );
        }
    }
}

/// Among the removed root's siblings, exactly the root itself is removed.
proof fn lemma_count_sub_root_parent(ev: Seq<(Seq<char>, WidgetRec)>, r: int, upto: int)
    requires
        keys_unique(ev),
        parents_precede(ev),
        0 <= r < ev.len(),
        0 <= upto <= ev.len(),
    ensures
        count_sub_upto(ev, r, ev[r].1.parent, upto) == if upto > r {
            1nat
        } else {
            0nat
        },
    decreases upto,
{
    if upto > 0 {
        lemma_count_sub_root_parent(ev, r, upto - 1);
        let i = upto - 1;
        if in_subtree(ev, r, i) && ev[i].1.parent == ev[r].1.parent {
            lemma_only_root_among_siblings(ev, r, i);
        }
    }
}

/// Every child of a subtree member's key is removed with it.
proof fn lemma_count_sub_subtree_parent(ev: Seq<(Seq<char>, WidgetRec)>, r: int, j: int, upto: int)
    requires
        keys_unique(ev),
        parents_precede(ev),
        in_subtree(ev, r, j),
        0 <= upto <= ev.len(),
    ensures
        count_sub_upto(ev, r, Some(ev[j].0), upto) == count_children_upto(ev, Some(ev[j].0), upto),
    decreases upto,
{
    if upto > 0 {
        lemma_count_sub_subtree_parent(ev, r, j, upto - 1);
        let i = upto - 1;
        if ev[i].1.parent == Some(ev[j].0) {
            lemma_child_of_subtree_key(ev, r, j, i);
        }
    }
}

/// A parent that is neither the removed root's parent nor a subtree key
/// loses no child.
proof fn lemma_count_sub_other(
    ev: Seq<(Seq<char>, WidgetRec)>,
    r: int,
    q: Option<Seq<char>>,
    upto: int,
)
    requires
        keys_unique(ev),
        parents_precede(ev),
        0 <= r < ev.len(),
        0 <= upto <= ev.len(),
        q != ev[r].1.parent,
        forall|j: int| #[trigger] in_subtree(ev, r, j) ==> Some(ev[j].0) != q,
    ensures
        count_sub_upto(ev, r, q, upto) == 0,
    decreases upto,
{
    if upto > 0 {
        lemma_count_sub_other(ev, r, q, upto - 1);
        let i = upto - 1;
        if in_subtree(ev, r, i) && ev[i].1.parent == q {
            if i == r {
                assert(false);
            } else {
                lemma_member_parent_in_subtree(ev, r, i);
                let j = choose|j: int|
                    #![trigger in_subtree(ev, r, j)]
                    j < i && in_subtree(ev, r, j) && ev[i].1.parent == Some(ev[j].0);
                assert(Some(ev[j].0) != q);
                assert(false);
            }
        }
    }
}

/// Removing the subtree rooted at entry `r` keeps every registry invariant,
/// lowers the root's parent's child count by one, and keeps exactly the
/// entries whose keys are outside the subtree.
proof fn lemma_wf_remove(m_next: u64, ev: Seq<(Seq<char>, WidgetRec)>, r: int)
    requires
        keys_unique(ev),
        no_root_key(ev),
        parents_precede(ev),
        siblings_distinct(ev),
        indices_bounded(ev),
        indices_complete(ev),
        forall|i: int| 0 <= i < ev.len() ==> (#[trigger] ev[i].1.handle) < m_next,
        forall|i: int, j: int| 0 <= i < j < ev.len() ==> ev[i].1.handle != ev[j].1.handle,
        0 <= r < ev.len(),
    ensures
        keys_unique(remove_result(ev, r, ev.len() as int)),
        no_root_key(remove_result(ev, r, ev.len() as int)),
        parents_precede(remove_result(ev, r, ev.len() as int)),
        siblings_distinct(remove_result(ev, r, ev.len() as int)),
        indices_bounded(remove_result(ev, r, ev.len() as int)),
        indices_complete(remove_result(ev, r, ev.len() as int)),
        forall|i: int|
            0 <= i < remove_result(ev, r, ev.len() as int).len() ==> (#[trigger] remove_result(
                ev,
                r,
                ev.len() as int,
            )[i].1.handle) < m_next,
        forall|i: int, j: int|
            0 <= i < j < remove_result(ev, r, ev.len() as int).len() ==> remove_result(
                ev,
                r,
                ev.len() as int,
            )[i].1.handle != remove_result(ev, r, ev.len() as int)[j].1.handle,
        count_children(remove_result(ev, r, ev.len() as int), ev[r].1.parent) + 1
            == count_children(ev, ev[r].1.parent),
        forall|k: Seq<char>|
            #[trigger] seq_contains_key(remove_result(ev, r, ev.len() as int), k) <==> (
            seq_contains_key(ev, k) && !key_in_subtree(ev, r, k)),
{
    let n = ev.len() as int;
    let rr = remove_result(ev, r, n);
    let p_r = ev[r].1.parent;
    let x_r = ev[r].1.child_index;
    lemma_rr_src(ev, r, n);
    // counts per parent selector
    assert forall|q: Option<Seq<char>>| true implies #[trigger] count_children(rr, q) == (
    if q == p_r {
        (count_children(ev, q) - 1) as nat
    } else if exists|j: int| #[trigger] in_subtree(ev, r, j) && Some(ev[j].0) == q {
        0nat
    } else {
        count_children(ev, q)
    }) by {
        lemma_count_rr(ev, r, q, n);
        if q == p_r {
            lemma_count_sub_root_parent(ev, r, n);
            assert(count_children(ev, q) >= 1) by {
                assert(count_sub_upto(ev, r, q, n) == 1);
            };
        } else if exists|j: int| #[trigger] in_subtree(ev, r, j) && Some(ev[j].0) == q {
            let j = choose|j: int| #[trigger] in_subtree(ev, r, j) && Some(ev[j].0) == q;
            lemma_count_sub_subtree_parent(ev, r, j, n);
        } else {
            lemma_count_sub_other(ev, r, q, n);
        }
    }
    // keys and handles
    assert forall|p1: int, p2: int| 0 <= p1 < p2 < rr.len() implies rr[p1].0 != rr[p2].0 && rr[
        p1
    ].1.handle != rr[p2].1.handle by {
        let i1 = rr_src(ev, r, n, p1);
        let i2 = rr_src(ev, r, n, p2);
        assert(i1 < i2);
    }
    assert forall|pos: int| 0 <= pos < rr.len() implies rr[pos].0 != spec_root_key() && (
    #[trigger] rr[pos].1.handle) < m_next by {
        let i = rr_src(ev, r, n, pos);
        assert(ev[i].0 != spec_root_key());
        assert(ev[i].1.handle < m_next);
    }
    assert forall|pos: int| 0 <= pos < rr.len() implies (#[trigger] rr[pos]).0 != spec_root_key()
        by {
        let i = rr_src(ev, r, n, pos);
        assert(ev[i].0 != spec_root_key());
    }
    // parents still precede
    assert forall|pos: int| 0 <= pos < rr.len() implies #[trigger] parent_ok_at(rr, pos) by {
        let i = rr_src(ev, r, n, pos);
        assert(parent_ok_at(ev, i));
        match rr[pos].1.parent {
            None => {},
            Some(p) => {
                assert(ev[i].1.parent == Some(p));
                let j = choose|j: int| 0 <= j < i && ev[j].0 == p;
                if in_subtree(ev, r, j) {
                    lemma_child_of_subtree_key(ev, r, j, i);
                    assert(false);
                }
                let pos2 = choose|pos2: int|
                    0 <= pos2 < rr.len() && #[trigger] rr_src(ev, r, n, pos2) == j;
                if pos2 >= pos {
                    if pos2 > pos {
                        assert(rr_src(ev, r, n, pos) < rr_src(ev, r, n, pos2));
                    }
                    assert(false);
                }
                assert(rr[pos2].0 == p);
            },
        }
    }
    // sibling indices stay distinct
    assert forall|p1: int, p2: int|
        0 <= p1 < p2 < rr.len() && rr[p1].1.parent == rr[p2].1.parent implies rr[p1].1.child_index
        != rr[p2].1.child_index by {
        let i1 = rr_src(ev, r, n, p1);
        let i2 = rr_src(ev, r, n, p2);
        assert(i1 < i2);
        assert(ev[i1].1.parent == ev[i2].1.parent);
        if ev[i1].1.parent == p_r {
            lemma_only_root_among_siblings_contra(ev, r, i1);
            lemma_only_root_among_siblings_contra(ev, r, i2);
        }
    }
    // indices stay bounded
    assert forall|pos: int|
        0 <= pos < rr.len() implies (#[trigger] rr[pos].1.child_index) < count_children(
        rr,
        rr[pos].1.parent,
    ) by {
        let i = rr_src(ev, r, n, pos);
        let q = ev[i].1.parent;
        assert(ev[i].1.child_index < count_children(ev, q));
        if q == p_r {
            lemma_only_root_among_siblings_contra(ev, r, i);
            assert(count_children(rr, q) == count_children(ev, q) - 1);
        } else {
            if exists|j: int| #[trigger] in_subtree(ev, r, j) && Some(ev[j].0) == q {
                let j = choose|j: int| #[trigger] in_subtree(ev, r, j) && Some(ev[j].0) == q;
                lemma_child_of_subtree_key(ev, r, j, i);
                assert(false);
            }
            assert(count_children(rr, q) == count_children(ev, q));
        }
    }
    // indices stay complete
    assert forall|q: Option<Seq<char>>, k: nat|
        k < count_children(rr, q) implies #[trigger] has_child_at(rr, q, k) by {
        if q == p_r {
            let k2: nat = if k < x_r {
                k
            } else {
                k + 1
            };
            assert(k2 < count_children(ev, q));
            assert(has_child_at(ev, q, k2));
            let i = choose|i: int|
                0 <= i < ev.len() && ev[i].1.parent == q && ev[i].1.child_index == k2;
            assert(ev[i].1.child_index != x_r);
            assert(i != r);
            lemma_only_root_among_siblings_contra(ev, r, i);
            let pos = choose|pos: int|
                0 <= pos < rr.len() && #[trigger] rr_src(ev, r, n, pos) == i;
            assert(rr[pos].1.parent == q && rr[pos].1.child_index == k);
        } else {
            if exists|j: int| #[trigger] in_subtree(ev, r, j) && Some(ev[j].0) == q {
                assert(count_children(rr, q) == 0nat);
                assert(false);
            }
            assert(count_children(rr, q) == count_children(ev, q));
            assert(has_child_at(ev, q, k));
            let i = choose|i: int|
                0 <= i < ev.len() && ev[i].1.parent == q && ev[i].1.child_index == k;
            if in_subtree(ev, r, i) {
                assert(i != r);
                lemma_member_parent_in_subtree(ev, r, i);
                let j = choose|j: int|
                    #![trigger in_subtree(ev, r, j)]
                    j < i && in_subtree(ev, r, j) && ev[i].1.parent == Some(ev[j].0);
                assert(in_subtree(ev, r, j) && Some(ev[j].0) == q);
                assert(false);
            }
            let pos = choose|pos: int|
                0 <= pos < rr.len() && #[trigger] rr_src(ev, r, n, pos) == i;
            assert(rr[pos].1.parent == q && rr[pos].1.child_index == k);
        }
    }
    // the kept keys are exactly those outside the subtree
    assert forall|k: Seq<char>| #[trigger] seq_contains_key(rr, k) <==> (seq_contains_key(ev, k)
        && !key_in_subtree(ev, r, k)) by {
        if seq_contains_key(rr, k) {
            let pos = choose|pos: int| 0 <= pos < rr.len() && (#[trigger] rr[pos]).0 == k;
            let i = rr_src(ev, r, n, pos);
            assert(ev[i].0 == k);
            if key_in_subtree(ev, r, k) {
                let j = choose|j: int|
                    #![trigger in_subtree(ev, r, j)]
                    in_subtree(ev, r, j) && ev[j].0 == k;
                lemma_subtree_after_root(ev, r, j);
                if j < i {
                    assert(ev[j].0 != ev[i].0);
                } else if j > i {
                    assert(ev[i].0 != ev[j].0);
                }
                assert(false);
            }
        }
        if seq_contains_key(ev, k) && !key_in_subtree(ev, r, k) {
            let i = choose|i: int| 0 <= i < ev.len() && (#[trigger] ev[i]).0 == k;
            assert(!in_subtree(ev, r, i));
            let pos = choose|pos: int|
                0 <= pos < rr.len() && #[trigger] rr_src(ev, r, n, pos) == i;
            assert(rr[pos].0 == k);
        }
    }
    lemma_count_sub_root_parent(ev, r, n);
    lemma_count_rr(ev, r, p_r, n);
}

/// A surviving sibling of the removed root is not the root.
proof fn lemma_only_root_among_siblings_contra(ev: Seq<(Seq<char>, WidgetRec)>, r: int, i: int)
    requires
        keys_unique(ev),
        parents_precede(ev),
        0 <= r < ev.len(),
        0 <= i < ev.len(),
        ev[i].1.parent == ev[r].1.parent,
        i != r,
    ensures
        !in_subtree(ev, r, i),
{
    if in_subtree(ev, r, i) {
        lemma_only_root_among_siblings(ev, r, i);
    }
}

/// Whether the record's parent is the one `parent_key` selects.
pub fn parent_matches(info: &WidgetInfo, parent_key: &str) -> (r: bool)
    ensures
        r == (info@.parent == spec_parent_sel(parent_key@)),
{
    let root = str_eq(parent_key, root_key());
    match &info.parent_id {
        None => root,
        Some(p) => {
            if root {
                false
            } else {
                str_eq(p.as_str(), parent_key)
            }
        },
    }
}

} // verus!
