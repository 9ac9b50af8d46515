use vstd::prelude::*;

use crate::headers::pairs_view;

verus! {

/// No key occurs twice.
pub open spec fn keys_unique(s: Seq<(Seq<char>, Seq<char>)>) -> bool {
    forall|i: int, j: int| 0 <= i < j < s.len() ==> #[trigger] s[i].0 != #[trigger] s[j].0
}

/// The position of `k` among the keys, if it occurs.
pub open spec fn key_index(s: Seq<(Seq<char>, Seq<char>)>, k: Seq<char>) -> Option<int> {
    if exists|i: int| 0 <= i < s.len() && s[i].0 == k {
        Some(choose|i: int| 0 <= i < s.len() && s[i].0 == k)
    } else {
        None
    }
}

/// The entries with `k` set to `v`: in place when `k` occurs, else appended.
pub open spec fn set_entry(s: Seq<(Seq<char>, Seq<char>)>, k: Seq<char>, v: Seq<char>) -> Seq<
    (Seq<char>, Seq<char>),
> {
    match key_index(s, k) {
        Some(i) => s.update(i, (k, v)),
        None => s.push((k, v)),
    }
}

/// The entries of `base` with each entry of `overlay` set in turn.
pub open spec fn merged(base: Seq<(Seq<char>, Seq<char>)>, overlay: Seq<(Seq<char>, Seq<char>)>) -> Seq<
    (Seq<char>, Seq<char>),
>
    decreases overlay.len(),
{
    if overlay.len() == 0 {
        base
    } else {
        let m = merged(base, overlay.drop_last());
        set_entry(m, overlay.last().0, overlay.last().1)
    }
}

/// The entries read as a map from key to value; a later entry wins.
pub open spec fn entries_map(s: Seq<(Seq<char>, Seq<char>)>) -> Map<Seq<char>, Seq<char>>
    decreases s.len(),
{
    if s.len() == 0 {
        Map::empty()
    } else {
        entries_map(s.drop_last()).insert(s.last().0, s.last().1)
    }
}

/// The top-level members of a JSON object, in order: each key with its value
/// in JSON text.
#[derive(Clone, Debug)]
pub struct JsonObject {
    pub entries: Vec<(String, String)>,
}

impl JsonObject {
    pub open spec fn view_entries(&self) -> Seq<(Seq<char>, Seq<char>)> {
        pairs_view(self.entries@)
    }

    /// Keys are unique, as in a JSON object.
    pub open spec fn wf(&self) -> bool {
        keys_unique(self.view_entries())
    }

    /// An object with no members.
    pub fn new() -> (r: JsonObject)
        ensures
            r.wf(),
            r.view_entries() == Seq::<(Seq<char>, Seq<char>)>::empty(),
    {
        let r = JsonObject { entries: Vec::new() };
        assert(r.view_entries() =~= Seq::<(Seq<char>, Seq<char>)>::empty());
        r
    }

    /// Sets member `key` to `value`: in place when it exists, else at the end.
    pub fn insert(&mut self, key: String, value: String)
        requires
            old(self).wf(),
        ensures
            final(self).wf(),
            final(self).view_entries() == set_entry(old(self).view_entries(), key@, value@),
    {
        let ghost s = self.view_entries();
        let n = self.entries.len();
        let mut i: usize = 0;
        while i < n
            invariant
                n == self.entries@.len(),
                i <= n,
                s == self.view_entries(),
                s == old(self).view_entries(),
                keys_unique(s),
                forall|j: int| 0 <= j < i ==> s[j].0 != key@,
            decreases n - i,
        {
            if self.entries[i].0 == key {
                assert(s[i as int].0 == key@);
                assert(key_index(s, key@) == Some(i as int)) by {
                    let c = choose|j: int| 0 <= j < s.len() && s[j].0 == key@;
                    assert(s[c].0 == s[i as int].0);
                }
                let ghost kv = (key@, value@);
                assert(set_entry(s, key@, value@) == s.update(i as int, kv));
                self.entries.set(i, (key, value));
                assert(self.view_entries() =~= s.update(i as int, kv));
                assert(keys_unique(s.update(i as int, kv)));
                assert(self.view_entries() == set_entry(s, key@, value@));
                return;
            }
            i = i + 1;
        }
        self.entries.push((key, value));
        assert(self.view_entries() =~= s.push((key@, value@)));
    }
}

/// The shallow merge of `overlay` into `base`: every top-level member of
/// `overlay` replaces the member of `base` with the same key, or is added
/// after the others. Nested values are not merged.
pub fn merge(base: JsonObject, overlay: &JsonObject) -> (r: JsonObject)
    requires
        base.wf(),
    ensures
        r.wf(),
        r.view_entries() == merged(base.view_entries(), overlay.view_entries()),
{
    let mut r = base;
    let n = overlay.entries.len();
    let mut i: usize = 0;
    while i < n
        invariant
            n == overlay.entries@.len(),
            i <= n,
            r.wf(),
            r.view_entries() == merged(
                base.view_entries(),
                overlay.view_entries().subrange(0, i as int),
            ),
        decreases n - i,
    {
        let ghost o = overlay.view_entries();
        assert(o.subrange(0, i + 1).drop_last() =~= o.subrange(0, i as int));
        let k = overlay.entries[i].0.clone();
        let v = overlay.entries[i].1.clone();
        r.insert(k, v);
        i = i + 1;
    }
    assert(overlay.view_entries().subrange(0, n as int) =~= overlay.view_entries());
    r
}

proof fn lemma_update_map(s: Seq<(Seq<char>, Seq<char>)>, i: int, k: Seq<char>, v: Seq<char>)
    requires
        keys_unique(s),
        0 <= i < s.len(),
        s[i].0 == k,
    ensures
        entries_map(s.update(i, (k, v))) == entries_map(s).insert(k, v),
    decreases s.len(),
{
    let u = s.update(i, (k, v));
    if i == s.len() - 1 {
        assert(u.drop_last() =~= s.drop_last());
        assert(entries_map(u) =~= entries_map(s).insert(k, v));
    } else {
        let d = s.drop_last();
        assert(u.drop_last() =~= d.update(i, (k, v)));
        assert(keys_unique(d));
        lemma_update_map(d, i, k, v);
        assert(s.last().0 != k);
        assert(entries_map(u) =~= entries_map(s).insert(k, v));
    }
}

proof fn lemma_set_entry(s: Seq<(Seq<char>, Seq<char>)>, k: Seq<char>, v: Seq<char>)
    requires
        keys_unique(s),
    ensures
        keys_unique(set_entry(s, k, v)),
        entries_map(set_entry(s, k, v)) == entries_map(s).insert(k, v),
{
    match key_index(s, k) {
        Some(i) => {
            lemma_update_map(s, i, k, v);
        },
        None => {
            assert(s.push((k, v)).drop_last() =~= s);
        },
    }
}

/// A shallow merge behaves as a map update: a key of `overlay` takes its
/// value from `overlay` (the override wins), every other key keeps the value
/// it has in `base`, and the keys stay unique.
pub proof fn lemma_merge_overrides(
    base: Seq<(Seq<char>, Seq<char>)>,
    overlay: Seq<(Seq<char>, Seq<char>)>,
)
    requires
        keys_unique(base),
    ensures
        keys_unique(merged(base, overlay)),
        entries_map(merged(base, overlay)) == entries_map(base).union_prefer_right(
            entries_map(overlay),
        ),
    decreases overlay.len(),
{
    if overlay.len() == 0 {
        assert(entries_map(base).union_prefer_right(entries_map(overlay)) =~= entries_map(base));
    } else {
        let d = overlay.drop_last();
        lemma_merge_overrides(base, d);
        lemma_set_entry(merged(base, d), overlay.last().0, overlay.last().1);
        assert(entries_map(merged(base, overlay)) =~= entries_map(base).union_prefer_right(
            entries_map(overlay),
        ));
    }
}

} // verus!
