//! The difference between two configurations, by component identifier.

use crate::config::{
    classify, distinct_ids, find, has_id, ids, ids_in_class, index_of, lemma_find_at, Change,
    Component, Configuration,
};
use vstd::prelude::*;

verus! {

/// The identifiers that `new` has and `old` lacks.
pub open spec fn added(old: Seq<Component>, new: Seq<Component>) -> Seq<u64> {
    ids_in_class(old, new, Change::Added)
}

/// The identifiers under which `old` and `new` hold different components.
pub open spec fn changed(old: Seq<Component>, new: Seq<Component>) -> Seq<u64> {
    ids_in_class(old, new, Change::Changed)
}

/// The identifiers under which `old` and `new` hold the same component.
pub open spec fn unchanged(old: Seq<Component>, new: Seq<Component>) -> Seq<u64> {
    ids_in_class(old, new, Change::Unchanged)
}

/// The identifiers that `old` has and `new` lacks.
pub open spec fn removed(old: Seq<Component>, new: Seq<Component>) -> Seq<u64> {
    ids_in_class(new, old, Change::Added)
}

/// The components to build on the way from `old` to `new`: the added ones,
/// then the changed ones.
pub open spec fn to_build(old: Seq<Component>, new: Seq<Component>) -> Seq<u64> {
    added(old, new) + changed(old, new)
}

/// The running components to stop on the way from `old` to `new`: the removed
/// ones, then the changed ones.
pub open spec fn to_stop(old: Seq<Component>, new: Seq<Component>) -> Seq<u64> {
    removed(old, new) + changed(old, new)
}

/// An identifier is listed in a class exactly when a component of `s` carries
/// it and stands in that class.
pub proof fn lemma_class_member(other: Seq<Component>, s: Seq<Component>, class: Change, id: u64)
    ensures
        ids_in_class(other, s, class).contains(id) <==> exists|i: int|
            0 <= i < s.len() && (#[trigger] s[i]).id == id && classify(other, s[i]) == class,
    decreases s.len(),
{
    let out = ids_in_class(other, s, class);
    if s.len() > 0 {
        let init = ids_in_class(other, s.drop_last(), class);
        lemma_class_member(other, s.drop_last(), class, id);
        let last = s.len() - 1;
        if out.contains(id) {
            let k = choose|k: int| 0 <= k < out.len() && out[k] == id;
            if classify(other, s.last()) == class && k == init.len() {
                assert(s[last].id == id && classify(other, s[last]) == class);
            } else {
                let i = choose|i: int|
                    0 <= i < s.drop_last().len() && (#[trigger] s.drop_last()[i]).id == id
                        && classify(other, s.drop_last()[i]) == class;
                assert(s[i].id == id && classify(other, s[i]) == class);
            }
        }
        if exists|i: int|
            0 <= i < s.len() && (#[trigger] s[i]).id == id && classify(other, s[i]) == class {
            let i = choose|i: int|
                0 <= i < s.len() && (#[trigger] s[i]).id == id && classify(other, s[i]) == class;
            if i == last {
                assert(out[init.len() as int] == id);
            } else {
                assert(s.drop_last()[i].id == id && classify(other, s.drop_last()[i]) == class);
                assert(init.contains(id));
                let k = choose|k: int| 0 <= k < init.len() && init[k] == id;
                assert(out[k] == id);
            }
        }
    }
}

/// A class of a configuration lists no identifier twice.
pub proof fn lemma_class_distinct(other: Seq<Component>, s: Seq<Component>, class: Change)
    requires
        distinct_ids(s),
    ensures
        ids_in_class(other, s, class).no_duplicates(),
    decreases s.len(),
{
    if s.len() > 0 {
        lemma_class_distinct(other, s.drop_last(), class);
        if classify(other, s.last()) == class {
            lemma_class_member(other, s.drop_last(), class, s.last().id);
        }
    }
}

/// Where no component of `s` has its identifier in `other`, every component
/// of `s` is added against `other`.
pub proof fn lemma_all_added(other: Seq<Component>, s: Seq<Component>)
    requires
        forall|i: int| 0 <= i < s.len() ==> !has_id(other, (#[trigger] s[i]).id),
    ensures
        ids_in_class(other, s, Change::Added) == ids(s),
        ids_in_class(other, s, Change::Changed).len() == 0,
        ids_in_class(other, s, Change::Unchanged).len() == 0,
    decreases s.len(),
{
    if s.len() > 0 {
        let init = s.drop_last();
        lemma_all_added(other, init);
        assert(ids(init).push(s.last().id) =~= ids(s));
    }
}

/// Against a configuration with distinct identifiers, each of its own
/// components is unchanged.
pub proof fn lemma_all_unchanged(config: Seq<Component>, n: int)
    requires
        distinct_ids(config),
        0 <= n <= config.len(),
    ensures
        ids_in_class(config, config.take(n), Change::Added).len() == 0,
        ids_in_class(config, config.take(n), Change::Changed).len() == 0,
        ids_in_class(config, config.take(n), Change::Unchanged) == ids(config.take(n)),
    decreases n,
{
    if n > 0 {
        lemma_all_unchanged(config, n - 1);
        assert(config.take(n).drop_last() =~= config.take(n - 1));
    }
}

/// The four classes of a difference partition the identifiers: one of `new`
/// is added, changed or unchanged, and only one of these; one of `old` that
/// `new` lacks is removed, and nothing else is.
pub proof fn law_diff_partitions(old: Seq<Component>, new: Seq<Component>, id: u64)
    requires
        distinct_ids(old),
        distinct_ids(new),
    ensures
        added(old, new).contains(id) <==> has_id(new, id) && !has_id(old, id),
        removed(old, new).contains(id) <==> has_id(old, id) && !has_id(new, id),
        changed(old, new).contains(id) <==> has_id(new, id) && has_id(old, id) && find(old, id)
            != find(new, id),
        unchanged(old, new).contains(id) <==> has_id(new, id) && find(old, id) == find(new, id),
        has_id(new, id) ==> added(old, new).contains(id) || changed(old, new).contains(id)
            || unchanged(old, new).contains(id),
        !(added(old, new).contains(id) && changed(old, new).contains(id)),
        !(added(old, new).contains(id) && unchanged(old, new).contains(id)),
        !(changed(old, new).contains(id) && unchanged(old, new).contains(id)),
{
    lemma_class_member(old, new, Change::Added, id);
    lemma_class_member(old, new, Change::Changed, id);
    lemma_class_member(old, new, Change::Unchanged, id);
    lemma_class_member(new, old, Change::Added, id);
    if has_id(new, id) {
        lemma_find_at(new, index_of(new, id));
    }
    if has_id(old, id) {
        lemma_find_at(old, index_of(old, id));
    }
}

/// The difference between a running configuration and a candidate.
#[derive(Debug, PartialEq, Eq)]
pub struct ConfigDiff {
    /// Components to build anew.
    pub added: Vec<u64>,
    /// Running components to stop for good.
    pub removed: Vec<u64>,
    /// Running components to stop and build again.
    pub changed: Vec<u64>,
    /// Running components to leave alone.
    pub unchanged: Vec<u64>,
}

impl ConfigDiff {
    /// This is the difference that leads from `old` to `new`.
    pub open spec fn leads(&self, old: Seq<Component>, new: Seq<Component>) -> bool {
        &&& self.added@ == added(old, new)
        &&& self.removed@ == removed(old, new)
        &&& self.changed@ == changed(old, new)
        &&& self.unchanged@ == unchanged(old, new)
    }

    /// The difference that leads from `old` to `new`.
    pub fn new(old: &Configuration, new: &Configuration) -> (d: ConfigDiff)
        ensures
            d.leads(old@, new@),
    {
        ConfigDiff {
            added: new.ids_in_class(old, Change::Added),
            removed: old.ids_in_class(new, Change::Added),
            changed: new.ids_in_class(old, Change::Changed),
            unchanged: new.ids_in_class(old, Change::Unchanged),
        }
    }

    /// The difference that leads from nothing to `new`: every component is
    /// added.
    pub fn initial(new: &Configuration) -> (d: ConfigDiff)
        ensures
            d.leads(Seq::empty(), new@),
            d.added@ == ids(new@),
            d.removed@.len() == 0,
            d.changed@.len() == 0,
            d.unchanged@.len() == 0,
    {
        let nothing = Configuration::empty();
        let d = ConfigDiff::new(&nothing, new);
        proof {
            assert forall|i: int| 0 <= i < new@.len() implies !has_id(
                nothing@,
                (#[trigger] new@[i]).id,
            ) by {}
            lemma_all_added(nothing@, new@);
        }
        d
    }

    /// The identifiers to build: the added ones, then the changed ones.
    pub fn to_build(&self) -> (r: Vec<u64>)
        ensures
            r@ == self.added@ + self.changed@,
    {
        concat(&self.added, &self.changed)
    }

    /// The identifiers to stop: the removed ones, then the changed ones.
    pub fn to_stop(&self) -> (r: Vec<u64>)
        ensures
            r@ == self.removed@ + self.changed@,
    {
        concat(&self.removed, &self.changed)
    }
}

/// `a` followed by `b`.
fn concat(a: &Vec<u64>, b: &Vec<u64>) -> (r: Vec<u64>)
    ensures
        r@ == a@ + b@,
{
    let mut out: Vec<u64> = Vec::new();
    let mut i: usize = 0;
    while i < a.len()
        invariant
            i <= a.len(),
            out@ == a@.take(i as int),
        decreases a.len() - i,
    {
        out.push(a[i]);
        i += 1;
    }
    let mut j: usize = 0;
    while j < b.len()
        invariant
            j <= b.len(),
            out@ == a@ + b@.take(j as int),
        decreases b.len() - j,
    {
        out.push(b[j]);
        j += 1;
    }
    out
}

} // verus!
