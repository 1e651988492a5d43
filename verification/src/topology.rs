//! The running topology: the live instance of every component of one
//! configuration.

use crate::config::{
    classify, distinct_ids, has_id, ids, index_of, Change, Component, Configuration,
};
use crate::diff::{
    added, changed, law_diff_partitions, lemma_class_distinct, lemma_class_member, to_build,
    ConfigDiff,
};
use vstd::prelude::*;

verus! {

/// A running instance of a component. `handle` names the task that runs it:
/// a component that is built again gets another handle.
#[derive(Clone, Copy, Debug, PartialEq, Eq, Structural)]
pub struct Instance {
    pub id: u64,
    pub handle: u64,
}

/// Some instance of `s` runs the component `id`.
pub open spec fn has_instance(s: Seq<Instance>, id: u64) -> bool {
    exists|i: int| 0 <= i < s.len() && (#[trigger] s[i]).id == id
}

/// No two instances of `s` run the same component.
pub open spec fn distinct_instances(s: Seq<Instance>) -> bool {
    forall|i: int, j: int| 0 <= i < j < s.len() ==> (#[trigger] s[i]).id != (#[trigger] s[j]).id
}

/// A position of `s` that runs the component `id`, if there is one.
pub open spec fn instance_index(s: Seq<Instance>, id: u64) -> int {
    choose|i: int| 0 <= i < s.len() && (#[trigger] s[i]).id == id
}

/// The handle under which `s` runs the component `id`.
pub open spec fn handle_of(s: Seq<Instance>, id: u64) -> Option<u64> {
    if has_instance(s, id) {
        Some(s[instance_index(s, id)].handle)
    } else {
        None
    }
}

/// `instances` runs the components of `config`, one by one and in order.
pub open spec fn aligned(config: Seq<Component>, instances: Seq<Instance>) -> bool {
    &&& instances.len() == config.len()
    &&& forall|i: int| 0 <= i < config.len() ==> (#[trigger] instances[i]).id == config[i].id
}

/// `pieces` answers the build request `request` item by item: the piece at
/// each position is a build of the identifier requested there.
pub open spec fn answers(request: Seq<u64>, pieces: Seq<Instance>) -> bool {
    &&& pieces.len() == request.len()
    &&& forall|i: int| 0 <= i < request.len() ==> (#[trigger] pieces[i]).id == request[i]
}

/// What a topology is: the configuration it reflects and the instances that
/// run it.
pub struct TopologyView {
    pub config: Seq<Component>,
    pub instances: Seq<Instance>,
}

impl TopologyView {
    /// The topology reflects exactly one configuration: each of its
    /// components runs once, and nothing else runs.
    pub open spec fn wf(self) -> bool {
        &&& distinct_ids(self.config)
        &&& aligned(self.config, self.instances)
    }

    /// The handle under which the component `id` runs.
    pub open spec fn handle(self, id: u64) -> Option<u64> {
        handle_of(self.instances, id)
    }
}

/// The instance that runs the component at position `i` of `new` once the
/// topology `old` has been reconciled with `new`: the running one where the
/// component is unchanged, else the one built for it.
pub open spec fn spliced_at(old: TopologyView, new: Seq<Component>, pieces: Seq<Instance>, i: int)
    -> Instance {
    let c = new[i];
    let handle = if classify(old.config, c) == Change::Unchanged {
        handle_of(old.instances, c.id)
    } else {
        handle_of(pieces, c.id)
    };
    Instance { id: c.id, handle: handle.unwrap() }
}

/// The instances that run `new` once the topology `old` has been reconciled
/// with it.
pub open spec fn spliced(old: TopologyView, new: Seq<Component>, pieces: Seq<Instance>) -> Seq<
    Instance,
> {
    Seq::new(new.len(), |i: int| spliced_at(old, new, pieces, i))
}

/// The topology that `old` becomes when it is reconciled with `new`.
pub open spec fn reconciled(old: TopologyView, new: Seq<Component>, pieces: Seq<Instance>)
    -> TopologyView {
    TopologyView { config: new, instances: spliced(old, new, pieces) }
}

/// Among distinct instances, the handle found for a component is that of any
/// position that runs it.
pub proof fn lemma_handle_at(s: Seq<Instance>, k: int)
    requires
        distinct_instances(s),
        0 <= k < s.len(),
    ensures
        has_instance(s, s[k].id),
        instance_index(s, s[k].id) == k,
        handle_of(s, s[k].id) == Some(s[k].handle),
{
}

/// Instances aligned with a configuration are distinct, and run exactly its
/// components.
pub proof fn lemma_aligned(config: Seq<Component>, instances: Seq<Instance>)
    requires
        distinct_ids(config),
        aligned(config, instances),
    ensures
        distinct_instances(instances),
        forall|id: u64| has_id(config, id) <==> has_instance(instances, id),
{
    assert forall|id: u64| has_id(config, id) <==> has_instance(instances, id) by {
        if has_id(config, id) {
            assert(instances[index_of(config, id)].id == id);
        }
    }
}

/// No identifier is requested twice in a build.
pub proof fn lemma_to_build_distinct(old: Seq<Component>, new: Seq<Component>)
    requires
        distinct_ids(old),
        distinct_ids(new),
    ensures
        to_build(old, new).no_duplicates(),
{
    let a = added(old, new);
    let c = changed(old, new);
    lemma_class_distinct(old, new, Change::Added);
    lemma_class_distinct(old, new, Change::Changed);
    let t = to_build(old, new);
    assert forall|i: int, j: int| 0 <= i < t.len() && 0 <= j < t.len() && i != j implies t[i]
        != t[j] by {
        if i < a.len() && j >= a.len() {
            law_diff_partitions(old, new, t[i]);
        } else if j < a.len() && i >= a.len() {
            law_diff_partitions(old, new, t[j]);
        }
    }
}

/// Pieces that answer a request without repetitions are distinct, and hold
/// exactly the identifiers requested.
pub proof fn lemma_answers(request: Seq<u64>, pieces: Seq<Instance>)
    requires
        request.no_duplicates(),
        answers(request, pieces),
    ensures
        distinct_instances(pieces),
        forall|id: u64| request.contains(id) <==> has_instance(pieces, id),
{
    assert forall|id: u64| request.contains(id) <==> has_instance(pieces, id) by {
        if request.contains(id) {
            let k = choose|k: int| 0 <= k < request.len() && request[k] == id;
            assert(pieces[k].id == id);
        }
    }
}

/// Every component of the new configuration finds its instance when a
/// topology is reconciled: a running one if it is unchanged, a built one if
/// not.
pub proof fn lemma_splice_sources(
    old: TopologyView,
    new: Seq<Component>,
    pieces: Seq<Instance>,
    i: int,
)
    requires
        old.wf(),
        distinct_ids(new),
        answers(to_build(old.config, new), pieces),
        0 <= i < new.len(),
    ensures
        classify(old.config, new[i]) == Change::Unchanged ==> has_instance(
            old.instances,
            new[i].id,
        ),
        classify(old.config, new[i]) != Change::Unchanged ==> has_instance(pieces, new[i].id),
{
    let c = new[i];
    lemma_aligned(old.config, old.instances);
    lemma_to_build_distinct(old.config, new);
    lemma_answers(to_build(old.config, new), pieces);
    let class = classify(old.config, c);
    if class != Change::Unchanged {
        lemma_class_member(old.config, new, class, c.id);
        let t = to_build(old.config, new);
        let a = added(old.config, new);
        let g = changed(old.config, new);
        if class == Change::Added {
            let k = choose|k: int| 0 <= k < a.len() && a[k] == c.id;
            assert(t[k] == c.id);
        } else {
            let k = choose|k: int| 0 <= k < g.len() && g[k] == c.id;
            assert(t[a.len() + k] == c.id);
        }
    }
}

/// The running topology.
#[derive(Debug, PartialEq, Eq)]
pub struct RunningTopology {
    config: Configuration,
    instances: Vec<Instance>,
}

impl View for RunningTopology {
    type V = TopologyView;

    closed spec fn view(&self) -> TopologyView {
        TopologyView { config: self.config@, instances: self.instances@ }
    }
}

/// The handle under which `s` runs the component `id`.
fn lookup(s: &Vec<Instance>, id: u64) -> (r: Option<u64>)
    requires
        distinct_instances(s@),
    ensures
        r == handle_of(s@, id),
{
    let n = s.len();
    let mut i: usize = 0;
    while i < n
        invariant
            n == s.len(),
            i <= n,
            distinct_instances(s@),
            forall|k: int| 0 <= k < i ==> (#[trigger] s@[k]).id != id,
        decreases n - i,
    {
        if s[i].id == id {
            return Some(s[i].handle);
        }
        i += 1;
    }
    None
}

/// Whether `pieces` answers `request` item by item.
fn pieces_answer(request: &Vec<u64>, pieces: &Vec<Instance>) -> (b: bool)
    ensures
        b == answers(request@, pieces@),
{
    if pieces.len() != request.len() {
        return false;
    }
    let n = request.len();
    let mut i: usize = 0;
    while i < n
        invariant
            n == request.len(),
            n == pieces.len(),
            i <= n,
            forall|k: int| 0 <= k < i ==> (#[trigger] pieces@[k]).id == request@[k],
        decreases n - i,
    {
        if pieces[i].id != request[i] {
            return false;
        }
        i += 1;
    }
    true
}

impl RunningTopology {
    /// Every running topology reflects exactly one configuration.
    #[verifier::type_invariant]
    pub open spec fn wf(&self) -> bool {
        self@.wf()
    }

    /// Starts the topology of `config` from the instances built for it.
    ///
    /// This is the reconciliation of nothing with `config`: every component is
    /// added, so `pieces` must answer a request for all of them, in order.
    pub fn start(config: Configuration, pieces: Vec<Instance>) -> (r: Option<RunningTopology>)
        ensures
            match r {
                Some(t) => answers(ids(config@), pieces@) && t@ == (TopologyView {
                    config: config@,
                    instances: pieces@,
                }),
                None => !answers(ids(config@), pieces@),
            },
    {
        proof {
            use_type_invariant(&config);
        }
        let request = config.ids();
        if pieces_answer(&request, &pieces) {
            Some(RunningTopology { config, instances: pieces })
        } else {
            None
        }
    }

    /// The configuration that the topology reflects.
    pub fn config(&self) -> (c: &Configuration)
        ensures
            c@ == self@.config,
    {
        &self.config
    }

    /// The number of running instances.
    pub fn len(&self) -> (n: usize)
        ensures
            n == self@.instances.len(),
    {
        self.instances.len()
    }

    /// The running instances, in the order of the configuration.
    pub fn instances(&self) -> (r: Vec<Instance>)
        ensures
            r@ == self@.instances,
    {
        let n = self.instances.len();
        let mut out: Vec<Instance> = Vec::new();
        let mut i: usize = 0;
        while i < n
            invariant
                n == self.instances.len(),
                i <= n,
                out@ == self.instances@.take(i as int),
            decreases n - i,
        {
            out.push(self.instances[i]);
            i += 1;
        }
        out
    }

    /// The handle under which the component `id` runs, if it does.
    pub fn handle(&self, id: u64) -> (r: Option<u64>)
        ensures
            r == self@.handle(id),
    {
        proof {
            use_type_invariant(self);
        }
        lookup(&self.instances, id)
    }

    /// The difference that leads from the running configuration to
    /// `candidate`.
    pub fn diff(&self, candidate: &Configuration) -> (d: ConfigDiff)
        ensures
            d.leads(self@.config, candidate@),
    {
        ConfigDiff::new(&self.config, candidate)
    }

    /// Whether `pieces` is the build that a reconciliation with `candidate`
    /// asks for.
    pub fn accepts(&self, candidate: &Configuration, pieces: &Vec<Instance>) -> (b: bool)
        ensures
            b == answers(to_build(self@.config, candidate@), pieces@),
    {
        let request = ConfigDiff::new(&self.config, candidate).to_build();
        pieces_answer(&request, pieces)
    }

    /// Reconciles the topology with `candidate`, given the instances built for
    /// its added and changed components, and leaves this topology as it is.
    ///
    /// Where `pieces` is the build asked for, the result is the topology of
    /// `candidate`: unchanged components keep their instance, added and
    /// changed ones run their new instance, removed ones are gone. Otherwise
    /// there is none.
    pub fn reconcile(&self, candidate: Configuration, pieces: &Vec<Instance>) -> (r: Option<
        RunningTopology,
    >)
        ensures
            match r {
                Some(t) => answers(to_build(self@.config, candidate@), pieces@) && t@
                    == reconciled(self@, candidate@, pieces@),
                None => !answers(to_build(self@.config, candidate@), pieces@),
            },
    {
        if !self.accepts(&candidate, pieces) {
            return None;
        }
        proof {
            use_type_invariant(self);
            use_type_invariant(&candidate);
            lemma_to_build_distinct(self@.config, candidate@);
        }
        let n = candidate.len();
        let mut out: Vec<Instance> = Vec::new();
        let mut i: usize = 0;
        while i < n
            invariant
                n == candidate@.len(),
                i <= n,
                self@.wf(),
                distinct_ids(candidate@),
                distinct_instances(self.instances@),
                distinct_instances(pieces@),
                answers(to_build(self@.config, candidate@), pieces@),
                out@.len() == i,
                forall|k: int|
                    0 <= k < i ==> #[trigger] out@[k] == spliced_at(self@, candidate@, pieces@, k),
            decreases n - i,
        {
            let c = candidate.at(i);
            proof {
                lemma_splice_sources(self@, candidate@, pieces@, i as int);
            }
            let handle = if self.config.classify(c) == Change::Unchanged {
                lookup(&self.instances, c.id)
            } else {
                lookup(pieces, c.id)
            };
            out.push(Instance { id: c.id, handle: handle.unwrap() });
            i += 1;
        }
        assert(out@ =~= spliced(self@, candidate@, pieces@));
        Some(RunningTopology { config: candidate, instances: out })
    }

    /// Gives up the topology for a stop of everything that runs: the
    /// instances to stop, in order.
    pub fn stop(self) -> (r: Vec<Instance>)
        ensures
            r@ == self@.instances,
    {
        self.instances
    }
}

} // verus!
