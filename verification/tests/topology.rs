use lifecycle::config::{Component, ComponentKind, Configuration};
use lifecycle::topology::{Instance, RunningTopology};

fn source(id: u64, revision: u64) -> Component {
    Component { id, kind: ComponentKind::Source, revision }
}

fn sink(id: u64, revision: u64) -> Component {
    Component { id, kind: ComponentKind::Sink, revision }
}

fn configuration(components: Vec<Component>) -> Configuration {
    Configuration::new(components).expect("identifiers are distinct")
}

fn instance(id: u64, handle: u64) -> Instance {
    Instance { id, handle }
}

fn running() -> RunningTopology {
    RunningTopology::start(
        configuration(vec![source(1, 10), sink(2, 20), sink(3, 30)]),
        vec![instance(1, 100), instance(2, 200), instance(3, 300)],
    )
    .expect("the build answers the request")
}

#[test]
fn topology_starts_from_a_build_of_every_component() {
    let t = running();
    assert_eq!(t.len(), 3);
    assert_eq!(t.config().ids(), vec![1, 2, 3]);
    assert_eq!(t.handle(1), Some(100));
    assert_eq!(t.handle(2), Some(200));
    assert_eq!(t.handle(3), Some(300));
    assert_eq!(t.handle(4), None);
}

#[test]
fn topology_does_not_start_from_another_build() {
    let config = || configuration(vec![source(1, 10), sink(2, 20)]);
    assert!(RunningTopology::start(config(), vec![instance(1, 100)]).is_none());
    assert!(RunningTopology::start(config(), vec![instance(2, 200), instance(1, 100)]).is_none());
    assert!(RunningTopology::start(
        config(),
        vec![instance(1, 100), instance(2, 200), instance(3, 300)]
    )
    .is_none());
    assert!(RunningTopology::start(config(), vec![instance(1, 100), instance(1, 200)]).is_none());
    assert!(RunningTopology::start(config(), vec![]).is_none());
}

#[test]
fn empty_topology_starts_from_nothing() {
    let t = RunningTopology::start(Configuration::empty(), vec![]).expect("nothing to build");
    assert_eq!(t.len(), 0);
    assert_eq!(t.handle(0), None);
    assert!(t.stop().is_empty());
}

#[test]
fn topology_diff_is_against_the_running_configuration() {
    let t = running();
    let candidate = configuration(vec![sink(2, 21), source(1, 10), sink(4, 40)]);
    let d = t.diff(&candidate);
    assert_eq!(d.added, vec![4]);
    assert_eq!(d.removed, vec![3]);
    assert_eq!(d.changed, vec![2]);
    assert_eq!(d.unchanged, vec![1]);
}

#[test]
fn topology_accepts_only_the_build_asked_for() {
    let t = running();
    let candidate = configuration(vec![sink(2, 21), source(1, 10), sink(4, 40)]);
    assert!(t.accepts(&candidate, &vec![instance(4, 401), instance(2, 201)]));
    assert!(!t.accepts(&candidate, &vec![instance(2, 201), instance(4, 401)]));
    assert!(!t.accepts(&candidate, &vec![instance(4, 401)]));
    assert!(!t.accepts(&candidate, &vec![]));
    assert!(!t.accepts(&candidate, &vec![instance(4, 401), instance(2, 201), instance(1, 101)]));
    assert!(!t.accepts(&candidate, &vec![instance(4, 401), instance(3, 301)]));
}

#[test]
fn reconcile_keeps_unchanged_and_replaces_the_rest() {
    let t = running();
    let candidate = configuration(vec![sink(2, 21), source(1, 10), sink(4, 40)]);
    let next = t
        .reconcile(candidate.clone(), &vec![instance(4, 401), instance(2, 201)])
        .expect("the build answers the request");
    assert_eq!(next.config(), &candidate);
    assert_eq!(next.len(), 3);
    assert_eq!(next.handle(1), Some(100));
    assert_eq!(next.handle(2), Some(201));
    assert_eq!(next.handle(4), Some(401));
    assert_eq!(next.handle(3), None);
    assert_eq!(next.stop(), vec![instance(2, 201), instance(1, 100), instance(4, 401)]);
    assert_eq!(t.handle(2), Some(200));
    assert_eq!(t.handle(3), Some(300));
    assert_eq!(t.config().ids(), vec![1, 2, 3]);
}

#[test]
fn reconcile_refuses_another_build() {
    let t = running();
    let candidate = configuration(vec![sink(2, 21), source(1, 10), sink(4, 40)]);
    assert!(t.reconcile(candidate.clone(), &vec![instance(2, 201), instance(4, 401)]).is_none());
    assert!(t.reconcile(candidate.clone(), &vec![]).is_none());
    assert!(t.reconcile(candidate, &vec![instance(4, 401), instance(2, 201), instance(9, 9)]).is_none());
    assert_eq!(t, running());
}

#[test]
fn reconcile_with_the_running_configuration_keeps_every_instance() {
    let t = running();
    let same = t.config().clone();
    let next = t.reconcile(same, &vec![]).expect("nothing to build");
    assert_eq!(next, t);
}

#[test]
fn reconcile_with_disjoint_configuration_runs_only_the_new() {
    let t = running();
    let candidate = configuration(vec![source(7, 1), sink(8, 1)]);
    let next = t
        .reconcile(candidate, &vec![instance(7, 700), instance(8, 800)])
        .expect("the build answers the request");
    assert_eq!(next.config().ids(), vec![7, 8]);
    for id in [1, 2, 3] {
        assert_eq!(next.handle(id), None);
    }
    assert_eq!(next.stop(), vec![instance(7, 700), instance(8, 800)]);
}

#[test]
fn reconcile_with_nothing_stops_everything() {
    let t = running();
    let next = t.reconcile(Configuration::empty(), &vec![]).expect("nothing to build");
    assert_eq!(next.len(), 0);
    assert_eq!(t.diff(&Configuration::empty()).to_stop(), vec![1, 2, 3]);
}

#[test]
fn instances_are_listed_in_the_order_of_the_configuration() {
    let t = running();
    assert_eq!(t.instances(), vec![instance(1, 100), instance(2, 200), instance(3, 300)]);
    assert_eq!(t.instances(), t.stop());
}

#[test]
fn stop_hands_out_every_instance_in_order() {
    assert_eq!(running().stop(), vec![instance(1, 100), instance(2, 200), instance(3, 300)]);
}
