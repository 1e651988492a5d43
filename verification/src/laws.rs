//! What holds of every control loop, whatever it is given.

use crate::application::ApplicationView;
use crate::bootstrap::{follows, Boot, BootAction, BootInput, BootView, StageView};
use crate::config::{
    classify, distinct_ids, has_id, ids, index_of, Change, Component, Configuration,
};
use crate::control::{
    react, refreshed, run, silent, step, ActionView, InputView, LoopState, LoopView, PhaseView,
};
use crate::diff::{
    law_diff_partitions, lemma_all_added, lemma_all_unchanged, to_build, to_stop, unchanged,
};
use crate::event::LifecycleEvent;
use crate::host::CONFIG;
use crate::options::{ApiOptions, ConfigPath, SubCommand};
use crate::signal::SignalTo;
use crate::topology::{
    aligned, answers, handle_of, has_instance, lemma_aligned, lemma_answers, lemma_handle_at,
    lemma_splice_sources, lemma_to_build_distinct, reconciled, spliced, Instance, TopologyView,
};
use vstd::prelude::*;

verus! {

/// An input is well formed when the configuration it brings, if any, keeps
/// its identifiers distinct.
pub open spec fn input_wf(input: InputView) -> bool {
    match input {
        InputView::Loaded(Some(candidate)) => distinct_ids(candidate),
        _ => true,
    }
}

/// The loop `s` with its configuration files looked up again.
pub open spec fn with_paths(s: LoopView, resolved: Option<Vec<ConfigPath>>) -> LoopView {
    LoopView { paths: refreshed(s.paths, resolved), ..s }
}

/// The inputs of a reload whose candidate is rejected.
pub open spec fn rejected_reload(resolved: Option<Vec<ConfigPath>>) -> Seq<InputView> {
    seq![
        InputView::Signal(SignalTo::Reload),
        InputView::Resolved(resolved),
        InputView::Loaded(None),
    ]
}

/// The inputs of a reload that ends with the build.
pub open spec fn reload_until_build(
    resolved: Option<Vec<ConfigPath>>,
    candidate: Seq<Component>,
    built: Option<Seq<Instance>>,
) -> Seq<InputView> {
    seq![
        InputView::Signal(SignalTo::Reload),
        InputView::Resolved(resolved),
        InputView::Loaded(Some(candidate)),
        InputView::Built(built),
    ]
}

/// The inputs of a reload whose candidate was loaded and built, and whose swap
/// went as `clean` says.
pub open spec fn complete_reload(
    resolved: Option<Vec<ConfigPath>>,
    candidate: Seq<Component>,
    pieces: Seq<Instance>,
    clean: bool,
) -> Seq<InputView> {
    seq![
        InputView::Signal(SignalTo::Reload),
        InputView::Resolved(resolved),
        InputView::Loaded(Some(candidate)),
        InputView::Built(Some(pieces)),
        InputView::Swapped(clean),
    ]
}

/// At every step the topology reflects exactly one configuration: a well
/// formed loop stays well formed.
pub proof fn law_one_configuration(s: LoopView, input: InputView)
    requires
        s.wf(),
        input_wf(input),
    ensures
        step(s, input).0.wf(),
{
}

/// A loop that has ended stays ended, reports nothing more, and keeps its
/// topology.
pub proof fn law_terminated_is_final(s: LoopView, inputs: Seq<InputView>)
    requires
        s.state() == LoopState::Terminated,
    ensures
        run(s, inputs).0 == s,
        run(s, inputs).1 == Seq::<LifecycleEvent>::empty(),
    decreases inputs.len(),
{
    if inputs.len() > 0 {
        law_terminated_is_final(s, inputs.drop_first());
    }
}

/// A crash reported while the loop runs, or while a reload is in flight,
/// begins the graceful stop of the topology as it was: the loop never
/// resumes in silence.
pub proof fn law_crash_shuts_down(s: LoopView)
    requires
        s.state() == LoopState::Running || s.state() == LoopState::Reloading,
    ensures
        step(s, InputView::Crash).0.state() == LoopState::ShuttingDown,
        step(s, InputView::Crash).0.topology == s.topology,
        step(s, InputView::Crash).1 == react(seq![LifecycleEvent::Stopped], ActionView::Stop),
{
}

/// When every source has completed while the loop runs, the graceful stop
/// begins, and its completion ends the loop: no signal is needed.
pub proof fn law_sources_finished_terminates(s: LoopView)
    requires
        s.state() == LoopState::Running,
    ensures
        step(s, InputView::SourcesFinished).0.state() == LoopState::ShuttingDown,
        step(s, InputView::SourcesFinished).1 == react(
            seq![LifecycleEvent::Stopped],
            ActionView::Stop,
        ),
        step(step(s, InputView::SourcesFinished).0, InputView::Stopped).0.state()
            == LoopState::Terminated,
        step(step(s, InputView::SourcesFinished).0, InputView::Stopped).1 == silent(
            ActionView::Exit,
        ),
{
}

/// Any signal delivered during a graceful stop ends the loop at that step,
/// with a quit: the loop does not wait for the stop to complete.
pub proof fn law_signal_during_shutdown_quits(s: LoopView, signal: SignalTo)
    requires
        s.state() == LoopState::ShuttingDown,
    ensures
        step(s, InputView::Signal(signal)).0.state() == LoopState::Terminated,
        step(s, InputView::Signal(signal)).0.topology == s.topology,
        step(s, InputView::Signal(signal)).1 == react(
            seq![LifecycleEvent::Quit],
            ActionView::Exit,
        ),
{
}

/// A reload signal delivered while a reload is in flight is passed over: no
/// second reload begins, and the one in flight is not disturbed.
pub proof fn law_one_reload_at_a_time(s: LoopView)
    requires
        s.state() == LoopState::Reloading,
    ensures
        step(s, InputView::Signal(SignalTo::Reload)) == (s, silent(ActionView::Wait)),
{
}

/// A change of state is reported, but for two: the beginning of a reload,
/// and the end of the loop when the graceful stop has completed.
pub proof fn law_transitions_are_reported(s: LoopView, input: InputView)
    requires
        step(s, input).0.state() != s.state(),
        step(s, input).1.events.len() == 0,
    ensures
        (s.state() == LoopState::Running && step(s, input).0.state() == LoopState::Reloading
            && input == InputView::Signal(SignalTo::Reload)) || (s.state()
            == LoopState::ShuttingDown && step(s, input).0.state() == LoopState::Terminated
            && input == InputView::Stopped),
{
}

/// A reload whose candidate is rejected leaves the loop running the topology
/// that it ran, and reports the failure.
pub proof fn law_rejected_candidate_changes_nothing(s: LoopView, resolved: Option<Vec<ConfigPath>>)
    requires
        s.phase == PhaseView::Running,
    ensures
        run(s, rejected_reload(resolved)).0 == with_paths(s, resolved),
        run(s, rejected_reload(resolved)).1 == seq![LifecycleEvent::ReloadFailed],
{
    reveal_with_fuel(run, 4);
}

/// A reload that fails at the build leaves the loop as it was before the
/// attempt, but for the configuration files that it looked up: it runs, with
/// the same configuration and the same instances. The failure is reported.
pub proof fn law_failed_build_changes_nothing(
    s: LoopView,
    resolved: Option<Vec<ConfigPath>>,
    candidate: Seq<Component>,
    built: Option<Seq<Instance>>,
)
    requires
        s.phase == PhaseView::Running,
        built is None || !answers(to_build(s.topology.config, candidate), built->0),
    ensures
        run(s, reload_until_build(resolved, candidate, built)).0 == with_paths(s, resolved),
        run(s, reload_until_build(resolved, candidate, built)).0.topology == s.topology,
        run(s, reload_until_build(resolved, candidate, built)).0.state() == LoopState::Running,
        run(s, reload_until_build(resolved, candidate, built)).1
            == seq![LifecycleEvent::ReloadFailed],
{
    reveal_with_fuel(run, 5);
}

/// The loop after a reload, up to the swap, whose candidate was loaded and
/// built as asked.
proof fn lemma_reload_until_swap(
    s: LoopView,
    resolved: Option<Vec<ConfigPath>>,
    candidate: Seq<Component>,
    pieces: Seq<Instance>,
    clean: bool,
)
    requires
        s.phase == PhaseView::Running,
        answers(to_build(s.topology.config, candidate), pieces),
    ensures
        run(s, complete_reload(resolved, candidate, pieces, clean)) == ({
            let swapping = with_paths(s, resolved).at(
                PhaseView::Swapping(reconciled(s.topology, candidate, pieces)),
            );
            let last = step(swapping, InputView::Swapped(clean));
            (last.0, last.1.events)
        }),
{
    reveal_with_fuel(run, 6);
}

/// A reload that goes through puts the reconciled topology in place: the loop
/// runs the candidate, and reports the reload.
pub proof fn law_complete_reload(
    s: LoopView,
    resolved: Option<Vec<ConfigPath>>,
    candidate: Seq<Component>,
    pieces: Seq<Instance>,
)
    requires
        s.phase == PhaseView::Running,
        answers(to_build(s.topology.config, candidate), pieces),
    ensures
        run(s, complete_reload(resolved, candidate, pieces, true)).0 == (LoopView {
            topology: reconciled(s.topology, candidate, pieces),
            ..with_paths(s, resolved)
        }),
        run(s, complete_reload(resolved, candidate, pieces, true)).1
            == seq![LifecycleEvent::Reloaded],
{
    lemma_reload_until_swap(s, resolved, candidate, pieces, true);
}

/// A reload whose swap cannot be completed ends in the graceful stop of the
/// topology as it was before the attempt, and reports the failed reload, the
/// failed recovery and the stop, in this order.
pub proof fn law_failed_swap_shuts_down(
    s: LoopView,
    resolved: Option<Vec<ConfigPath>>,
    candidate: Seq<Component>,
    pieces: Seq<Instance>,
)
    requires
        s.phase == PhaseView::Running,
        answers(to_build(s.topology.config, candidate), pieces),
    ensures
        run(s, complete_reload(resolved, candidate, pieces, false)).0 == with_paths(
            s,
            resolved,
        ).at(PhaseView::ShuttingDown),
        run(s, complete_reload(resolved, candidate, pieces, false)).0.topology == s.topology,
        run(s, complete_reload(resolved, candidate, pieces, false)).1 == seq![
            LifecycleEvent::ReloadFailed,
            LifecycleEvent::RecoveryFailed,
            LifecycleEvent::Stopped,
        ],
{
    lemma_reload_until_swap(s, resolved, candidate, pieces, false);
}

/// A reload between configurations that share no identifier, once it has gone
/// through, leaves exactly the components of the candidate running, each on
/// the instance built for it: every component of the candidate was built,
/// every component that ran was stopped, and none of them runs any more.
pub proof fn law_disjoint_reload_replaces_all(
    s: LoopView,
    resolved: Option<Vec<ConfigPath>>,
    candidate: Seq<Component>,
    pieces: Seq<Instance>,
)
    requires
        s.wf(),
        s.phase == PhaseView::Running,
        distinct_ids(candidate),
        forall|id: u64| !(has_id(s.topology.config, id) && has_id(candidate, id)),
        answers(to_build(s.topology.config, candidate), pieces),
    ensures
        to_build(s.topology.config, candidate) == ids(candidate),
        to_stop(s.topology.config, candidate) == ids(s.topology.config),
        run(s, complete_reload(resolved, candidate, pieces, true)).0.state() == LoopState::Running,
        run(s, complete_reload(resolved, candidate, pieces, true)).0.topology == (TopologyView {
            config: candidate,
            instances: pieces,
        }),
        aligned(candidate, pieces),
        forall|id: u64| has_instance(pieces, id) <==> has_id(candidate, id),
        forall|id: u64| has_id(s.topology.config, id) ==> !has_instance(pieces, id),
{
    let old = s.topology;
    law_complete_reload(s, resolved, candidate, pieces);
    assert forall|i: int| 0 <= i < candidate.len() implies !has_id(
        old.config,
        (#[trigger] candidate[i]).id,
    ) by {
        assert(has_id(candidate, candidate[i].id));
    }
    lemma_all_added(old.config, candidate);
    lemma_all_added(candidate, old.config);
    lemma_aligned(candidate, pieces);
    assert(spliced(old, candidate, pieces) =~= pieces);
}

/// A component that a reload finds unchanged runs on the same instance after
/// the reload as before it: it is neither stopped nor built again.
pub proof fn law_unchanged_keeps_instance(
    s: LoopView,
    resolved: Option<Vec<ConfigPath>>,
    candidate: Seq<Component>,
    pieces: Seq<Instance>,
    id: u64,
)
    requires
        s.wf(),
        s.phase == PhaseView::Running,
        distinct_ids(candidate),
        answers(to_build(s.topology.config, candidate), pieces),
        unchanged(s.topology.config, candidate).contains(id),
    ensures
        s.topology.handle(id) is Some,
        run(s, complete_reload(resolved, candidate, pieces, true)).0.topology.handle(id)
            == s.topology.handle(id),
        !to_stop(s.topology.config, candidate).contains(id),
        !to_build(s.topology.config, candidate).contains(id),
{
    let old = s.topology;
    law_complete_reload(s, resolved, candidate, pieces);
    law_diff_partitions(old.config, candidate, id);
    let i = choose|i: int|
        0 <= i < candidate.len() && (#[trigger] candidate[i]).id == id && classify(
            old.config,
            candidate[i],
        ) == Change::Unchanged;
    lemma_splice_sources(old, candidate, pieces, i);
    assert(spliced(old, candidate, pieces)[i].id == id);
}

/// After a reload that has gone through, exactly the components of the
/// candidate run: one that was built runs on the instance built for it, and
/// one that the candidate lacks does not run any more.
pub proof fn law_reload_runs_the_candidate(
    s: LoopView,
    resolved: Option<Vec<ConfigPath>>,
    candidate: Seq<Component>,
    pieces: Seq<Instance>,
    id: u64,
)
    requires
        s.wf(),
        s.phase == PhaseView::Running,
        distinct_ids(candidate),
        answers(to_build(s.topology.config, candidate), pieces),
    ensures
        run(s, complete_reload(resolved, candidate, pieces, true)).0.topology.config == candidate,
        run(s, complete_reload(resolved, candidate, pieces, true)).0.topology.wf(),
        run(s, complete_reload(resolved, candidate, pieces, true)).0.topology.handle(id) is Some
            <==> has_id(candidate, id),
        to_build(s.topology.config, candidate).contains(id) ==> run(
            s,
            complete_reload(resolved, candidate, pieces, true),
        ).0.topology.handle(id) == handle_of(pieces, id),
{
    let old = s.topology;
    law_complete_reload(s, resolved, candidate, pieces);
    if to_build(old.config, candidate).contains(id) {
        lemma_to_build_distinct(old.config, candidate);
        lemma_answers(to_build(old.config, candidate), pieces);
        law_build_is_of_the_candidate(old.config, candidate, id);
        lemma_handle_at(spliced(old, candidate, pieces), index_of(candidate, id));
    }
}

/// A build is asked for components of the candidate only, and for none that
/// is unchanged.
pub proof fn law_build_is_of_the_candidate(old: Seq<Component>, new: Seq<Component>, id: u64)
    requires
        distinct_ids(old),
        distinct_ids(new),
        to_build(old, new).contains(id),
    ensures
        has_id(new, id),
        classify(old, new[index_of(new, id)]) != Change::Unchanged,
{
    law_diff_partitions(old, new, id);
}

/// A reload with the running configuration itself builds nothing, stops
/// nothing, and leaves the topology as it was.
pub proof fn law_identical_reload_restarts_nothing(s: LoopView, resolved: Option<Vec<ConfigPath>>)
    requires
        s.wf(),
        s.phase == PhaseView::Running,
    ensures
        to_build(s.topology.config, s.topology.config).len() == 0,
        to_stop(s.topology.config, s.topology.config).len() == 0,
        run(s, complete_reload(resolved, s.topology.config, Seq::empty(), true)).0 == with_paths(
            s,
            resolved,
        ),
        run(s, complete_reload(resolved, s.topology.config, Seq::empty(), true)).1
            == seq![LifecycleEvent::Reloaded],
{
    let old = s.topology;
    let config = old.config;
    lemma_all_unchanged(config, config.len() as int);
    assert(config.take(config.len() as int) =~= config);
    let pieces = Seq::<Instance>::empty();
    law_complete_reload(s, resolved, config, pieces);
    assert(spliced(old, config, pieces) =~= old.instances);
}

/// A preparation that ends without an application ends with the exit code of
/// a configuration error, unless a one-shot mode ran: then it ends with the
/// exit code of that mode.
pub proof fn law_startup_failure_is_configuration_error(b: BootView, input: BootInput, r: Boot)
    requires
        follows(b, input, r),
        r is Exit,
    ensures
        match (b.stage, input) {
            (StageView::SubCommand, BootInput::SubCommandDone(code)) => r == Boot::Exit(code),
            _ => r == Boot::Exit(CONFIG),
        },
{
}

/// A preparation runs no pipeline where a one-shot mode was asked for: the
/// mode runs as soon as the task scheduler does, and its exit code ends the
/// process.
pub proof fn law_one_shot_mode_bypasses_the_pipeline(
    b: BootView,
    command: SubCommand,
    code: i32,
    r1: Boot,
    r2: Boot,
)
    requires
        b.stage == StageView::Runtime,
        b.sub_command == Some(command),
        follows(b, BootInput::RuntimeBuilt, r1),
        r1 is Next ==> follows(r1->Next_0@, BootInput::SubCommandDone(code), r2),
    ensures
        r1 is Next,
        r1->Next_1 == BootAction::RunSubCommand(command),
        r2 == Boot::Exit(code),
{
}

/// A preparation in which every piece of work succeeds goes once through the
/// lookup of the files, the watch where it was asked for, the load, the build
/// of every component and the start, and hands over the application of the
/// configuration loaded, running on the instances built.
pub proof fn law_preparation_is_one_pass(
    b: BootView,
    found: Vec<ConfigPath>,
    config: Configuration,
    api: ApiOptions,
    pieces: Vec<Instance>,
    r1: Boot,
    r2: Boot,
    r3: Boot,
    r4: Boot,
    r5: Boot,
    r6: Boot,
    r7: Boot,
)
    requires
        b.stage == StageView::Init,
        b.root.threads != Some(0usize),
        b.sub_command is None,
        answers(ids(config@), pieces@),
        follows(b, BootInput::Initialized, r1),
        r1 is Next ==> follows(r1->Next_0@, BootInput::RuntimeBuilt, r2),
        r2 is Next ==> follows(r2->Next_0@, BootInput::Resolved(Some(found)), r3),
        r3 is Next ==> if b.root.watch_config {
            follows(r3->Next_0@, BootInput::Watching(true), r4)
        } else {
            r4 == r3
        },
        r4 is Next ==> follows(r4->Next_0@, BootInput::Loaded(Some((config, api))), r5),
        r5 is Next ==> follows(r5->Next_0@, BootInput::Built(Some(pieces)), r6),
        r6 is Next ==> follows(r6->Next_0@, BootInput::Started(true), r7),
    ensures
        r1 matches Boot::Next(_, BootAction::Runtime { threads }) && threads >= 1,
        r2 matches Boot::Next(_, BootAction::Resolve),
        r3 matches Boot::Next(_, action) && action == if b.root.watch_config {
            BootAction::Watch
        } else {
            BootAction::Load
        },
        r4 matches Boot::Next(_, BootAction::Load),
        r5 matches Boot::Next(_, BootAction::Build(request)) && request@ == ids(config@),
        r6 matches Boot::Next(_, BootAction::Start),
        r7 matches Boot::Ready(application) && application@ == (ApplicationView {
            opts: b.root,
            config_paths: found,
            topology: TopologyView { config: config@, instances: pieces@ },
            api,
        }),
{
}

} // verus!
