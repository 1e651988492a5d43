//! The control loop: the state machine that owns the running topology and
//! decides, input by input, what happens to it.
//!
//! The loop itself runs outside this library. It hands each thing that
//! happened to [`ControlLoop::handle`] as an [`Input`], reports the events of
//! the [`Reaction`] and performs its [`Action`], whose result is the next
//! input.

use crate::config::{distinct_ids, Component, Configuration};
use crate::diff::{to_build, to_stop, ConfigDiff};
use crate::event::LifecycleEvent;
use crate::options::ConfigPath;
use crate::signal::SignalTo;
use crate::topology::{answers, reconciled, Instance, RunningTopology, TopologyView};
use vstd::prelude::*;

verus! {

/// The state of the control loop.
#[derive(Clone, Copy, Debug, PartialEq, Eq, Structural)]
pub enum LoopState {
    /// The topology runs, and the loop waits for a signal, a crash or the end
    /// of all sources.
    Running,
    /// A reload is in flight.
    Reloading,
    /// A graceful stop is in flight.
    ShuttingDown,
    /// The loop has ended.
    Terminated,
}

/// Something that happened, handed to the control loop.
#[derive(Debug)]
pub enum Input {
    /// The signal stream delivered a signal.
    Signal(SignalTo),
    /// A component reported a failure that it cannot recover from.
    Crash,
    /// Every source of the topology has completed.
    SourcesFinished,
    /// The configuration files were looked up again, or could not be.
    Resolved(Option<Vec<ConfigPath>>),
    /// The candidate configuration was loaded and validated, or was not.
    Loaded(Option<Configuration>),
    /// The components asked for were built, or the build failed.
    Built(Option<Vec<Instance>>),
    /// The superseded instances were stopped and the built ones started
    /// (`true`), or this could not be completed (`false`).
    Swapped(bool),
    /// The graceful stop has completed.
    Stopped,
}

/// What an [`Input`] is.
pub enum InputView {
    Signal(SignalTo),
    Crash,
    SourcesFinished,
    Resolved(Option<Vec<ConfigPath>>),
    Loaded(Option<Seq<Component>>),
    Built(Option<Seq<Instance>>),
    Swapped(bool),
    Stopped,
}

impl View for Input {
    type V = InputView;

    open spec fn view(&self) -> InputView {
        match *self {
            Input::Signal(s) => InputView::Signal(s),
            Input::Crash => InputView::Crash,
            Input::SourcesFinished => InputView::SourcesFinished,
            Input::Resolved(paths) => InputView::Resolved(paths),
            Input::Loaded(Some(c)) => InputView::Loaded(Some(c@)),
            Input::Loaded(None) => InputView::Loaded(None),
            Input::Built(Some(p)) => InputView::Built(Some(p@)),
            Input::Built(None) => InputView::Built(None),
            Input::Swapped(clean) => InputView::Swapped(clean),
            Input::Stopped => InputView::Stopped,
        }
    }
}

/// What the loop has to do next.
#[derive(Debug, PartialEq, Eq)]
pub enum Action {
    /// Nothing new: go on waiting for the next input.
    Wait,
    /// Look up the configuration files again, and hand back
    /// [`Input::Resolved`].
    Resolve,
    /// Load and validate the candidate configuration from the configuration
    /// files of the loop, and hand back [`Input::Loaded`].
    Load,
    /// Build these components of the candidate, in this order, and hand back
    /// [`Input::Built`].
    Build(Vec<u64>),
    /// Stop the running instances of these components, start the instances
    /// built, and hand back [`Input::Swapped`].
    Swap(Vec<u64>),
    /// Hand the running configuration to the administrative server, then go
    /// on waiting.
    Publish,
    /// Begin the graceful stop of the whole topology, go on listening for
    /// signals, and hand back [`Input::Stopped`] when the stop completes.
    Stop,
    /// Leave the loop and drop the topology. A graceful stop that is in flight
    /// is abandoned, not awaited.
    Exit,
}

/// What an [`Action`] is.
pub enum ActionView {
    Wait,
    Resolve,
    Load,
    Build(Seq<u64>),
    Swap(Seq<u64>),
    Publish,
    Stop,
    Exit,
}

impl View for Action {
    type V = ActionView;

    open spec fn view(&self) -> ActionView {
        match *self {
            Action::Wait => ActionView::Wait,
            Action::Resolve => ActionView::Resolve,
            Action::Load => ActionView::Load,
            Action::Build(ids) => ActionView::Build(ids@),
            Action::Swap(ids) => ActionView::Swap(ids@),
            Action::Publish => ActionView::Publish,
            Action::Stop => ActionView::Stop,
            Action::Exit => ActionView::Exit,
        }
    }
}

/// The answer of the control loop to one input.
#[derive(Debug, PartialEq, Eq)]
pub struct Reaction {
    /// The lifecycle events to report, in order.
    pub events: Vec<LifecycleEvent>,
    /// What to do next.
    pub action: Action,
}

/// What a [`Reaction`] is.
pub struct ReactionView {
    pub events: Seq<LifecycleEvent>,
    pub action: ActionView,
}

impl View for Reaction {
    type V = ReactionView;

    open spec fn view(&self) -> ReactionView {
        ReactionView { events: self.events@, action: self.action@ }
    }
}

/// Where the control loop stands.
pub enum PhaseView {
    /// The topology runs.
    Running,
    /// A reload waits for the configuration files to be looked up.
    Resolving,
    /// A reload waits for the candidate configuration.
    Loading,
    /// A reload waits for the build of what the candidate adds or changes.
    Building(Seq<Component>),
    /// A reload waits for the swap that leads to this topology.
    Swapping(TopologyView),
    /// A graceful stop is in flight.
    ShuttingDown,
    /// The loop has ended.
    Terminated,
}

/// What a control loop is: where it stands, the topology it owns, the
/// configuration files it loads from, and whether an administrative server
/// keeps a view of the running configuration.
pub struct LoopView {
    pub phase: PhaseView,
    pub topology: TopologyView,
    pub paths: Vec<ConfigPath>,
    pub admin: bool,
}

impl LoopView {
    /// The state of the loop.
    pub open spec fn state(self) -> LoopState {
        match self.phase {
            PhaseView::Running => LoopState::Running,
            PhaseView::Resolving => LoopState::Reloading,
            PhaseView::Loading => LoopState::Reloading,
            PhaseView::Building(_) => LoopState::Reloading,
            PhaseView::Swapping(_) => LoopState::Reloading,
            PhaseView::ShuttingDown => LoopState::ShuttingDown,
            PhaseView::Terminated => LoopState::Terminated,
        }
    }

    /// The topology reflects one configuration, and so does what a reload in
    /// flight holds.
    pub open spec fn wf(self) -> bool {
        &&& self.topology.wf()
        &&& match self.phase {
            PhaseView::Building(candidate) => distinct_ids(candidate),
            PhaseView::Swapping(next) => next.wf(),
            _ => true,
        }
    }

    /// The same loop in another phase.
    pub open spec fn at(self, phase: PhaseView) -> LoopView {
        LoopView { phase, ..self }
    }

    /// What follows a reload that went through: the administrative server,
    /// where there is one, is handed the new configuration.
    pub open spec fn after_reload(self) -> ActionView {
        if self.admin {
            ActionView::Publish
        } else {
            ActionView::Wait
        }
    }
}

/// The configuration files after a new lookup: those found, or the former
/// ones where the lookup failed.
pub open spec fn refreshed(former: Vec<ConfigPath>, resolved: Option<Vec<ConfigPath>>) -> Vec<
    ConfigPath,
> {
    match resolved {
        Some(paths) => paths,
        None => former,
    }
}

/// A reaction that reports `events` and asks for `action`.
pub open spec fn react(events: Seq<LifecycleEvent>, action: ActionView) -> ReactionView {
    ReactionView { events, action }
}

/// A reaction that reports nothing and asks for `action`.
pub open spec fn silent(action: ActionView) -> ReactionView {
    ReactionView { events: Seq::empty(), action }
}

/// Whether `input` asks a loop in `phase` for a graceful shutdown: a shutdown
/// signal or a crash at any time, the end of all sources while running.
///
/// The end of all sources is not acted upon during a reload, which may
/// replace the sources: the loop is to be told again once it runs.
pub open spec fn asks_shutdown(phase: PhaseView, input: InputView) -> bool {
    ||| input == InputView::Signal(SignalTo::Shutdown)
    ||| input == InputView::Crash
    ||| (input == InputView::SourcesFinished && phase == PhaseView::Running)
}

/// The next step of a reload, or of a loop that runs, on an input that asks
/// for no termination.
///
/// A reload begins with a reload signal while running. Each of its steps waits
/// for one result: the configuration files, the candidate, the build, the
/// swap. The files found replace those of the loop; where none were found the
/// loop keeps its own. A candidate that was not loaded and a build that
/// failed, or that is not the build asked for, end the reload and leave the
/// topology as it was. A swap that completed puts the reconciled topology in
/// place. A swap that did not complete ends in a shutdown.
///
/// Any other input is passed over. A reload signal during a reload is such an
/// input: it is neither queued nor merged with the reload in flight, and has
/// to be delivered again to have an effect.
pub open spec fn proceed(s: LoopView, input: InputView) -> (LoopView, ReactionView) {
    match (s.phase, input) {
        (PhaseView::Running, InputView::Signal(SignalTo::Reload)) => (
            s.at(PhaseView::Resolving),
            silent(ActionView::Resolve),
        ),
        (PhaseView::Resolving, InputView::Resolved(resolved)) => (
            LoopView { phase: PhaseView::Loading, paths: refreshed(s.paths, resolved), ..s },
            silent(ActionView::Load),
        ),
        (PhaseView::Loading, InputView::Loaded(Some(candidate))) => (
            s.at(PhaseView::Building(candidate)),
            silent(ActionView::Build(to_build(s.topology.config, candidate))),
        ),
        (PhaseView::Loading, InputView::Loaded(None)) => (
            s.at(PhaseView::Running),
            react(seq![LifecycleEvent::ReloadFailed], ActionView::Wait),
        ),
        (PhaseView::Building(candidate), InputView::Built(built)) => if built is Some && answers(
            to_build(s.topology.config, candidate),
            built->0,
        ) {
            (
                s.at(PhaseView::Swapping(reconciled(s.topology, candidate, built->0))),
                silent(ActionView::Swap(to_stop(s.topology.config, candidate))),
            )
        } else {
            (s.at(PhaseView::Running), react(seq![LifecycleEvent::ReloadFailed], ActionView::Wait))
        },
        (PhaseView::Swapping(next), InputView::Swapped(clean)) => if clean {
            (
                LoopView { phase: PhaseView::Running, topology: next, ..s },
                react(seq![LifecycleEvent::Reloaded], s.after_reload()),
            )
        } else {
            (
                s.at(PhaseView::ShuttingDown),
                react(
                    seq![
                        LifecycleEvent::ReloadFailed,
                        LifecycleEvent::RecoveryFailed,
                        LifecycleEvent::Stopped,
                    ],
                    ActionView::Stop,
                ),
            )
        },
        _ => (s, silent(ActionView::Wait)),
    }
}

/// The transition of the control loop: the loop after `input`, and its
/// reaction.
///
/// A loop that has ended stays so. During a graceful stop any signal ends the
/// loop at once with a quit, and the completion of the stop ends it quietly.
/// Before that, an input that asks for a shutdown begins the graceful stop, a
/// quit signal ends the loop at once, and anything else goes to `proceed`.
pub open spec fn step(s: LoopView, input: InputView) -> (LoopView, ReactionView) {
    match s.phase {
        PhaseView::Terminated => (s, silent(ActionView::Exit)),
        PhaseView::ShuttingDown => match input {
            InputView::Signal(_) => (
                s.at(PhaseView::Terminated),
                react(seq![LifecycleEvent::Quit], ActionView::Exit),
            ),
            InputView::Stopped => (s.at(PhaseView::Terminated), silent(ActionView::Exit)),
            _ => (s, silent(ActionView::Wait)),
        },
        _ => if asks_shutdown(s.phase, input) {
            (s.at(PhaseView::ShuttingDown), react(seq![LifecycleEvent::Stopped], ActionView::Stop))
        } else if input == InputView::Signal(SignalTo::Quit) {
            (s.at(PhaseView::Terminated), react(seq![LifecycleEvent::Quit], ActionView::Exit))
        } else {
            proceed(s, input)
        },
    }
}

/// The views of `inputs`, one by one.
pub open spec fn views(inputs: Seq<Input>) -> Seq<InputView> {
    Seq::new(inputs.len(), |i: int| inputs[i]@)
}

/// The loop after a sequence of inputs, and the events reported on the way.
pub open spec fn run(s: LoopView, inputs: Seq<InputView>) -> (LoopView, Seq<LifecycleEvent>)
    decreases inputs.len(),
{
    if inputs.len() == 0 {
        (s, Seq::empty())
    } else {
        let first = step(s, inputs[0]);
        let rest = run(first.0, inputs.drop_first());
        (rest.0, first.1.events + rest.1)
    }
}

/// Where the control loop stands, with what a reload in flight holds.
#[derive(Debug)]
enum Phase {
    Running,
    Resolving,
    Loading,
    Building(Configuration),
    Swapping(RunningTopology),
    ShuttingDown,
    Terminated,
}

impl View for Phase {
    type V = PhaseView;

    closed spec fn view(&self) -> PhaseView {
        match *self {
            Phase::Running => PhaseView::Running,
            Phase::Resolving => PhaseView::Resolving,
            Phase::Loading => PhaseView::Loading,
            Phase::Building(c) => PhaseView::Building(c@),
            Phase::Swapping(t) => PhaseView::Swapping(t@),
            Phase::ShuttingDown => PhaseView::ShuttingDown,
            Phase::Terminated => PhaseView::Terminated,
        }
    }
}

/// The control loop.
#[derive(Debug)]
pub struct ControlLoop {
    phase: Phase,
    topology: RunningTopology,
    paths: Vec<ConfigPath>,
    admin: bool,
}

impl View for ControlLoop {
    type V = LoopView;

    closed spec fn view(&self) -> LoopView {
        LoopView {
            phase: self.phase@,
            topology: self.topology@,
            paths: self.paths,
            admin: self.admin,
        }
    }
}

/// The reaction that reports `events` and asks for `action`.
fn reaction(events: Vec<LifecycleEvent>, action: Action) -> (r: Reaction)
    ensures
        r@ == react(events@, action@),
{
    Reaction { events, action }
}

/// The reaction that reports nothing and asks for `action`.
fn quiet(action: Action) -> (r: Reaction)
    ensures
        r@ == silent(action@),
{
    Reaction { events: Vec::new(), action }
}

/// The reaction that reports `event` and asks for `action`.
fn report(event: LifecycleEvent, action: Action) -> (r: Reaction)
    ensures
        r@ == react(seq![event], action@),
{
    let mut events: Vec<LifecycleEvent> = Vec::new();
    events.push(event);
    Reaction { events, action }
}

impl ControlLoop {
    /// Every control loop owns a topology that reflects one configuration.
    #[verifier::type_invariant]
    pub open spec fn wf(&self) -> bool {
        self@.wf()
    }

    /// The control loop over `topology`, which loads from `paths`: it runs,
    /// reports that it has started, and hands the running configuration to the
    /// administrative server where `admin` says that there is one.
    pub fn new(topology: RunningTopology, paths: Vec<ConfigPath>, admin: bool) -> (r: (
        ControlLoop,
        Reaction,
    ))
        ensures
            r.0@ == (LoopView { phase: PhaseView::Running, topology: topology@, paths, admin }),
            r.1@ == react(seq![LifecycleEvent::Started], r.0@.after_reload()),
    {
        proof {
            use_type_invariant(&topology);
        }
        let action = if admin {
            Action::Publish
        } else {
            Action::Wait
        };
        (
            ControlLoop { phase: Phase::Running, topology, paths, admin },
            report(LifecycleEvent::Started, action),
        )
    }

    /// The state of the loop.
    pub fn state(&self) -> (r: LoopState)
        ensures
            r == self@.state(),
    {
        match self.phase {
            Phase::Running => LoopState::Running,
            Phase::Resolving => LoopState::Reloading,
            Phase::Loading => LoopState::Reloading,
            Phase::Building(_) => LoopState::Reloading,
            Phase::Swapping(_) => LoopState::Reloading,
            Phase::ShuttingDown => LoopState::ShuttingDown,
            Phase::Terminated => LoopState::Terminated,
        }
    }

    /// The topology that the loop owns.
    pub fn topology(&self) -> (t: &RunningTopology)
        ensures
            t@ == self@.topology,
    {
        &self.topology
    }

    /// The configuration files that the loop loads from.
    pub fn config_paths(&self) -> (paths: &Vec<ConfigPath>)
        ensures
            *paths == self@.paths,
    {
        &self.paths
    }

    /// Gives up the loop for its topology.
    pub fn into_topology(self) -> (t: RunningTopology)
        ensures
            t@ == self@.topology,
    {
        self.topology
    }

    /// Takes one input: the loop after it, and the reaction to it.
    pub fn handle(self, input: Input) -> (r: (ControlLoop, Reaction))
        ensures
            r.0@ == step(self@, input@).0,
            r.1@ == step(self@, input@).1,
    {
        let ControlLoop { phase, topology, paths, admin } = self;
        proof {
            use_type_invariant(&topology);
        }
        let (phase, topology, paths, reaction) = match phase {
            Phase::Terminated => (Phase::Terminated, topology, paths, quiet(Action::Exit)),
            Phase::ShuttingDown => match input {
                Input::Signal(_) => (
                    Phase::Terminated,
                    topology,
                    paths,
                    report(LifecycleEvent::Quit, Action::Exit),
                ),
                Input::Stopped => (Phase::Terminated, topology, paths, quiet(Action::Exit)),
                _ => (Phase::ShuttingDown, topology, paths, quiet(Action::Wait)),
            },
            Phase::Running => match input {
                Input::Signal(SignalTo::Reload) => (
                    Phase::Resolving,
                    topology,
                    paths,
                    quiet(Action::Resolve),
                ),
                Input::Signal(SignalTo::Shutdown) => (
                    Phase::ShuttingDown,
                    topology,
                    paths,
                    report(LifecycleEvent::Stopped, Action::Stop),
                ),
                Input::Signal(SignalTo::Quit) => (
                    Phase::Terminated,
                    topology,
                    paths,
                    report(LifecycleEvent::Quit, Action::Exit),
                ),
                Input::Crash => (
                    Phase::ShuttingDown,
                    topology,
                    paths,
                    report(LifecycleEvent::Stopped, Action::Stop),
                ),
                Input::SourcesFinished => (
                    Phase::ShuttingDown,
                    topology,
                    paths,
                    report(LifecycleEvent::Stopped, Action::Stop),
                ),
                _ => (Phase::Running, topology, paths, quiet(Action::Wait)),
            },
            Phase::Resolving => match input {
                Input::Signal(SignalTo::Shutdown) => (
                    Phase::ShuttingDown,
                    topology,
                    paths,
                    report(LifecycleEvent::Stopped, Action::Stop),
                ),
                Input::Signal(SignalTo::Quit) => (
                    Phase::Terminated,
                    topology,
                    paths,
                    report(LifecycleEvent::Quit, Action::Exit),
                ),
                Input::Crash => (
                    Phase::ShuttingDown,
                    topology,
                    paths,
                    report(LifecycleEvent::Stopped, Action::Stop),
                ),
                Input::Resolved(Some(found)) => (
                    Phase::Loading,
                    topology,
                    found,
                    quiet(Action::Load),
                ),
                Input::Resolved(None) => (Phase::Loading, topology, paths, quiet(Action::Load)),
                _ => (Phase::Resolving, topology, paths, quiet(Action::Wait)),
            },
            Phase::Loading => match input {
                Input::Signal(SignalTo::Shutdown) => (
                    Phase::ShuttingDown,
                    topology,
                    paths,
                    report(LifecycleEvent::Stopped, Action::Stop),
                ),
                Input::Signal(SignalTo::Quit) => (
                    Phase::Terminated,
                    topology,
                    paths,
                    report(LifecycleEvent::Quit, Action::Exit),
                ),
                Input::Crash => (
                    Phase::ShuttingDown,
                    topology,
                    paths,
                    report(LifecycleEvent::Stopped, Action::Stop),
                ),
                Input::Loaded(Some(candidate)) => {
                    proof {
                        use_type_invariant(&candidate);
                    }
                    let request = ConfigDiff::new(topology.config(), &candidate).to_build();
                    (Phase::Building(candidate), topology, paths, quiet(Action::Build(request)))
                },
                Input::Loaded(None) => (
                    Phase::Running,
                    topology,
                    paths,
                    report(LifecycleEvent::ReloadFailed, Action::Wait),
                ),
                _ => (Phase::Loading, topology, paths, quiet(Action::Wait)),
            },
            Phase::Building(candidate) => match input {
                Input::Signal(SignalTo::Shutdown) => (
                    Phase::ShuttingDown,
                    topology,
                    paths,
                    report(LifecycleEvent::Stopped, Action::Stop),
                ),
                Input::Signal(SignalTo::Quit) => (
                    Phase::Terminated,
                    topology,
                    paths,
                    report(LifecycleEvent::Quit, Action::Exit),
                ),
                Input::Crash => (
                    Phase::ShuttingDown,
                    topology,
                    paths,
                    report(LifecycleEvent::Stopped, Action::Stop),
                ),
                Input::Built(Some(pieces)) => {
                    let stop = ConfigDiff::new(topology.config(), &candidate).to_stop();
                    match topology.reconcile(candidate, &pieces) {
                        Some(next) => {
                            proof {
                                use_type_invariant(&next);
                            }
                            (Phase::Swapping(next), topology, paths, quiet(Action::Swap(stop)))
                        },
                        None => (
                            Phase::Running,
                            topology,
                            paths,
                            report(LifecycleEvent::ReloadFailed, Action::Wait),
                        ),
                    }
                },
                Input::Built(None) => (
                    Phase::Running,
                    topology,
                    paths,
                    report(LifecycleEvent::ReloadFailed, Action::Wait),
                ),
                _ => {
                    proof {
                        use_type_invariant(&candidate);
                    }
                    (Phase::Building(candidate), topology, paths, quiet(Action::Wait))
                },
            },
            Phase::Swapping(next) => match input {
                Input::Signal(SignalTo::Shutdown) => (
                    Phase::ShuttingDown,
                    topology,
                    paths,
                    report(LifecycleEvent::Stopped, Action::Stop),
                ),
                Input::Signal(SignalTo::Quit) => (
                    Phase::Terminated,
                    topology,
                    paths,
                    report(LifecycleEvent::Quit, Action::Exit),
                ),
                Input::Crash => (
                    Phase::ShuttingDown,
                    topology,
                    paths,
                    report(LifecycleEvent::Stopped, Action::Stop),
                ),
                Input::Swapped(true) => {
                    proof {
                        use_type_invariant(&next);
                    }
                    let action = if admin {
                        Action::Publish
                    } else {
                        Action::Wait
                    };
                    (Phase::Running, next, paths, report(LifecycleEvent::Reloaded, action))
                },
                Input::Swapped(false) => {
                    let mut events: Vec<LifecycleEvent> = Vec::new();
                    events.push(LifecycleEvent::ReloadFailed);
                    events.push(LifecycleEvent::RecoveryFailed);
                    events.push(LifecycleEvent::Stopped);
                    assert(events@ =~= seq![
                        LifecycleEvent::ReloadFailed,
                        LifecycleEvent::RecoveryFailed,
                        LifecycleEvent::Stopped,
                    ]);
                    (Phase::ShuttingDown, topology, paths, reaction(events, Action::Stop))
                },
                _ => {
                    proof {
                        use_type_invariant(&next);
                    }
                    (Phase::Swapping(next), topology, paths, quiet(Action::Wait))
                },
            },
        };
        (ControlLoop { phase, topology, paths, admin }, reaction)
    }

    /// Takes a sequence of inputs, one after the other: the loop after them,
    /// and the events reported on the way.
    pub fn run(self, inputs: Vec<Input>) -> (r: (ControlLoop, Vec<LifecycleEvent>))
        ensures
            r.0@ == run(self@, views(inputs@)).0,
            r.1@ == run(self@, views(inputs@)).1,
    {
        let mut control = self;
        let mut events: Vec<LifecycleEvent> = Vec::new();
        let mut rest = inputs;
        while rest.len() > 0
            invariant
                run(control@, views(rest@)).0 == run(self@, views(inputs@)).0,
                events@ + run(control@, views(rest@)).1 == run(self@, views(inputs@)).1,
            decreases rest.len(),
        {
            let ghost before = rest@;
            let input = rest.remove(0);
            assert(views(before).drop_first() =~= views(rest@));
            let (next, mut reaction) = control.handle(input);
            events.append(&mut reaction.events);
            control = next;
        }
        (control, events)
    }
}

} // verus!
