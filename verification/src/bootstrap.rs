//! The preparation of the application: one load of the configuration, one
//! build and one start, before the control loop begins.
//!
//! As with the control loop, the work itself is done outside this library:
//! each [`BootAction`] asks for one piece of it, and its result comes back as
//! a [`BootInput`].

use crate::application::{Application, ApplicationConfig, ApplicationView};
use crate::config::{ids, Component, Configuration};
use crate::diff::ConfigDiff;
use crate::host::{available_cpus, config_error, CONFIG};
use crate::logging::filter;
use crate::options::{ApiOptions, ConfigPath, RootOpts, SubCommand};
use crate::topology::{answers, Instance, RunningTopology, TopologyView};
use vstd::prelude::*;

verus! {

/// The log filter of the process, from the level that the environment asks
/// for, if any, and the level of the command line.
pub open spec fn filter_of(env_level: Option<String>, cli_level: String) -> Seq<char> {
    filter(
        match env_level {
            Some(level) => Some(level@),
            None => None,
        },
        cli_level@,
    )
}

/// The number of worker threads: the number asked for, which must be at least
/// one; else the number of processors, and one where none is reported.
pub open spec fn threads_for(requested: Option<usize>, cpus: usize) -> Result<usize, i32> {
    match requested {
        Some(threads) => if threads < 1 {
            Err(CONFIG)
        } else {
            Ok(threads)
        },
        None => Ok(
            if cpus < 1 {
                1
            } else {
                cpus
            },
        ),
    }
}

/// The number of worker threads on a machine with `cpus` processors, or the
/// exit code of a configuration error where the number asked for is zero.
pub fn worker_threads(requested: Option<usize>, cpus: usize) -> (r: Result<
    usize,
    exitcode::ExitCode,
>)
    ensures
        r == threads_for(requested, cpus),
{
    match requested {
        Some(threads) => if threads < 1 {
            Err(config_error())
        } else {
            Ok(threads)
        },
        None => Ok(
            if cpus < 1 {
                1
            } else {
                cpus
            },
        ),
    }
}

/// The number of worker threads on this machine. The processors are counted
/// only where no number was asked for.
pub fn resolve_threads(requested: Option<usize>) -> (r: Result<usize, exitcode::ExitCode>)
    ensures
        exists|cpus: usize| r == threads_for(requested, cpus),
        requested is Some ==> r == threads_for(requested, 0),
{
    match requested {
        Some(_) => worker_threads(requested, 0),
        None => worker_threads(requested, available_cpus()),
    }
}

/// The result of a piece of work that the preparation asked for.
#[derive(Debug)]
pub enum BootInput {
    /// Logging and metrics are set up.
    Initialized,
    /// The task scheduler runs.
    RuntimeBuilt,
    /// The one-shot mode has run, and ended with this exit code.
    SubCommandDone(exitcode::ExitCode),
    /// The configuration files were looked up, or could not be.
    Resolved(Option<Vec<ConfigPath>>),
    /// The watch on the configuration files was started, or could not be.
    Watching(bool),
    /// The configuration was loaded and validated, or was not.
    Loaded(Option<(Configuration, ApiOptions)>),
    /// The components were built, or the build failed.
    Built(Option<Vec<Instance>>),
    /// The topology was started, or could not be.
    Started(bool),
}

/// What the preparation asks for next.
#[derive(Debug, PartialEq, Eq)]
pub enum BootAction {
    /// Nothing new: the result asked for is still awaited.
    Wait,
    /// Set up logging and metrics, and hand back [`BootInput::Initialized`].
    Init { color: bool, json: bool, level: String },
    /// Start the task scheduler with this number of worker threads, and hand
    /// back [`BootInput::RuntimeBuilt`].
    Runtime { threads: usize },
    /// Run this one-shot mode, and hand back [`BootInput::SubCommandDone`].
    RunSubCommand(SubCommand),
    /// Look up the configuration files that the options name, and hand back
    /// [`BootInput::Resolved`].
    Resolve,
    /// Start to watch the configuration files found, and hand back
    /// [`BootInput::Watching`].
    Watch,
    /// Load and validate the configuration from the files found, and hand
    /// back [`BootInput::Loaded`].
    Load,
    /// Build these components, in this order, and hand back
    /// [`BootInput::Built`].
    Build(Vec<u64>),
    /// Start the instances built, and hand back [`BootInput::Started`].
    Start,
}

/// Where the preparation stands.
#[derive(Debug)]
pub enum Boot {
    /// The preparation goes on: it asks for this action.
    Next(Bootstrap, BootAction),
    /// The application is prepared.
    Ready(Application),
    /// The process ends with this exit code, and no pipeline runs.
    Exit(exitcode::ExitCode),
}

/// The result that the preparation waits for.
pub enum StageView {
    /// Logging is being set up.
    Init,
    /// The task scheduler is being started.
    Runtime,
    /// A one-shot mode runs.
    SubCommand,
    /// The configuration files are being looked up.
    Paths,
    /// The watch on the configuration files is being started.
    Watcher,
    /// The configuration is being loaded.
    Config,
    /// The components of this configuration are being built.
    Build(Seq<Component>),
    /// This topology is being started.
    Start(TopologyView),
}

/// What a preparation is: the result it waits for, the options it was begun
/// with, and what it has found so far.
pub struct BootView {
    pub stage: StageView,
    pub root: RootOpts,
    pub sub_command: Option<SubCommand>,
    pub paths: Vec<ConfigPath>,
    pub api: ApiOptions,
}

impl BootView {
    /// The same preparation at another stage.
    pub open spec fn at(self, stage: StageView) -> BootView {
        BootView { stage, ..self }
    }
}

/// `r` is the preparation `b` after `input`.
///
/// Each stage waits for one result. A result that tells of a failure ends the
/// process with the exit code of a configuration error: a number of worker
/// threads below one, configuration files that cannot be looked up or
/// watched, a configuration that cannot be loaded, a build that failed or that
/// is not the build of every component in order, a topology that cannot be
/// started. A one-shot mode, where one was asked for, runs in place of all
/// that, and its exit code is that of the process. Where the number of worker
/// threads is left open it is at least one. Any other input is passed over.
pub open spec fn follows(b: BootView, input: BootInput, r: Boot) -> bool {
    match (b.stage, input) {
        (StageView::Init, BootInput::Initialized) => match b.root.threads {
            Some(threads) => if threads < 1 {
                r == Boot::Exit(CONFIG)
            } else {
                r matches Boot::Next(next, BootAction::Runtime { threads: chosen }) && next@ == b.at(
                    StageView::Runtime,
                ) && chosen == threads
            },
            None => r matches Boot::Next(next, BootAction::Runtime { threads: chosen }) && next@
                == b.at(StageView::Runtime) && chosen >= 1,
        },
        (StageView::Runtime, BootInput::RuntimeBuilt) => match b.sub_command {
            Some(command) => r matches Boot::Next(next, BootAction::RunSubCommand(asked)) && next@
                == b.at(StageView::SubCommand) && asked == command,
            None => r matches Boot::Next(next, BootAction::Resolve) && next@ == b.at(
                StageView::Paths,
            ),
        },
        (StageView::SubCommand, BootInput::SubCommandDone(code)) => r == Boot::Exit(code),
        (StageView::Paths, BootInput::Resolved(None)) => r == Boot::Exit(CONFIG),
        (StageView::Paths, BootInput::Resolved(Some(paths))) => if b.root.watch_config {
            r matches Boot::Next(next, BootAction::Watch) && next@ == (BootView {
                stage: StageView::Watcher,
                paths,
                ..b
            })
        } else {
            r matches Boot::Next(next, BootAction::Load) && next@ == (BootView {
                stage: StageView::Config,
                paths,
                ..b
            })
        },
        (StageView::Watcher, BootInput::Watching(watching)) => if watching {
            r matches Boot::Next(next, BootAction::Load) && next@ == b.at(StageView::Config)
        } else {
            r == Boot::Exit(CONFIG)
        },
        (StageView::Config, BootInput::Loaded(None)) => r == Boot::Exit(CONFIG),
        (StageView::Config, BootInput::Loaded(Some((config, api)))) => r matches Boot::Next(
            next,
            BootAction::Build(request),
        ) && next@ == (BootView { stage: StageView::Build(config@), api, ..b }) && request@ == ids(
            config@,
        ),
        (StageView::Build(config), BootInput::Built(built)) => if built matches Some(pieces)
            && answers(ids(config), pieces@) {
            r matches Boot::Next(next, BootAction::Start) && next@ == b.at(
                StageView::Start(TopologyView { config, instances: built->0@ }),
            )
        } else {
            r == Boot::Exit(CONFIG)
        },
        (StageView::Start(topology), BootInput::Started(started)) => if started {
            r matches Boot::Ready(application) && application@ == (ApplicationView {
                opts: b.root,
                config_paths: b.paths,
                topology,
                api: b.api,
            })
        } else {
            r == Boot::Exit(CONFIG)
        },
        _ => r matches Boot::Next(next, BootAction::Wait) && next@ == b,
    }
}

/// The result that the preparation waits for, with what it holds for later.
#[derive(Debug)]
enum Stage {
    Init,
    Runtime,
    SubCommand,
    Paths,
    Watcher,
    Config,
    Build(Configuration),
    Start(RunningTopology),
}

impl View for Stage {
    type V = StageView;

    closed spec fn view(&self) -> StageView {
        match *self {
            Stage::Init => StageView::Init,
            Stage::Runtime => StageView::Runtime,
            Stage::SubCommand => StageView::SubCommand,
            Stage::Paths => StageView::Paths,
            Stage::Watcher => StageView::Watcher,
            Stage::Config => StageView::Config,
            Stage::Build(config) => StageView::Build(config@),
            Stage::Start(topology) => StageView::Start(topology@),
        }
    }
}

/// A preparation in progress.
#[derive(Debug)]
pub struct Bootstrap {
    stage: Stage,
    root: RootOpts,
    sub_command: Option<SubCommand>,
    paths: Vec<ConfigPath>,
    api: ApiOptions,
}

impl View for Bootstrap {
    type V = BootView;

    closed spec fn view(&self) -> BootView {
        BootView {
            stage: self.stage@,
            root: self.root,
            sub_command: self.sub_command,
            paths: self.paths,
            api: self.api,
        }
    }
}

impl Bootstrap {
    /// The preparation at its beginning: nothing is found yet, and logging is
    /// to be set up.
    pub(crate) fn begin(root: RootOpts, sub_command: Option<SubCommand>) -> (r: Bootstrap)
        ensures
            r@ == (BootView {
                stage: StageView::Init,
                root,
                sub_command,
                paths: r@.paths,
                api: ApiOptions { enabled: false, playground: false },
            }),
            r@.paths@.len() == 0,
    {
        Bootstrap {
            stage: Stage::Init,
            root,
            sub_command,
            paths: Vec::new(),
            api: ApiOptions { enabled: false, playground: false },
        }
    }

    /// The options that the preparation was begun with.
    pub fn opts(&self) -> (r: &RootOpts)
        ensures
            *r == self@.root,
    {
        &self.root
    }

    /// The configuration files found, once they were looked up.
    pub fn config_paths(&self) -> (r: &Vec<ConfigPath>)
        ensures
            *r == self@.paths,
    {
        &self.paths
    }

    /// Takes the result of the work asked for: where the preparation stands
    /// after it.
    pub fn step(self, input: BootInput) -> (r: Boot)
        ensures
            follows(self@, input, r),
    {
        let Bootstrap { stage, root, sub_command, paths, api } = self;
        match stage {
            Stage::Init => match input {
                BootInput::Initialized => match resolve_threads(root.threads) {
                    Ok(threads) => Boot::Next(
                        Bootstrap { stage: Stage::Runtime, root, sub_command, paths, api },
                        BootAction::Runtime { threads },
                    ),
                    Err(code) => Boot::Exit(code),
                },
                _ => Boot::Next(
                    Bootstrap { stage: Stage::Init, root, sub_command, paths, api },
                    BootAction::Wait,
                ),
            },
            Stage::Runtime => match input {
                BootInput::RuntimeBuilt => match sub_command {
                    Some(command) => Boot::Next(
                        Bootstrap { stage: Stage::SubCommand, root, sub_command, paths, api },
                        BootAction::RunSubCommand(command),
                    ),
                    None => Boot::Next(
                        Bootstrap { stage: Stage::Paths, root, sub_command, paths, api },
                        BootAction::Resolve,
                    ),
                },
                _ => Boot::Next(
                    Bootstrap { stage: Stage::Runtime, root, sub_command, paths, api },
                    BootAction::Wait,
                ),
            },
            Stage::SubCommand => match input {
                BootInput::SubCommandDone(code) => Boot::Exit(code),
                _ => Boot::Next(
                    Bootstrap { stage: Stage::SubCommand, root, sub_command, paths, api },
                    BootAction::Wait,
                ),
            },
            Stage::Paths => match input {
                BootInput::Resolved(Some(found)) => if root.watch_config {
                    Boot::Next(
                        Bootstrap { stage: Stage::Watcher, root, sub_command, paths: found, api },
                        BootAction::Watch,
                    )
                } else {
                    Boot::Next(
                        Bootstrap { stage: Stage::Config, root, sub_command, paths: found, api },
                        BootAction::Load,
                    )
                },
                BootInput::Resolved(None) => Boot::Exit(config_error()),
                _ => Boot::Next(
                    Bootstrap { stage: Stage::Paths, root, sub_command, paths, api },
                    BootAction::Wait,
                ),
            },
            Stage::Watcher => match input {
                BootInput::Watching(true) => Boot::Next(
                    Bootstrap { stage: Stage::Config, root, sub_command, paths, api },
                    BootAction::Load,
                ),
                BootInput::Watching(false) => Boot::Exit(config_error()),
                _ => Boot::Next(
                    Bootstrap { stage: Stage::Watcher, root, sub_command, paths, api },
                    BootAction::Wait,
                ),
            },
            Stage::Config => match input {
                BootInput::Loaded(Some((config, found))) => {
                    let request = ConfigDiff::initial(&config).to_build();
                    Boot::Next(
                        Bootstrap {
                            stage: Stage::Build(config),
                            root,
                            sub_command,
                            paths,
                            api: found,
                        },
                        BootAction::Build(request),
                    )
                },
                BootInput::Loaded(None) => Boot::Exit(config_error()),
                _ => Boot::Next(
                    Bootstrap { stage: Stage::Config, root, sub_command, paths, api },
                    BootAction::Wait,
                ),
            },
            Stage::Build(config) => match input {
                BootInput::Built(Some(pieces)) => match RunningTopology::start(config, pieces) {
                    Some(topology) => Boot::Next(
                        Bootstrap { stage: Stage::Start(topology), root, sub_command, paths, api },
                        BootAction::Start,
                    ),
                    None => Boot::Exit(config_error()),
                },
                BootInput::Built(None) => Boot::Exit(config_error()),
                _ => Boot::Next(
                    Bootstrap { stage: Stage::Build(config), root, sub_command, paths, api },
                    BootAction::Wait,
                ),
            },
            Stage::Start(topology) => match input {
                BootInput::Started(true) => Boot::Ready(
                    Application::assemble(
                        root,
                        ApplicationConfig { config_paths: paths, topology, api },
                    ),
                ),
                BootInput::Started(false) => Boot::Exit(config_error()),
                _ => Boot::Next(
                    Bootstrap { stage: Stage::Start(topology), root, sub_command, paths, api },
                    BootAction::Wait,
                ),
            },
        }
    }
}

} // verus!
