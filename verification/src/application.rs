//! The application: what the preparation hands to the control loop.

use crate::bootstrap::{filter_of, Boot, BootAction, BootView, Bootstrap, StageView};
use crate::control::{react, ControlLoop, LoopView, PhaseView, Reaction};
use crate::event::LifecycleEvent;
use crate::logging::{color_enabled, coloured, log_filter, use_json};
use crate::options::{ApiOptions, Color, ConfigPath, LogFormat, Opts, RootOpts};
use crate::topology::{RunningTopology, TopologyView};
use vstd::prelude::*;

verus! {

/// What a pipeline starts with: the configuration files that were found, the
/// topology that runs, and the options of the administrative server.
#[derive(Debug)]
pub struct ApplicationConfig {
    pub config_paths: Vec<ConfigPath>,
    pub topology: RunningTopology,
    pub api: ApiOptions,
}

/// A prepared application: a running topology, and the options that it was
/// started with.
#[derive(Debug)]
pub struct Application {
    opts: RootOpts,
    pub config: ApplicationConfig,
}

/// What an [`Application`] is.
pub struct ApplicationView {
    pub opts: RootOpts,
    pub config_paths: Vec<ConfigPath>,
    pub topology: TopologyView,
    pub api: ApiOptions,
}

impl View for Application {
    type V = ApplicationView;

    closed spec fn view(&self) -> ApplicationView {
        ApplicationView {
            opts: self.opts,
            config_paths: self.config.config_paths,
            topology: self.config.topology@,
            api: self.config.api,
        }
    }
}

impl Application {
    /// The application of `config`, started with `opts`.
    pub(crate) fn assemble(opts: RootOpts, config: ApplicationConfig) -> (r: Application)
        ensures
            r@ == (ApplicationView {
                opts,
                config_paths: config.config_paths,
                topology: config.topology@,
                api: config.api,
            }),
    {
        Application { opts, config }
    }

    /// The options that the application was started with.
    pub fn opts(&self) -> (r: &RootOpts)
        ensures
            *r == self@.opts,
    {
        &self.opts
    }

    /// Begins the preparation of the application from the options of the
    /// process and the log level that the environment asks for, if any.
    ///
    /// The first thing to do is to set up logging: with the filter that the
    /// environment and the command line give, as JSON where the options ask
    /// for it, and coloured as they say (where they leave the choice open, the
    /// standard output of this process decides).
    pub fn prepare_from_opts(opts: Opts, env_level: Option<String>) -> (r: Boot)
        ensures
            r is Next,
            r->Next_0@ == (BootView {
                stage: StageView::Init,
                root: opts.root,
                sub_command: opts.sub_command,
                paths: r->Next_0@.paths,
                api: ApiOptions { enabled: false, playground: false },
            }),
            r->Next_0@.paths@.len() == 0,
            r->Next_1 matches BootAction::Init { color, json, level } && {
                &&& level@ == filter_of(env_level, opts.log_level)
                &&& json == (opts.root.log_format == LogFormat::Json)
                &&& opts.root.color == Color::Always ==> color
                &&& opts.root.color == Color::Never ==> !color
                &&& exists|tty: bool| color == coloured(opts.root.color, tty)
            },
    {
        let Opts { root, sub_command, log_level } = opts;
        let level = log_filter(env_level, log_level.as_str());
        let color = color_enabled(root.color);
        let json = use_json(root.log_format);
        Boot::Next(Bootstrap::begin(root, sub_command), BootAction::Init { color, json, level })
    }

    /// Begins the control loop of the application: the loop runs the topology,
    /// loads from the configuration files that were found, and reports that it
    /// has started. Where the administrative server is enabled, it is handed
    /// the running configuration.
    pub fn run(self) -> (r: (ControlLoop, Reaction))
        ensures
            r.0@ == (LoopView {
                phase: PhaseView::Running,
                topology: self@.topology,
                paths: self@.config_paths,
                admin: self@.api.enabled,
            }),
            r.1@ == react(seq![LifecycleEvent::Started], r.0@.after_reload()),
    {
        let Application { opts, config } = self;
        let ApplicationConfig { config_paths, topology, api } = config;
        ControlLoop::new(topology, config_paths, api.enabled)
    }
}

} // verus!
