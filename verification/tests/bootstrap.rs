use lifecycle::application::Application;
use lifecycle::bootstrap::{resolve_threads, worker_threads, Boot, BootAction, BootInput, Bootstrap};
use lifecycle::config::{Component, ComponentKind, Configuration};
use lifecycle::control::{Action, LoopState, Reaction};
use lifecycle::event::LifecycleEvent;
use lifecycle::host::CONFIG;
use lifecycle::logging::{color_enabled, log_filter, use_color, use_json};
use lifecycle::options::{
    ApiOptions, Color, ConfigPath, Format, LogFormat, Opts, RootOpts, SubCommand,
};
use lifecycle::topology::Instance;

fn path(name: &str) -> ConfigPath {
    ConfigPath { path: name.to_string(), format: Some(Format::Toml) }
}

fn root() -> RootOpts {
    RootOpts {
        config_paths: vec![path("/etc/pipeline/*.toml")],
        require_healthy: false,
        threads: Some(4),
        color: Color::Never,
        log_format: LogFormat::Text,
        watch_config: false,
    }
}

fn opts(root: RootOpts, sub_command: Option<SubCommand>) -> Opts {
    Opts { root, sub_command, log_level: "info".to_string() }
}

fn configuration() -> Configuration {
    Configuration::new(vec![
        Component { id: 1, kind: ComponentKind::Source, revision: 10 },
        Component { id: 2, kind: ComponentKind::Sink, revision: 20 },
    ])
    .expect("identifiers are distinct")
}

fn api() -> ApiOptions {
    ApiOptions { enabled: true, playground: false }
}

fn pieces() -> Vec<Instance> {
    vec![Instance { id: 1, handle: 100 }, Instance { id: 2, handle: 200 }]
}

fn going(boot: Boot) -> (Bootstrap, BootAction) {
    match boot {
        Boot::Next(bootstrap, action) => (bootstrap, action),
        other => panic!("the preparation has ended: {:?}", other),
    }
}

fn exit_code(boot: Boot) -> i32 {
    match boot {
        Boot::Exit(code) => code,
        other => panic!("the preparation has not ended with an exit code: {:?}", other),
    }
}

/// Takes the preparation from its beginning to the lookup of the files.
fn at_paths(root: RootOpts) -> Bootstrap {
    let (b, _) = going(Application::prepare_from_opts(opts(root, None), None));
    let (b, _) = going(b.step(BootInput::Initialized));
    let (b, action) = going(b.step(BootInput::RuntimeBuilt));
    assert_eq!(action, BootAction::Resolve);
    b
}

/// Takes the preparation from its beginning to the load of the configuration.
fn at_config() -> Bootstrap {
    let (b, action) = going(at_paths(root()).step(BootInput::Resolved(Some(vec![path("a.toml")]))));
    assert_eq!(action, BootAction::Load);
    b
}

/// Takes the preparation from its beginning to the build.
fn at_build() -> Bootstrap {
    let (b, action) = going(at_config().step(BootInput::Loaded(Some((configuration(), api())))));
    assert_eq!(action, BootAction::Build(vec![1, 2]));
    b
}

/// Takes the preparation from its beginning to the start of the topology.
fn at_start() -> Bootstrap {
    let (b, action) = going(at_build().step(BootInput::Built(Some(pieces()))));
    assert_eq!(action, BootAction::Start);
    b
}

#[test]
fn log_filter_gives_the_level_to_each_part() {
    assert_eq!(
        log_filter(None, "info"),
        "vector=info,codec=info,file_source=info,tower_limit=trace,rdkafka=info"
    );
    assert_eq!(
        log_filter(None, "trace"),
        "vector=trace,codec=trace,file_source=trace,tower_limit=trace,rdkafka=trace"
    );
    assert_eq!(
        log_filter(None, ""),
        "vector=,codec=,file_source=,tower_limit=trace,rdkafka="
    );
}

#[test]
fn log_filter_is_off_when_the_command_line_turns_logging_off() {
    assert_eq!(log_filter(None, "off"), "off");
    assert_eq!(
        log_filter(None, "OFF"),
        "vector=OFF,codec=OFF,file_source=OFF,tower_limit=trace,rdkafka=OFF"
    );
}

#[test]
fn log_filter_prefers_the_environment() {
    assert_eq!(log_filter(Some("debug".to_string()), "info"), "debug");
    assert_eq!(log_filter(Some("vector=warn".to_string()), "off"), "vector=warn");
    assert_eq!(log_filter(Some(String::new()), "info"), "");
}

#[test]
fn colour_follows_the_option_and_the_terminal() {
    assert!(use_color(Color::Always, false));
    assert!(use_color(Color::Always, true));
    assert!(!use_color(Color::Never, false));
    assert!(!use_color(Color::Never, true));
    assert!(use_color(Color::Auto, true));
    assert!(!use_color(Color::Auto, false));
    assert!(color_enabled(Color::Always));
    assert!(!color_enabled(Color::Never));
    let auto = color_enabled(Color::Auto);
    assert_eq!(auto, color_enabled(Color::Auto));
}

#[test]
fn json_follows_the_log_format() {
    assert!(use_json(LogFormat::Json));
    assert!(!use_json(LogFormat::Text));
}

#[test]
fn worker_threads_are_those_asked_for_or_the_processors() {
    assert_eq!(worker_threads(Some(3), 8), Ok(3));
    assert_eq!(worker_threads(Some(1), 0), Ok(1));
    assert_eq!(worker_threads(Some(usize::MAX), 2), Ok(usize::MAX));
    assert_eq!(worker_threads(None, 8), Ok(8));
    assert_eq!(worker_threads(None, 1), Ok(1));
    assert_eq!(worker_threads(None, 0), Ok(1));
}

#[test]
fn zero_worker_threads_are_a_configuration_error() {
    assert_eq!(worker_threads(Some(0), 8), Err(78));
    assert_eq!(worker_threads(Some(0), 0), Err(CONFIG));
    assert_eq!(resolve_threads(Some(0)), Err(78));
    assert_eq!(CONFIG, exitcode::CONFIG);
}

#[test]
fn resolved_worker_threads_are_at_least_one() {
    assert_eq!(resolve_threads(Some(5)), Ok(5));
    let counted = resolve_threads(None).expect("a count of processors is no error");
    assert!(counted >= 1);
    assert_eq!(counted, std::cmp::max(1, num_cpus::get()));
}

#[test]
fn preparation_begins_with_logging() {
    let mut root = root();
    root.color = Color::Always;
    root.log_format = LogFormat::Json;
    let (b, action) = going(Application::prepare_from_opts(opts(root, None), None));
    assert_eq!(
        action,
        BootAction::Init {
            color: true,
            json: true,
            level: "vector=info,codec=info,file_source=info,tower_limit=trace,rdkafka=info"
                .to_string(),
        }
    );
    assert!(b.config_paths().is_empty());
    assert_eq!(b.opts().threads, Some(4));
    assert_eq!(b.opts().config_paths, vec![path("/etc/pipeline/*.toml")]);
}

#[test]
fn preparation_takes_the_log_level_of_the_environment() {
    let boot = Application::prepare_from_opts(opts(root(), None), Some("warn".to_string()));
    let (_, action) = going(boot);
    assert_eq!(action, BootAction::Init { color: false, json: false, level: "warn".to_string() });
}

#[test]
fn preparation_ends_on_zero_worker_threads() {
    let mut root = root();
    root.threads = Some(0);
    let (b, _) = going(Application::prepare_from_opts(opts(root, None), None));
    assert_eq!(exit_code(b.step(BootInput::Initialized)), 78);
}

#[test]
fn preparation_starts_the_scheduler_with_the_threads_asked_for() {
    let (b, _) = going(Application::prepare_from_opts(opts(root(), None), None));
    let (_, action) = going(b.step(BootInput::Initialized));
    assert_eq!(action, BootAction::Runtime { threads: 4 });
}

#[test]
fn preparation_counts_the_processors_where_no_threads_are_asked_for() {
    let mut root = root();
    root.threads = None;
    let (b, _) = going(Application::prepare_from_opts(opts(root, None), None));
    let (_, action) = going(b.step(BootInput::Initialized));
    assert_eq!(action, BootAction::Runtime { threads: std::cmp::max(1, num_cpus::get()) });
}

#[test]
fn one_shot_mode_runs_in_place_of_the_pipeline() {
    for code in [0, 1, 78] {
        let boot = Application::prepare_from_opts(opts(root(), Some(SubCommand::Validate)), None);
        let (b, _) = going(boot);
        let (b, _) = going(b.step(BootInput::Initialized));
        let (b, action) = going(b.step(BootInput::RuntimeBuilt));
        assert_eq!(action, BootAction::RunSubCommand(SubCommand::Validate));
        assert_eq!(exit_code(b.step(BootInput::SubCommandDone(code))), code);
    }
}

#[test]
fn preparation_ends_when_the_files_cannot_be_looked_up() {
    assert_eq!(exit_code(at_paths(root()).step(BootInput::Resolved(None))), 78);
}

#[test]
fn preparation_watches_the_files_where_asked() {
    let mut watching = root();
    watching.watch_config = true;
    let found = vec![path("a.toml"), path("b.toml")];
    let (b, action) = going(at_paths(watching).step(BootInput::Resolved(Some(found.clone()))));
    assert_eq!(action, BootAction::Watch);
    assert_eq!(b.config_paths(), &found);
    let (b, action) = going(b.step(BootInput::Watching(true)));
    assert_eq!(action, BootAction::Load);
    assert_eq!(b.config_paths(), &found);
}

#[test]
fn preparation_ends_when_the_files_cannot_be_watched() {
    let mut watching = root();
    watching.watch_config = true;
    let (b, _) = going(at_paths(watching).step(BootInput::Resolved(Some(vec![path("a.toml")]))));
    assert_eq!(exit_code(b.step(BootInput::Watching(false))), 78);
}

#[test]
fn preparation_ends_when_the_configuration_cannot_be_loaded() {
    assert_eq!(exit_code(at_config().step(BootInput::Loaded(None))), 78);
}

#[test]
fn preparation_builds_every_component() {
    let (_, action) = going(at_config().step(BootInput::Loaded(Some((configuration(), api())))));
    assert_eq!(action, BootAction::Build(vec![1, 2]));
}

#[test]
fn preparation_ends_when_the_build_fails() {
    assert_eq!(exit_code(at_build().step(BootInput::Built(None))), 78);
    assert_eq!(exit_code(at_build().step(BootInput::Built(Some(vec![])))), 78);
    let swapped = vec![Instance { id: 2, handle: 200 }, Instance { id: 1, handle: 100 }];
    assert_eq!(exit_code(at_build().step(BootInput::Built(Some(swapped)))), 78);
}

#[test]
fn preparation_ends_when_the_topology_cannot_be_started() {
    assert_eq!(exit_code(at_start().step(BootInput::Started(false))), 78);
}

#[test]
fn preparation_hands_over_the_application() {
    let application = match at_start().step(BootInput::Started(true)) {
        Boot::Ready(application) => application,
        other => panic!("the application is not prepared: {:?}", other),
    };
    assert_eq!(application.opts().threads, Some(4));
    assert_eq!(application.config.config_paths, vec![path("a.toml")]);
    assert_eq!(application.config.api, api());
    assert_eq!(application.config.topology.config(), &configuration());
    assert_eq!(application.config.topology.handle(1), Some(100));
    assert_eq!(application.config.topology.handle(2), Some(200));
    assert_eq!(application.config.topology.len(), 2);
}

#[test]
fn preparation_passes_over_results_it_did_not_ask_for() {
    let (b, action) = going(at_config().step(BootInput::Started(true)));
    assert_eq!(action, BootAction::Wait);
    let (b, action) = going(b.step(BootInput::Built(Some(pieces()))));
    assert_eq!(action, BootAction::Wait);
    let (b, action) = going(b.step(BootInput::SubCommandDone(0)));
    assert_eq!(action, BootAction::Wait);
    let (b, action) = going(b.step(BootInput::Initialized));
    assert_eq!(action, BootAction::Wait);
    assert_eq!(b.config_paths(), &vec![path("a.toml")]);
    let (_, action) = going(b.step(BootInput::Loaded(Some((configuration(), api())))));
    assert_eq!(action, BootAction::Build(vec![1, 2]));
}

#[test]
fn application_runs_its_control_loop() {
    let application = match at_start().step(BootInput::Started(true)) {
        Boot::Ready(application) => application,
        other => panic!("the application is not prepared: {:?}", other),
    };
    let (control, reaction) = application.run();
    assert_eq!(
        reaction,
        Reaction { events: vec![LifecycleEvent::Started], action: Action::Publish }
    );
    assert_eq!(control.state(), LoopState::Running);
    assert_eq!(control.config_paths(), &vec![path("a.toml")]);
    assert_eq!(control.topology().config(), &configuration());
    assert_eq!(control.topology().handle(2), Some(200));
}

#[test]
fn application_without_administrative_server_waits() {
    let (b, _) = going(
        at_config()
            .step(BootInput::Loaded(Some((configuration(), ApiOptions { enabled: false, playground: true })))),
    );
    let (b, _) = going(b.step(BootInput::Built(Some(pieces()))));
    let application = match b.step(BootInput::Started(true)) {
        Boot::Ready(application) => application,
        other => panic!("the application is not prepared: {:?}", other),
    };
    let (_, reaction) = application.run();
    assert_eq!(reaction, Reaction { events: vec![LifecycleEvent::Started], action: Action::Wait });
}
