use sigil::config::Config;
use sigil::error::SigilError;
use sigil::params::{parse_parameters, resolve_parameters, split_token, substitute, ParamMap, ParameterType, TaskParameter};
use sigil::store::{definition_file_name, instance_file_name, InstanceStore};
use sigil::task::{
    command_result, definition_name_of_file, module_command_report, new_definition, plan_dispatch,
    prepare_run, record_outcome, sample_definition, validate_parameters, CommandKind, Dispatch,
    ProcessOutcome, TaskCommand, TaskDefinition, TaskInstance, TaskStatus,
};
use sigil::text::replace;

fn s(x: &str) -> String {
    x.to_string()
}

fn toks(xs: &[&str]) -> Vec<String> {
    xs.iter().map(|x| x.to_string()).collect()
}

fn shell_def(name: &str, script: &str, params: Vec<(String, TaskParameter)>) -> TaskDefinition {
    TaskDefinition {
        name: s(name),
        description: None,
        command: TaskCommand::Shell { script: s(script) },
        parameters: params,
        timeout_seconds: None,
        retry_count: None,
        environment: None,
        working_directory: None,
    }
}

fn param(required: bool, default: Option<&str>) -> TaskParameter {
    TaskParameter {
        description: s("p"),
        required,
        default_value: default.map(s),
        parameter_type: ParameterType::String,
    }
}

fn spawned_script(d: &Dispatch) -> String {
    match d {
        Dispatch::Spawn { program, args, .. } => {
            assert_eq!(program, "bash");
            assert_eq!(args[0], "-c");
            args[1].clone()
        }
        _ => panic!("expected a process"),
    }
}

fn instance(id: u128, name: &str, created_at: i64) -> TaskInstance {
    TaskInstance::new(id, name, ParamMap::new(), created_at)
}

#[test]
fn parse_parameters_builds_mapping() {
    let m = parse_parameters(&toks(&["a=1", "b=x=y", "c="])).unwrap();
    assert_eq!(m.len(), 3);
    assert_eq!(m.get("a").unwrap(), "1");
    assert_eq!(m.get("b").unwrap(), "x=y");
    assert_eq!(m.get("c").unwrap(), "");
    assert!(m.get("d").is_none());
}

#[test]
fn parse_parameters_last_duplicate_wins() {
    let m = parse_parameters(&toks(&["k=first", "other=2", "k=second"])).unwrap();
    assert_eq!(m.len(), 2);
    assert_eq!(m.get("k").unwrap(), "second");
    assert_eq!(m.entries[0].0, "k");
}

#[test]
fn parse_parameters_empty_input() {
    let m = parse_parameters(&[]).unwrap();
    assert_eq!(m.len(), 0);
}

#[test]
fn parse_parameters_rejects_token_without_separator() {
    let r = parse_parameters(&toks(&["a=1", "broken", "c"]));
    assert_eq!(r.unwrap_err(), SigilError::MalformedParameter(s("broken")));
}

#[test]
fn split_token_uses_first_separator() {
    assert_eq!(split_token("=v"), Some((s(""), s("v"))));
    assert_eq!(split_token("k=a=b"), Some((s("k"), s("a=b"))));
    assert_eq!(split_token("novalue"), None);
}

#[test]
fn replace_is_left_to_right_and_non_overlapping() {
    assert_eq!(replace("aaaa", "aa", "b"), "bb");
    assert_eq!(replace("abcabc", "bc", "X"), "aXaX");
    assert_eq!(replace("héllo ${x}!", "${x}", "wörld"), "héllo wörld!");
    assert_eq!(replace("short", "longer pattern", "z"), "short");
}

#[test]
fn substitute_replaces_every_placeholder() {
    let m = parse_parameters(&toks(&["name=World", "n=3"])).unwrap();
    assert_eq!(substitute("Hi ${name} x${n} ${name}", &m), "Hi World x3 World");
    assert_eq!(substitute("${missing} stays", &m), "${missing} stays");
}

#[test]
fn substitute_prefix_keys_are_independent_placeholders() {
    let m = parse_parameters(&toks(&["id=1", "id2=2"])).unwrap();
    assert_eq!(substitute("${id}-${id2}", &m), "1-2");
}

#[test]
fn validate_reports_missing_required_parameter() {
    let def = shell_def("t", "echo ${who}", vec![(s("who"), param(true, None))]);
    let supplied = parse_parameters(&[]).unwrap();
    assert_eq!(
        validate_parameters(&def, &supplied).unwrap_err(),
        SigilError::MissingRequiredParameter(s("who"))
    );
    let supplied = parse_parameters(&toks(&["who=me", "extra=1"])).unwrap();
    assert!(validate_parameters(&def, &supplied).is_ok());
}

#[test]
fn validate_accepts_required_parameter_with_default() {
    let def = shell_def("t", "echo", vec![(s("who"), param(true, Some("x")))]);
    assert!(validate_parameters(&def, &ParamMap::new()).is_ok());
}

#[test]
fn resolve_fills_defaults_only_for_missing_keys() {
    let schema = vec![(s("a"), param(false, Some("da"))), (s("b"), param(false, Some("db"))), (s("c"), param(false, None))];
    let supplied = parse_parameters(&toks(&["a=given"])).unwrap();
    let r = resolve_parameters(&schema, &supplied);
    assert_eq!(r.get("a").unwrap(), "given");
    assert_eq!(r.get("b").unwrap(), "db");
    assert!(r.get("c").is_none());
}

#[test]
fn prepare_run_fails_on_missing_required_parameter() {
    let def = shell_def("t", "echo ${who}", vec![(s("who"), param(true, None))]);
    let r = prepare_run("t", &def, &[], 7, 100);
    assert_eq!(r.unwrap_err(), SigilError::MissingRequiredParameter(s("who")));
}

#[test]
fn prepare_run_fails_on_malformed_token() {
    let def = shell_def("t", "echo", vec![]);
    let r = prepare_run("t", &def, &toks(&["x"]), 7, 100);
    assert_eq!(r.unwrap_err(), SigilError::MalformedParameter(s("x")));
}

#[test]
fn greet_runs_with_default_and_with_supplied_message() {
    let def = shell_def(
        "greet",
        "echo \"${message}\"",
        vec![(s("message"), param(false, Some("Hello World")))],
    );
    let mut inst = prepare_run("greet", &def, &[], 1, 10).unwrap();
    assert_eq!(inst.status, TaskStatus::Pending);
    assert_eq!(inst.definition_name, "greet");
    let plan = plan_dispatch(&def, &inst.parameters);
    assert_eq!(spawned_script(&plan), "echo \"Hello World\"");
    inst.start(11);
    assert_eq!(inst.status, TaskStatus::Running);
    let outcome = ProcessOutcome::Exited { success: true, stdout: s("Hello World\n"), stderr: s("") };
    assert!(record_outcome(&mut inst, CommandKind::Shell, outcome, 12).is_ok());
    assert_eq!(inst.status, TaskStatus::Completed);
    assert_eq!(inst.output.as_deref().map(str::trim), Some("Hello World"));
    assert!(inst.error.is_none());
    assert_eq!(inst.started_at, Some(11));
    assert_eq!(inst.completed_at, Some(12));

    let inst2 = prepare_run("greet", &def, &toks(&["message=Hi"]), 2, 20).unwrap();
    let plan2 = plan_dispatch(&def, &inst2.parameters);
    assert_eq!(spawned_script(&plan2), "echo \"Hi\"");
}

#[test]
fn missing_binary_ends_failed() {
    let def = TaskDefinition {
        name: s("fail"),
        description: None,
        command: TaskCommand::System { command: s("/nonexistent/binary"), args: toks(&["${a}"]) },
        parameters: vec![],
        timeout_seconds: None,
        retry_count: Some(2),
        environment: None,
        working_directory: None,
    };
    let mut inst = prepare_run("fail", &def, &toks(&["a=v"]), 3, 30).unwrap();
    match plan_dispatch(&def, &inst.parameters) {
        Dispatch::Spawn { kind, program, args, .. } => {
            assert_eq!(kind, CommandKind::System);
            assert_eq!(program, "/nonexistent/binary");
            assert_eq!(args, toks(&["v"]));
        }
        _ => panic!("expected a process"),
    }
    inst.start(31);
    let outcome = ProcessOutcome::LaunchFailed(s("No such file or directory (os error 2)"));
    let r = record_outcome(&mut inst, CommandKind::System, outcome, 32);
    assert_eq!(
        r.unwrap_err(),
        SigilError::ExecutionFailed(s("Failed to execute system command: No such file or directory (os error 2)"))
    );
    assert_eq!(inst.status, TaskStatus::Failed);
    assert!(inst.output.is_none());
    assert_eq!(
        inst.error.as_deref(),
        Some("Task execution failed: Failed to execute system command: No such file or directory (os error 2)")
    );
    assert_eq!(inst.retry_count, 0);
}

#[test]
fn nonzero_exit_carries_stderr() {
    let r = command_result(
        CommandKind::Shell,
        ProcessOutcome::Exited { success: false, stdout: s("out"), stderr: s("boom") },
    );
    assert_eq!(r.unwrap_err(), SigilError::ExecutionFailed(s("Shell command failed: boom")));
    let r = command_result(
        CommandKind::System,
        ProcessOutcome::Exited { success: false, stdout: s(""), stderr: s("bad") },
    );
    assert_eq!(r.unwrap_err(), SigilError::ExecutionFailed(s("System command failed: bad")));
    let r = command_result(
        CommandKind::Shell,
        ProcessOutcome::LaunchFailed(s("denied")),
    );
    assert_eq!(r.unwrap_err(), SigilError::ExecutionFailed(s("Failed to execute shell command: denied")));
}

#[test]
fn shell_plan_carries_environment_and_directory() {
    let mut env = ParamMap::new();
    env.insert(s("MODE"), s("fast"));
    let mut def = shell_def("e", "run ${x}", vec![]);
    def.environment = Some(env);
    def.working_directory = Some(s("/srv"));
    let params = parse_parameters(&toks(&["x=1"])).unwrap();
    match plan_dispatch(&def, &params) {
        Dispatch::Spawn { kind, environment, working_directory, args, .. } => {
            assert_eq!(kind, CommandKind::Shell);
            assert_eq!(args[1], "run 1");
            assert_eq!(environment.unwrap().get("MODE").unwrap(), "fast");
            assert_eq!(working_directory.as_deref(), Some("/srv"));
        }
        _ => panic!("expected a process"),
    }
}

#[test]
fn module_command_reports_without_running() {
    let mut params = ParamMap::new();
    params.insert(s("svc"), s("nginx"));
    params.insert(s("n"), s("2"));
    assert_eq!(
        module_command_report("system", "restart", &params),
        "Module command executed: system restart with params: {\"svc\": \"nginx\", \"n\": \"2\"}"
    );
    let def = TaskDefinition {
        name: s("m"),
        description: None,
        command: TaskCommand::Module { module: s("system"), action: s("info"), params: ParamMap::new() },
        parameters: vec![],
        timeout_seconds: None,
        retry_count: None,
        environment: None,
        working_directory: None,
    };
    match plan_dispatch(&def, &ParamMap::new()) {
        Dispatch::Finished(Ok(t)) => assert_eq!(t, "Module command executed: system info with params: {}"),
        _ => panic!("expected a report"),
    }
}

#[test]
fn save_then_load_by_id_returns_same_instance() {
    let mut store = InstanceStore::new();
    let mut a = instance(1, "job", 5);
    a.parameters.insert(s("k"), s("v"));
    store.save(a);
    store.save(instance(2, "job", 6));
    let got = store.load_by_id(1).unwrap();
    assert_eq!(got.id, 1);
    assert_eq!(got.created_at, 5);
    assert_eq!(got.parameters.get("k").unwrap(), "v");
    assert_eq!(got.status, TaskStatus::Pending);
}

#[test]
fn save_overwrites_record_with_same_id() {
    let mut store = InstanceStore::new();
    store.save(instance(1, "job", 5));
    let mut b = instance(1, "job", 5);
    b.start(9);
    store.save(b);
    assert_eq!(store.records.len(), 1);
    assert_eq!(store.load_by_id(1).unwrap().status, TaskStatus::Running);
}

#[test]
fn unknown_id_is_not_found() {
    let store = InstanceStore::new();
    match store.load_by_id(42) {
        Err(SigilError::NotFound(t)) => assert!(t.starts_with("Task instance: ")),
        _ => panic!("expected NotFound"),
    }
}

#[test]
fn find_latest_by_name_picks_greatest_creation_time() {
    let mut store = InstanceStore::new();
    store.save(instance(1, "job", 5));
    store.save(instance(2, "job", 50));
    store.save(instance(3, "other", 500));
    store.save(instance(4, "job", 20));
    assert_eq!(store.find_latest_by_name("job").unwrap().id, 2);
    assert_eq!(store.find_latest_by_name("other").unwrap().id, 3);
    assert_eq!(
        store.find_latest_by_name("none").unwrap_err(),
        SigilError::NotFound(s("No task instances found for: none"))
    );
}

#[test]
fn lookup_by_id_text_or_by_name() {
    let mut store = InstanceStore::new();
    let id: u128 = 0xa1a2a3a4b1b2c1c2d1d2d3d4d5d6d7d8;
    store.save(instance(id, "job", 5));
    assert_eq!(store.lookup("a1a2a3a4-b1b2-c1c2-d1d2-d3d4d5d6d7d8").unwrap().id, id);
    assert_eq!(store.lookup("job").unwrap().id, id);
    assert!(matches!(store.lookup("00000000-0000-0000-0000-000000000001"), Err(SigilError::NotFound(_))));
}

#[test]
fn file_names() {
    assert_eq!(instance_file_name(0xa1a2a3a4b1b2c1c2d1d2d3d4d5d6d7d8), "a1a2a3a4-b1b2-c1c2-d1d2-d3d4d5d6d7d8.json");
    assert_eq!(definition_file_name("greet"), "greet.toml");
    assert_eq!(definition_name_of_file("greet.toml"), Some(s("greet")));
    assert_eq!(definition_name_of_file(".toml"), None);
    assert_eq!(definition_name_of_file("notes.txt"), None);
}

#[test]
fn create_definition_rules() {
    assert_eq!(
        new_definition("greet", true, None).unwrap_err(),
        SigilError::AlreadyExists(s("greet"))
    );
    let d = new_definition("greet", false, None).unwrap();
    assert_eq!(d.name, "greet");
    assert_eq!(d.description.as_deref(), Some("Sample task: greet"));
    let src = shell_def("mine", "true", vec![]);
    assert_eq!(new_definition("mine", false, Some(src)).unwrap().name, "mine");
}

#[test]
fn sample_definition_runs_its_greeting() {
    let def = sample_definition("hello");
    assert_eq!(def.timeout_seconds, Some(60));
    assert_eq!(def.retry_count, Some(3));
    let inst = prepare_run("hello", &def, &[], 9, 1).unwrap();
    assert_eq!(inst.parameters.get("message").unwrap(), "Hello World");
    assert_eq!(
        spawned_script(&plan_dispatch(&def, &inst.parameters)),
        "echo 'Hello from Sigil task!'"
    );
}

#[test]
fn run_records_the_requested_name() {
    let def = shell_def("stored-name", "true", vec![]);
    let inst = prepare_run("requested", &def, &[], 4, 4).unwrap();
    assert_eq!(inst.definition_name, "requested");
}

#[test]
fn module_listing_escapes_like_debug() {
    let mut params = ParamMap::new();
    params.insert(s("q"), s("say \"hi\"\\\n"));
    assert_eq!(
        module_command_report("m", "a", &params),
        "Module command executed: m a with params: {\"q\": \"say \\\"hi\\\"\\\\\\n\"}"
    );
}

#[test]
fn error_messages() {
    assert_eq!(SigilError::MalformedParameter(s("x")).message(), "Invalid parameter format: 'x'. Use key=value");
    assert_eq!(SigilError::MissingRequiredParameter(s("p")).message(), "Required parameter 'p' not provided");
    assert_eq!(SigilError::AlreadyExists(s("t")).message(), "Task 't' already exists");
    assert_eq!(SigilError::NotFound(s("r")).message(), "Resource not found: r");
    assert_eq!(
        SigilError::InvalidConfig { field: s("f"), reason: s("why") }.message(),
        "Invalid configuration: f - why"
    );
}

#[test]
fn config_defaults_and_keys() {
    let mut c = Config::with_home("/home/u");
    assert_eq!(c.general.config_dir, "/home/u/.config/sigil");
    assert_eq!(c.tasks.definitions_dir, "/home/u/.config/sigil/tasks");
    assert_eq!(c.tasks.state_dir, "/home/u/.local/share/sigil/state");
    assert_eq!(c.general.log_dir, "/home/u/.local/share/sigil/logs");
    assert_eq!(Config::with_home("/tmp/").general.data_dir, "/tmp/.local/share/sigil");
    assert_eq!(c.get_value("general.data_dir"), Some(s("/home/u/.local/share/sigil")));
    assert_eq!(c.get_value("logging.level"), Some(s("info")));
    assert_eq!(c.get_value("nope"), None);
    assert!(c.set_value("logging.level", "debug").is_ok());
    assert_eq!(c.get_value("logging.level"), Some(s("debug")));
    assert!(c.set_value("general.default_shell", "/bin/zsh").is_ok());
    assert_eq!(c.get_value("general.default_shell"), Some(s("/bin/zsh")));
    assert_eq!(
        c.set_value("general.data_dir", "/x").unwrap_err(),
        SigilError::InvalidConfig { field: s("general.data_dir"), reason: s("Unknown configuration key") }
    );
}

#[test]
fn find_latest_by_name_tie_keeps_first_saved() {
    let mut store = InstanceStore::new();
    store.save(instance(10, "job", 7));
    store.save(instance(11, "job", 7));
    assert_eq!(store.find_latest_by_name("job").unwrap().id, 10);
}

#[test]
fn prepare_run_passes_extra_keys_through() {
    let def = shell_def("t", "echo ${a}", vec![(s("a"), param(false, Some("x")))]);
    let inst = prepare_run("t", &def, &toks(&["zzz=9"]), 5, 6).unwrap();
    assert_eq!(inst.id, 5);
    assert_eq!(inst.created_at, 6);
    assert_eq!(inst.parameters.get("zzz").unwrap(), "9");
    assert_eq!(inst.parameters.get("a").unwrap(), "x");
    assert_eq!(inst.retry_count, 0);
    assert!(inst.output.is_none() && inst.error.is_none() && inst.started_at.is_none());
}

#[test]
fn finish_records_module_report() {
    let mut inst = instance(1, "m", 0);
    inst.start(1);
    inst.finish(&Ok(s("done")), 2);
    assert_eq!(inst.status, TaskStatus::Completed);
    assert_eq!(inst.output.as_deref(), Some("done"));
    assert!(inst.is_finished());
    let mut other = instance(2, "m", 0);
    other.finish(&Err(SigilError::UnknownModule(s("x"))), 3);
    assert_eq!(other.status, TaskStatus::Failed);
    assert_eq!(other.error.as_deref(), Some("Unknown module: x"));
}

#[test]
fn lookup_errors_are_those_of_the_underlying_search() {
    let store = InstanceStore::new();
    assert_eq!(
        store.lookup("nightly").unwrap_err(),
        SigilError::NotFound(s("No task instances found for: nightly"))
    );
    assert_eq!(
        store.lookup("00000000-0000-0000-0000-00000000000a").unwrap_err(),
        SigilError::NotFound(s("Task instance: 00000000-0000-0000-0000-00000000000a"))
    );
}
