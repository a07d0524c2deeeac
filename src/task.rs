//! Task definitions, task instances and their lifecycle, and the planning of
//! the command that runs a task.
use vstd::prelude::*;
use vstd::string::{StrSliceExecFns, StringExecFns};
use crate::error::{error_text, SigilError};
use crate::params::{
    check_required, is_missing, is_param_token, parse_parameters, parsed_params,
    resolve_parameters, resolved, substitute, substitute_all, substitute_each, ParamMap,
    ParameterType, TaskParameter,
};
use crate::text::{join2, same_text};

verus! {

/// What a task runs.
#[derive(Debug)]
pub enum TaskCommand {
    /// A script run by `bash -c` after placeholder substitution.
    Shell { script: String },
    /// A program run directly; each argument gets placeholder substitution.
    System { command: String, args: Vec<String> },
    /// An action of a named module, with parameters of its own.
    Module { module: String, action: String, params: ParamMap },
}

/// A named, reusable description of a runnable unit of work.
#[derive(Debug)]
pub struct TaskDefinition {
    /// Unique name; also the stem of the file that stores the definition.
    pub name: String,
    pub description: Option<String>,
    pub command: TaskCommand,
    /// Parameter schema, by parameter name.
    pub parameters: Vec<(String, TaskParameter)>,
    /// A deadline hint. It is stored and carried, but no run enforces it:
    /// a run lasts as long as its process.
    pub timeout_seconds: Option<u64>,
    /// A retry hint. It is stored and carried, but a failed run is not
    /// retried: the failure is recorded and returned at once.
    pub retry_count: Option<u32>,
    /// Extra environment variables for a shell script's process.
    pub environment: Option<ParamMap>,
    /// Current directory for a shell script's process.
    pub working_directory: Option<String>,
}

/// No two schema entries share a parameter name.
pub open spec fn names_distinct(schema: Seq<(String, TaskParameter)>) -> bool {
    forall|i: int, j: int| 0 <= i < j < schema.len() ==> schema[i].0@ != schema[j].0@
}

impl TaskDefinition {
    /// Parameter names are unique, and the mappings it holds are well
    /// formed.
    pub open spec fn wf(&self) -> bool {
        &&& names_distinct(self.parameters@)
        &&& (self.environment matches Some(e) ==> e.wf())
        &&& (self.command matches TaskCommand::Module { params, .. } ==> params.wf())
    }
}

/// Lifecycle state of one task instance.
#[derive(Clone, Copy, Debug, PartialEq, Eq, Structural)]
pub enum TaskStatus {
    Pending,
    Running,
    Completed,
    Failed,
    Cancelled,
    Retrying,
}

/// One concrete run of a task definition. Timestamps are microseconds since
/// the Unix epoch, in UTC.
#[derive(Debug)]
pub struct TaskInstance {
    pub id: u128,
    pub definition_name: String,
    pub status: TaskStatus,
    pub parameters: ParamMap,
    pub created_at: i64,
    pub started_at: Option<i64>,
    pub completed_at: Option<i64>,
    pub output: Option<String>,
    pub error: Option<String>,
    /// Retries consumed; runs are not retried, so it stays 0.
    pub retry_count: u32,
}

/// Which kind of process a command spawns.
#[derive(Clone, Copy, Debug, PartialEq, Eq, Structural)]
pub enum CommandKind {
    Shell,
    System,
}

/// What running a task's command takes: a process to spawn, or a result
/// that is already known.
#[derive(Debug)]
pub enum Dispatch {
    Spawn {
        kind: CommandKind,
        program: String,
        args: Vec<String>,
        environment: Option<ParamMap>,
        working_directory: Option<String>,
    },
    Finished(Result<String, SigilError>),
}

/// How a spawned process ended, with its captured output decoded as text.
#[derive(Debug)]
pub enum ProcessOutcome {
    /// The process could not be started; holds the reason.
    LaunchFailed(String),
    /// The process ran to its end.
    Exited { success: bool, stdout: String, stderr: String },
}

/// The text a module action reports in place of running.
pub open spec fn module_report(
    module: Seq<char>,
    action: Seq<char>,
    ps: Seq<(Seq<char>, Seq<char>)>,
) -> Seq<char> {
    "Module command executed: "@ + module + " "@ + action + " with params: {"@ + entries_text(
        ps,
    ) + "}"@
}

/// The text that `{:?}` gives for a string: the string in double quotes,
/// with quotes, backslashes and control characters escaped.
pub uninterp spec fn debug_quoted(s: Seq<char>) -> Seq<char>;

/// Relies on std's `Debug` impl for `str` (through `format!("{:?}")`): the
/// quoted and escaped text of a string, a function of the string alone.
#[verifier::external_body]
fn quoted(s: &str) -> (r: String)
    ensures
        r@ == debug_quoted(s@),
{
    format!("{:?}", s)
}

/// One entry of a parameter listing: `"key": "value"`, each quoted as
/// `{:?}` quotes a string.
pub open spec fn entry_text(e: (Seq<char>, Seq<char>)) -> Seq<char> {
    debug_quoted(e.0) + ": "@ + debug_quoted(e.1)
}

/// The entries of a parameter listing, separated by `, `.
pub open spec fn entries_text(ps: Seq<(Seq<char>, Seq<char>)>) -> Seq<char>
    decreases ps.len(),
{
    if ps.len() == 0 {
        Seq::empty()
    } else if ps.len() == 1 {
        entry_text(ps[0])
    } else {
        entries_text(ps.drop_last()) + ", "@ + entry_text(ps.last())
    }
}

/// What a finished process yields: its standard output on success, else an
/// execution failure that carries the reason or the standard error.
pub open spec fn outcome_result(kind: CommandKind, outcome: ProcessOutcome) -> Result<
    Seq<char>,
    Seq<char>,
> {
    match outcome {
        ProcessOutcome::LaunchFailed(e) => Err(
            match kind {
                CommandKind::Shell => "Failed to execute shell command: "@,
                CommandKind::System => "Failed to execute system command: "@,
            } + e@,
        ),
        ProcessOutcome::Exited { success, stdout, stderr } => if success {
            Ok(stdout@)
        } else {
            Err(
                match kind {
                    CommandKind::Shell => "Shell command failed: "@,
                    CommandKind::System => "System command failed: "@,
                } + stderr@,
            )
        },
    }
}

/// A copy of an optional string.
fn copy_text(s: &Option<String>) -> (r: Option<String>)
    ensures
        r == *s,
{
    match s {
        Some(t) => Some(t.clone()),
        None => None,
    }
}

/// A copy of an optional parameter mapping, entries in the same order.
fn copy_params(p: &Option<ParamMap>) -> (r: Option<ParamMap>)
    ensures
        r is Some <==> p is Some,
        r is Some ==> r->Some_0.entries@ == p->Some_0.entries@,
{
    match p {
        Some(m) => Some(m.duplicate()),
        None => None,
    }
}

/// Lists the entries of a mapping as `"key": "value", ...`.
pub fn format_entries(params: &ParamMap) -> (r: String)
    ensures
        r@ == entries_text(params.pairs()),
{
    let mut out = String::new();
    let mut i: usize = 0;
    while i < params.entries.len()
        invariant
            i <= params.pairs().len(),
            out@ == entries_text(params.pairs().subrange(0, i as int)),
        decreases params.pairs().len() - i,
    {
        let ghost before = params.pairs().subrange(0, i as int);
        let ghost after = params.pairs().subrange(0, i + 1);
        assert(after.drop_last() =~= before);
        if i > 0 {
            out.append(", ");
        }
        let key = quoted(params.entries[i].0.as_str());
        let value = quoted(params.entries[i].1.as_str());
        out.append(key.as_str());
        out.append(": ");
        out.append(value.as_str());
        assert(out@ =~= entries_text(after));
        i = i + 1;
    }
    assert(params.pairs().subrange(0, params.pairs().len() as int) =~= params.pairs());
    out
}

/// The report of a module action; no process is spawned.
pub fn module_command_report(module: &str, action: &str, params: &ParamMap) -> (r: String)
    ensures
        r@ == module_report(module@, action@, params.pairs()),
{
    let mut out = String::from_str("Module command executed: ");
    out.append(module);
    out.append(" ");
    out.append(action);
    out.append(" with params: {");
    let entries = format_entries(params);
    out.append(entries.as_str());
    out.append("}");
    out
}

/// Plans the command of `definition` with the resolved `parameters`: a
/// shell script becomes `bash -c <script>`, a system command keeps its
/// program and substitutes each argument, a module action is reported.
pub fn plan_dispatch(definition: &TaskDefinition, parameters: &ParamMap) -> (r: Dispatch)
    ensures
        match definition.command {
            TaskCommand::Shell { script } => match r {
                Dispatch::Spawn { kind, program, args, environment, working_directory } => {
                    &&& kind == CommandKind::Shell
                    &&& program@ == "bash"@
                    &&& args@.len() == 2
                    &&& args@[0]@ == "-c"@
                    &&& args@[1]@ == substitute_all(script@, parameters.pairs())
                    &&& environment is Some <==> definition.environment is Some
                    &&& environment is Some ==> environment->Some_0.entries@
                        == definition.environment->Some_0.entries@
                    &&& working_directory == definition.working_directory
                },
                _ => false,
            },
            TaskCommand::System { command, args: template } => match r {
                Dispatch::Spawn { kind, program, args, environment, working_directory } => {
                    &&& kind == CommandKind::System
                    &&& program == command
                    &&& args@.len() == template@.len()
                    &&& forall|i: int|
                        0 <= i < args@.len() ==> (#[trigger] args@[i])@ == substitute_all(
                            template@[i]@,
                            parameters.pairs(),
                        )
                    &&& environment is None
                    &&& working_directory is None
                },
                _ => false,
            },
            TaskCommand::Module { module, action, params } => match r {
                Dispatch::Finished(Ok(text)) => text@ == module_report(
                    module@,
                    action@,
                    params.pairs(),
                ),
                _ => false,
            },
        },
{
    match &definition.command {
        TaskCommand::Shell { script } => {
            let mut args: Vec<String> = Vec::new();
            args.push(String::from_str("-c"));
            args.push(substitute(script.as_str(), parameters));
            Dispatch::Spawn {
                kind: CommandKind::Shell,
                program: String::from_str("bash"),
                args,
                environment: copy_params(&definition.environment),
                working_directory: copy_text(&definition.working_directory),
            }
        },
        TaskCommand::System { command, args } => Dispatch::Spawn {
            kind: CommandKind::System,
            program: command.clone(),
            args: substitute_each(args, parameters),
            environment: None,
            working_directory: None,
        },
        TaskCommand::Module { module, action, params } => Dispatch::Finished(
            Ok(module_command_report(module.as_str(), action.as_str(), params)),
        ),
    }
}

/// Turns how a process ended into the command's result.
pub fn command_result(kind: CommandKind, outcome: ProcessOutcome) -> (r: Result<String, SigilError>)
    ensures
        match outcome_result(kind, outcome) {
            Ok(out) => r matches Ok(o) && o@ == out,
            Err(detail) => r matches Err(SigilError::ExecutionFailed(d)) && d@ == detail,
        },
{
    match outcome {
        ProcessOutcome::LaunchFailed(e) => {
            let prefix = match kind {
                CommandKind::Shell => "Failed to execute shell command: ",
                CommandKind::System => "Failed to execute system command: ",
            };
            let mut d = String::from_str(prefix);
            d.append(e.as_str());
            Err(SigilError::ExecutionFailed(d))
        },
        ProcessOutcome::Exited { success, stdout, stderr } => {
            if success {
                Ok(stdout)
            } else {
                let prefix = match kind {
                    CommandKind::Shell => "Shell command failed: ",
                    CommandKind::System => "System command failed: ",
                };
                let mut d = String::from_str(prefix);
                d.append(stderr.as_str());
                Err(SigilError::ExecutionFailed(d))
            }
        },
    }
}

/// Fails if a required parameter without default was not supplied.
pub fn validate_parameters(definition: &TaskDefinition, parameters: &ParamMap) -> (r: Result<
    (),
    SigilError,
>)
    requires
        parameters.wf(),
    ensures
        r is Ok <==> forall|i: int|
            0 <= i < definition.parameters@.len() ==> !is_missing(
                #[trigger] definition.parameters@[i],
                parameters@,
            ),
        r matches Err(e) ==> exists|i: int|
            0 <= i < definition.parameters@.len() && is_missing(
                #[trigger] definition.parameters@[i],
                parameters@,
            ) && e == SigilError::MissingRequiredParameter(definition.parameters@[i].0),
{
    check_required(&definition.parameters, parameters)
}

impl TaskInstance {
    /// A new instance in `Pending`, with nothing run yet.
    pub fn new(id: u128, definition_name: &str, parameters: ParamMap, created_at: i64) -> (r:
        TaskInstance)
        ensures
            r.id == id,
            r.definition_name@ == definition_name@,
            r.status == TaskStatus::Pending,
            r.parameters == parameters,
            r.created_at == created_at,
            r.started_at is None,
            r.completed_at is None,
            r.output is None,
            r.error is None,
            r.retry_count == 0,
    {
        TaskInstance {
            id,
            definition_name: String::from_str(definition_name),
            status: TaskStatus::Pending,
            parameters,
            created_at,
            started_at: None,
            completed_at: None,
            output: None,
            error: None,
            retry_count: 0,
        }
    }

    /// Moves the instance to `Running`, started at `now`.
    pub fn start(&mut self, now: i64)
        ensures
            final(self).status == TaskStatus::Running,
            final(self).started_at == Some(now),
            final(self).id == old(self).id,
            final(self).definition_name == old(self).definition_name,
            final(self).parameters == old(self).parameters,
            final(self).created_at == old(self).created_at,
            final(self).completed_at == old(self).completed_at,
            final(self).output == old(self).output,
            final(self).error == old(self).error,
            final(self).retry_count == old(self).retry_count,
    {
        self.status = TaskStatus::Running;
        self.started_at = Some(now);
    }

    /// Records the command's result at `now`: `Completed` with its output,
    /// or `Failed` with the error's text. The retry count is left as it is.
    pub fn finish(&mut self, result: &Result<String, SigilError>, now: i64)
        ensures
            final(self).completed_at == Some(now),
            match result {
                Ok(out) => final(self).status == TaskStatus::Completed && final(self).output
                    == Some(*out) && final(self).error is None,
                Err(e) => {
                    &&& final(self).status == TaskStatus::Failed
                    &&& final(self).output is None
                    &&& final(self).error matches Some(t) && t@ == error_text(*e)
                },
            },
            final(self).id == old(self).id,
            final(self).definition_name == old(self).definition_name,
            final(self).parameters == old(self).parameters,
            final(self).created_at == old(self).created_at,
            final(self).started_at == old(self).started_at,
            final(self).retry_count == old(self).retry_count,
    {
        self.completed_at = Some(now);
        match result {
            Ok(out) => {
                self.status = TaskStatus::Completed;
                self.output = Some(out.clone());
                self.error = None;
            },
            Err(e) => {
                self.status = TaskStatus::Failed;
                self.output = None;
                self.error = Some(e.message());
            },
        }
    }

    /// Whether the instance has reached `Completed` or `Failed`.
    pub fn is_finished(&self) -> (r: bool)
        ensures
            r == (self.status == TaskStatus::Completed || self.status == TaskStatus::Failed),
    {
        self.status == TaskStatus::Completed || self.status == TaskStatus::Failed
    }
}

/// Every token has the form `key=value`.
pub open spec fn tokens_well_formed(tokens: Seq<String>) -> bool {
    forall|i: int| 0 <= i < tokens.len() ==> is_param_token(#[trigger] tokens[i]@)
}

/// Some schema entry of `definition` is missing from what `tokens` supply.
pub open spec fn some_missing(definition: TaskDefinition, tokens: Seq<String>) -> bool {
    exists|i: int|
        0 <= i < definition.parameters@.len() && is_missing(
            #[trigger] definition.parameters@[i],
            parsed_params(tokens),
        )
}

/// `n` is the name of a schema entry of `definition` that is missing from
/// what `tokens` supply.
pub open spec fn names_missing(definition: TaskDefinition, tokens: Seq<String>, n: String) -> bool {
    exists|i: int|
        0 <= i < definition.parameters@.len() && is_missing(
            #[trigger] definition.parameters@[i],
            parsed_params(tokens),
        ) && n == definition.parameters@[i].0
}

/// `t` is a token without `=`.
pub open spec fn names_malformed(tokens: Seq<String>, t: String) -> bool {
    exists|i: int| 0 <= i < tokens.len() && !is_param_token(#[trigger] tokens[i]@) && t == tokens[i]
}

/// Everything a run of the task requested as `name` decides before its
/// command starts: the tokens are parsed, the definition's required
/// parameters are checked against them, the defaults are filled in, and a
/// `Pending` instance of `name` is made with the given identifier and
/// creation time. On error no instance exists.
pub fn prepare_run(
    name: &str,
    definition: &TaskDefinition,
    tokens: &[String],
    id: u128,
    now: i64,
) -> (r: Result<TaskInstance, SigilError>)
    ensures
        r is Ok <==> tokens_well_formed(tokens@) && !some_missing(*definition, tokens@),
        !tokens_well_formed(tokens@) ==> (r matches Err(SigilError::MalformedParameter(t))
            && names_malformed(tokens@, t)),
        tokens_well_formed(tokens@) && some_missing(*definition, tokens@) ==> (r matches Err(
            SigilError::MissingRequiredParameter(n),
        ) && names_missing(*definition, tokens@, n)),
        r matches Ok(inst) ==> {
            &&& inst.id == id
            &&& inst.definition_name@ == name@
            &&& inst.status == TaskStatus::Pending
            &&& inst.parameters.wf()
            &&& inst.parameters@ == resolved(definition.parameters@, parsed_params(tokens@))
            &&& inst.created_at == now
            &&& inst.started_at is None
            &&& inst.completed_at is None
            &&& inst.output is None
            &&& inst.error is None
            &&& inst.retry_count == 0
        },
{
    let supplied = match parse_parameters(tokens) {
        Ok(m) => m,
        Err(e) => {
            return Err(e);
        },
    };
    match validate_parameters(definition, &supplied) {
        Ok(()) => {},
        Err(e) => {
            return Err(e);
        },
    }
    let parameters = resolve_parameters(&definition.parameters, &supplied);
    Ok(TaskInstance::new(id, name, parameters, now))
}

/// Starts a run of the task requested as `name`, as `prepare_run` does,
/// with a fresh random identifier and the current time.
pub fn begin_run(name: &str, definition: &TaskDefinition, tokens: &[String]) -> (r: Result<
    TaskInstance,
    SigilError,
>)
    ensures
        r is Ok <==> tokens_well_formed(tokens@) && !some_missing(*definition, tokens@),
        !tokens_well_formed(tokens@) ==> (r matches Err(SigilError::MalformedParameter(t))
            && names_malformed(tokens@, t)),
        tokens_well_formed(tokens@) && some_missing(*definition, tokens@) ==> (r matches Err(
            SigilError::MissingRequiredParameter(n),
        ) && names_missing(*definition, tokens@, n)),
        r matches Ok(inst) ==> {
            &&& inst.definition_name@ == name@
            &&& inst.status == TaskStatus::Pending
            &&& inst.parameters.wf()
            &&& inst.parameters@ == resolved(definition.parameters@, parsed_params(tokens@))
            &&& inst.started_at is None
            &&& inst.completed_at is None
            &&& inst.output is None
            &&& inst.error is None
            &&& inst.retry_count == 0
        },
{
    let id = crate::ids::fresh_id();
    let now = crate::ids::now_micros();
    prepare_run(name, definition, tokens, id, now)
}

/// Records how the spawned process of a running instance ended, at `now`,
/// and hands back the run's result: on success the instance is `Completed`
/// with the output and no error; on failure it is `Failed` with the error
/// text and no output, and the failure is returned.
pub fn record_outcome(
    instance: &mut TaskInstance,
    kind: CommandKind,
    outcome: ProcessOutcome,
    now: i64,
) -> (r: Result<(), SigilError>)
    ensures
        final(instance).completed_at == Some(now),
        final(instance).id == old(instance).id,
        final(instance).created_at == old(instance).created_at,
        final(instance).started_at == old(instance).started_at,
        final(instance).parameters == old(instance).parameters,
        final(instance).definition_name == old(instance).definition_name,
        final(instance).retry_count == old(instance).retry_count,
        match outcome_result(kind, outcome) {
            Ok(out) => {
                &&& r is Ok
                &&& final(instance).status == TaskStatus::Completed
                &&& final(instance).output matches Some(o) && o@ == out
                &&& final(instance).error is None
            },
            Err(detail) => {
                &&& r matches Err(SigilError::ExecutionFailed(d)) && d@ == detail
                &&& final(instance).status == TaskStatus::Failed
                &&& final(instance).output is None
                &&& final(instance).error matches Some(t) && t@ == "Task execution failed: "@
                    + detail
            },
        },
{
    let result = command_result(kind, outcome);
    instance.finish(&result, now);
    match result {
        Ok(_) => Ok(()),
        Err(e) => Err(e),
    }
}

/// The sample definition of task `name`.
pub open spec fn is_sample_definition(r: TaskDefinition, name: Seq<char>) -> bool {
    &&& r.wf()
    &&& r.name@ == name
    &&& r.description matches Some(d) && d@ == "Sample task: "@ + name
    &&& r.command matches TaskCommand::Shell { script } && script@ == "echo 'Hello from Sigil task!'"@
    &&& r.parameters@.len() == 1
    &&& r.parameters@[0].0@ == "message"@
    &&& r.parameters@[0].1.description@ == "Message to display"@
    &&& !r.parameters@[0].1.required
    &&& r.parameters@[0].1.default_value matches Some(d) && d@ == "Hello World"@
    &&& r.parameters@[0].1.parameter_type == ParameterType::String
    &&& r.timeout_seconds == Some(60u64)
    &&& r.retry_count == Some(3u32)
    &&& r.environment is None
    &&& r.working_directory is None
}

/// The definition made for a new task when no source is given: a shell
/// script that echoes a greeting, with one optional `message` parameter
/// whose default is `Hello World`.
pub fn sample_definition(name: &str) -> (r: TaskDefinition)
    ensures
        is_sample_definition(r, name@),
{
    let mut parameters: Vec<(String, TaskParameter)> = Vec::new();
    parameters.push(
        (
            String::from_str("message"),
            TaskParameter {
                description: String::from_str("Message to display"),
                required: false,
                default_value: Some(String::from_str("Hello World")),
                parameter_type: ParameterType::String,
            },
        ),
    );
    TaskDefinition {
        name: String::from_str(name),
        description: Some(join2("Sample task: ", name)),
        command: TaskCommand::Shell { script: String::from_str("echo 'Hello from Sigil task!'") },
        parameters,
        timeout_seconds: Some(60),
        retry_count: Some(3),
        environment: None,
        working_directory: None,
    }
}

/// The definition to store when task `name` is created: `AlreadyExists` if
/// a definition of that name is stored already, else the given source
/// definition, else the sample definition.
pub fn new_definition(name: &str, already_stored: bool, source: Option<TaskDefinition>) -> (r:
    Result<TaskDefinition, SigilError>)
    ensures
        already_stored ==> (r matches Err(SigilError::AlreadyExists(n)) && n@ == name@),
        !already_stored && source is Some ==> r == Ok::<TaskDefinition, SigilError>(
            source->Some_0,
        ),
        !already_stored && source is None ==> (r matches Ok(d) && is_sample_definition(
            d,
            name@,
        )),
{
    if already_stored {
        return Err(SigilError::AlreadyExists(String::from_str(name)));
    }
    match source {
        Some(d) => Ok(d),
        None => Ok(sample_definition(name)),
    }
}

/// The name of the definition stored in file `file_name`: the file name
/// without its `.toml` suffix, when it has one and something precedes it.
pub fn definition_name_of_file(file_name: &str) -> (r: Option<String>)
    ensures
        match r {
            Some(n) => n@.len() > 0 && file_name@ == n@ + ".toml"@,
            None => !(exists|n: Seq<char>| n.len() > 0 && file_name@ == n + ".toml"@),
        },
{
    proof {
        reveal_strlit(".toml");
    }
    let n = file_name.unicode_len();
    if n <= 5 {
        proof {
            assert forall|m: Seq<char>| m.len() > 0 implies file_name@ != m + ".toml"@ by {
                if file_name@ == m + ".toml"@ {
                    assert(file_name@.len() == m.len() + 5);
                }
            }
        }
        return None;
    }
    let tail = file_name.substring_char(n - 5, n);
    let stem = file_name.substring_char(0, n - 5);
    if same_text(tail, ".toml") {
        assert(file_name@ =~= stem@ + ".toml"@);
        Some(String::from_str(stem))
    } else {
        proof {
            assert forall|m: Seq<char>| m.len() > 0 implies file_name@ != m + ".toml"@ by {
                if file_name@ == m + ".toml"@ {
                    assert(m.len() == n - 5);
                    assert(tail@ =~= ".toml"@);
                }
            }
        }
        None
    }
}

} // verus!
