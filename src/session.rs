use vstd::prelude::*;
use vstd::string::StringExecFns;

use crate::error::HarvestError;
use crate::remote::app_identifier;
use crate::remote::build_heroku_app_name;
use crate::remote::database_name;
use crate::remote::extract_database_name;
use crate::remote::has_token;
use crate::text::decimal_value;
use crate::text::has_prefix;
use crate::text::is_decimal;
use crate::text::parse_arg;
use crate::text::parse_seconds;
use crate::text::starts_with;
use crate::text::strip_first;

verus! {

/// The platform tool that every external command runs.
pub const TOOL: &'static str = "heroku";

/// Usage text: the arguments and a worked example.
pub const USAGE: &'static str = "harvest
Small command line program to pull data from a database hosted on Heroku.
Requires the heroku CLI to be installed.

USAGE:
    harvest --app=<app> --env=<env> --local-db=<local database name> [--timeout=<seconds>]

ARGS:
    --app=<app>
    --env=<env>
    --local-db=<local database name>
    --timeout=<seconds>    optional limit on each heroku command

EXAMPLE:
    harvest --app=myapp --env=staging --local-db=myapp_dev

    Fetches the database name of the Heroku app myapp-staging with `heroku pg:info`,
    then runs `heroku pg:pull <remote database name> myapp_dev --app myapp-staging`.
";

/// The views of a list of strings.
pub open spec fn views(v: Seq<String>) -> Seq<Seq<char>> {
    v.map_values(|s: String| s@)
}

/// The command line asks for usage: it has no arguments, or its first one
/// starts with `--help`.
pub open spec fn requests_help(argv: Seq<Seq<char>>) -> bool {
    argv.len() <= 1 || starts_with(argv[1], "--help"@)
}

/// The remote identifier that a full command line names.
pub open spec fn remote_id_of(argv: Seq<Seq<char>>) -> Seq<char> {
    app_identifier(strip_first(argv[1], "--app="@), strip_first(argv[2], "--env="@))
}

/// The local database that a full command line names.
pub open spec fn local_db_of(argv: Seq<Seq<char>>) -> Seq<char> {
    strip_first(argv[3], "--local-db="@)
}

/// The time limit of a command line: `Some(None)` when none is given,
/// `None` when the one given is not a number of seconds.
pub open spec fn timeout_of(argv: Seq<Seq<char>>) -> Option<Option<u64>> {
    if argv.len() < 5 {
        Some(None)
    } else {
        let d = strip_first(argv[4], "--timeout="@);
        if is_decimal(d) && decimal_value(d) <= u64::MAX {
            Some(Some(decimal_value(d) as u64))
        } else {
            None
        }
    }
}

/// Arguments of the platform tool's query for a remote application's database.
pub open spec fn info_args(app_id: Seq<char>) -> Seq<Seq<char>> {
    seq!["pg:info"@, "--app"@, app_id]
}

/// Arguments of the platform tool's pull of a remote database into a local one.
pub open spec fn pull_args(app_id: Seq<char>, remote: Seq<char>, local: Seq<char>) -> Seq<
    Seq<char>,
> {
    seq!["pg:pull"@, remote, local, "--app"@, app_id]
}

/// What the program is to do next.
#[derive(Debug)]
pub enum Action {
    /// Print `text` on standard output and exit successfully.
    Print { text: String },
    /// Run `program` with `args`, within `timeout_secs` seconds if given, and
    /// report how it went.
    Run { program: String, args: Vec<String>, timeout_secs: Option<u64> },
    /// Print the error's message on standard error and exit with a failure status.
    Fail { error: HarvestError },
}

/// Where a run stands.
#[derive(Debug)]
pub enum Stage {
    /// Waiting for the query of the remote database reference.
    Resolving { app_id: String, local_db: String, timeout_secs: Option<u64> },
    /// Waiting for the pull.
    Pulling,
    /// Nothing more to do.
    Done,
}

/// How an external command ended.
#[derive(Debug)]
pub enum Outcome {
    /// It could not be started.
    SpawnFailed,
    /// It ran past its time limit and was stopped.
    TimedOut,
    /// It exited; `stdout` is its standard output, `None` when that is not
    /// valid UTF-8.
    Exited { success: bool, stdout: Option<String> },
}

/// A stage together with the action that leads out of it.
#[derive(Debug)]
pub struct Step {
    pub stage: Stage,
    pub action: Action,
}

/// The error that an outcome is by itself, whatever the output says.
pub open spec fn outcome_error(o: Outcome) -> Option<HarvestError> {
    match o {
        Outcome::SpawnFailed => Some(HarvestError::ExternalCommandError),
        Outcome::TimedOut => Some(HarvestError::TimeoutError),
        Outcome::Exited { success, stdout } => if !success {
            Some(HarvestError::ExternalCommandError)
        } else if stdout is None {
            Some(HarvestError::DecodeError)
        } else {
            None
        },
    }
}

/// The step that ends a run with `error`.
pub open spec fn fails_with(s: Step, error: HarvestError) -> bool {
    s.stage is Done && (s.action matches Action::Fail { error: e } && e == error)
}

/// The step that ends a run by printing the usage text.
pub open spec fn prints_usage(s: Step) -> bool {
    s.stage is Done && (s.action matches Action::Print { text } && text@ == USAGE@)
}

/// `a` runs the platform tool with `args` and time limit `t`.
pub open spec fn runs(a: Action, args: Seq<Seq<char>>, t: Option<u64>) -> bool {
    a matches Action::Run { program, args: given, timeout_secs } && program@ == TOOL@ && views(
        given@,
    ) == args && timeout_secs == t
}

/// `s` waits for the query of `app_id`'s database, to pull it into `local_db`
/// within time limit `t`.
pub open spec fn resolving(s: Stage, app_id: Seq<char>, local_db: Seq<char>, t: Option<u64>) -> bool {
    s matches Stage::Resolving { app_id: id, local_db: db, timeout_secs } && id@ == app_id
        && db@ == local_db && timeout_secs == t
}

fn fail(error: HarvestError) -> (s: Step)
    ensures
        fails_with(s, error),
{
    Step { stage: Stage::Done, action: Action::Fail { error } }
}

fn tool() -> (r: String)
    ensures
        r@ == TOOL@,
{
    String::from_str(TOOL)
}

/// The usage text.
pub fn usage_text() -> (r: String)
    ensures
        r@ == USAGE@,
{
    String::from_str(USAGE)
}

/// The first step of a run on the command line `argv` (the program's name
/// first): usage when help is asked for, a usage error when an argument is
/// missing or the time limit is not a number, else the query of the remote
/// database reference.
pub fn start(argv: &Vec<String>) -> (r: Step)
    ensures
        requests_help(views(argv@)) ==> prints_usage(r),
        !requests_help(views(argv@)) && (argv@.len() < 4 || timeout_of(views(argv@)) is None)
            ==> fails_with(r, HarvestError::UsageError),
        !requests_help(views(argv@)) && argv@.len() >= 4 && timeout_of(views(argv@)) is Some
            ==> resolving(
            r.stage,
            remote_id_of(views(argv@)),
            local_db_of(views(argv@)),
            timeout_of(views(argv@))->0,
        ) && runs(
            r.action,
            info_args(remote_id_of(views(argv@))),
            timeout_of(views(argv@))->0,
        ),
{
    let n = argv.len();
    if n <= 1 || has_prefix(&argv[1], "--help") {
        return Step { stage: Stage::Done, action: Action::Print { text: usage_text() } };
    }
    if n < 4 {
        return fail(HarvestError::UsageError);
    }
    let app = parse_arg(&argv[1], &String::from_str("--app="));
    let env = parse_arg(&argv[2], &String::from_str("--env="));
    let local_db = parse_arg(&argv[3], &String::from_str("--local-db="));
    let timeout_secs = if n < 5 {
        None
    } else {
        let digits = parse_arg(&argv[4], &String::from_str("--timeout="));
        match parse_seconds(&digits) {
            None => {
                return fail(HarvestError::UsageError);
            },
            Some(secs) => Some(secs),
        }
    };
    let app_id = build_heroku_app_name(&app, &env);
    let mut args: Vec<String> = Vec::new();
    args.push(String::from_str("pg:info"));
    args.push(String::from_str("--app"));
    args.push(app_id.clone());
    assert(views(args@) =~= info_args(app_id@));
    Step {
        stage: Stage::Resolving { app_id, local_db, timeout_secs },
        action: Action::Run { program: tool(), args, timeout_secs },
    }
}


/// What an outcome printed on standard output, when it printed valid text.
pub open spec fn stdout_of(o: Outcome) -> Seq<char> {
    match o {
        Outcome::Exited { stdout: Some(s), .. } => s@,
        _ => Seq::empty(),
    }
}

/// The step that follows `stage` when its external command ended with `outcome`:
/// a failed command ends the run with its error; a successful query leads to
/// the pull of the database it names; a successful pull ends the run by
/// printing what it printed.
pub open spec fn follows(stage: Stage, outcome: Outcome, r: Step) -> bool {
    match outcome_error(outcome) {
        Some(e) => fails_with(r, e),
        None => match stage {
            Stage::Resolving { app_id, local_db, timeout_secs } => if has_token(
                stdout_of(outcome),
            ) {
                r.stage is Pulling && runs(
                    r.action,
                    pull_args(app_id@, database_name(stdout_of(outcome)), local_db@),
                    timeout_secs,
                )
            } else {
                fails_with(r, HarvestError::ExtractionError)
            },
            Stage::Pulling => r.stage is Done && (r.action matches Action::Print { text }
                && text@ == stdout_of(outcome)),
            Stage::Done => true,
        },
    }
}

/// The next step once the external command that `stage` waits for has ended
/// with `outcome`.
pub fn advance(stage: Stage, outcome: Outcome) -> (r: Step)
    requires
        !(stage is Done),
    ensures
        follows(stage, outcome, r),
{
    let out = match outcome {
        Outcome::SpawnFailed => {
            return fail(HarvestError::ExternalCommandError);
        },
        Outcome::TimedOut => {
            return fail(HarvestError::TimeoutError);
        },
        Outcome::Exited { success, stdout } => {
            if !success {
                return fail(HarvestError::ExternalCommandError);
            }
            match stdout {
                None => {
                    return fail(HarvestError::DecodeError);
                },
                Some(s) => s,
            }
        },
    };
    match stage {
        Stage::Resolving { app_id, local_db, timeout_secs } => match extract_database_name(
            out.as_str(),
        ) {
            Err(e) => fail(e),
            Ok(name) => {
                let mut args: Vec<String> = Vec::new();
                args.push(String::from_str("pg:pull"));
                args.push(name);
                args.push(local_db);
                args.push(String::from_str("--app"));
                args.push(app_id);
                assert(views(args@) =~= pull_args(app_id@, name@, local_db@));
                Step {
                    stage: Stage::Pulling,
                    action: Action::Run { program: tool(), args, timeout_secs },
                }
            },
        },
        Stage::Pulling => Step { stage: Stage::Done, action: Action::Print { text: out } },
        Stage::Done => fail(HarvestError::UsageError),
    }
}

} // verus!
