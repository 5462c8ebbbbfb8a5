use harvest::error::HarvestError;
use harvest::remote::{build_heroku_app_name, extract_connection_url, extract_database_name};
use harvest::session::{advance, start, usage_text, Action, Outcome, Stage, Step, TOOL, USAGE};
use harvest::text::{has_prefix, parse_arg, parse_seconds};

fn s(x: &str) -> String {
    x.to_string()
}

fn argv(items: &[&str]) -> Vec<String> {
    items.iter().map(|x| x.to_string()).collect()
}

fn assert_fails(step: &Step, expected: HarvestError) {
    assert!(matches!(step.stage, Stage::Done));
    match &step.action {
        Action::Fail { error } => assert_eq!(*error, expected),
        other => panic!("expected a failure, got {:?}", other),
    }
}

fn run_args(step: &Step) -> (Vec<String>, Option<u64>) {
    match &step.action {
        Action::Run { program, args, timeout_secs } => {
            assert_eq!(program, TOOL);
            (args.clone(), *timeout_secs)
        }
        other => panic!("expected a command, got {:?}", other),
    }
}

fn exited(stdout: &str) -> Outcome {
    Outcome::Exited { success: true, stdout: Some(s(stdout)) }
}

#[test]
fn parse_arg_strips_prefix() {
    assert_eq!(parse_arg(&s("--app=myapp"), &s("--app=")), "myapp");
    assert_eq!(parse_arg(&s("--local-db=myapp_dev"), &s("--local-db=")), "myapp_dev");
}

#[test]
fn parse_arg_without_prefix_is_unchanged() {
    assert_eq!(parse_arg(&s("myapp"), &s("--app=")), "myapp");
    assert_eq!(parse_arg(&s("--env=staging"), &s("--app=")), "--env=staging");
    assert_eq!(parse_arg(&s(""), &s("--app=")), "");
}

#[test]
fn parse_arg_removes_first_occurrence_only() {
    assert_eq!(parse_arg(&s("--app=--app=x"), &s("--app=")), "--app=x");
    assert_eq!(parse_arg(&s("x--app=y"), &s("--app=")), "xy");
}

#[test]
fn parse_arg_empty_pattern() {
    assert_eq!(parse_arg(&s("abc"), &s("")), "abc");
}

#[test]
fn parse_arg_non_ascii() {
    assert_eq!(parse_arg(&s("--app=café"), &s("--app=")), "café");
}

#[test]
fn has_prefix_cases() {
    assert!(has_prefix(&s("--help"), "--help"));
    assert!(has_prefix(&s("--helpme"), "--help"));
    assert!(!has_prefix(&s("--hel"), "--help"));
    assert!(!has_prefix(&s("x--help"), "--help"));
}

#[test]
fn identifier_joins_with_dash() {
    assert_eq!(build_heroku_app_name(&s("myapp"), &s("staging")), "myapp-staging");
    assert_eq!(build_heroku_app_name(&s(""), &s("")), "-");
    assert_eq!(build_heroku_app_name(&s("a b"), &s("c-d")), "a b-c-d");
}

#[test]
fn database_name_is_last_field() {
    let out = "=== myapp-staging\n\nmyapp-staging::DATABASE <- postgres://...  \n";
    assert_eq!(extract_database_name(out), Ok(s("postgres://...")));
}

#[test]
fn database_name_from_empty_output_fails() {
    assert_eq!(extract_database_name(""), Err(HarvestError::ExtractionError));
}

#[test]
fn database_name_from_blank_output_fails() {
    assert_eq!(extract_database_name("  \n\t \r\n"), Err(HarvestError::ExtractionError));
}

#[test]
fn database_name_single_token() {
    assert_eq!(extract_database_name("postgresql-shaped-12345"), Ok(s("postgresql-shaped-12345")));
    assert_eq!(extract_database_name("  db\n"), Ok(s("db")));
}

#[test]
fn database_name_multi_line_and_tabs() {
    assert_eq!(extract_database_name("Plan: basic\nAdd-on:\tpostgresql-x-1\n"), Ok(s("postgresql-x-1")));
    assert_eq!(extract_database_name("a\nb\n\n"), Ok(s("b")));
}

#[test]
fn connection_url_drops_one_line_end() {
    assert_eq!(extract_connection_url("postgres://u:p@h:5432/db\n"), Ok(s("postgres://u:p@h:5432/db")));
    assert_eq!(extract_connection_url("postgres://h/db\r\n"), Ok(s("postgres://h/db")));
    assert_eq!(extract_connection_url("postgres://h/db"), Ok(s("postgres://h/db")));
}

#[test]
fn connection_url_rejects_bad_shapes() {
    assert_eq!(extract_connection_url(""), Err(HarvestError::ExtractionError));
    assert_eq!(extract_connection_url("\n"), Err(HarvestError::ExtractionError));
    assert_eq!(extract_connection_url("url\n\n"), Err(HarvestError::ExtractionError));
    assert_eq!(extract_connection_url("two words\n"), Err(HarvestError::ExtractionError));
}

#[test]
fn parse_seconds_cases() {
    assert_eq!(parse_seconds(&s("30")), Some(30));
    assert_eq!(parse_seconds(&s("007")), Some(7));
    assert_eq!(parse_seconds(&s("18446744073709551615")), Some(u64::MAX));
    assert_eq!(parse_seconds(&s("18446744073709551616")), None);
    assert_eq!(parse_seconds(&s("99999999999999999999")), None);
    assert_eq!(parse_seconds(&s("")), None);
    assert_eq!(parse_seconds(&s("3a")), None);
    assert_eq!(parse_seconds(&s("-1")), None);
}

#[test]
fn usage_names_every_flag_and_an_example() {
    let text = usage_text();
    assert_eq!(text, USAGE);
    for flag in ["--app=", "--env=", "--local-db=", "--timeout="] {
        assert!(text.contains(flag));
    }
    assert!(text.contains("harvest --app=myapp --env=staging --local-db=myapp_dev"));
}

#[test]
fn help_flag_prints_usage_without_commands() {
    for line in [vec!["harvest", "--help"], vec!["harvest", "--help", "--app=a"], vec!["harvest", "--helpme"]] {
        let step = start(&argv(&line));
        assert!(matches!(step.stage, Stage::Done));
        match step.action {
            Action::Print { text } => assert_eq!(text, USAGE),
            other => panic!("expected usage, got {:?}", other),
        }
    }
}

#[test]
fn no_arguments_prints_usage() {
    let step = start(&argv(&["harvest"]));
    assert!(matches!(step.action, Action::Print { .. }));
    let step = start(&argv(&[]));
    assert!(matches!(step.action, Action::Print { .. }));
}

#[test]
fn missing_arguments_are_a_usage_error() {
    assert_fails(&start(&argv(&["harvest", "--app=myapp"])), HarvestError::UsageError);
    assert_fails(&start(&argv(&["harvest", "--app=myapp", "--env=staging"])), HarvestError::UsageError);
}

#[test]
fn bad_timeout_is_a_usage_error() {
    let line = argv(&["harvest", "--app=a", "--env=b", "--local-db=c", "--timeout=soon"]);
    assert_fails(&start(&line), HarvestError::UsageError);
}

#[test]
fn start_queries_the_remote_database() {
    let step = start(&argv(&["harvest", "--app=myapp", "--env=staging", "--local-db=myapp_dev"]));
    match &step.stage {
        Stage::Resolving { app_id, local_db, timeout_secs } => {
            assert_eq!(app_id, "myapp-staging");
            assert_eq!(local_db, "myapp_dev");
            assert_eq!(*timeout_secs, None);
        }
        other => panic!("expected resolving, got {:?}", other),
    }
    assert_eq!(run_args(&step), (argv(&["pg:info", "--app", "myapp-staging"]), None));
}

#[test]
fn start_with_timeout() {
    let step = start(&argv(&["harvest", "--app=a", "--env=b", "--local-db=c", "--timeout=45"]));
    assert_eq!(run_args(&step), (argv(&["pg:info", "--app", "a-b"]), Some(45)));
}

fn resolving() -> Stage {
    Stage::Resolving { app_id: s("myapp-staging"), local_db: s("myapp_dev"), timeout_secs: Some(9) }
}

#[test]
fn query_failures_map_to_errors() {
    assert_fails(&advance(resolving(), Outcome::SpawnFailed), HarvestError::ExternalCommandError);
    assert_fails(&advance(resolving(), Outcome::TimedOut), HarvestError::TimeoutError);
    assert_fails(
        &advance(resolving(), Outcome::Exited { success: false, stdout: Some(s("db\n")) }),
        HarvestError::ExternalCommandError,
    );
    assert_fails(
        &advance(resolving(), Outcome::Exited { success: true, stdout: None }),
        HarvestError::DecodeError,
    );
    assert_fails(&advance(resolving(), exited("")), HarvestError::ExtractionError);
}

#[test]
fn successful_query_leads_to_pull() {
    let step = advance(resolving(), exited("x::DATABASE <- postgresql-a-1 \n"));
    assert!(matches!(step.stage, Stage::Pulling));
    assert_eq!(
        run_args(&step),
        (argv(&["pg:pull", "postgresql-a-1", "myapp_dev", "--app", "myapp-staging"]), Some(9))
    );
}

#[test]
fn pull_outcomes() {
    assert_fails(
        &advance(Stage::Pulling, Outcome::Exited { success: false, stdout: Some(s("partial")) }),
        HarvestError::ExternalCommandError,
    );
    assert_fails(&advance(Stage::Pulling, Outcome::TimedOut), HarvestError::TimeoutError);
    let step = advance(Stage::Pulling, exited("pulled 3 tables\n"));
    assert!(matches!(step.stage, Stage::Done));
    match step.action {
        Action::Print { text } => assert_eq!(text, "pulled 3 tables\n"),
        other => panic!("expected output, got {:?}", other),
    }
}

#[test]
fn end_to_end_run() {
    let step = start(&argv(&["harvest", "--app=myapp", "--env=staging", "--local-db=myapp_dev"]));
    assert_eq!(run_args(&step).0, argv(&["pg:info", "--app", "myapp-staging"]));
    let step = advance(step.stage, exited("=== myapp-staging\nmyapp-staging::DATABASE <- postgresql-x-9  \n"));
    assert_eq!(
        run_args(&step).0,
        argv(&["pg:pull", "postgresql-x-9", "myapp_dev", "--app", "myapp-staging"])
    );
    let step = advance(step.stage, exited("done\n"));
    assert!(matches!(step.stage, Stage::Done));
    assert!(matches!(step.action, Action::Print { text } if text == "done\n"));
}

#[test]
fn error_messages_are_not_empty() {
    for e in [
        HarvestError::UsageError,
        HarvestError::ExternalCommandError,
        HarvestError::DecodeError,
        HarvestError::ExtractionError,
        HarvestError::TimeoutError,
    ] {
        assert!(!e.message().is_empty());
    }
}
