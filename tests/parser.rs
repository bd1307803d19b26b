use telemetry_cli::command::{build_command, command_kind, parse_command, Command, CommandError, CommandKind, Field};
use telemetry_cli::config::Config;
use telemetry_cli::document::ParamValue;
use telemetry_cli::params::{get_param, parse_params};
use telemetry_cli::session::{interactive_step, Step};
use telemetry_cli::timestamp::{parse_iso_timestamp, Timestamp};
use telemetry_cli::transport::{classify_status, is_fatal, Outcome};

fn chars(s: &str) -> Vec<char> {
    s.chars().collect()
}

#[test]
fn test_parse_quit_commands() {
    assert!(matches!(parse_command("quit").unwrap(), Command::Quit));
    assert!(matches!(parse_command("exit").unwrap(), Command::Quit));
    assert!(matches!(parse_command("bye").unwrap(), Command::Quit));
    assert!(matches!(parse_command("QUIT").unwrap(), Command::Quit));
}

#[test]
fn test_parse_set_log_level() {
    let cmd = parse_command("set_log_level(node_id=21, log_level=DEBUG)").unwrap();
    match cmd {
        Command::SetLogLevel { node_id, log_level } => {
            assert_eq!(node_id, Some(21));
            assert_eq!(log_level, "DEBUG");
        }
        _ => panic!("Wrong command type"),
    }
}

#[test]
fn test_parse_update_node_with_node_id() {
    let cmd = parse_command("update_node(node_id=42)").unwrap();
    match cmd {
        Command::UpdateNode { node_id } => {
            assert_eq!(node_id, Some(42));
        }
        _ => panic!("Wrong command type"),
    }
}

#[test]
fn test_parse_update_node_without_node_id() {
    let cmd = parse_command("update_node()").unwrap();
    match cmd {
        Command::UpdateNode { node_id } => {
            assert_eq!(node_id, None);
        }
        _ => panic!("Wrong command type"),
    }
}

#[test]
fn test_parse_start_measurement() {
    let cmd = parse_command("start_measurement(node_id=21, sequence=42)").unwrap();
    match cmd {
        Command::StartMeasurement { node_id, sequence } => {
            assert_eq!(node_id, 21);
            assert_eq!(sequence, 42);
        }
        _ => panic!("Wrong command type"),
    }
}

#[test]
fn test_parse_start_measurement_requires_node_id() {
    let result = parse_command("start_measurement(sequence=1)");
    assert!(result.is_err());
    assert!(result.unwrap_err().message().contains("node_id is required"));
}

#[test]
fn quit_words_in_any_case_with_padding() {
    for line in ["  ByE \t", "\nExit", "qUiT  ", "EXIT", "Bye"] {
        assert_eq!(parse_command(line), Ok(Command::Quit));
    }
    assert_eq!(parse_command("quit()"), Err(CommandError::UnknownCommand("quit".to_string())));
}

#[test]
fn update_node_scenarios() {
    assert_eq!(parse_command("update_node()"), Ok(Command::UpdateNode { node_id: None }));
    assert_eq!(parse_command("update_node(node_id=42)"), Ok(Command::UpdateNode { node_id: Some(42) }));
    assert_eq!(parse_command("update_node"), Ok(Command::UpdateNode { node_id: None }));
    assert_eq!(parse_command("UPDATE_PROBE"), Ok(Command::UpdateProbe { node_id: None }));
    assert_eq!(parse_command("reboot_probe(node_id=7)"), Ok(Command::RebootProbe { node_id: Some(7) }));
}

#[test]
fn log_level_is_upper_cased() {
    assert_eq!(
        parse_command("set_log_level(node_id=21, log_level=debug)"),
        Ok(Command::SetLogLevel { node_id: Some(21), log_level: "DEBUG".to_string() })
    );
    assert_eq!(
        parse_command("Set_Log_Level(log_level=Warn)"),
        Ok(Command::SetLogLevel { node_id: None, log_level: "WARN".to_string() })
    );
}

#[test]
fn unknown_log_level_is_refused() {
    assert_eq!(parse_command("set_log_level(log_level=SILLY)"), Err(CommandError::InvalidField(Field::LogLevel)));
    assert_eq!(parse_command("set_log_level(node_id=1)"), Err(CommandError::MissingField(Field::LogLevel)));
}

#[test]
fn start_measurement_scenarios() {
    assert_eq!(parse_command("start_measurement(sequence=1)"), Err(CommandError::MissingField(Field::NodeId)));
    assert_eq!(
        parse_command("start_measurement(node_id=21,sequence=42)"),
        Ok(Command::StartMeasurement { node_id: 21, sequence: 42 })
    );
    assert_eq!(parse_command("start_measurement(node_id=21)"), Err(CommandError::MissingField(Field::Sequence)));
    assert_eq!(
        parse_command("start_measurement(node_id=21, sequence=4294967296)"),
        Err(CommandError::InvalidField(Field::Sequence))
    );
}

#[test]
fn set_update_interval_refuses_node_id() {
    let r = parse_command(
        "set_update_interval(node_id=1, start_time=2024-01-01T00:00:00Z, end_time=2024-01-02T00:00:00Z, active_period=60, inactive_period=300)",
    );
    assert_eq!(r, Err(CommandError::InvalidField(Field::NodeId)));
}

#[test]
fn set_update_interval_reads_all_forms() {
    let r = parse_command(
        "set_update_interval(start_time=2024-01-01T00:00:00Z, end_time=2024-01-01T02:00+0100, active_period=60, inactive_period=300)",
    );
    assert_eq!(
        r,
        Ok(Command::SetUpdateInterval {
            start_time: Timestamp { secs: 1704067200, nanos: 0 },
            end_time: Timestamp { secs: 1704070800, nanos: 0 },
            active_period: 60,
            inactive_period: 300,
        })
    );
    let missing = parse_command("set_update_interval(start_time=2024-01-01T00:00:00Z)");
    assert_eq!(missing, Err(CommandError::MissingField(Field::EndTime)));
    let bad = parse_command(
        "set_update_interval(start_time=yesterday, end_time=2024-01-01T00:00:00Z, active_period=1, inactive_period=1)",
    );
    assert_eq!(bad, Err(CommandError::InvalidField(Field::StartTime)));
    let negative = parse_command(
        "set_update_interval(start_time=2024-01-01T00:00:00Z, end_time=2024-01-01T00:00:00Z, active_period=-1, inactive_period=1)",
    );
    assert_eq!(negative, Err(CommandError::InvalidField(Field::ActivePeriod)));
}

#[test]
fn timestamps_in_each_form() {
    let t = Timestamp { secs: 1704067200, nanos: 0 };
    assert_eq!(parse_iso_timestamp("2024-01-01T00:00:00Z"), Some(t));
    assert_eq!(parse_iso_timestamp("2024-01-01T01:00:00+01:00"), Some(t));
    assert_eq!(parse_iso_timestamp("2024-01-01T01:00:00+0100"), Some(t));
    assert_eq!(parse_iso_timestamp("2024-01-01T01:00+0100"), Some(t));
    assert_eq!(parse_iso_timestamp("2024-01-01"), None);
}

#[test]
fn quoted_comma_stays_in_value() {
    assert_eq!(
        parse_command("command(command=\"a,b\")"),
        Ok(Command::Command { node_id: None, command: "\"a,b\"".to_string() })
    );
    let ps = parse_params(&chars("command=\"a,b\", node_id = 3"));
    assert_eq!(ps, vec![("command".to_string(), "\"a,b\"".to_string()), ("node_id".to_string(), "3".to_string())]);
}

#[test]
fn first_duplicate_key_wins() {
    let ps = parse_params(&chars(" Node_ID=5, node_id=6,  x y = a=b "));
    assert_eq!(get_param(&ps, "node_id"), Some("5"));
    assert_eq!(get_param(&ps, "x y"), Some("a=b"));
    assert_eq!(get_param(&ps, "missing"), None);
    assert_eq!(parse_params(&chars("")), Vec::<(String, String)>::new());
    assert_eq!(parse_params(&chars("a")), vec![("a".to_string(), String::new())]);
}

#[test]
fn invocation_errors() {
    assert_eq!(parse_command("set_log_level(log_level=DEBUG"), Err(CommandError::MalformedInvocation));
    assert_eq!(parse_command(" Frobnicate (x=1) "), Err(CommandError::UnknownCommand("Frobnicate".to_string())));
    assert_eq!(
        parse_command("set_log_filter"),
        Err(CommandError::MissingParameterBlock(CommandKind::SetLogFilter))
    );
    assert_eq!(parse_command("command()"), Err(CommandError::MissingField(Field::Command)));
    assert_eq!(parse_command("update_node(node_id=abc)"), Err(CommandError::InvalidField(Field::NodeId)));
    assert_eq!(parse_command("update_node(node_id=4294967296)"), Err(CommandError::InvalidField(Field::NodeId)));
    assert_eq!(parse_command("update_node(node_id=-1)"), Err(CommandError::InvalidField(Field::NodeId)));
    assert_eq!(parse_command("update_node(node_id=+4294967295)"), Ok(Command::UpdateNode { node_id: Some(4294967295) }));
    assert_eq!(CommandError::UnknownCommand("x".to_string()).message(), "Unknown command: x");
    assert_eq!(CommandError::InvalidField(Field::LogLevel).message(), "Invalid log_level");
}

#[test]
fn free_text_commands() {
    assert_eq!(
        parse_command("set_log_filter(node_id=2, log_filter= radio=debug )"),
        Ok(Command::SetLogFilter { node_id: Some(2), log_filter: "radio=debug".to_string() })
    );
    assert_eq!(command_kind("command"), Some(CommandKind::Command));
    assert_eq!(command_kind("Command"), None);
    assert_eq!(build_command(CommandKind::UpdateProbe, None), Ok(Command::UpdateProbe { node_id: None }));
}

#[test]
fn documents_use_node_id_with_a_space() {
    let doc = parse_command("set_log_level(node_id=5, log_level=info)").unwrap().to_json().unwrap();
    assert_eq!(doc.command, "set_log_level");
    assert_eq!(
        doc.parameters,
        vec![
            ("log_level".to_string(), ParamValue::Text("INFO".to_string())),
            ("node id".to_string(), ParamValue::Number(5)),
        ]
    );
    let doc = Command::StartMeasurement { node_id: 1, sequence: 2 }.to_json().unwrap();
    assert_eq!(doc.parameters[0], ("node id".to_string(), ParamValue::Number(1)));
    let doc = Command::UpdateProbe { node_id: None }.to_json().unwrap();
    assert!(doc.parameters.is_empty());
}

#[test]
fn interval_document_renders_utc() {
    let cmd = parse_command(
        "set_update_interval(start_time=2024-01-01T01:00:00+01:00, end_time=2024-01-02T00:00:00Z, active_period=60, inactive_period=300)",
    )
    .unwrap();
    let doc = cmd.to_json().unwrap();
    assert_eq!(doc.command, "set_update_interval");
    assert_eq!(doc.parameters[0], ("start_time".to_string(), ParamValue::Text("2024-01-01T00:00:00+00:00".to_string())));
    assert_eq!(doc.parameters[1], ("end_time".to_string(), ParamValue::Text("2024-01-02T00:00:00+00:00".to_string())));
    assert_eq!(doc.parameters[3], ("inactive_period".to_string(), ParamValue::Number(300)));
}

#[test]
fn conversion_is_repeatable() {
    let cmd = parse_command("command(node_id=9, command=\"reset now\")").unwrap();
    assert_eq!(cmd.to_json(), cmd.to_json());
}

#[test]
fn quit_has_no_document() {
    assert_eq!(Command::Quit.to_json(), Err(CommandError::NonTransportableCommand));
}

#[test]
fn hub_status_outcomes() {
    assert_eq!(classify_status(200), Outcome::Accepted);
    assert_eq!(classify_status(401), Outcome::Unauthorized);
    assert_eq!(classify_status(404), Outcome::ClientError);
    assert_eq!(classify_status(503), Outcome::ServerError);
    assert_eq!(classify_status(302), Outcome::Unexpected);
    assert!(is_fatal(Outcome::Unauthorized));
    assert!(!is_fatal(Outcome::ServerError));
    let c = Config::new("SECRET-REDACTED".to_string(), "http://hub.local".to_string());
    assert_eq!(c.command_url(), "http://hub.local/command");
}

#[test]
fn session_steps() {
    assert!(matches!(interactive_step("   \n"), Step::Skip));
    assert!(matches!(interactive_step(""), Step::Skip));
    assert!(matches!(interactive_step(" Bye\n"), Step::Finish));
    match interactive_step("update_node(node_id=3)\n") {
        Step::Send(c) => assert_eq!(c, Command::UpdateNode { node_id: Some(3) }),
        other => panic!("unexpected step {:?}", other),
    }
    match interactive_step("set_log_level(log_level=loud)") {
        Step::Report(e) => assert_eq!(e, CommandError::InvalidField(Field::LogLevel)),
        other => panic!("unexpected step {:?}", other),
    }
}
