use systemctl_bot::builder::{create_commands, get_commands, CommandInfo};
use systemctl_bot::commands::{
    get_potential_units, plan_command, render_status_lines, response_content, run_response,
    status_one_response, success_message, CommandAction, UserCommand,
};
use systemctl_bot::config::{Command, CommandType, UnitCollection};
use systemctl_bot::errors::OperationError;

fn all_verbs(units: &[&str]) -> UnitCollection {
    let names: Vec<String> = units.iter().map(|u| u.to_string()).collect();
    UnitCollection::new(names.clone(), names.clone(), names.clone(), names)
}

fn only(verb: Command, units: &[&str]) -> UnitCollection {
    let names: Vec<String> = units.iter().map(|u| u.to_string()).collect();
    match verb {
        Command::Start => UnitCollection::new(names, Vec::new(), Vec::new(), Vec::new()),
        Command::Stop => UnitCollection::new(Vec::new(), names, Vec::new(), Vec::new()),
        Command::Restart => UnitCollection::new(Vec::new(), Vec::new(), names, Vec::new()),
        Command::Status => UnitCollection::new(Vec::new(), Vec::new(), Vec::new(), names),
    }
}

fn to_names(commands: &Vec<CommandInfo>) -> Vec<&str> {
    commands.iter().map(|command| command.name.as_str()).collect()
}

#[test]
fn test_potential_units() {
    let collection = only(Command::Start, &["ab.service", "abc.service", "acd.service"]);
    assert_eq!(
        get_potential_units(&collection, "start", "ab"),
        vec![
            ("ab".to_string(), "ab.service".to_string()),
            ("abc".to_string(), "abc.service".to_string())
        ]
    );
}

#[test]
fn test_potential_units_for_unknown_command() {
    let collection = only(Command::Start, &["ab.service"]);
    assert_eq!(get_potential_units(&collection, "random", "ab"), Vec::new());
}

#[test]
fn get_multiple_commands() {
    assert_eq!(
        to_names(&get_commands(CommandType::Multiple)),
        vec!["start", "stop", "restart", "status"]
    );
}

#[test]
fn get_single_commands() {
    let commands = get_commands(CommandType::Single);
    assert_eq!(to_names(&commands), vec!["systemctl"]);
    let subcommands: Vec<&str> =
        commands[0].subcommands.iter().map(|s| s.name.as_str()).collect();
    assert_eq!(subcommands, vec!["start", "stop", "restart", "status"]);
}

#[test]
fn start() {
    let collection = only(Command::Start, &["startable.service"]);
    let command = UserCommand::Start { unit: "startable.service".to_string() };
    let action = plan_command(&collection, &command).unwrap();
    match &action {
        CommandAction::RunUnit { verb, unit } => {
            assert_eq!(*verb, Command::Start);
            assert_eq!(verb.name(), "start");
            assert_eq!(unit, "startable.service");
        }
        _ => panic!("start must plan a runner invocation"),
    }
    assert_eq!(
        run_response(Command::Start, "startable.service", Ok(())).ok(),
        Some("Started startable.service".to_string())
    );
}

#[test]
fn start_missing_permission() {
    let collection = only(Command::Start, &[]);
    let command = UserCommand::Start { unit: "startable.service".to_string() };
    assert_eq!(
        plan_command(&collection, &command).map_err(|e| e.display_text()).err(),
        Some("Command is not allowed".to_string())
    );
}

#[test]
fn start_fails_on_run() {
    let failure = OperationError::TransportFailure { message: "Run error".to_string() };
    assert_eq!(
        run_response(Command::Start, "startable.service", Err(failure.clone()))
            .map_err(|e| e.display_text()),
        Err("Run error".to_string())
    );
}

#[test]
fn stop() {
    let collection = only(Command::Stop, &["stoppable.service"]);
    let command = UserCommand::Stop { unit: "stoppable.service".to_string() };
    assert!(matches!(
        plan_command(&collection, &command),
        Ok(CommandAction::RunUnit { verb: Command::Stop, .. })
    ));
    assert_eq!(
        run_response(Command::Stop, "stoppable.service", Ok(())).ok(),
        Some("Stopped stoppable.service".to_string())
    );
}

#[test]
fn stop_missing_permission() {
    let collection = only(Command::Stop, &[]);
    let command = UserCommand::Stop { unit: "stoppable.service".to_string() };
    assert_eq!(
        plan_command(&collection, &command).map_err(|e| e.display_text()).err(),
        Some("Command is not allowed".to_string())
    );
}

#[test]
fn restart() {
    let collection = only(Command::Restart, &["restartable.service"]);
    let command = UserCommand::Restart { unit: "restartable.service".to_string() };
    assert!(matches!(
        plan_command(&collection, &command),
        Ok(CommandAction::RunUnit { verb: Command::Restart, .. })
    ));
    assert_eq!(
        run_response(Command::Restart, "restartable.service", Ok(())).ok(),
        Some("Restarted restartable.service".to_string())
    );
}

#[test]
fn restart_missing_permission() {
    let collection = only(Command::Restart, &[]);
    let command = UserCommand::Restart { unit: "restartable.service".to_string() };
    assert_eq!(
        plan_command(&collection, &command).map_err(|e| e.display_text()).err(),
        Some("Command is not allowed".to_string())
    );
}

#[test]
fn restart_with_start_only_never_reaches_runner() {
    let collection = UnitCollection::from_units(&vec![systemctl_bot::units::Unit {
        name: "partial.service".to_string(),
        permissions: vec![systemctl_bot::units::UnitPermission::Start],
    }]);
    assert!(collection.is_authorized("partial.service", Command::Start));
    let command = UserCommand::Restart { unit: "partial.service".to_string() };
    let plan = plan_command(&collection, &command);
    assert!(
        matches!(plan, Err(OperationError::NotAuthorized)),
        "a restart without stop permission must be refused before any runner call"
    );
}

#[test]
fn success_messages() {
    assert_eq!(success_message(Command::Start, "a.service"), "Started a.service");
    assert_eq!(success_message(Command::Stop, "a.service"), "Stopped a.service");
    assert_eq!(success_message(Command::Restart, "a.service"), "Restarted a.service");
}

#[test]
fn single_status() {
    let collection = only(Command::Status, &["active.service"]);
    let command = UserCommand::SingleStatus { unit: "active.service".to_string() };
    assert!(matches!(
        plan_command(&collection, &command),
        Ok(CommandAction::PollOne { .. })
    ));
    assert_eq!(
        status_one_response(Ok("active".to_string())).ok(),
        Some("active".to_string())
    );
}

#[test]
fn single_status_missing_permissions() {
    let collection = only(Command::Status, &[]);
    let command = UserCommand::SingleStatus { unit: "active.service".to_string() };
    assert_eq!(
        plan_command(&collection, &command).map_err(|e| e.display_text()).err(),
        Some("Command is not allowed".to_string())
    );
}

#[test]
fn single_status_fails_on_run() {
    let failure = OperationError::TransportFailure {
        message: "Invalid D-Bus method reply".to_string(),
    };
    let response = status_one_response(Err(failure.clone()));
    assert_eq!(response, Err(failure));
    assert_eq!(
        status_one_response(Err(OperationError::TransportFailure {
            message: "Invalid D-Bus method reply".to_string(),
        }))
        .map_err(|e| e.display_text()),
        Err("Invalid D-Bus method reply".to_string())
    );
}

#[test]
fn single_status_idempotent() {
    let poll = || Ok::<String, OperationError>("active".to_string());
    let first = status_one_response(poll());
    let second = status_one_response(poll());
    assert_eq!(first, second);
}

#[test]
fn multiple_status() {
    let units = vec![
        "active.service".to_string(),
        "activating.service".to_string(),
        "inactive.service".to_string(),
    ];
    let outcomes = vec![
        Ok("active".to_string()),
        Ok("activating".to_string()),
        Ok("inactive".to_string()),
    ];
    assert_eq!(
        render_status_lines(&units, &outcomes),
        "active.service: active\nactivating.service: activating"
    );
}

#[test]
fn multiple_status_with_errant_status() {
    let units = vec!["active.service".to_string(), "invalid.service".to_string()];
    let outcomes = vec![
        Ok("active".to_string()),
        Err(OperationError::TransportFailure {
            message: "Invalid D-Bus method reply".to_string(),
        }),
    ];
    assert_eq!(
        render_status_lines(&units, &outcomes),
        "active.service: active\ninvalid.service: Invalid D-Bus method reply"
    );
}

#[test]
fn multiple_status_none_active() {
    let units = vec!["inactive.service".to_string()];
    let outcomes = vec![Ok("inactive".to_string())];
    assert_eq!(render_status_lines(&units, &outcomes), "Nothing is active");
}

#[test]
fn multiple_status_suppresses_only_inactive() {
    let units = vec!["active.service".to_string(), "inactive.service".to_string()];
    let outcomes = vec![Ok("active".to_string()), Ok("inactive".to_string())];
    assert_eq!(render_status_lines(&units, &outcomes), "active.service: active");
}

#[test]
fn multiple_status_authorizes_every_unit() {
    let collection = only(Command::Status, &["a.service"]);
    let command = UserCommand::MultiStatus {
        units: vec!["a.service".to_string(), "b.service".to_string()],
    };
    assert!(matches!(
        plan_command(&collection, &command),
        Err(OperationError::NotAuthorized)
    ));
    let allowed = UserCommand::MultiStatus { units: vec!["a.service".to_string()] };
    assert!(matches!(
        plan_command(&collection, &allowed),
        Ok(CommandAction::PollMany { .. })
    ));
}

#[test]
fn response_content_shows_errors_as_text() {
    assert_eq!(response_content(Ok("Started a.service".to_string())), "Started a.service");
    assert_eq!(
        response_content(Err(OperationError::NotAuthorized)),
        "Command is not allowed"
    );
}

#[test]
fn surface_skips_empty_verbs_and_marks_status_optional() {
    let collection = UnitCollection::new(
        vec!["a.service".to_string()],
        Vec::new(),
        Vec::new(),
        vec!["a.service".to_string(), "b.service".to_string()],
    );
    let surface = create_commands(&collection);
    let names: Vec<&str> = surface.iter().map(|s| s.name.as_str()).collect();
    assert_eq!(names, vec!["start", "status"]);
    assert!(surface[0].option.required);
    assert!(!surface[1].option.required);
    assert_eq!(surface[0].option.units, vec!["a.service".to_string()]);
    assert_eq!(
        surface[1].option.units,
        vec!["a.service".to_string(), "b.service".to_string()]
    );
}

#[test]
fn surface_lists_only_authorized_units() {
    let units = vec![
        systemctl_bot::units::Unit {
            name: "a.service".to_string(),
            permissions: vec![systemctl_bot::units::UnitPermission::Start],
        },
        systemctl_bot::units::Unit {
            name: "b.service".to_string(),
            permissions: vec![
                systemctl_bot::units::UnitPermission::Start,
                systemctl_bot::units::UnitPermission::Stop,
                systemctl_bot::units::UnitPermission::Status,
            ],
        },
    ];
    let collection = UnitCollection::from_units(&units);
    for spec in create_commands(&collection) {
        let verb = Command::try_from(spec.name.as_str()).unwrap();
        for unit in &spec.option.units {
            assert!(
                collection.is_authorized(unit, verb),
                "surface offered a unit the registry refuses"
            );
        }
    }
}
