use systemctl_bot::commands::UserCommand;
use systemctl_bot::config::{Command, CommandType, UnitCollection};
use systemctl_bot::parser::{parse_command, CommandOption, InteractionData, OptionValue};

fn status_registry(units: &[&str]) -> UnitCollection {
    let names: Vec<String> = units.iter().map(|u| u.to_string()).collect();
    UnitCollection::new(Vec::new(), Vec::new(), Vec::new(), names)
}

fn unit_option(name: &str) -> CommandOption {
    CommandOption { name: "unit".to_string(), value: OptionValue::Text(name.to_string()) }
}

#[test]
fn parse_multiple_start() {
    let registry = status_registry(&[]);
    let interaction = InteractionData {
        name: "start".to_string(),
        options: vec![unit_option("web.service")],
    };
    let parsed = parse_command(CommandType::Multiple, &registry, &interaction);
    assert!(matches!(
        parsed,
        Some(UserCommand::Start { unit }) if unit == "web.service"
    ));
}

#[test]
fn parse_multiple_status_without_unit_targets_all() {
    let registry = status_registry(&["a.service", "b.service"]);
    let interaction = InteractionData { name: "status".to_string(), options: Vec::new() };
    let parsed = parse_command(CommandType::Multiple, &registry, &interaction);
    match parsed {
        Some(UserCommand::MultiStatus { units }) => {
            assert_eq!(units, registry.units_for(Command::Status).clone());
            assert_eq!(units, vec!["a.service".to_string(), "b.service".to_string()]);
        }
        other => panic!("expected a multi-unit status query, got {:?}", other),
    }
}

#[test]
fn parse_multiple_status_with_unit() {
    let registry = status_registry(&["a.service"]);
    let interaction = InteractionData {
        name: "status".to_string(),
        options: vec![unit_option("a.service")],
    };
    let parsed = parse_command(CommandType::Multiple, &registry, &interaction);
    assert!(matches!(
        parsed,
        Some(UserCommand::SingleStatus { unit }) if unit == "a.service"
    ));
}

#[test]
fn parse_single_layout_reads_subcommand() {
    let registry = status_registry(&[]);
    let interaction = InteractionData {
        name: "systemctl".to_string(),
        options: vec![CommandOption {
            name: "restart".to_string(),
            value: OptionValue::SubCommand(vec![unit_option("db.service")]),
        }],
    };
    let parsed = parse_command(CommandType::Single, &registry, &interaction);
    assert!(matches!(
        parsed,
        Some(UserCommand::Restart { unit }) if unit == "db.service"
    ));
}

#[test]
fn parse_rejects_unknown_name() {
    let registry = status_registry(&[]);
    let interaction = InteractionData {
        name: "random".to_string(),
        options: vec![unit_option("a.service")],
    };
    assert!(parse_command(CommandType::Multiple, &registry, &interaction).is_none());
}

#[test]
fn parse_rejects_missing_unit_option() {
    let registry = status_registry(&[]);
    let interaction = InteractionData { name: "start".to_string(), options: Vec::new() };
    assert!(parse_command(CommandType::Multiple, &registry, &interaction).is_none());
}

#[test]
fn parse_rejects_non_string_unit() {
    let registry = status_registry(&[]);
    let interaction = InteractionData {
        name: "stop".to_string(),
        options: vec![CommandOption { name: "unit".to_string(), value: OptionValue::Other }],
    };
    assert!(parse_command(CommandType::Multiple, &registry, &interaction).is_none());
}

#[test]
fn parse_single_layout_without_subcommand() {
    let registry = status_registry(&[]);
    let interaction = InteractionData {
        name: "systemctl".to_string(),
        options: vec![unit_option("a.service")],
    };
    assert!(parse_command(CommandType::Single, &registry, &interaction).is_none());
}
