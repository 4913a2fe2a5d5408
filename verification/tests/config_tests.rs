use systemctl_bot::config::{Command, CommandType, UnitCollection};
use systemctl_bot::units::{
    canonicalize_unit_name, get_units_with_permissions, get_units_with_status_permissions, Unit,
    UnitPermission,
};

fn unit(name: &str, permissions: &[UnitPermission]) -> Unit {
    Unit { name: name.to_string(), permissions: permissions.to_vec() }
}

#[test]
fn command_from_string() {
    assert_eq!(Command::try_from("start").ok(), Some(Command::Start));
    assert_eq!(Command::try_from("stop").ok(), Some(Command::Stop));
    assert_eq!(Command::try_from("status").ok(), Some(Command::Status));
    assert_eq!(Command::try_from("restart").ok(), Some(Command::Restart));
    assert_eq!(
        Command::try_from("random").map_err(|e| e.to_string()),
        Err("Could not parse command random".to_string())
    );
}

#[test]
fn ensure_allowed() {
    let collection = UnitCollection::new(
        vec![String::from("start.service")],
        Vec::new(),
        Vec::new(),
        Vec::new(),
    );
    assert_eq!(
        collection.ensure_allowed("start.service", Command::Start).ok(),
        Some(())
    );
    assert_eq!(
        collection
            .ensure_allowed("random.service", Command::Start)
            .map_err(|e| e.display_text()),
        Err("Command is not allowed".to_string())
    );
}

#[test]
fn command_names() {
    assert_eq!(Command::Start.name(), "start");
    assert_eq!(Command::Stop.name(), "stop");
    assert_eq!(Command::Status.name(), "status");
    assert_eq!(Command::Restart.name(), "restart");
}

#[test]
fn command_type_defaults_to_single() {
    assert_eq!(CommandType::default(), CommandType::Single);
}

#[test]
fn canonicalize_adds_default_extension() {
    assert_eq!(canonicalize_unit_name("foo".to_string()), "foo.service");
    assert_eq!(canonicalize_unit_name("foo.timer".to_string()), "foo.timer");
    assert_eq!(canonicalize_unit_name("foo.service".to_string()), "foo.service");
}

#[test]
fn unit_new_canonicalizes() {
    let u = Unit::new("web".to_string(), vec![UnitPermission::Start]);
    assert_eq!(u.name, "web.service");
    assert_eq!(u.permissions, vec![UnitPermission::Start]);
}

#[test]
fn units_with_permissions_filters_and_keeps_order() {
    let units = vec![
        unit("a.service", &[UnitPermission::Start, UnitPermission::Status]),
        unit("b.service", &[UnitPermission::Status]),
        unit("c.service", &[UnitPermission::Start]),
    ];
    let startable = get_units_with_permissions(&units, &vec![UnitPermission::Start]);
    assert_eq!(startable, vec!["a.service", "c.service"]);
    let checkable = get_units_with_status_permissions(&units);
    assert_eq!(checkable, vec!["a.service", "b.service"]);
}

#[test]
fn restart_list_is_intersection_of_start_and_stop() {
    let units = vec![
        unit("a", &[UnitPermission::Start]),
        unit("b", &[UnitPermission::Start, UnitPermission::Stop]),
    ];
    let collection = UnitCollection::from_units(&units);
    assert_eq!(collection.units_for(Command::Restart), &vec!["b".to_string()]);
    assert_eq!(
        collection.units_for(Command::Start),
        &vec!["a".to_string(), "b".to_string()]
    );
    assert_eq!(collection.units_for(Command::Stop), &vec!["b".to_string()]);
}

#[test]
fn restart_authorized_iff_start_and_stop() {
    let units = vec![
        unit("a.service", &[UnitPermission::Start]),
        unit("b.service", &[UnitPermission::Start, UnitPermission::Stop]),
        unit("c.service", &[UnitPermission::Stop]),
        unit("d.service", &[UnitPermission::Status]),
    ];
    let collection = UnitCollection::from_units(&units);
    for name in ["a.service", "b.service", "c.service", "d.service", "e.service"] {
        let restart = collection.is_authorized(name, Command::Restart);
        let both = collection.is_authorized(name, Command::Start)
            && collection.is_authorized(name, Command::Stop);
        assert_eq!(restart, both);
    }
    assert!(collection.is_authorized("b.service", Command::Restart));
    assert!(!collection.is_authorized("a.service", Command::Restart));
}
