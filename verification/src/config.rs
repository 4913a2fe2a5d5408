//! The unit registry: the four per-verb lists of eligible unit names,
//! derived once from the declared units, and the authorization decisions
//! made over them. Restart is a derived verb — a unit is restart-eligible
//! exactly when it may be both started and stopped.

use vstd::prelude::*;
use crate::errors::OperationError;
use crate::text::{str_eq, views_of};
use crate::units::{Unit, UnitPermission, units_with_permissions_spec, lemma_units_with_permissions_contains};

verus! {

/// The four operations a caller can request against a unit.
#[derive(Debug, Clone, Copy, PartialEq, Eq, Hash, Structural)]
pub enum Command {
    Start,
    Stop,
    Status,
    Restart,
}

/// The command a verb name denotes, if any.
pub open spec fn command_of_name(name: Seq<char>) -> Option<Command> {
    if name == "start"@ {
        Some(Command::Start)
    } else if name == "stop"@ {
        Some(Command::Stop)
    } else if name == "status"@ {
        Some(Command::Status)
    } else if name == "restart"@ {
        Some(Command::Restart)
    } else {
        None
    }
}

/// The canonical name of a verb, the inverse of `command_of_name`.
pub open spec fn name_of_command(c: Command) -> Seq<char> {
    match c {
        Command::Start => "start"@,
        Command::Stop => "stop"@,
        Command::Status => "status"@,
        Command::Restart => "restart"@,
    }
}

impl Command {
    /// Parses a verb name; unknown names are rejected with a message that
    /// repeats the offending input.
    pub fn try_from(value: &str) -> (r: Result<Command, String>)
        ensures
            r matches Ok(c) ==> command_of_name(value@) == Some(c),
            r matches Err(m) ==> command_of_name(value@) is None && m@ == "Could not parse command "@
                + value@,
    {
        if str_eq(value, "start") {
            Ok(Command::Start)
        } else if str_eq(value, "stop") {
            Ok(Command::Stop)
        } else if str_eq(value, "status") {
            Ok(Command::Status)
        } else if str_eq(value, "restart") {
            Ok(Command::Restart)
        } else {
            Err("Could not parse command ".to_owned().concat(value))
        }
    }

    /// The verb's canonical name, as handed to the runner and the command
    /// surface.
    pub fn name(&self) -> (r: String)
        ensures
            r@ == name_of_command(*self),
    {
        match self {
            Command::Start => "start".to_owned(),
            Command::Stop => "stop".to_owned(),
            Command::Status => "status".to_owned(),
            Command::Restart => "restart".to_owned(),
        }
    }
}

/// Whether the chat front end registers the verbs as separate top-level
/// commands or as subcommands of a single one.
#[derive(Debug, Clone, Copy, PartialEq, Eq, Hash, Structural)]
pub enum CommandType {
    Single,
    Multiple,
}

impl Default for CommandType {
    fn default() -> (r: Self)
        ensures
            r == CommandType::Single,
    {
        CommandType::Single
    }
}

/// The derived permission index: for each verb, the unit names eligible for
/// it, in declaration order. Read-only after construction.
#[derive(Debug)]
pub struct UnitCollection {
    start: Vec<String>,
    stop: Vec<String>,
    restart: Vec<String>,
    status: Vec<String>,
}

/// Ghost mirror of `UnitCollection`.
pub struct UnitCollectionView {
    pub start: Seq<Seq<char>>,
    pub stop: Seq<Seq<char>>,
    pub restart: Seq<Seq<char>>,
    pub status: Seq<Seq<char>>,
}

impl View for UnitCollection {
    type V = UnitCollectionView;

    closed spec fn view(&self) -> UnitCollectionView {
        UnitCollectionView {
            start: views_of(self.start@),
            stop: views_of(self.stop@),
            restart: views_of(self.restart@),
            status: views_of(self.status@),
        }
    }
}

impl UnitCollectionView {
    /// The unit names eligible for the verb, in declaration order.
    pub open spec fn units_for(self, c: Command) -> Seq<Seq<char>> {
        match c {
            Command::Start => self.start,
            Command::Stop => self.stop,
            Command::Status => self.status,
            Command::Restart => self.restart,
        }
    }

    /// Whether the verb is legal for the unit.
    pub open spec fn authorized(self, unit: Seq<char>, c: Command) -> bool {
        self.units_for(c).contains(unit)
    }

    /// The restart list holds exactly the units on both the start and the
    /// stop list — the invariant every collection derived from declared
    /// units satisfies.
    pub open spec fn restart_derived(self) -> bool {
        forall|unit: Seq<char>|
            #[trigger] self.restart.contains(unit) <==> self.start.contains(unit)
                && self.stop.contains(unit)
    }

    /// Whether the collection is the index derived from `units`.
    pub open spec fn derived_from(self, units: Seq<Unit>) -> bool {
        &&& self.start == units_with_permissions_spec(units, seq![UnitPermission::Start])
        &&& self.stop == units_with_permissions_spec(units, seq![UnitPermission::Stop])
        &&& self.restart == units_with_permissions_spec(
            units,
            seq![UnitPermission::Start, UnitPermission::Stop],
        )
        &&& self.status == units_with_permissions_spec(units, seq![UnitPermission::Status])
    }
}

/// Whether no two declared units share a name.
pub open spec fn unique_names(units: Seq<Unit>) -> bool {
    forall|i: int, j: int| 0 <= i < j < units.len() ==> units[i]@.name != units[j]@.name
}

/// Finds `unit` in `list`.
fn list_contains(list: &Vec<String>, unit: &str) -> (r: bool)
    ensures
        r == views_of(list@).contains(unit@),
{
    let mut i: usize = 0;
    while i < list.len()
        invariant
            i <= list@.len(),
            forall|j: int| 0 <= j < i ==> views_of(list@)[j] != unit@,
        decreases list@.len() - i,
    {
        proof {
            assert(views_of(list@)[i as int] == list@[i as int]@);
        }
        if str_eq(list[i].as_str(), unit) {
            proof {
                assert(views_of(list@)[i as int] == unit@);
            }
            return true;
        }
        i += 1;
    }
    false
}

impl UnitCollection {
    /// Builds a collection directly from the four per-verb lists.
    pub fn new(start: Vec<String>, stop: Vec<String>, restart: Vec<String>, status: Vec<String>) -> (c:
        UnitCollection)
        ensures
            c@ == (UnitCollectionView {
                start: views_of(start@),
                stop: views_of(stop@),
                restart: views_of(restart@),
                status: views_of(status@),
            }),
    {
        UnitCollection { start, stop, restart, status }
    }

    /// Derives the permission index from the declared units: one list per
    /// verb, restart requiring both Start and Stop permission. Computed
    /// once; the collection never changes afterwards.
    pub fn from_units(units: &Vec<Unit>) -> (c: UnitCollection)
        ensures
            c@.derived_from(units@),
    {
        let start_perm: Vec<UnitPermission> = vec![UnitPermission::Start];
        let stop_perm: Vec<UnitPermission> = vec![UnitPermission::Stop];
        let restart_perm: Vec<UnitPermission> = vec![
            UnitPermission::Start,
            UnitPermission::Stop,
        ];
        let status_perm: Vec<UnitPermission> = vec![UnitPermission::Status];
        proof {
            assert(start_perm@ =~= seq![UnitPermission::Start]);
            assert(stop_perm@ =~= seq![UnitPermission::Stop]);
            assert(restart_perm@ =~= seq![UnitPermission::Start, UnitPermission::Stop]);
            assert(status_perm@ =~= seq![UnitPermission::Status]);
        }
        UnitCollection {
            start: crate::units::get_units_with_permissions(units, &start_perm),
            stop: crate::units::get_units_with_permissions(units, &stop_perm),
            restart: crate::units::get_units_with_permissions(units, &restart_perm),
            status: crate::units::get_units_with_permissions(units, &status_perm),
        }
    }

    /// The unit names eligible for the verb, in declaration order.
    pub fn units_for(&self, c: Command) -> (r: &Vec<String>)
        ensures
            views_of(r@) == self@.units_for(c),
    {
        match c {
            Command::Start => &self.start,
            Command::Stop => &self.stop,
            Command::Status => &self.status,
            Command::Restart => &self.restart,
        }
    }

    /// Whether the verb is legal for the unit.
    pub fn is_authorized(&self, unit: &str, c: Command) -> (r: bool)
        ensures
            r == self@.authorized(unit@, c),
    {
        match c {
            Command::Start => list_contains(&self.start, unit),
            Command::Stop => list_contains(&self.stop, unit),
            Command::Status => list_contains(&self.status, unit),
            Command::Restart => list_contains(&self.restart, unit),
        }
    }

    /// Refuses the request unless the verb is legal for the unit. Pure and
    /// side-effect free; called before any runner or provider call.
    pub fn ensure_allowed(&self, unit: &str, command: Command) -> (r: Result<(), OperationError>)
        ensures
            r == if self@.authorized(unit@, command) {
                Ok::<(), OperationError>(())
            } else {
                Err::<(), OperationError>(OperationError::NotAuthorized)
            },
    {
        if self.is_authorized(unit, command) {
            Ok(())
        } else {
            Err(OperationError::NotAuthorized)
        }
    }
}

/// Law: in an index derived from units with distinct names, the restart
/// list holds exactly the names on both the start and the stop list.
pub proof fn lemma_from_units_restart_derived(units: Seq<Unit>, c: UnitCollectionView)
    requires
        unique_names(units),
        c.derived_from(units),
    ensures
        c.restart_derived(),
{
    assert forall|unit: Seq<char>| #[trigger]
        c.restart.contains(unit) <==> c.start.contains(unit) && c.stop.contains(unit) by {
        let start_req = seq![UnitPermission::Start];
        let stop_req = seq![UnitPermission::Stop];
        let both_req = seq![UnitPermission::Start, UnitPermission::Stop];
        assert(start_req[0] == UnitPermission::Start);
        assert(stop_req[0] == UnitPermission::Stop);
        assert(both_req[0] == UnitPermission::Start && both_req[1] == UnitPermission::Stop);
        lemma_units_with_permissions_contains(units, start_req, unit);
        lemma_units_with_permissions_contains(units, stop_req, unit);
        lemma_units_with_permissions_contains(units, both_req, unit);
        if c.restart.contains(unit) {
            let i = choose|i: int|
                0 <= i < units.len() && units[i]@.name == unit && units[i]@.has_all(both_req);
            assert(both_req.contains(UnitPermission::Start) && both_req.contains(
                UnitPermission::Stop,
            ));
            assert(start_req.contains(UnitPermission::Start));
            assert(stop_req.contains(UnitPermission::Stop));
            assert(forall|p: UnitPermission| start_req.contains(p) ==> p == UnitPermission::Start);
            assert(forall|p: UnitPermission| stop_req.contains(p) ==> p == UnitPermission::Stop);
            assert(units[i]@.has_all(start_req));
            assert(units[i]@.has_all(stop_req));
        }
        if c.start.contains(unit) && c.stop.contains(unit) {
            let i = choose|i: int|
                0 <= i < units.len() && units[i]@.name == unit && units[i]@.has_all(start_req);
            let j = choose|j: int|
                0 <= j < units.len() && units[j]@.name == unit && units[j]@.has_all(stop_req);
            assert(i == j);
            assert(start_req.contains(UnitPermission::Start));
            assert(stop_req.contains(UnitPermission::Stop));
            assert(forall|p: UnitPermission| both_req.contains(p) ==> p == UnitPermission::Start
                || p == UnitPermission::Stop);
            assert(units[i]@.has_all(both_req));
        }
    }
}

/// Law: wherever the restart list is derived, a unit is authorized for
/// Restart exactly when it is authorized for both Start and Stop.
pub proof fn lemma_restart_authorization(c: UnitCollectionView, unit: Seq<char>)
    requires
        c.restart_derived(),
    ensures
        c.authorized(unit, Command::Restart) <==> c.authorized(unit, Command::Start)
            && c.authorized(unit, Command::Stop),
{
}

} // verus!
