//! The command surface handed to the front-end adapter: for each verb with
//! at least one eligible unit, the verb's name and description, the unit
//! choices to offer, and whether the unit argument is required. Only Status
//! takes an optional unit. The front end renders this data; it never
//! derives choices itself, so units ineligible for a verb are never
//! offered.

use vstd::prelude::*;
use crate::config::{Command, CommandType, UnitCollection, UnitCollectionView, command_of_name};
use crate::text::views_of;

verus! {

/// The unit argument of one registered command: the choices to offer, the
/// argument's description, and whether a unit must be given.
#[derive(Debug)]
pub struct UnitOption {
    pub units: Vec<String>,
    pub description: String,
    pub required: bool,
}

/// Ghost mirror of `UnitOption`.
#[verifier::ext_equal]
pub struct UnitOptionView {
    pub units: Seq<Seq<char>>,
    pub description: Seq<char>,
    pub required: bool,
}

impl View for UnitOption {
    type V = UnitOptionView;

    open spec fn view(&self) -> UnitOptionView {
        UnitOptionView {
            units: views_of(self.units@),
            description: self.description@,
            required: self.required,
        }
    }
}

/// One command of the surface: its verb name, its description, and its
/// unit argument.
#[derive(Debug)]
pub struct CommandSpec {
    pub name: String,
    pub description: String,
    pub option: UnitOption,
}

/// Ghost mirror of `CommandSpec`.
#[verifier::ext_equal]
pub struct CommandSpecView {
    pub name: Seq<char>,
    pub description: Seq<char>,
    pub option: UnitOptionView,
}

impl View for CommandSpec {
    type V = CommandSpecView;

    open spec fn view(&self) -> CommandSpecView {
        CommandSpecView { name: self.name@, description: self.description@, option: self.option@ }
    }
}

/// The views of the commands in a surface.
pub open spec fn spec_views(s: Seq<CommandSpec>) -> Seq<CommandSpecView> {
    s.map_values(|c: CommandSpec| c@)
}

/// One surface entry as a ghost value.
pub open spec fn surface_entry(
    name: Seq<char>,
    description: Seq<char>,
    units: Seq<Seq<char>>,
    option_description: Seq<char>,
    required: bool,
) -> CommandSpecView {
    CommandSpecView {
        name,
        description,
        option: UnitOptionView { units, description: option_description, required },
    }
}

/// The whole surface: one entry per verb whose eligible-unit list is not
/// empty, in the fixed order start, stop, restart, status.
pub open spec fn surface_view(c: UnitCollectionView) -> Seq<CommandSpecView> {
    (if c.start.len() > 0 {
        seq![surface_entry("start"@, "Start units"@, c.start, "The unit to start"@, true)]
    } else {
        Seq::empty()
    }) + (if c.stop.len() > 0 {
        seq![surface_entry("stop"@, "Stops units"@, c.stop, "The unit to stop"@, true)]
    } else {
        Seq::empty()
    }) + (if c.restart.len() > 0 {
        seq![surface_entry("restart"@, "Restarts units"@, c.restart, "The unit to restart"@, true)]
    } else {
        Seq::empty()
    }) + (if c.status.len() > 0 {
        seq![surface_entry(
            "status"@,
            "Checks units' status"@,
            c.status,
            "The unit to check"@,
            false,
        )]
    } else {
        Seq::empty()
    })
}

/// Clones the eligible-unit list for a verb.
fn unit_choices(units: &UnitCollection, verb: Command) -> (r: Vec<String>)
    ensures
        views_of(r@) == units@.units_for(verb),
{
    let list = units.units_for(verb);
    let mut r: Vec<String> = Vec::new();
    let mut i: usize = 0;
    while i < list.len()
        invariant
            i <= list@.len(),
            r@ == list@.subrange(0, i as int),
        decreases list@.len() - i,
    {
        r.push(list[i].clone());
        proof {
            assert(r@ =~= list@.subrange(0, i + 1));
        }
        i += 1;
    }
    proof {
        assert(list@.subrange(0, list@.len() as int) =~= list@);
        assert(views_of(r@) == views_of(list@));
    }
    r
}

/// Builds the command surface from the registry. Every unit offered under a
/// verb is authorized for that verb, and the choices for a verb are exactly
/// the registry's eligible list, in declaration order.
pub fn create_commands(units: &UnitCollection) -> (r: Vec<CommandSpec>)
    ensures
        spec_views(r@) == surface_view(units@),
        forall|i: int, j: int|
            0 <= i < r@.len() && 0 <= j < r@[i].option.units@.len() ==> {
                &&& command_of_name(#[trigger] r@[i]@.name) matches Some(verb)
                &&& units@.authorized(#[trigger] r@[i].option.units@[j]@, verb)
            },
{
    let mut r: Vec<CommandSpec> = Vec::new();
    let startable = units.units_for(Command::Start);
    if startable.len() > 0 {
        r.push(
            CommandSpec {
                name: "start".to_owned(),
                description: "Start units".to_owned(),
                option: UnitOption {
                    units: unit_choices(units, Command::Start),
                    description: "The unit to start".to_owned(),
                    required: true,
                },
            },
        );
    }
    let stoppable = units.units_for(Command::Stop);
    if stoppable.len() > 0 {
        r.push(
            CommandSpec {
                name: "stop".to_owned(),
                description: "Stops units".to_owned(),
                option: UnitOption {
                    units: unit_choices(units, Command::Stop),
                    description: "The unit to stop".to_owned(),
                    required: true,
                },
            },
        );
    }
    let restartable = units.units_for(Command::Restart);
    if restartable.len() > 0 {
        r.push(
            CommandSpec {
                name: "restart".to_owned(),
                description: "Restarts units".to_owned(),
                option: UnitOption {
                    units: unit_choices(units, Command::Restart),
                    description: "The unit to restart".to_owned(),
                    required: true,
                },
            },
        );
    }
    let checkable = units.units_for(Command::Status);
    if checkable.len() > 0 {
        r.push(
            CommandSpec {
                name: "status".to_owned(),
                description: "Checks units' status".to_owned(),
                option: UnitOption {
                    units: unit_choices(units, Command::Status),
                    description: "The unit to check".to_owned(),
                    required: false,
                },
            },
        );
    }
    proof {
        assert(spec_views(r@) =~~= surface_view(units@));
        lemma_surface_units_authorized(units@);
        assert forall|i: int, j: int|
            0 <= i < r@.len() && 0 <= j < r@[i].option.units@.len() implies {
            &&& command_of_name(#[trigger] r@[i]@.name) matches Some(verb)
            &&& units@.authorized(#[trigger] r@[i].option.units@[j]@, verb)
        } by {
            assert(spec_views(r@)[i] == r@[i]@);
            assert(r@[i]@.option.units[j] == r@[i].option.units@[j]@);
        }
    }
    r
}

/// Law: the surface never lists a unit under a verb for which the registry
/// refuses authorization — each entry's choices are the eligible list of
/// the verb its name denotes.
pub proof fn lemma_surface_units_authorized(c: UnitCollectionView)
    ensures
        forall|i: int, j: int|
            0 <= i < surface_view(c).len() && 0 <= j < surface_view(c)[i].option.units.len()
                ==> {
                &&& command_of_name(#[trigger] surface_view(c)[i].name) matches Some(verb)
                &&& c.authorized(#[trigger] surface_view(c)[i].option.units[j], verb)
            },
{
    reveal_strlit("start");
    reveal_strlit("stop");
    reveal_strlit("status");
    reveal_strlit("restart");
    let s = surface_view(c);
    assert forall|i: int, j: int|
        0 <= i < s.len() && 0 <= j < s[i].option.units.len() implies {
        &&& command_of_name(#[trigger] s[i].name) matches Some(verb)
        &&& c.authorized(#[trigger] s[i].option.units[j], verb)
    } by {
        let entry = s[i];
        assert(entry.name == "start"@ || entry.name == "stop"@ || entry.name == "restart"@
            || entry.name == "status"@);
        assert("start"@ != "stop"@ && "start"@ != "status"@ && "start"@ != "restart"@);
        assert("stop"@ != "status"@ && "stop"@ != "restart"@ && "status"@ != "restart"@);
        if entry.name == "start"@ {
            assert(entry.option.units == c.start);
            assert(c.authorized(entry.option.units[j], Command::Start));
        } else if entry.name == "stop"@ {
            assert(entry.option.units == c.stop);
            assert(c.authorized(entry.option.units[j], Command::Stop));
        } else if entry.name == "restart"@ {
            assert(entry.option.units == c.restart);
            assert(c.authorized(entry.option.units[j], Command::Restart));
        } else {
            assert(entry.option.units == c.status);
            assert(c.authorized(entry.option.units[j], Command::Status));
        }
    }
}

/// A subcommand of the single grouped front-end command.
#[derive(Debug)]
pub struct SubcommandInfo {
    pub name: String,
    pub description: String,
}

/// One registered front-end command: its name, description, and — under the
/// grouped layout — its subcommands.
#[derive(Debug)]
pub struct CommandInfo {
    pub name: String,
    pub description: String,
    pub subcommands: Vec<SubcommandInfo>,
}

/// Ghost mirror of `SubcommandInfo`.
#[verifier::ext_equal]
pub struct SubcommandInfoView {
    pub name: Seq<char>,
    pub description: Seq<char>,
}

/// Ghost mirror of `CommandInfo`.
#[verifier::ext_equal]
pub struct CommandInfoView {
    pub name: Seq<char>,
    pub description: Seq<char>,
    pub subcommands: Seq<SubcommandInfoView>,
}

impl View for SubcommandInfo {
    type V = SubcommandInfoView;

    open spec fn view(&self) -> SubcommandInfoView {
        SubcommandInfoView { name: self.name@, description: self.description@ }
    }
}

impl View for CommandInfo {
    type V = CommandInfoView;

    open spec fn view(&self) -> CommandInfoView {
        CommandInfoView {
            name: self.name@,
            description: self.description@,
            subcommands: self.subcommands@.map_values(|s: SubcommandInfo| s@),
        }
    }
}

/// The four verbs as ghost (name, description) entries, in registration
/// order.
pub open spec fn verb_infos() -> Seq<SubcommandInfoView> {
    seq![
        SubcommandInfoView { name: "start"@, description: "Starts units"@ },
        SubcommandInfoView { name: "stop"@, description: "Stops units"@ },
        SubcommandInfoView { name: "restart"@, description: "Restarts units"@ },
        SubcommandInfoView { name: "status"@, description: "Checks units' status"@ },
    ]
}

/// The registered commands for a layout: the four verbs as top-level
/// commands, or one `systemctl` command with the four as subcommands.
pub open spec fn commands_view(command_type: CommandType) -> Seq<CommandInfoView> {
    match command_type {
        CommandType::Multiple => seq![
            CommandInfoView {
                name: "start"@,
                description: "Starts units"@,
                subcommands: Seq::empty(),
            },
            CommandInfoView { name: "stop"@, description: "Stops units"@, subcommands: Seq::empty() },
            CommandInfoView {
                name: "restart"@,
                description: "Restarts units"@,
                subcommands: Seq::empty(),
            },
            CommandInfoView {
                name: "status"@,
                description: "Checks units' status"@,
                subcommands: Seq::empty(),
            },
        ],
        CommandType::Single => seq![
            CommandInfoView {
                name: "systemctl"@,
                description: "Controls units"@,
                subcommands: verb_infos(),
            },
        ],
    }
}

/// The four verb commands as they are registered.
fn verb_commands() -> (r: Vec<SubcommandInfo>)
    ensures
        r@.map_values(|s: SubcommandInfo| s@) == verb_infos(),
{
    let r: Vec<SubcommandInfo> = vec![
        SubcommandInfo { name: "start".to_owned(), description: "Starts units".to_owned() },
        SubcommandInfo { name: "stop".to_owned(), description: "Stops units".to_owned() },
        SubcommandInfo { name: "restart".to_owned(), description: "Restarts units".to_owned() },
        SubcommandInfo {
            name: "status".to_owned(),
            description: "Checks units' status".to_owned(),
        },
    ];
    proof {
        assert(r@.map_values(|s: SubcommandInfo| s@) =~~= verb_infos());
    }
    r
}

/// Lays out the registered commands: separate top-level commands under
/// `Multiple`, a single `systemctl` command with subcommands under
/// `Single`.
pub fn get_commands(command_type: CommandType) -> (r: Vec<CommandInfo>)
    ensures
        r@.map_values(|c: CommandInfo| c@) == commands_view(command_type),
{
    match command_type {
        CommandType::Multiple => {
            let r: Vec<CommandInfo> = vec![
                CommandInfo {
                    name: "start".to_owned(),
                    description: "Starts units".to_owned(),
                    subcommands: Vec::new(),
                },
                CommandInfo {
                    name: "stop".to_owned(),
                    description: "Stops units".to_owned(),
                    subcommands: Vec::new(),
                },
                CommandInfo {
                    name: "restart".to_owned(),
                    description: "Restarts units".to_owned(),
                    subcommands: Vec::new(),
                },
                CommandInfo {
                    name: "status".to_owned(),
                    description: "Checks units' status".to_owned(),
                    subcommands: Vec::new(),
                },
            ];
            proof {
                assert(r@.map_values(|c: CommandInfo| c@) =~~= commands_view(
                    CommandType::Multiple,
                ));
            }
            r
        },
        CommandType::Single => {
            let r: Vec<CommandInfo> = vec![
                CommandInfo {
                    name: "systemctl".to_owned(),
                    description: "Controls units".to_owned(),
                    subcommands: verb_commands(),
                },
            ];
            proof {
                assert(r@.map_values(|c: CommandInfo| c@) =~~= commands_view(CommandType::Single));
            }
            r
        },
    }
}

} // verus!
