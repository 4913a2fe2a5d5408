//! Turns a front-end interaction — already reduced to plain names and
//! option values — into a `UserCommand`. Anything that does not resolve to
//! a known verb with a usable unit option is rejected as invalid, which the
//! front end presents as "invalid command" rather than as an operation
//! error.

use vstd::prelude::*;
use crate::commands::{UserCommand, UserCommandView};
use crate::config::{CommandType, UnitCollection, UnitCollectionView};
use crate::text::{str_eq, views_of};

verus! {

/// The value of one interaction option: a plain string, a subcommand with
/// its own options, or something the parser has no use for.
#[derive(Debug)]
pub enum OptionValue {
    Text(String),
    SubCommand(Vec<CommandOption>),
    Other,
}

/// One named option of an interaction.
#[derive(Debug)]
pub struct CommandOption {
    pub name: String,
    pub value: OptionValue,
}

/// The parts of a command interaction the parser reads: the invoked name
/// and its options.
#[derive(Debug)]
pub struct InteractionData {
    pub name: String,
    pub options: Vec<CommandOption>,
}

/// The name invoked and the options that belong to it: the interaction's
/// own under the multiple-commands layout, the first subcommand's under the
/// single-command layout.
pub open spec fn resolved_invocation(command_type: CommandType, data: InteractionData) -> Option<
    (Seq<char>, Seq<CommandOption>),
> {
    match command_type {
        CommandType::Multiple => Some((data.name@, data.options@)),
        CommandType::Single => if data.options@.len() == 0 {
            None
        } else {
            match data.options@[0].value {
                OptionValue::SubCommand(options) => Some((data.options@[0].name@, options@)),
                _ => None,
            }
        },
    }
}

/// The unit a string-valued option names, if it is string-valued.
pub open spec fn unit_of_option(option: CommandOption) -> Option<Seq<char>> {
    match option.value {
        OptionValue::Text(name) => Some(name@),
        _ => None,
    }
}

/// What an interaction parses to: a unit-directed command when the
/// resolved name is a verb and its unit option is usable; for `status`
/// without an option, a query over every status-eligible unit.
pub open spec fn parsed_command(
    command_type: CommandType,
    c: UnitCollectionView,
    data: InteractionData,
) -> Option<UserCommandView> {
    match resolved_invocation(command_type, data) {
        None => None,
        Some((name, options)) => if name == "start"@ {
            if options.len() > 0 && unit_of_option(options[0]) is Some {
                Some(UserCommandView::Start { unit: unit_of_option(options[0])->0 })
            } else {
                None
            }
        } else if name == "stop"@ {
            if options.len() > 0 && unit_of_option(options[0]) is Some {
                Some(UserCommandView::Stop { unit: unit_of_option(options[0])->0 })
            } else {
                None
            }
        } else if name == "restart"@ {
            if options.len() > 0 && unit_of_option(options[0]) is Some {
                Some(UserCommandView::Restart { unit: unit_of_option(options[0])->0 })
            } else {
                None
            }
        } else if name == "status"@ {
            if options.len() == 0 {
                Some(UserCommandView::MultiStatus { units: c.status })
            } else if unit_of_option(options[0]) is Some {
                Some(UserCommandView::SingleStatus { unit: unit_of_option(options[0])->0 })
            } else {
                None
            }
        } else {
            None
        },
    }
}

/// Extracts the unit name from a string-valued option.
fn get_unit_from_opt(option: &CommandOption) -> (r: Option<String>)
    ensures
        r.deep_view() == unit_of_option(*option),
{
    match &option.value {
        OptionValue::Text(name) => Some(name.clone()),
        _ => None,
    }
}

/// Clones the registry's status-eligible list.
fn status_units(units: &UnitCollection) -> (r: Vec<String>)
    ensures
        views_of(r@) == units@.units_for(crate::config::Command::Status),
{
    let list = units.units_for(crate::config::Command::Status);
    let mut r: Vec<String> = Vec::new();
    let mut i: usize = 0;
    while i < list.len()
        invariant
            i <= list@.len(),
            r@ == list@.subrange(0, i as int),
        decreases list@.len() - i,
    {
        r.push(list[i].clone());
        proof {
            assert(r@ =~= list@.subrange(0, i + 1));
        }
        i += 1;
    }
    proof {
        assert(list@.subrange(0, list@.len() as int) =~= list@);
    }
    r
}

/// Parses one interaction into a request. `None` is the front end's
/// "invalid command" case; a `status` invocation without a unit becomes a
/// query over every status-eligible unit of the registry.
pub fn parse_command(
    command_type: CommandType,
    units: &UnitCollection,
    interaction: &InteractionData,
) -> (r: Option<UserCommand>)
    ensures
        r matches Some(cmd) ==> parsed_command(command_type, units@, *interaction) == Some(cmd@),
        r is None ==> parsed_command(command_type, units@, *interaction) is None,
{
    let (name, options): (&String, &Vec<CommandOption>) = match command_type {
        CommandType::Multiple => (&interaction.name, &interaction.options),
        CommandType::Single => {
            if interaction.options.len() == 0 {
                return None;
            }
            let sub = &interaction.options[0];
            match &sub.value {
                OptionValue::SubCommand(sub_options) => (&sub.name, sub_options),
                _ => {
                    return None;
                },
            }
        },
    };
    if str_eq(name.as_str(), "start") {
        if options.len() == 0 {
            return None;
        }
        match get_unit_from_opt(&options[0]) {
            Some(unit) => Some(UserCommand::Start { unit }),
            None => None,
        }
    } else if str_eq(name.as_str(), "stop") {
        if options.len() == 0 {
            return None;
        }
        match get_unit_from_opt(&options[0]) {
            Some(unit) => Some(UserCommand::Stop { unit }),
            None => None,
        }
    } else if str_eq(name.as_str(), "restart") {
        if options.len() == 0 {
            return None;
        }
        match get_unit_from_opt(&options[0]) {
            Some(unit) => Some(UserCommand::Restart { unit }),
            None => None,
        }
    } else if str_eq(name.as_str(), "status") {
        if options.len() == 0 {
            Some(UserCommand::MultiStatus { units: status_units(units) })
        } else {
            match get_unit_from_opt(&options[0]) {
                Some(unit) => Some(UserCommand::SingleStatus { unit }),
                None => None,
            }
        }
    } else {
        None
    }
}

} // verus!
