//! The command executor. A request is authorized first; only then is the
//! single outside call it needs planned. The outcome of that call is turned
//! into response text by pure functions, so a request's response is a
//! function of the registry and of what the runner or status provider
//! reported — nothing else.

use vstd::prelude::*;
use crate::config::{Command, UnitCollection, UnitCollectionView, command_of_name};
use crate::errors::{OperationError, OperationErrorView, error_text};
use crate::text::{str_eq, str_starts_with, views_of, join_with, join_strings, lemma_views_of_push};

verus! {

/// A request from the front end: one verb aimed at one unit, or a status
/// query over one unit or over many.
#[derive(Debug)]
pub enum UserCommand {
    Start { unit: String },
    Stop { unit: String },
    Restart { unit: String },
    SingleStatus { unit: String },
    MultiStatus { units: Vec<String> },
}

/// Ghost mirror of `UserCommand`.
pub enum UserCommandView {
    Start { unit: Seq<char> },
    Stop { unit: Seq<char> },
    Restart { unit: Seq<char> },
    SingleStatus { unit: Seq<char> },
    MultiStatus { units: Seq<Seq<char>> },
}

impl View for UserCommand {
    type V = UserCommandView;

    open spec fn view(&self) -> UserCommandView {
        match self {
            UserCommand::Start { unit } => UserCommandView::Start { unit: unit@ },
            UserCommand::Stop { unit } => UserCommandView::Stop { unit: unit@ },
            UserCommand::Restart { unit } => UserCommandView::Restart { unit: unit@ },
            UserCommand::SingleStatus { unit } => UserCommandView::SingleStatus { unit: unit@ },
            UserCommand::MultiStatus { units } => UserCommandView::MultiStatus {
                units: views_of(units@),
            },
        }
    }
}

/// The one outside call a request needs once authorization has passed:
/// run a verb against a unit, poll one unit's state, or poll many.
#[derive(Debug)]
pub enum CommandAction {
    RunUnit { verb: Command, unit: String },
    PollOne { unit: String },
    PollMany { units: Vec<String> },
}

/// Ghost mirror of `CommandAction`.
pub enum CommandActionView {
    RunUnit { verb: Command, unit: Seq<char> },
    PollOne { unit: Seq<char> },
    PollMany { units: Seq<Seq<char>> },
}

impl View for CommandAction {
    type V = CommandActionView;

    open spec fn view(&self) -> CommandActionView {
        match self {
            CommandAction::RunUnit { verb, unit } => CommandActionView::RunUnit {
                verb: *verb,
                unit: unit@,
            },
            CommandAction::PollOne { unit } => CommandActionView::PollOne { unit: unit@ },
            CommandAction::PollMany { units } => CommandActionView::PollMany {
                units: views_of(units@),
            },
        }
    }
}

/// The plan a request resolves to: the action to take, or the refusal that
/// pre-empts every outside call.
pub open spec fn planned_action(c: UnitCollectionView, cmd: UserCommandView) -> Result<
    CommandActionView,
    OperationErrorView,
> {
    match cmd {
        UserCommandView::Start { unit } => if c.authorized(unit, Command::Start) {
            Ok(CommandActionView::RunUnit { verb: Command::Start, unit })
        } else {
            Err(OperationErrorView::NotAuthorized)
        },
        UserCommandView::Stop { unit } => if c.authorized(unit, Command::Stop) {
            Ok(CommandActionView::RunUnit { verb: Command::Stop, unit })
        } else {
            Err(OperationErrorView::NotAuthorized)
        },
        UserCommandView::Restart { unit } => if c.authorized(unit, Command::Restart) {
            Ok(CommandActionView::RunUnit { verb: Command::Restart, unit })
        } else {
            Err(OperationErrorView::NotAuthorized)
        },
        UserCommandView::SingleStatus { unit } => if c.authorized(unit, Command::Status) {
            Ok(CommandActionView::PollOne { unit })
        } else {
            Err(OperationErrorView::NotAuthorized)
        },
        UserCommandView::MultiStatus { units } => if forall|i: int|
            0 <= i < units.len() ==> c.authorized(#[trigger] units[i], Command::Status) {
            Ok(CommandActionView::PollMany { units })
        } else {
            Err(OperationErrorView::NotAuthorized)
        },
    }
}

/// The view of a planned result.
pub open spec fn plan_view(r: Result<CommandAction, OperationError>) -> Result<
    CommandActionView,
    OperationErrorView,
> {
    match r {
        Ok(a) => Ok(a@),
        Err(e) => Err(e@),
    }
}

/// Clones a list of unit names.
fn clone_names(names: &Vec<String>) -> (r: Vec<String>)
    ensures
        r@ == names@,
{
    let mut r: Vec<String> = Vec::new();
    let mut i: usize = 0;
    while i < names.len()
        invariant
            i <= names@.len(),
            r@ == names@.subrange(0, i as int),
        decreases names@.len() - i,
    {
        r.push(names[i].clone());
        proof {
            assert(r@ =~= names@.subrange(0, i + 1));
        }
        i += 1;
    }
    proof {
        assert(names@.subrange(0, names@.len() as int) =~= names@);
    }
    r
}

/// Authorizes the request and, if every check passes, hands back the one
/// outside call to make. A refused request produces `NotAuthorized` before
/// any runner or provider is touched; in particular a restart against a
/// unit lacking Stop (or Start) permission fails here.
pub fn plan_command(units: &UnitCollection, command: &UserCommand) -> (r: Result<
    CommandAction,
    OperationError,
>)
    ensures
        plan_view(r) == planned_action(units@, command@),
{
    match command {
        UserCommand::Start { unit } => {
            match units.ensure_allowed(unit.as_str(), Command::Start) {
                Ok(()) => Ok(CommandAction::RunUnit { verb: Command::Start, unit: unit.clone() }),
                Err(e) => Err(e),
            }
        },
        UserCommand::Stop { unit } => {
            match units.ensure_allowed(unit.as_str(), Command::Stop) {
                Ok(()) => Ok(CommandAction::RunUnit { verb: Command::Stop, unit: unit.clone() }),
                Err(e) => Err(e),
            }
        },
        UserCommand::Restart { unit } => {
            match units.ensure_allowed(unit.as_str(), Command::Restart) {
                Ok(()) => Ok(CommandAction::RunUnit { verb: Command::Restart, unit: unit.clone() }),
                Err(e) => Err(e),
            }
        },
        UserCommand::SingleStatus { unit } => {
            match units.ensure_allowed(unit.as_str(), Command::Status) {
                Ok(()) => Ok(CommandAction::PollOne { unit: unit.clone() }),
                Err(e) => Err(e),
            }
        },
        UserCommand::MultiStatus { units: targets } => {
            let mut i: usize = 0;
            while i < targets.len()
                invariant
                    i <= targets@.len(),
                    command@ matches UserCommandView::MultiStatus{units: u} && u == views_of(
                        targets@,
                    ),
                    forall|j: int| 0 <= j < i ==> units@.authorized(
                        #[trigger] views_of(targets@)[j],
                        Command::Status,
                    ),
                decreases targets@.len() - i,
            {
                proof {
                    assert(views_of(targets@)[i as int] == targets@[i as int]@);
                }
                if let Err(e) = units.ensure_allowed(targets[i].as_str(), Command::Status) {
                    proof {
                        let all = views_of(targets@);
                        assert(!units@.authorized(all[i as int], Command::Status));
                        assert(!(forall|j: int|
                            0 <= j < all.len() ==> units@.authorized(
                                #[trigger] all[j],
                                Command::Status,
                            ))) by {
                            if forall|j: int|
                                0 <= j < all.len() ==> units@.authorized(
                                    #[trigger] all[j],
                                    Command::Status,
                                ) {
                                assert(units@.authorized(all[i as int], Command::Status));
                            }
                        }
                    }
                    return Err(e);
                }
                i += 1;
            }
            Ok(CommandAction::PollMany { units: clone_names(targets) })
        },
    }
}

/// The confirmation text for a completed run verb.
pub open spec fn success_text(verb: Command, unit: Seq<char>) -> Seq<char> {
    match verb {
        Command::Start => "Started "@ + unit,
        Command::Stop => "Stopped "@ + unit,
        Command::Restart => "Restarted "@ + unit,
        Command::Status => Seq::empty(),
    }
}

/// The fixed templated confirmation for a run verb that succeeded.
pub fn success_message(verb: Command, unit: &str) -> (r: String)
    requires
        verb != Command::Status,
    ensures
        r@ == success_text(verb, unit@),
{
    match verb {
        Command::Start => "Started ".to_owned().concat(unit),
        Command::Stop => "Stopped ".to_owned().concat(unit),
        Command::Restart => "Restarted ".to_owned().concat(unit),
        Command::Status => String::new(),
    }
}

/// Concludes a start/stop/restart request from the runner's outcome: the
/// templated confirmation on success, the runner's error untouched on
/// failure.
pub fn run_response(verb: Command, unit: &str, outcome: Result<(), OperationError>) -> (r: Result<
    String,
    OperationError,
>)
    requires
        verb != Command::Status,
    ensures
        outcome matches Ok(_) ==> r matches Ok(m) && m@ == success_text(verb, unit@),
        outcome matches Err(e) ==> r == Err::<String, OperationError>(e),
{
    match outcome {
        Ok(()) => Ok(success_message(verb, unit)),
        Err(e) => Err(e),
    }
}

/// Concludes a single-unit status query from the provider's outcome: the
/// raw reported state becomes the response, and a provider error is
/// propagated exactly as it arrived, never swallowed.
pub fn status_one_response(outcome: Result<String, OperationError>) -> (r: Result<
    String,
    OperationError,
>)
    ensures
        r == outcome,
{
    outcome
}

/// What a single-unit status query answers, as a function of the registry
/// and of the provider's observation alone: the plan's refusal if there is
/// one, the observation untouched otherwise.
pub open spec fn status_one_view(
    c: UnitCollectionView,
    unit: Seq<char>,
    observed: Result<Seq<char>, OperationErrorView>,
) -> Result<Seq<char>, OperationErrorView> {
    match planned_action(c, UserCommandView::SingleStatus { unit }) {
        Err(e) => Err(e),
        Ok(_) => observed,
    }
}

/// Law: a single-unit status query is a function of the registry and the
/// provider's observation alone, so two queries with no intervening state
/// change answer identically.
pub proof fn lemma_status_one_idempotent(
    c: UnitCollectionView,
    unit: Seq<char>,
    first: Result<Seq<char>, OperationErrorView>,
    second: Result<Seq<char>, OperationErrorView>,
)
    requires
        first == second,
    ensures
        status_one_view(c, unit, first) == status_one_view(c, unit, second),
{
}

/// Law: a restart request against a unit that may be started but not
/// stopped is refused by the authorizer, so no runner action is ever
/// produced for it.
pub proof fn lemma_restart_denied_before_runner(c: UnitCollectionView, unit: Seq<char>)
    requires
        c.restart_derived(),
        !(c.authorized(unit, Command::Start) && c.authorized(unit, Command::Stop)),
    ensures
        planned_action(c, UserCommandView::Restart { unit }) == Err::<
            CommandActionView,
            OperationErrorView,
        >(OperationErrorView::NotAuthorized),
{
    crate::config::lemma_restart_authorization(c, unit);
}

/// The observation a multi-unit status query resolves for one unit: the
/// reported state, or the error's display text — a per-unit failure is
/// downgraded to text, never failing the whole query.
pub open spec fn resolved_text(o: Result<Seq<char>, OperationErrorView>) -> Seq<char> {
    match o {
        Ok(state) => state,
        Err(e) => error_text(e),
    }
}

/// The view of a list of per-unit poll outcomes.
pub open spec fn outcome_views(s: Seq<Result<String, OperationError>>) -> Seq<
    Result<Seq<char>, OperationErrorView>,
> {
    s.map_values(
        |o: Result<String, OperationError>|
            match o {
                Ok(state) => Ok::<Seq<char>, OperationErrorView>(state@),
                Err(e) => Err::<Seq<char>, OperationErrorView>(e@),
            },
    )
}

/// The lines of a multi-unit status response, in registry order: one
/// `unit: state` line per unit whose resolved text is not exactly
/// `inactive`.
pub open spec fn status_lines(
    units: Seq<Seq<char>>,
    outcomes: Seq<Result<Seq<char>, OperationErrorView>>,
) -> Seq<Seq<char>>
    recommends
        units.len() == outcomes.len(),
    decreases units.len(),
{
    if units.len() == 0 {
        Seq::empty()
    } else {
        let prefix = status_lines(units.drop_last(), outcomes.drop_last());
        let text = resolved_text(outcomes.last());
        if text == "inactive"@ {
            prefix
        } else {
            prefix.push(units.last() + ": "@ + text)
        }
    }
}

/// The full multi-unit status response: the kept lines joined with
/// newlines, or the fixed text when every unit resolved to `inactive`.
pub open spec fn multi_status_text(
    units: Seq<Seq<char>>,
    outcomes: Seq<Result<Seq<char>, OperationErrorView>>,
) -> Seq<char> {
    let lines = status_lines(units, outcomes);
    if lines.len() == 0 {
        "Nothing is active"@
    } else {
        join_with(lines, "\n"@)
    }
}

/// Builds the multi-unit status response from the polled outcomes, unit by
/// unit in registry order. Inactive units are suppressed to keep the
/// summary short; a directly queried unit is never filtered this way.
pub fn render_status_lines(units: &Vec<String>, outcomes: &Vec<Result<String, OperationError>>) -> (r:
    String)
    requires
        units@.len() == outcomes@.len(),
    ensures
        r@ == multi_status_text(views_of(units@), outcome_views(outcomes@)),
{
    broadcast use lemma_views_of_push;

    let ghost all_units = views_of(units@);
    let ghost all_outcomes = outcome_views(outcomes@);
    let mut lines: Vec<String> = Vec::new();
    let mut i: usize = 0;
    proof {
        assert(views_of(lines@) =~= Seq::<Seq<char>>::empty());
        assert(all_units.subrange(0, 0) =~= Seq::<Seq<char>>::empty());
        assert(all_outcomes.subrange(0, 0) =~= Seq::<Result<Seq<char>, OperationErrorView>>::empty());
    }
    while i < units.len()
        invariant
            i <= units@.len(),
            units@.len() == outcomes@.len(),
            all_units == views_of(units@),
            all_outcomes == outcome_views(outcomes@),
            views_of(lines@) == status_lines(
                all_units.subrange(0, i as int),
                all_outcomes.subrange(0, i as int),
            ),
        decreases units@.len() - i,
    {
        let text: String = match &outcomes[i] {
            Ok(state) => state.clone(),
            Err(e) => e.display_text(),
        };
        proof {
            let units_upto = all_units.subrange(0, i + 1);
            let outcomes_upto = all_outcomes.subrange(0, i + 1);
            assert(units_upto.drop_last() =~= all_units.subrange(0, i as int));
            assert(outcomes_upto.drop_last() =~= all_outcomes.subrange(0, i as int));
            assert(units_upto.last() == units@[i as int]@);
            assert(outcomes_upto.last() == all_outcomes[i as int]);
            assert(text@ == resolved_text(all_outcomes[i as int]));
        }
        if !str_eq(text.as_str(), "inactive") {
            let line = units[i].clone().concat(": ").concat(text.as_str());
            lines.push(line);
        }
        i += 1;
    }
    proof {
        assert(all_units.subrange(0, units@.len() as int) =~= all_units);
        assert(all_outcomes.subrange(0, outcomes@.len() as int) =~= all_outcomes);
    }
    if lines.len() == 0 {
        "Nothing is active".to_owned()
    } else {
        join_strings(&lines, "\n")
    }
}

/// The text finally shown for an executed request: the response itself on
/// success, the error's display text on failure.
pub fn response_content(outcome: Result<String, OperationError>) -> (r: String)
    ensures
        outcome matches Ok(v) ==> r == v,
        outcome matches Err(e) ==> r@ == error_text(e@),
{
    match outcome {
        Ok(v) => v,
        Err(e) => e.display_text(),
    }
}

/// The alias a unit is offered under: its name with a trailing `.service`
/// stripped, or the name itself.
pub open spec fn alias_of(unit: Seq<char>) -> Seq<char> {
    if ".service"@.is_suffix_of(unit) {
        unit.subrange(0, unit.len() - ".service"@.len())
    } else {
        unit
    }
}

/// Strips a trailing `.service` from a unit name, if present.
pub fn unit_alias(unit: &str) -> (r: String)
    ensures
        r@ == alias_of(unit@),
{
    proof {
        reveal_strlit(".service");
    }
    let n = unit.unicode_len();
    if n >= 8 {
        let tail = unit.substring_char(n - 8, n);
        if str_eq(tail, ".service") {
            proof {
                assert(".service"@.is_suffix_of(unit@)) by {
                    assert(unit@.subrange(unit@.len() - 8, unit@.len() as int) == ".service"@);
                }
            }
            return unit.substring_char(0, n - 8).to_owned();
        }
        proof {
            assert(!".service"@.is_suffix_of(unit@)) by {
                assert(unit@.subrange(unit@.len() - 8, unit@.len() as int) != ".service"@);
            }
        }
        unit.to_owned()
    } else {
        proof {
            assert(!".service"@.is_suffix_of(unit@));
        }
        unit.to_owned()
    }
}

/// The autocomplete choices for a verb: each eligible unit whose name
/// begins with the typed prefix, as an (alias, full name) pair, in
/// registry order. An unknown verb offers nothing.
pub open spec fn potential_units(eligible: Seq<Seq<char>>, partial: Seq<char>) -> Seq<
    (Seq<char>, Seq<char>),
>
    decreases eligible.len(),
{
    if eligible.len() == 0 {
        Seq::empty()
    } else {
        let prefix = potential_units(eligible.drop_last(), partial);
        if partial.is_prefix_of(eligible.last()) {
            prefix.push((alias_of(eligible.last()), eligible.last()))
        } else {
            prefix
        }
    }
}

/// The view of a list of (alias, unit) pairs.
pub open spec fn pair_views(s: Seq<(String, String)>) -> Seq<(Seq<char>, Seq<char>)> {
    s.map_values(|p: (String, String)| (p.0@, p.1@))
}

/// Computes the autocomplete choices for the verb named `command_name`
/// under the typed prefix `partial`.
pub fn get_potential_units(units: &UnitCollection, command_name: &str, partial: &str) -> (r: Vec<
    (String, String),
>)
    ensures
        command_of_name(command_name@) matches Some(verb) ==> pair_views(r@) == potential_units(
            units@.units_for(verb),
            partial@,
        ),
        command_of_name(command_name@) is None ==> r@.len() == 0,
{
    let verb = match Command::try_from(command_name) {
        Ok(verb) => verb,
        Err(_) => {
            return Vec::new();
        },
    };
    let eligible = units.units_for(verb);
    let ghost all = views_of(eligible@);
    let mut r: Vec<(String, String)> = Vec::new();
    let mut i: usize = 0;
    proof {
        assert(pair_views(r@) =~= Seq::<(Seq<char>, Seq<char>)>::empty());
        assert(all.subrange(0, 0) =~= Seq::<Seq<char>>::empty());
    }
    while i < eligible.len()
        invariant
            i <= eligible@.len(),
            all == views_of(eligible@),
            pair_views(r@) == potential_units(all.subrange(0, i as int), partial@),
        decreases eligible@.len() - i,
    {
        proof {
            let upto = all.subrange(0, i + 1);
            assert(upto.drop_last() =~= all.subrange(0, i as int));
            assert(upto.last() == eligible@[i as int]@);
        }
        if str_starts_with(eligible[i].as_str(), partial) {
            let alias = unit_alias(eligible[i].as_str());
            let ghost before = r@;
            r.push((alias, eligible[i].clone()));
            proof {
                assert(pair_views(r@) =~= pair_views(before).push(
                    (alias_of(eligible@[i as int]@), eligible@[i as int]@),
                ));
            }
        }
        i += 1;
    }
    proof {
        assert(all.subrange(0, eligible@.len() as int) =~= all);
    }
    r
}

} // verus!
