use vstd::prelude::*;

use crate::rules::player_actions::{BasicAction, BasicActionCost, MainPhaseAction};

verus! {

/// Something the player can click.
#[derive(Debug, Clone, Copy, PartialEq, Eq, Structural)]
pub enum Pickable {
    Cancel,
    EndMainPhase,
    BasicAction(BasicAction),
    Vigor,
}

/// The first step of a main-phase choice.
#[derive(Debug, Clone, Copy, PartialEq, Eq, Structural)]
pub enum PickMainPhaseActionResult {
    PayBasicActionCost(BasicActionCost),
    EndMainPhase,
}

/// The second step of a main-phase choice.
#[derive(Debug, Clone, Copy, PartialEq, Eq, Structural)]
pub enum PickBasicActionResult {
    BasicAction(BasicAction),
    Cancel,
}

fn contains_cost(costs: &Vec<BasicActionCost>, cost: BasicActionCost) -> (res: bool)
    ensures
        res == costs@.contains(cost),
{
    let mut i: usize = 0;
    while i < costs.len()
        invariant
            i <= costs@.len(),
            forall|j: int| 0 <= j < i ==> costs@[j] != cost,
        decreases costs@.len() - i,
    {
        if costs[i] == cost {
            assert(costs@[i as int] == cost);
            return true;
        }
        i += 1;
    }
    false
}

fn contains_action(actions: &Vec<BasicAction>, action: BasicAction) -> (res: bool)
    ensures
        res == actions@.contains(action),
{
    let mut i: usize = 0;
    while i < actions.len()
        invariant
            i <= actions@.len(),
            forall|j: int| 0 <= j < i ==> actions@[j] != action,
        decreases actions@.len() - i,
    {
        if actions[i] == action {
            assert(actions@[i as int] == action);
            return true;
        }
        i += 1;
    }
    false
}

/// Which clicks are offered while choosing the first step: ending the main
/// phase always, paying with vigor when vigor is an allowed cost.
pub open spec fn main_phase_offers(p: Pickable, allowed_costs: Seq<BasicActionCost>) -> bool {
    match p {
        Pickable::EndMainPhase => true,
        Pickable::Vigor => allowed_costs.contains(BasicActionCost::Vigor),
        _ => false,
    }
}

/// Whether a click is offered while choosing the first step.
pub fn main_phase_pickable(p: Pickable, allowed_costs: &Vec<BasicActionCost>) -> (res: bool)
    ensures
        res == main_phase_offers(p, allowed_costs@),
{
    match p {
        Pickable::EndMainPhase => true,
        Pickable::Vigor => contains_cost(allowed_costs, BasicActionCost::Vigor),
        _ => false,
    }
}

/// What a click means as the first step; `None` asks for another click.
pub fn main_phase_pick_result(p: Pickable) -> (res: Option<PickMainPhaseActionResult>)
    ensures
        res == match p {
            Pickable::EndMainPhase => Some(PickMainPhaseActionResult::EndMainPhase),
            Pickable::Vigor => Some(PickMainPhaseActionResult::PayBasicActionCost(BasicActionCost::Vigor)),
            _ => None::<PickMainPhaseActionResult>,
        },
{
    match p {
        Pickable::EndMainPhase => Some(PickMainPhaseActionResult::EndMainPhase),
        Pickable::Vigor => Some(PickMainPhaseActionResult::PayBasicActionCost(BasicActionCost::Vigor)),
        _ => None,
    }
}

/// Which clicks are offered while choosing the basic action: cancelling
/// always, an action when it is allowed.
pub open spec fn basic_action_offers(p: Pickable, allowed: Seq<BasicAction>) -> bool {
    match p {
        Pickable::Cancel => true,
        Pickable::BasicAction(b) => allowed.contains(b),
        _ => false,
    }
}

/// Whether a click is offered while choosing the basic action.
pub fn basic_action_pickable(p: Pickable, allowed_basic_actions: &Vec<BasicAction>) -> (res: bool)
    ensures
        res == basic_action_offers(p, allowed_basic_actions@),
{
    match p {
        Pickable::Cancel => true,
        Pickable::BasicAction(b) => contains_action(allowed_basic_actions, b),
        _ => false,
    }
}

/// What a click means as the second step; `None` asks for another click.
pub fn basic_action_pick_result(p: Pickable) -> (res: Option<PickBasicActionResult>)
    ensures
        res == match p {
            Pickable::Cancel => Some(PickBasicActionResult::Cancel),
            Pickable::BasicAction(a) => Some(PickBasicActionResult::BasicAction(a)),
            _ => None::<PickBasicActionResult>,
        },
{
    match p {
        Pickable::Cancel => Some(PickBasicActionResult::Cancel),
        Pickable::BasicAction(a) => Some(PickBasicActionResult::BasicAction(a)),
        _ => None,
    }
}

/// Where a main-phase choice stands.
#[derive(Debug, Clone, Copy, PartialEq, Eq, Structural)]
pub enum MainPhaseChoice {
    /// Choosing how to pay, or to end the main phase.
    ChoosingCost,
    /// The cost is chosen; choosing the basic action to pay it for.
    ChoosingAction(BasicActionCost),
    /// The choice is made.
    Chosen(MainPhaseAction),
}

/// The step of a main-phase choice that a click leads to: the first step
/// ends the main phase or picks a cost; the second step picks the action or
/// cancels back to the first step; a click that means nothing keeps the
/// choice where it was.
pub open spec fn choice_after_click(choice: MainPhaseChoice, p: Pickable) -> MainPhaseChoice {
    match choice {
        MainPhaseChoice::ChoosingCost => match p {
            Pickable::EndMainPhase => MainPhaseChoice::Chosen(MainPhaseAction::EndMainPhase),
            Pickable::Vigor => MainPhaseChoice::ChoosingAction(BasicActionCost::Vigor),
            _ => choice,
        },
        MainPhaseChoice::ChoosingAction(cost) => match p {
            Pickable::Cancel => MainPhaseChoice::ChoosingCost,
            Pickable::BasicAction(action) => MainPhaseChoice::Chosen(
                MainPhaseAction::PlayBasicAction { action, cost },
            ),
            _ => choice,
        },
        MainPhaseChoice::Chosen(_) => choice,
    }
}

/// Which clicks the player is offered at a step of the choice.
pub open spec fn choice_offers(
    choice: MainPhaseChoice,
    p: Pickable,
    allowed_costs: Seq<BasicActionCost>,
    allowed_actions: Seq<BasicAction>,
) -> bool {
    match choice {
        MainPhaseChoice::ChoosingCost => main_phase_offers(p, allowed_costs),
        MainPhaseChoice::ChoosingAction(_) => basic_action_offers(p, allowed_actions),
        MainPhaseChoice::Chosen(_) => false,
    }
}

/// A choice is sound when every cost and action it holds was allowed.
pub open spec fn choice_is_allowed(
    choice: MainPhaseChoice,
    allowed_costs: Seq<BasicActionCost>,
    allowed_actions: Seq<BasicAction>,
) -> bool {
    match choice {
        MainPhaseChoice::ChoosingCost => true,
        MainPhaseChoice::ChoosingAction(cost) => allowed_costs.contains(cost),
        MainPhaseChoice::Chosen(MainPhaseAction::PlayBasicAction { action, cost }) => {
            allowed_costs.contains(cost) && allowed_actions.contains(action)
        },
        MainPhaseChoice::Chosen(MainPhaseAction::EndMainPhase) => true,
        MainPhaseChoice::Chosen(MainPhaseAction::PlayCard(_)) => false,
    }
}

impl MainPhaseChoice {
    /// Moves the choice on by one click.
    pub fn click(self, p: Pickable) -> (res: MainPhaseChoice)
        ensures
            res == choice_after_click(self, p),
    {
        match self {
            MainPhaseChoice::ChoosingCost => match main_phase_pick_result(p) {
                Some(PickMainPhaseActionResult::EndMainPhase) => MainPhaseChoice::Chosen(
                    MainPhaseAction::EndMainPhase,
                ),
                Some(PickMainPhaseActionResult::PayBasicActionCost(cost)) =>
                    MainPhaseChoice::ChoosingAction(cost),
                None => self,
            },
            MainPhaseChoice::ChoosingAction(cost) => match basic_action_pick_result(p) {
                Some(PickBasicActionResult::Cancel) => MainPhaseChoice::ChoosingCost,
                Some(PickBasicActionResult::BasicAction(action)) => MainPhaseChoice::Chosen(
                    MainPhaseAction::PlayBasicAction { action, cost },
                ),
                None => self,
            },
            MainPhaseChoice::Chosen(_) => self,
        }
    }
}

impl MainPhaseChoice {
    /// Moves the choice on by one click, when the click is one the player is
    /// offered at this step with these allowed costs and actions; any other
    /// click leaves the choice as it was. A choice that holds only allowed
    /// costs and actions keeps holding only allowed ones.
    pub fn on_pick(
        self,
        p: Pickable,
        allowed_costs: &Vec<BasicActionCost>,
        allowed_actions: &Vec<BasicAction>,
    ) -> (res: MainPhaseChoice)
        ensures
            res == (if choice_offers(self, p, allowed_costs@, allowed_actions@) {
                choice_after_click(self, p)
            } else {
                self
            }),
            choice_is_allowed(self, allowed_costs@, allowed_actions@) ==> choice_is_allowed(
                res,
                allowed_costs@,
                allowed_actions@,
            ),
    {
        let offered = match self {
            MainPhaseChoice::ChoosingCost => main_phase_pickable(p, allowed_costs),
            MainPhaseChoice::ChoosingAction(_) => basic_action_pickable(p, allowed_actions),
            MainPhaseChoice::Chosen(_) => false,
        };
        if offered {
            self.click(p)
        } else {
            self
        }
    }
}

/// The choice after a run of clicks, each handled as `on_pick` handles it.
pub open spec fn choice_after_picks(
    choice: MainPhaseChoice,
    picks: Seq<Pickable>,
    allowed_costs: Seq<BasicActionCost>,
    allowed_actions: Seq<BasicAction>,
) -> MainPhaseChoice
    decreases picks.len(),
{
    if picks.len() == 0 {
        choice
    } else {
        let p = picks[0];
        let next = if choice_offers(choice, p, allowed_costs, allowed_actions) {
            choice_after_click(choice, p)
        } else {
            choice
        };
        choice_after_picks(next, picks.drop_first(), allowed_costs, allowed_actions)
    }
}

/// Whatever the player clicks, a main-phase choice that starts afresh only
/// ever holds allowed costs and actions: an action it settles on is ending
/// the main phase, or an allowed basic action paid with an allowed cost.
pub proof fn lemma_picks_choose_allowed_action(
    picks: Seq<Pickable>,
    allowed_costs: Seq<BasicActionCost>,
    allowed_actions: Seq<BasicAction>,
)
    ensures
        choice_is_allowed(
            choice_after_picks(MainPhaseChoice::ChoosingCost, picks, allowed_costs, allowed_actions),
            allowed_costs,
            allowed_actions,
        ),
        choice_after_picks(MainPhaseChoice::ChoosingCost, picks, allowed_costs, allowed_actions)
            matches MainPhaseChoice::Chosen(a) ==> a == MainPhaseAction::EndMainPhase || (a matches
            MainPhaseAction::PlayBasicAction { action, cost } && allowed_costs.contains(cost)
            && allowed_actions.contains(action)),
{
    lemma_picks_keep_allowed(MainPhaseChoice::ChoosingCost, picks, allowed_costs, allowed_actions);
}

/// A run of clicks keeps a choice that holds only allowed costs and actions.
proof fn lemma_picks_keep_allowed(
    choice: MainPhaseChoice,
    picks: Seq<Pickable>,
    allowed_costs: Seq<BasicActionCost>,
    allowed_actions: Seq<BasicAction>,
)
    requires
        choice_is_allowed(choice, allowed_costs, allowed_actions),
    ensures
        choice_is_allowed(
            choice_after_picks(choice, picks, allowed_costs, allowed_actions),
            allowed_costs,
            allowed_actions,
        ),
    decreases picks.len(),
{
    if picks.len() > 0 {
        let p = picks[0];
        let next = if choice_offers(choice, p, allowed_costs, allowed_actions) {
            choice_after_click(choice, p)
        } else {
            choice
        };
        lemma_picks_keep_allowed(next, picks.drop_first(), allowed_costs, allowed_actions);
    }
}

/// Which clicks the first step offers, for allowed costs `a` and `b`:
/// ending the main phase always; paying with vigor exactly when vigor is
/// among the allowed costs, wherever it stands (no cost allows it, a single
/// cost allows it exactly when that cost is vigor, and joining two lists
/// allows it when either list does); nothing else.
pub proof fn lemma_first_step_offers(
    p: Pickable,
    a: Seq<BasicActionCost>,
    b: Seq<BasicActionCost>,
    cost: BasicActionCost,
)
    ensures
        main_phase_offers(Pickable::EndMainPhase, a),
        !main_phase_offers(Pickable::Vigor, Seq::<BasicActionCost>::empty()),
        main_phase_offers(Pickable::Vigor, seq![cost]) <==> cost == BasicActionCost::Vigor,
        main_phase_offers(Pickable::Vigor, a + b) <==> (main_phase_offers(Pickable::Vigor, a)
            || main_phase_offers(Pickable::Vigor, b)),
        (p is Cancel || p is BasicAction) ==> !main_phase_offers(p, a),
{
    assert(seq![cost][0] == cost);
    if (a + b).contains(BasicActionCost::Vigor) {
        let k = choose|k: int| 0 <= k < (a + b).len() && (a + b)[k] == BasicActionCost::Vigor;
        if k < a.len() {
            assert(a[k] == BasicActionCost::Vigor);
        } else {
            assert(b[k - a.len()] == BasicActionCost::Vigor);
        }
    }
    if a.contains(BasicActionCost::Vigor) {
        let k = choose|k: int| 0 <= k < a.len() && a[k] == BasicActionCost::Vigor;
        assert((a + b)[k] == BasicActionCost::Vigor);
    }
    if b.contains(BasicActionCost::Vigor) {
        let k = choose|k: int| 0 <= k < b.len() && b[k] == BasicActionCost::Vigor;
        assert((a + b)[a.len() + k] == BasicActionCost::Vigor);
    }
}

/// Which clicks the second step offers, for allowed actions `a` and `b`:
/// cancelling always; an action exactly when it is among the allowed
/// actions, wherever it stands (no action list allows it, a single action
/// allows exactly itself, and joining two lists allows what either does);
/// nothing else.
pub proof fn lemma_second_step_offers(
    p: Pickable,
    a: Seq<BasicAction>,
    b: Seq<BasicAction>,
    x: BasicAction,
    y: BasicAction,
)
    ensures
        basic_action_offers(Pickable::Cancel, a),
        !basic_action_offers(Pickable::BasicAction(x), Seq::<BasicAction>::empty()),
        basic_action_offers(Pickable::BasicAction(x), seq![y]) <==> x == y,
        basic_action_offers(Pickable::BasicAction(x), a + b) <==> (basic_action_offers(
            Pickable::BasicAction(x),
            a,
        ) || basic_action_offers(Pickable::BasicAction(x), b)),
        (p is EndMainPhase || p is Vigor) ==> !basic_action_offers(p, a),
{
    assert(seq![y][0] == y);
    if (a + b).contains(x) {
        let k = choose|k: int| 0 <= k < (a + b).len() && (a + b)[k] == x;
        if k < a.len() {
            assert(a[k] == x);
        } else {
            assert(b[k - a.len()] == x);
        }
    }
    if a.contains(x) {
        let k = choose|k: int| 0 <= k < a.len() && a[k] == x;
        assert((a + b)[k] == x);
    }
    if b.contains(x) {
        let k = choose|k: int| 0 <= k < b.len() && b[k] == x;
        assert((a + b)[a.len() + k] == x);
    }
}

/// A click the player was offered always means something: it never asks for
/// another click.
pub proof fn lemma_offered_click_moves_on(
    choice: MainPhaseChoice,
    p: Pickable,
    allowed_costs: Seq<BasicActionCost>,
    allowed_actions: Seq<BasicAction>,
)
    requires
        choice_offers(choice, p, allowed_costs, allowed_actions),
    ensures
        choice_after_click(choice, p) != choice,
{
}

/// Clicking only what is offered keeps a choice sound: a chosen basic
/// action is always an allowed action paid with an allowed cost.
pub proof fn lemma_offered_clicks_keep_choice_allowed(
    choice: MainPhaseChoice,
    p: Pickable,
    allowed_costs: Seq<BasicActionCost>,
    allowed_actions: Seq<BasicAction>,
)
    requires
        choice_is_allowed(choice, allowed_costs, allowed_actions),
        choice_offers(choice, p, allowed_costs, allowed_actions),
    ensures
        choice_is_allowed(choice_after_click(choice, p), allowed_costs, allowed_actions),
{
}

} // verus!
