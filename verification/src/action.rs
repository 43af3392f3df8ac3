//! The action capability: the uniform entry point every concrete action
//! implements, and the concrete carrot-exchange action.
//!
//! Every action follows the validate-then-apply protocol: either the full
//! mutation it implies is applied and `Ok` is returned, or no mutation is
//! visible and a typed error is returned. That all-or-nothing guarantee is
//! written into the capability's contract, so it holds of every implementor.

use vstd::prelude::*;

use crate::state::ActionError;
use crate::state::GameState;
use crate::state::Player;
use crate::state::StateModel;

verus! {

/// A discrete, self-contained game command. A concrete action defines its
/// whole behaviour as a mathematical transition (`outcome`), and `perform`
/// is bound to realise exactly that transition: apply it in full on
/// success, or return its error and leave the state untouched.
pub trait Action {
    /// Whether `perform` may be called on a state shaped like `s`: the
    /// machine-limit bounds under which the action's result is
    /// representable.
    spec fn performable(&self, s: StateModel) -> bool;

    /// The action's transition: the state after a successful run, or the
    /// error a rejected run reports.
    spec fn outcome(&self, s: StateModel) -> Result<StateModel, ActionError>;

    /// Validates the action's preconditions against `state` and applies its
    /// mutation atomically: on `Ok` the state is the action's outcome, on an
    /// error the state is exactly as it was before the call.
    fn perform(&self, state: &mut GameState) -> (r: Result<(), ActionError>)
        requires
            self.performable(old(state)@),
        ensures
            match self.outcome(old(state)@) {
                Ok(m) => r == Ok::<(), ActionError>(()) && final(state)@ == m,
                Err(e) => r == Err::<(), ActionError>(e) && final(state)@ == old(state)@,
            },
    ;
}

/// Trades `amount` carrots into (positive) or out of (negative) the acting
/// player's balance. A pure value, fully determined by its `amount` field:
/// construction performs no validation and touches no state; validation is
/// deferred to `perform`.
#[derive(Debug, Clone, PartialEq, Eq, PartialOrd, Hash, Structural)]
pub struct ExchangeCarrots {
    pub amount: i32,
}

/// The carrot-exchange transition on a state model: resolve the current
/// actor, then adjust its balance by `amount` when the result stays
/// non-negative.
pub open spec fn exchange_outcome(amount: i32, s: StateModel) -> Result<StateModel, ActionError> {
    match s.resolved() {
        None => Err(ActionError::ActorNotFound),
        Some(i) => {
            let b = s.players[i].carrots;
            if b + amount < 0 {
                Err(ActionError::InsufficientBalance)
            } else {
                Ok(
                    StateModel {
                        players: s.players.update(
                            i,
                            Player { id: s.players[i].id, carrots: (b + amount) as u64 },
                        ),
                        current: s.current,
                    },
                )
            }
        },
    }
}

impl ExchangeCarrots {
    /// Pure value construction; no validation happens here.
    pub fn new(amount: i32) -> (a: ExchangeCarrots)
        ensures
            a.amount == amount,
    {
        ExchangeCarrots { amount }
    }
}

impl Action for ExchangeCarrots {
    open spec fn performable(&self, s: StateModel) -> bool {
        s.resolved() matches Some(i) ==> s.players[i].carrots + self.amount <= u64::MAX
    }

    open spec fn outcome(&self, s: StateModel) -> Result<StateModel, ActionError> {
        exchange_outcome(self.amount, s)
    }

    fn perform(&self, state: &mut GameState) -> (r: Result<(), ActionError>) {
        match state.resolve_current_actor() {
            None => Err(ActionError::ActorNotFound),
            Some(actor) => state.exchange_resource(actor, self.amount),
        }
    }
}

/// Balance floor: when the current actor resolves to the record at `i` with
/// balance `b`, the exchange is rejected with `InsufficientBalance` exactly
/// when `b + amount` would fall below zero; otherwise it succeeds, the
/// actor's new balance is `b + amount`, and every other record and the
/// current-actor reference are unchanged.
pub proof fn lemma_balance_floor(action: ExchangeCarrots, s: StateModel, i: int)
    requires
        s.resolved() == Some(i),
        0 <= i < s.players.len(),
        s.players[i].carrots + action.amount <= u64::MAX,
    ensures
        ({
            let b = s.players[i].carrots;
            &&& (b + action.amount < 0) <==> (action.outcome(s) == Err::<
                StateModel,
                ActionError,
            >(ActionError::InsufficientBalance))
            &&& b + action.amount >= 0 ==> (action.outcome(s) matches Ok(m) && m.players.len()
                == s.players.len() && m.players[i].carrots == b + action.amount && (forall|k: int|
                0 <= k < s.players.len() && k != i ==> m.players[k] == s.players[k])
                && m.current == s.current)
        }),
{
}

/// When the current-actor reference does not resolve to a record, the
/// exchange reports `ActorNotFound`, whatever the amount; by the capability
/// contract, `perform` then leaves the state unchanged.
pub proof fn lemma_actor_not_found(action: ExchangeCarrots, s: StateModel)
    requires
        s.resolved() is None,
    ensures
        action.outcome(s) == Err::<StateModel, ActionError>(ActionError::ActorNotFound),
{
}

/// Equality law: two exchange actions are equal exactly when their amounts
/// are equal, so identical actions issued independently compare equal.
pub proof fn lemma_exchange_eq(a: ExchangeCarrots, b: ExchangeCarrots)
    ensures
        (a == b) <==> (a.amount == b.amount),
{
}

} // verus!
