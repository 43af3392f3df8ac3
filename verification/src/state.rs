//! The shared game state that actions operate on: the roster of player
//! records with their carrot balances, and the current-actor reference.
//!
//! The ledger primitives live here: resolving the current actor to an index
//! into the roster, and the atomic balance exchange that validates a
//! non-negative resulting balance before committing.

use vstd::prelude::*;

verus! {

/// A player record in the ledger: a stable identifier and a non-negative
/// carrot balance (non-negativity is carried by the unsigned type).
#[derive(Debug, Clone, Copy, PartialEq, Eq, Structural)]
pub struct Player {
    pub id: u64,
    pub carrots: u64,
}

/// Why an action was rejected. A rejected action leaves the game state
/// exactly as it was before the call.
#[derive(Debug, Clone, Copy, PartialEq, Eq, Structural)]
pub enum ActionError {
    /// Applying the requested amount would drive a balance below zero.
    InsufficientBalance,
    /// The current-actor reference does not resolve to a player record.
    ActorNotFound,
}

/// The mathematical model of a `GameState`: the roster as a sequence and
/// the current-actor reference.
pub struct StateModel {
    pub players: Seq<Player>,
    pub current: Option<u64>,
}

/// The index of the first record in `players` whose id is `id`, if any.
pub open spec fn first_index_with_id(players: Seq<Player>, id: u64) -> Option<int>
    decreases players.len(),
{
    if players.len() == 0 {
        None
    } else if players[0].id == id {
        Some(0)
    } else {
        match first_index_with_id(players.drop_first(), id) {
            Some(i) => Some(i + 1),
            None => None,
        }
    }
}

impl StateModel {
    /// The index of the acting player's record, if the current-actor
    /// reference resolves to one.
    pub open spec fn resolved(self) -> Option<int> {
        match self.current {
            None => None,
            Some(id) => first_index_with_id(self.players, id),
        }
    }
}

/// `first_index_with_id` returns the first matching index: a returned index
/// holds a record with the id and every earlier record differs, and `None`
/// means no record matches.
pub proof fn lemma_first_index_with_id(players: Seq<Player>, id: u64)
    ensures
        match first_index_with_id(players, id) {
            Some(i) => 0 <= i < players.len() && players[i].id == id && (forall|k: int|
                0 <= k < i ==> players[k].id != id),
            None => forall|k: int| 0 <= k < players.len() ==> players[k].id != id,
        },
    decreases players.len(),
{
    if players.len() == 0 {
    } else if players[0].id == id {
    } else {
        lemma_first_index_with_id(players.drop_first(), id);
        assert(forall|k: int|
            1 <= k < players.len() ==> players[k] == players.drop_first()[k - 1]);
    }
}

/// The shared game state an action borrows for the duration of one call.
pub struct GameState {
    players: Vec<Player>,
    current: Option<u64>,
}

impl View for GameState {
    type V = StateModel;

    closed spec fn view(&self) -> StateModel {
        StateModel { players: self.players@, current: self.current }
    }
}

impl GameState {
    /// Builds a state from a roster and an optional current-actor id.
    pub fn new(players: Vec<Player>, current: Option<u64>) -> (s: GameState)
        ensures
            s@ == (StateModel { players: players@, current }),
    {
        GameState { players, current }
    }

    /// The balance of the player record at `actor`.
    pub fn balance_of(&self, actor: usize) -> (b: u64)
        requires
            actor < self@.players.len(),
        ensures
            b == self@.players[actor as int].carrots,
    {
        self.players[actor].carrots
    }

    /// The number of player records in the ledger.
    pub fn player_count(&self) -> (n: usize)
        ensures
            n == self@.players.len(),
    {
        self.players.len()
    }

    /// Resolves the current-actor reference to an index into the roster: the
    /// first record carrying the current id, or `None` when no current actor
    /// is set or no record carries the id.
    pub fn resolve_current_actor(&self) -> (r: Option<usize>)
        ensures
            match r {
                Some(j) => self@.resolved() == Some(j as int) && j < self@.players.len(),
                None => self@.resolved() is None,
            },
    {
        match self.current {
            None => None,
            Some(id) => {
                let n: usize = self.players.len();
                let mut j: usize = 0;
                while j < n
                    invariant
                        n == self.players.len(),
                        j <= n,
                        self.current == Some(id),
                        forall|k: int| 0 <= k < j ==> self.players@[k].id != id,
                    decreases n - j,
                {
                    if self.players[j].id == id {
                        proof {
                            lemma_first_index_with_id(self.players@, id);
                        }
                        return Some(j);
                    }
                    j += 1;
                }
                proof {
                    lemma_first_index_with_id(self.players@, id);
                }
                None
            },
        }
    }

    /// The ledger's atomic exchange primitive: adds the signed `amount` to
    /// the balance of the record at `actor`, after validating that the
    /// resulting balance is non-negative. A rejected exchange leaves the
    /// state untouched.
    pub fn exchange_resource(&mut self, actor: usize, amount: i32) -> (r: Result<
        (),
        ActionError,
    >)
        requires
            actor < old(self)@.players.len(),
            old(self)@.players[actor as int].carrots + amount <= u64::MAX,
        ensures
            ({
                let b = old(self)@.players[actor as int].carrots;
                if b + amount < 0 {
                    r == Err::<(), ActionError>(ActionError::InsufficientBalance)
                        && final(self)@ == old(self)@
                } else {
                    r == Ok::<(), ActionError>(()) && final(self)@ == (StateModel {
                        players: old(self)@.players.update(
                            actor as int,
                            Player {
                                id: old(self)@.players[actor as int].id,
                                carrots: (b + amount) as u64,
                            },
                        ),
                        current: old(self)@.current,
                    })
                }
            }),
    {
        let p = self.players[actor];
        if amount >= 0 {
            let grown: u64 = p.carrots + (amount as u64);
            self.players.set(actor, Player { id: p.id, carrots: grown });
            Ok(())
        } else {
            let need: u64 = (-(amount as i64)) as u64;
            if p.carrots < need {
                Err(ActionError::InsufficientBalance)
            } else {
                let shrunk: u64 = p.carrots - need;
                self.players.set(actor, Player { id: p.id, carrots: shrunk });
                Ok(())
            }
        }
    }
}

} // verus!
