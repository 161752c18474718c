//! The turn state every combatant shares: who holds the turn, who waits for
//! it, and what the banner says.

use crate::menu::notification::{slot_view, Banner, Notification};
use vstd::prelude::*;

verus! {

/// The shared turn state, as a value.
///
/// `token` is the id of the combatant that holds the turn, or zero if nobody
/// does. `queue` holds the ids of those whose time bar has run over and who
/// wait for the turn; the one that joined last is served first.
pub struct Turn {
    pub token: u8,
    pub queue: Seq<u8>,
    pub banner: Option<Banner>,
}

/// The shared turn state held in the three places given.
pub open spec fn turn_of(token: u8, queue: Vec<u8>, slot: Option<Notification>) -> Turn {
    Turn { token, queue: queue@, banner: slot_view(slot) }
}

impl Turn {
    /// The turn state after the turn was granted: if nobody holds the turn
    /// and somebody waits, the one that joined the queue last takes it.
    pub open spec fn granted(self) -> Turn {
        if self.token == 0 && self.queue.len() > 0 {
            Turn { token: self.queue.last(), queue: self.queue.drop_last(), banner: self.banner }
        } else {
            self
        }
    }
}

/// Grants the turn: see `Turn::granted`.
pub fn grant_turn(current_turn: &mut u8, active_turns: &mut Vec<u8>)
    ensures
        *final(current_turn) == (Turn {
            token: *old(current_turn),
            queue: old(active_turns)@,
            banner: None,
        }).granted().token,
        final(active_turns)@ == (Turn {
            token: *old(current_turn),
            queue: old(active_turns)@,
            banner: None,
        }).granted().queue,
{
    if *current_turn == 0 {
        match active_turns.pop() {
            Some(next_turn) => {
                *current_turn = next_turn;
            },
            None => {},
        }
    }
}

/// While somebody holds the turn, granting changes nothing; and a granted
/// turn is never taken from the one who holds it.
pub proof fn lemma_grant_keeps_holder(turn: Turn)
    ensures
        turn.token != 0 ==> turn.granted() == turn,
        turn.queue.len() == 0 ==> turn.granted() == turn,
        turn.token == 0 && turn.queue.len() > 0 ==> turn.granted().token == turn.queue.last()
            && turn.granted().queue.len() + 1 == turn.queue.len(),
{
}

} // verus!
