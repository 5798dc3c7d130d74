//! The model of everything the contract keeps: the one session, and the
//! totals and histories of all players; and the rules of each call on it.

use crate::rules;
use crate::settlement::{settled_history, settled_stats, settlement_fits};
use crate::state::{GameError, GamePhase, Session};
use crate::stats::{Outcome, Totals};
use vstd::prelude::*;

verus! {

/// What the contract keeps.
pub struct Records {
    /// The active session, if there is one.
    pub session: Option<Session>,
    /// Totals by player; a player without a settled match has none.
    pub stats: Map<Seq<char>, Totals>,
    /// Histories by player, oldest entry first.
    pub history: Map<Seq<char>, Seq<Outcome>>,
}

/// A message for the match registry. Delivery is best effort: whether it
/// arrives never changes what the contract keeps.
pub enum Notice {
    /// A match began.
    StartGame { session_id: u32, player1: Seq<char>, player2: Seq<char> },
    /// A match ended.
    EndGame { session_id: u32, player1_won: bool },
}

/// The message that announces the start of `s`.
pub open spec fn start_notice(s: Session) -> Notice {
    Notice::StartGame { session_id: s.session_id, player1: s.player1, player2: s.player2 }
}

/// The message that announces the end of `s`.
pub open spec fn end_notice(s: Session) -> Notice {
    Notice::EndGame { session_id: s.session_id, player1_won: s.winner == s.player1 }
}

impl Records {
    /// No session and no player records.
    pub open spec fn empty() -> Records {
        Records { session: None, stats: Map::empty(), history: Map::empty() }
    }

    /// `player` joins; see [`rules::join`].
    pub open spec fn join_game(self, player: Seq<char>, session_id: u32) -> Result<
        Records,
        GameError,
    > {
        match rules::join(self.session, player, session_id) {
            Ok(s) => Ok(Records { session: Some(s), ..self }),
            Err(e) => Err(e),
        }
    }

    /// The message that an accepted `join_game` sends: the start of the
    /// match when the second seat is taken, none otherwise.
    pub open spec fn join_notice(self, player: Seq<char>, session_id: u32) -> Option<Notice> {
        match rules::join(self.session, player, session_id) {
            Ok(s) => if s.phase == GamePhase::Commit {
                Some(start_notice(s))
            } else {
                None
            },
            Err(_) => None,
        }
    }

    /// `player` commits a board; see [`rules::commit_board`].
    pub open spec fn commit_board(self, player: Seq<char>, board_hash: Seq<u8>) -> Result<
        Records,
        GameError,
    > {
        match self.session {
            None => Err(GameError::NotInitialized),
            Some(s) => match rules::commit_board(s, player, board_hash) {
                Ok(t) => Ok(Records { session: Some(t), ..self }),
                Err(e) => Err(e),
            },
        }
    }

    /// `shooter` fires; see [`rules::fire_shot`].
    pub open spec fn fire_shot(self, shooter: Seq<char>, x: u32, y: u32) -> Result<
        Records,
        GameError,
    > {
        match self.session {
            None => Err(GameError::NotInitialized),
            Some(s) => match rules::fire_shot(s, shooter, x, y) {
                Ok(t) => Ok(Records { session: Some(t), ..self }),
                Err(e) => Err(e),
            },
        }
    }

    /// Whether `fire_shot` leaves every counter within its machine type.
    pub open spec fn shot_fits(self, shooter: Seq<char>, x: u32, y: u32) -> bool {
        self.fire_shot(shooter, x, y) matches Ok(after) ==> after.session->0.fits()
    }

    /// Whether an answer with the verdict `accepted` ends the match.
    pub open spec fn respond_settles(
        self,
        defender: Seq<char>,
        x: u32,
        y: u32,
        is_hit: bool,
        accepted: bool,
    ) -> bool {
        self.session matches Some(s) && rules::respond(s, defender, x, y, is_hit, accepted) is Ok
            && rules::answer_is_final(s, defender, is_hit)
    }

    /// `defender` answers the pending shot, and the proof verifier has
    /// judged the answer; see [`rules::respond`]. An answer that ends the
    /// match settles it: the totals and histories of both players are
    /// brought up to date, stamped with `timestamp`.
    pub open spec fn respond(
        self,
        defender: Seq<char>,
        x: u32,
        y: u32,
        is_hit: bool,
        accepted: bool,
        timestamp: u64,
    ) -> Result<Records, GameError> {
        match self.session {
            None => Err(GameError::NotInitialized),
            Some(s) => match rules::respond(s, defender, x, y, is_hit, accepted) {
                Ok(t) => if rules::answer_is_final(s, defender, is_hit) {
                    Ok(
                        Records {
                            session: Some(t),
                            stats: settled_stats(self.stats, t),
                            history: settled_history(self.history, t, timestamp),
                        },
                    )
                } else {
                    Ok(Records { session: Some(t), ..self })
                },
                Err(e) => Err(e),
            },
        }
    }

    /// The message that an accepted answer sends: the end of the match when
    /// the answer ends it, none otherwise.
    pub open spec fn respond_notice(
        self,
        defender: Seq<char>,
        x: u32,
        y: u32,
        is_hit: bool,
        accepted: bool,
    ) -> Option<Notice> {
        match self.session {
            Some(s) => if self.respond_settles(defender, x, y, is_hit, accepted) {
                Some(end_notice(rules::apply_response(s, defender, is_hit)))
            } else {
                None
            },
            None => None,
        }
    }

    /// Whether an answer leaves every counter within its machine type, and,
    /// where it ends the match, the totals of both players too.
    pub open spec fn respond_fits(
        self,
        defender: Seq<char>,
        x: u32,
        y: u32,
        is_hit: bool,
        accepted: bool,
    ) -> bool {
        match self.session {
            None => true,
            Some(s) => match rules::respond(s, defender, x, y, is_hit, accepted) {
                Ok(t) => {
                    &&& t.fits()
                    &&& rules::answer_is_final(s, defender, is_hit) ==> settlement_fits(
                        self.stats,
                        t,
                    )
                },
                Err(_) => true,
            },
        }
    }

    /// What the length check says of `proof` as an answer by `defender`.
    pub open spec fn proof_verdict(
        self,
        defender: Seq<char>,
        x: u32,
        y: u32,
        is_hit: bool,
        proof: Seq<u8>,
    ) -> bool {
        self.session matches Some(s) && rules::proof_accepted(
            proof,
            rules::defender_commitment(s, defender),
            x,
            y,
            is_hit,
        )
    }

    /// `defender` answers the pending shot with `proof`: the answer is
    /// judged by the length check and then applied as in [`Self::respond`].
    pub open spec fn submit_response(
        self,
        defender: Seq<char>,
        x: u32,
        y: u32,
        is_hit: bool,
        proof: Seq<u8>,
        timestamp: u64,
    ) -> Result<Records, GameError> {
        self.respond(
            defender,
            x,
            y,
            is_hit,
            self.proof_verdict(defender, x, y, is_hit, proof),
            timestamp,
        )
    }

    /// `caller` abandons the session. A participant discards it, whatever
    /// its phase, without settlement; without a session there is nothing to
    /// discard.
    pub open spec fn reset(self, caller: Seq<char>) -> Result<Records, GameError> {
        match self.session {
            None => Ok(self),
            Some(s) => if rules::may_reset(s, caller) {
                Ok(Records { session: None, ..self })
            } else {
                Err(GameError::Unauthorized)
            },
        }
    }
}

} // verus!
