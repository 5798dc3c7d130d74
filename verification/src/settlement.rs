//! Settlement: what a finished session adds to the totals and the history
//! of its two players.

use crate::state::{GameState, Session, TOTAL_SHIPS};
use crate::stats::{GameResult, Outcome, PlayerStats, Totals};
use vstd::prelude::*;

verus! {

/// The player who lost a finished session.
pub open spec fn loser(s: Session) -> Seq<char> {
    s.other_player(s.winner)
}

/// Shots fired by the winner.
pub open spec fn winner_shots(s: Session) -> nat {
    if s.winner == s.player1 {
        s.shots_fired_p1
    } else {
        s.shots_fired_p2
    }
}

/// Shots fired by the loser.
pub open spec fn loser_shots(s: Session) -> nat {
    if s.winner == s.player1 {
        s.shots_fired_p2
    } else {
        s.shots_fired_p1
    }
}

/// The totals of a player after a win: one more match played and won, the
/// shots of the match added, and every ship of the opponent credited as a
/// hit.
pub open spec fn credit_win(prior: Totals, fired: nat, received: nat) -> Totals {
    Totals {
        games_played: prior.games_played + 1,
        games_won: prior.games_won + 1,
        total_shots_fired: prior.total_shots_fired + fired,
        total_shots_received: prior.total_shots_received + received,
        total_hits: prior.total_hits + TOTAL_SHIPS as nat,
    }
}

/// The totals of a player after a loss: one more match played and the
/// shots of the match added; no hit is credited.
pub open spec fn credit_loss(prior: Totals, fired: nat, received: nat) -> Totals {
    Totals {
        games_played: prior.games_played + 1,
        total_shots_fired: prior.total_shots_fired + fired,
        total_shots_received: prior.total_shots_received + received,
        ..prior
    }
}

/// The history entry of the winner.
pub open spec fn win_entry(s: Session, timestamp: u64) -> Outcome {
    Outcome {
        opponent: loser(s),
        won: true,
        shots_fired: winner_shots(s),
        shots_received: loser_shots(s),
        hits_scored: TOTAL_SHIPS as nat,
        timestamp,
    }
}

/// The history entry of the loser.
pub open spec fn loss_entry(s: Session, timestamp: u64) -> Outcome {
    Outcome {
        opponent: s.winner,
        won: false,
        shots_fired: loser_shots(s),
        shots_received: winner_shots(s),
        hits_scored: 0,
        timestamp,
    }
}

/// The totals recorded for `player`, or zero totals where none are.
pub open spec fn totals_of(stats: Map<Seq<char>, Totals>, player: Seq<char>) -> Totals {
    if stats.dom().contains(player) {
        stats[player]
    } else {
        Totals::zero()
    }
}

/// The history recorded for `player`, or an empty one where none is.
pub open spec fn history_of(history: Map<Seq<char>, Seq<Outcome>>, player: Seq<char>) -> Seq<
    Outcome,
> {
    if history.dom().contains(player) {
        history[player]
    } else {
        Seq::empty()
    }
}

/// The totals after the winner's are written.
pub open spec fn stats_after_win(stats: Map<Seq<char>, Totals>, s: Session) -> Map<
    Seq<char>,
    Totals,
> {
    stats.insert(s.winner, credit_win(totals_of(stats, s.winner), winner_shots(s), loser_shots(s)))
}

/// The totals after settlement: the winner's are written first, then the
/// loser's.
pub open spec fn settled_stats(stats: Map<Seq<char>, Totals>, s: Session) -> Map<
    Seq<char>,
    Totals,
> {
    let after_win = stats_after_win(stats, s);
    after_win.insert(
        loser(s),
        credit_loss(totals_of(after_win, loser(s)), loser_shots(s), winner_shots(s)),
    )
}

/// The histories after the winner's entry is appended.
pub open spec fn history_after_win(
    history: Map<Seq<char>, Seq<Outcome>>,
    s: Session,
    timestamp: u64,
) -> Map<Seq<char>, Seq<Outcome>> {
    history.insert(s.winner, history_of(history, s.winner).push(win_entry(s, timestamp)))
}

/// The histories after settlement: one entry appended for the winner, then
/// one for the loser.
pub open spec fn settled_history(
    history: Map<Seq<char>, Seq<Outcome>>,
    s: Session,
    timestamp: u64,
) -> Map<Seq<char>, Seq<Outcome>> {
    let after_win = history_after_win(history, s, timestamp);
    after_win.insert(loser(s), history_of(after_win, loser(s)).push(loss_entry(s, timestamp)))
}

/// Whether the totals that settlement writes fit the machine types that
/// store them.
pub open spec fn settlement_fits(stats: Map<Seq<char>, Totals>, s: Session) -> bool {
    &&& stats_after_win(stats, s)[s.winner].fits()
    &&& settled_stats(stats, s)[loser(s)].fits()
}

impl PlayerStats {
    /// Whether these totals with a win added fit their machine types.
    pub fn win_fits(&self, fired: u32, received: u32) -> (fits: bool)
        ensures
            fits == credit_win(self@, fired as nat, received as nat).fits(),
    {
        self.games_played < u32::MAX && self.games_won < u32::MAX && fired <= u32::MAX
            - self.total_shots_fired && received <= u32::MAX - self.total_shots_received
            && self.total_hits <= u32::MAX - TOTAL_SHIPS
    }

    /// Whether these totals with a loss added fit their machine types.
    pub fn loss_fits(&self, fired: u32, received: u32) -> (fits: bool)
        ensures
            fits == credit_loss(self@, fired as nat, received as nat).fits(),
    {
        self.games_played < u32::MAX && fired <= u32::MAX - self.total_shots_fired && received
            <= u32::MAX - self.total_shots_received
    }

    /// These totals with a win added.
    pub fn credit_win(self, fired: u32, received: u32) -> (after: PlayerStats)
        requires
            credit_win(self@, fired as nat, received as nat).fits(),
        ensures
            after@ == credit_win(self@, fired as nat, received as nat),
    {
        PlayerStats {
            games_played: self.games_played + 1,
            games_won: self.games_won + 1,
            total_shots_fired: self.total_shots_fired + fired,
            total_shots_received: self.total_shots_received + received,
            total_hits: self.total_hits + TOTAL_SHIPS,
        }
    }

    /// These totals with a loss added.
    pub fn credit_loss(self, fired: u32, received: u32) -> (after: PlayerStats)
        requires
            credit_loss(self@, fired as nat, received as nat).fits(),
        ensures
            after@ == credit_loss(self@, fired as nat, received as nat),
    {
        PlayerStats {
            games_played: self.games_played + 1,
            games_won: self.games_won,
            total_shots_fired: self.total_shots_fired + fired,
            total_shots_received: self.total_shots_received + received,
            total_hits: self.total_hits,
        }
    }
}

impl GameState {
    /// The history entry of the winner of this session.
    pub fn win_entry(&self, timestamp: u64) -> (entry: GameResult)
        ensures
            entry@ == win_entry(self@, timestamp),
    {
        let winner_is_p1 = self.winner.same(&self.player1);
        GameResult {
            opponent: self.other_player(&self.winner),
            won: true,
            shots_fired: if winner_is_p1 {
                self.shots_fired_p1
            } else {
                self.shots_fired_p2
            },
            shots_received: if winner_is_p1 {
                self.shots_fired_p2
            } else {
                self.shots_fired_p1
            },
            hits_scored: TOTAL_SHIPS,
            timestamp,
        }
    }

    /// The history entry of the loser of this session.
    pub fn loss_entry(&self, timestamp: u64) -> (entry: GameResult)
        ensures
            entry@ == loss_entry(self@, timestamp),
    {
        let winner_is_p1 = self.winner.same(&self.player1);
        GameResult {
            opponent: self.winner.clone(),
            won: false,
            shots_fired: if winner_is_p1 {
                self.shots_fired_p2
            } else {
                self.shots_fired_p1
            },
            shots_received: if winner_is_p1 {
                self.shots_fired_p1
            } else {
                self.shots_fired_p2
            },
            hits_scored: 0,
            timestamp,
        }
    }
}

} // verus!
