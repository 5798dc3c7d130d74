//! Per-player statistics and match history, written at settlement only.

use crate::player::PlayerId;
use vstd::prelude::*;

verus! {

/// Running totals of one player over all settled matches.
#[derive(Clone, Copy, Debug, PartialEq, Eq, Structural)]
pub struct PlayerStats {
    pub games_played: u32,
    pub games_won: u32,
    pub total_shots_fired: u32,
    pub total_shots_received: u32,
    pub total_hits: u32,
}

/// One settled match, as seen by one of its players.
#[derive(Debug, PartialEq, Eq)]
pub struct GameResult {
    pub opponent: PlayerId,
    pub won: bool,
    pub shots_fired: u32,
    pub shots_received: u32,
    pub hits_scored: u32,
    pub timestamp: u64,
}

/// The model of a player's totals, with unbounded counters.
pub struct Totals {
    pub games_played: nat,
    pub games_won: nat,
    pub total_shots_fired: nat,
    pub total_shots_received: nat,
    pub total_hits: nat,
}

/// The model of a history entry.
pub struct Outcome {
    pub opponent: Seq<char>,
    pub won: bool,
    pub shots_fired: nat,
    pub shots_received: nat,
    pub hits_scored: nat,
    pub timestamp: u64,
}

impl Totals {
    /// The totals of a player with no settled match.
    pub open spec fn zero() -> Totals {
        Totals {
            games_played: 0,
            games_won: 0,
            total_shots_fired: 0,
            total_shots_received: 0,
            total_hits: 0,
        }
    }

    /// Whether every total fits the machine type that stores it.
    pub open spec fn fits(self) -> bool {
        &&& self.games_played <= u32::MAX
        &&& self.games_won <= u32::MAX
        &&& self.total_shots_fired <= u32::MAX
        &&& self.total_shots_received <= u32::MAX
        &&& self.total_hits <= u32::MAX
    }
}

impl View for PlayerStats {
    type V = Totals;

    open spec fn view(&self) -> Totals {
        Totals {
            games_played: self.games_played as nat,
            games_won: self.games_won as nat,
            total_shots_fired: self.total_shots_fired as nat,
            total_shots_received: self.total_shots_received as nat,
            total_hits: self.total_hits as nat,
        }
    }
}

impl View for GameResult {
    type V = Outcome;

    open spec fn view(&self) -> Outcome {
        Outcome {
            opponent: self.opponent@,
            won: self.won,
            shots_fired: self.shots_fired as nat,
            shots_received: self.shots_received as nat,
            hits_scored: self.hits_scored as nat,
            timestamp: self.timestamp,
        }
    }
}

/// The models of the entries of a history, in order.
pub open spec fn outcomes(history: Seq<GameResult>) -> Seq<Outcome> {
    Seq::new(history.len(), |i: int| history[i]@)
}

impl PlayerStats {
    /// The totals of a player with no settled match.
    pub fn zero() -> (stats: PlayerStats)
        ensures
            stats@ == Totals::zero(),
    {
        PlayerStats {
            games_played: 0,
            games_won: 0,
            total_shots_fired: 0,
            total_shots_received: 0,
            total_hits: 0,
        }
    }
}

impl Clone for GameResult {
    fn clone(&self) -> (copy: GameResult)
        ensures
            copy@ == self@,
    {
        GameResult {
            opponent: self.opponent.clone(),
            won: self.won,
            shots_fired: self.shots_fired,
            shots_received: self.shots_received,
            hits_scored: self.hits_scored,
            timestamp: self.timestamp,
        }
    }
}

/// Copies a history entry by entry.
pub fn clone_history(history: &Vec<GameResult>) -> (copy: Vec<GameResult>)
    ensures
        outcomes(copy@) == outcomes(history@),
{
    let mut copy: Vec<GameResult> = Vec::new();
    let mut i: usize = 0;
    while i < history.len()
        invariant
            i <= history.len(),
            copy.len() == i,
            forall|j: int| 0 <= j < i ==> copy[j]@ == history[j]@,
        decreases history.len() - i,
    {
        copy.push(history[i].clone());
        i = i + 1;
    }
    assert(outcomes(copy@) =~= outcomes(history@));
    copy
}

} // verus!
