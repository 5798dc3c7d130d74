//! The session record and its mathematical model.

use crate::player::PlayerId;
use vstd::prelude::*;

verus! {

/// Number of ships on each board: the hit count that ends a match.
pub const TOTAL_SHIPS: u32 = 3;

/// Side length of the square grid that shots are aimed at.
pub const GRID_SIZE: u32 = 5;

/// Coordinate value that stands for "no shot is pending".
pub const NO_SHOT: u32 = 0xffff_ffff;

/// The phases a session passes through, in this order and never backwards.
#[derive(Clone, Copy, Debug, PartialEq, Eq, Structural)]
pub enum GamePhase {
    WaitingForPlayers,
    Commit,
    Playing,
    Finished,
}

/// Why a call was rejected. A rejected call leaves every record untouched.
#[derive(Clone, Copy, Debug, PartialEq, Eq, Structural)]
pub enum GameError {
    /// The action is not valid in the session's current phase.
    PhaseViolation,
    /// The caller is not the player whose turn it is.
    NotYourTurn,
    /// The caller is neither of the two seated players.
    UnknownPlayer,
    /// The player who fired the pending shot tried to answer it.
    InvalidResponder,
    /// The first seated player tried to take the second seat too.
    DuplicateJoin,
    /// The player has already committed a board.
    DuplicateCommit,
    /// A coordinate lies outside the grid.
    OutOfBounds,
    /// The answered coordinates are not those of the pending shot.
    ShotMismatch,
    /// There is no shot to answer.
    NoPendingShot,
    /// The previous shot has not been answered yet.
    ShotAlreadyPending,
    /// The proof verifier rejected the answer.
    InvalidProof,
    /// The caller is not a participant of the session.
    Unauthorized,
    /// No session exists.
    NotInitialized,
}

/// The record of the one active session.
#[derive(Debug)]
pub struct GameState {
    pub player1: PlayerId,
    pub player2: PlayerId,
    pub board_hash_p1: [u8; 32],
    pub board_hash_p2: [u8; 32],
    /// Confirmed hits on player one's board.
    pub hits_on_p1: u32,
    /// Confirmed hits on player two's board.
    pub hits_on_p2: u32,
    /// Shots fired by player one.
    pub shots_fired_p1: u32,
    /// Shots fired by player two.
    pub shots_fired_p2: u32,
    /// The player authorised to act next, whether to fire or to answer.
    pub turn: PlayerId,
    pub phase: GamePhase,
    /// Coordinates of the pending shot; both are `NO_SHOT` when none is pending.
    pub pending_shot_x: u32,
    pub pending_shot_y: u32,
    /// The player who fired the pending shot.
    pub pending_shooter: PlayerId,
    pub winner: PlayerId,
    pub has_winner: bool,
    pub p1_committed: bool,
    pub p2_committed: bool,
    pub p1_joined: bool,
    pub p2_joined: bool,
    /// Assigned at creation and passed to the match registry.
    pub session_id: u32,
}

/// A shot that has been fired and not yet answered.
pub struct Shot {
    pub x: u32,
    pub y: u32,
    pub shooter: Seq<char>,
}

/// The model of a session: players by their keys, commitments as byte
/// sequences, counters as unbounded naturals.
pub struct Session {
    pub player1: Seq<char>,
    pub player2: Seq<char>,
    pub board_hash_p1: Seq<u8>,
    pub board_hash_p2: Seq<u8>,
    pub hits_on_p1: nat,
    pub hits_on_p2: nat,
    pub shots_fired_p1: nat,
    pub shots_fired_p2: nat,
    pub turn: Seq<char>,
    pub phase: GamePhase,
    pub pending_shot_x: u32,
    pub pending_shot_y: u32,
    pub pending_shooter: Seq<char>,
    pub winner: Seq<char>,
    pub has_winner: bool,
    pub p1_committed: bool,
    pub p2_committed: bool,
    pub p1_joined: bool,
    pub p2_joined: bool,
    pub session_id: u32,
}

impl Session {
    /// The shot awaiting an answer, if there is one.
    pub open spec fn pending_shot(self) -> Option<Shot> {
        if self.pending_shot_x == NO_SHOT {
            None
        } else {
            Some(Shot { x: self.pending_shot_x, y: self.pending_shot_y, shooter: self.pending_shooter })
        }
    }

    /// The seated player who is not `player`: player two for player one,
    /// player one for anyone else.
    pub open spec fn other_player(self, player: Seq<char>) -> Seq<char> {
        if player == self.player1 {
            self.player2
        } else {
            self.player1
        }
    }

    /// Whether `player` holds one of the two seats.
    pub open spec fn is_participant(self, player: Seq<char>) -> bool {
        player == self.player1 || player == self.player2
    }

    /// Whether every counter fits the machine type that stores it.
    pub open spec fn fits(self) -> bool {
        &&& self.hits_on_p1 <= u32::MAX
        &&& self.hits_on_p2 <= u32::MAX
        &&& self.shots_fired_p1 <= u32::MAX
        &&& self.shots_fired_p2 <= u32::MAX
    }
}

impl View for GameState {
    type V = Session;

    open spec fn view(&self) -> Session {
        Session {
            player1: self.player1@,
            player2: self.player2@,
            board_hash_p1: self.board_hash_p1@,
            board_hash_p2: self.board_hash_p2@,
            hits_on_p1: self.hits_on_p1 as nat,
            hits_on_p2: self.hits_on_p2 as nat,
            shots_fired_p1: self.shots_fired_p1 as nat,
            shots_fired_p2: self.shots_fired_p2 as nat,
            turn: self.turn@,
            phase: self.phase,
            pending_shot_x: self.pending_shot_x,
            pending_shot_y: self.pending_shot_y,
            pending_shooter: self.pending_shooter@,
            winner: self.winner@,
            has_winner: self.has_winner,
            p1_committed: self.p1_committed,
            p2_committed: self.p2_committed,
            p1_joined: self.p1_joined,
            p2_joined: self.p2_joined,
            session_id: self.session_id,
        }
    }
}

impl Clone for GameState {
    fn clone(&self) -> (copy: GameState)
        ensures
            copy@ == self@,
    {
        GameState {
            player1: self.player1.clone(),
            player2: self.player2.clone(),
            board_hash_p1: self.board_hash_p1,
            board_hash_p2: self.board_hash_p2,
            hits_on_p1: self.hits_on_p1,
            hits_on_p2: self.hits_on_p2,
            shots_fired_p1: self.shots_fired_p1,
            shots_fired_p2: self.shots_fired_p2,
            turn: self.turn.clone(),
            phase: self.phase,
            pending_shot_x: self.pending_shot_x,
            pending_shot_y: self.pending_shot_y,
            pending_shooter: self.pending_shooter.clone(),
            winner: self.winner.clone(),
            has_winner: self.has_winner,
            p1_committed: self.p1_committed,
            p2_committed: self.p2_committed,
            p1_joined: self.p1_joined,
            p2_joined: self.p2_joined,
            session_id: self.session_id,
        }
    }
}

} // verus!
