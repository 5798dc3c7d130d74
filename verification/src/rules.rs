//! The rules of a session, as functions from a session and a call to the
//! session that follows or to the reason for refusing the call.

use crate::state::{GameError, GamePhase, Session, GRID_SIZE, NO_SHOT, TOTAL_SHIPS};
use vstd::prelude::*;

verus! {

/// Smallest proof, in bytes, that the stand-in verifier accepts.
pub const MIN_PROOF_LEN: usize = 32;

/// The session that the first `join` creates before seating its caller:
/// the caller stands in for every identifier, nothing is joined or
/// committed, and no shot is pending.
pub open spec fn new_session(player: Seq<char>, session_id: u32) -> Session {
    Session {
        player1: player,
        player2: player,
        board_hash_p1: Seq::new(32, |i: int| 0u8),
        board_hash_p2: Seq::new(32, |i: int| 0u8),
        hits_on_p1: 0,
        hits_on_p2: 0,
        shots_fired_p1: 0,
        shots_fired_p2: 0,
        turn: player,
        phase: GamePhase::WaitingForPlayers,
        pending_shot_x: NO_SHOT,
        pending_shot_y: NO_SHOT,
        pending_shooter: player,
        winner: player,
        has_winner: false,
        p1_committed: false,
        p2_committed: false,
        p1_joined: false,
        p2_joined: false,
        session_id,
    }
}

/// `player` asks for a seat in an existing session. The first caller takes
/// seat one; a second, distinct caller takes seat two and moves the session
/// to the commit phase.
pub open spec fn seat(s: Session, player: Seq<char>) -> Result<Session, GameError> {
    if s.phase != GamePhase::WaitingForPlayers {
        Err(GameError::PhaseViolation)
    } else if !s.p1_joined {
        Ok(Session { player1: player, p1_joined: true, ..s })
    } else if s.player1 == player {
        Err(GameError::DuplicateJoin)
    } else {
        Ok(Session { player2: player, p2_joined: true, phase: GamePhase::Commit, ..s })
    }
}

/// `player` asks for a seat. Without a session one is created under
/// `session_id` first.
pub open spec fn join(pre: Option<Session>, player: Seq<char>, session_id: u32) -> Result<
    Session,
    GameError,
> {
    match pre {
        Some(s) => seat(s, player),
        None => seat(new_session(player, session_id), player),
    }
}

/// Moves a session in which both boards are committed to the playing phase,
/// with player one to fire first.
pub open spec fn begin_play_if_ready(s: Session) -> Session {
    if s.p1_committed && s.p2_committed {
        Session { phase: GamePhase::Playing, turn: s.player1, ..s }
    } else {
        s
    }
}

/// `player` commits the hash of a board.
pub open spec fn commit_board(s: Session, player: Seq<char>, board_hash: Seq<u8>) -> Result<
    Session,
    GameError,
> {
    if s.phase != GamePhase::Commit {
        Err(GameError::PhaseViolation)
    } else if player == s.player1 {
        if s.p1_committed {
            Err(GameError::DuplicateCommit)
        } else {
            Ok(begin_play_if_ready(Session { board_hash_p1: board_hash, p1_committed: true, ..s }))
        }
    } else if player == s.player2 {
        if s.p2_committed {
            Err(GameError::DuplicateCommit)
        } else {
            Ok(begin_play_if_ready(Session { board_hash_p2: board_hash, p2_committed: true, ..s }))
        }
    } else {
        Err(GameError::UnknownPlayer)
    }
}

/// `shooter` fires at `(x, y)`. The shot becomes pending, the shooter's
/// count of shots grows by one, and the turn passes to the other player,
/// who has to answer.
pub open spec fn fire_shot(s: Session, shooter: Seq<char>, x: u32, y: u32) -> Result<
    Session,
    GameError,
> {
    if s.phase != GamePhase::Playing {
        Err(GameError::PhaseViolation)
    } else if x >= GRID_SIZE || y >= GRID_SIZE {
        Err(GameError::OutOfBounds)
    } else if s.turn != shooter {
        Err(GameError::NotYourTurn)
    } else if s.pending_shot_x != NO_SHOT {
        Err(GameError::ShotAlreadyPending)
    } else {
        Ok(
            Session {
                pending_shot_x: x,
                pending_shot_y: y,
                pending_shooter: shooter,
                shots_fired_p1: if shooter == s.player1 {
                    s.shots_fired_p1 + 1
                } else {
                    s.shots_fired_p1
                },
                shots_fired_p2: if shooter == s.player1 {
                    s.shots_fired_p2
                } else {
                    s.shots_fired_p2 + 1
                },
                turn: s.other_player(shooter),
                ..s
            },
        )
    }
}

/// The reason for refusing an answer before the proof is looked at, if
/// there is one.
pub open spec fn response_refusal(s: Session, defender: Seq<char>, x: u32, y: u32) -> Option<
    GameError,
> {
    if s.phase != GamePhase::Playing {
        Some(GameError::PhaseViolation)
    } else if s.pending_shot_x == NO_SHOT {
        Some(GameError::NoPendingShot)
    } else if s.pending_shot_x != x || s.pending_shot_y != y {
        Some(GameError::ShotMismatch)
    } else if defender == s.pending_shooter {
        Some(GameError::InvalidResponder)
    } else if s.turn != defender {
        Some(GameError::NotYourTurn)
    } else if !s.is_participant(defender) {
        Some(GameError::UnknownPlayer)
    } else {
        None
    }
}

/// The commitment that an answer by `defender` is checked against.
pub open spec fn defender_commitment(s: Session, defender: Seq<char>) -> Seq<u8> {
    if defender == s.player1 {
        s.board_hash_p1
    } else {
        s.board_hash_p2
    }
}

/// Hits on `defender`'s board.
pub open spec fn hits_on(s: Session, defender: Seq<char>) -> nat {
    if defender == s.player1 {
        s.hits_on_p1
    } else {
        s.hits_on_p2
    }
}

/// The session after the pending shot is cleared and, for a hit, counted
/// against `defender`.
pub open spec fn record_answer(s: Session, defender: Seq<char>, is_hit: bool) -> Session {
    Session {
        pending_shot_x: NO_SHOT,
        pending_shot_y: NO_SHOT,
        hits_on_p1: if is_hit && defender == s.player1 {
            s.hits_on_p1 + 1
        } else {
            s.hits_on_p1
        },
        hits_on_p2: if is_hit && defender != s.player1 {
            s.hits_on_p2 + 1
        } else {
            s.hits_on_p2
        },
        ..s
    }
}

/// Whether an accepted answer sinks the defender's last ship.
pub open spec fn answer_is_final(s: Session, defender: Seq<char>, is_hit: bool) -> bool {
    is_hit && hits_on(record_answer(s, defender, is_hit), defender) >= TOTAL_SHIPS
}

/// The session after an accepted answer: either the shooter has won and the
/// session is finished, or the turn goes back to the shooter.
pub open spec fn apply_response(s: Session, defender: Seq<char>, is_hit: bool) -> Session {
    let t = record_answer(s, defender, is_hit);
    if answer_is_final(s, defender, is_hit) {
        Session { winner: s.pending_shooter, has_winner: true, phase: GamePhase::Finished, ..t }
    } else {
        Session { turn: s.pending_shooter, ..t }
    }
}

/// `defender` answers the pending shot at `(x, y)`; `accepted` is the proof
/// verifier's verdict on the answer.
pub open spec fn respond(
    s: Session,
    defender: Seq<char>,
    x: u32,
    y: u32,
    is_hit: bool,
    accepted: bool,
) -> Result<Session, GameError> {
    match response_refusal(s, defender, x, y) {
        Some(e) => Err(e),
        None => if accepted {
            Ok(apply_response(s, defender, is_hit))
        } else {
            Err(GameError::InvalidProof)
        },
    }
}

/// What the length check says of a proof: it passes with `MIN_PROOF_LEN`
/// bytes or more, whatever it is a proof of. The check takes the place of
/// a real verifier and has no cryptographic meaning.
pub open spec fn proof_accepted(
    proof: Seq<u8>,
    board_hash: Seq<u8>,
    x: u32,
    y: u32,
    is_hit: bool,
) -> bool {
    proof.len() >= MIN_PROOF_LEN
}

/// Whether `caller` may discard the session.
pub open spec fn may_reset(s: Session, caller: Seq<char>) -> bool {
    s.is_participant(caller)
}

} // verus!
