//! The executable transitions of one session, each proved against the
//! rules.

use crate::player::PlayerId;
use crate::rules;
use crate::state::{GameError, GamePhase, GameState, Session, GRID_SIZE, NO_SHOT, TOTAL_SHIPS};
use vstd::prelude::*;

verus! {

broadcast use vstd::array::group_array_axioms;

impl GameState {
    /// A session that nobody has joined yet, created on behalf of `player`.
    pub fn new(player: &PlayerId, session_id: u32) -> (state: GameState)
        ensures
            state@ == rules::new_session(player@, session_id),
    {
        let zero_hash: [u8; 32] = [0u8; 32];
        let state = GameState {
            player1: player.clone(),
            player2: player.clone(),
            board_hash_p1: zero_hash,
            board_hash_p2: zero_hash,
            hits_on_p1: 0,
            hits_on_p2: 0,
            shots_fired_p1: 0,
            shots_fired_p2: 0,
            turn: player.clone(),
            phase: GamePhase::WaitingForPlayers,
            pending_shot_x: NO_SHOT,
            pending_shot_y: NO_SHOT,
            pending_shooter: player.clone(),
            winner: player.clone(),
            has_winner: false,
            p1_committed: false,
            p2_committed: false,
            p1_joined: false,
            p2_joined: false,
            session_id,
        };
        assert(zero_hash@ =~= Seq::new(32, |i: int| 0u8));
        state
    }

    /// The seated player who is not `player`.
    pub fn other_player(&self, player: &PlayerId) -> (other: PlayerId)
        ensures
            other@ == self@.other_player(player@),
    {
        if player.same(&self.player1) {
            self.player2.clone()
        } else {
            self.player1.clone()
        }
    }

    /// Whether `player` holds one of the two seats.
    pub fn is_participant(&self, player: &PlayerId) -> (seated: bool)
        ensures
            seated == self@.is_participant(player@),
    {
        player.same(&self.player1) || player.same(&self.player2)
    }

    /// Seats `player`. Returns whether the second seat was taken, which is
    /// when the match starts.
    pub fn seat(&mut self, player: PlayerId) -> (result: Result<bool, GameError>)
        ensures
            match result {
                Ok(started) => {
                    &&& rules::seat(old(self)@, player@) == Ok::<_, GameError>(final(self)@)
                    &&& started == (final(self).phase == GamePhase::Commit)
                },
                Err(e) => {
                    &&& rules::seat(old(self)@, player@) == Err::<Session, _>(e)
                    &&& *final(self) == *old(self)
                },
            },
    {
        if self.phase != GamePhase::WaitingForPlayers {
            return Err(GameError::PhaseViolation);
        }
        if !self.p1_joined {
            self.player1 = player;
            self.p1_joined = true;
            Ok(false)
        } else {
            if self.player1.same(&player) {
                return Err(GameError::DuplicateJoin);
            }
            self.player2 = player;
            self.p2_joined = true;
            self.phase = GamePhase::Commit;
            Ok(true)
        }
    }

    /// Stores `player`'s board commitment. Once both boards are committed
    /// play begins, with player one to fire.
    pub fn commit_board(&mut self, player: &PlayerId, board_hash: [u8; 32]) -> (result: Result<
        (),
        GameError,
    >)
        ensures
            match result {
                Ok(()) => rules::commit_board(old(self)@, player@, board_hash@) == Ok::<
                    _,
                    GameError,
                >(final(self)@),
                Err(e) => {
                    &&& rules::commit_board(old(self)@, player@, board_hash@) == Err::<Session, _>(
                        e,
                    )
                    &&& *final(self) == *old(self)
                },
            },
    {
        if self.phase != GamePhase::Commit {
            return Err(GameError::PhaseViolation);
        }
        if player.same(&self.player1) {
            if self.p1_committed {
                return Err(GameError::DuplicateCommit);
            }
            self.board_hash_p1 = board_hash;
            self.p1_committed = true;
        } else if player.same(&self.player2) {
            if self.p2_committed {
                return Err(GameError::DuplicateCommit);
            }
            self.board_hash_p2 = board_hash;
            self.p2_committed = true;
        } else {
            return Err(GameError::UnknownPlayer);
        }
        if self.p1_committed && self.p2_committed {
            self.phase = GamePhase::Playing;
            self.turn = self.player1.clone();
        }
        Ok(())
    }

    /// Fires `shooter`'s shot at `(x, y)`.
    pub fn fire_shot(&mut self, shooter: &PlayerId, x: u32, y: u32) -> (result: Result<
        (),
        GameError,
    >)
        requires
            rules::fire_shot(old(self)@, shooter@, x, y) matches Ok(next) ==> next.fits(),
        ensures
            match result {
                Ok(()) => rules::fire_shot(old(self)@, shooter@, x, y) == Ok::<_, GameError>(
                    final(self)@,
                ),
                Err(e) => {
                    &&& rules::fire_shot(old(self)@, shooter@, x, y) == Err::<Session, _>(e)
                    &&& *final(self) == *old(self)
                },
            },
            result is Ok ==> final(self)@.turn == old(self)@.other_player(shooter@),
    {
        if self.phase != GamePhase::Playing {
            return Err(GameError::PhaseViolation);
        }
        if x >= GRID_SIZE || y >= GRID_SIZE {
            return Err(GameError::OutOfBounds);
        }
        if !self.turn.same(shooter) {
            return Err(GameError::NotYourTurn);
        }
        if self.pending_shot_x != NO_SHOT {
            return Err(GameError::ShotAlreadyPending);
        }
        let defender = self.other_player(shooter);
        self.pending_shot_x = x;
        self.pending_shot_y = y;
        self.pending_shooter = shooter.clone();
        if shooter.same(&self.player1) {
            self.shots_fired_p1 = self.shots_fired_p1 + 1;
        } else {
            self.shots_fired_p2 = self.shots_fired_p2 + 1;
        }
        self.turn = defender;
        Ok(())
    }

    /// Checks everything about an answer that does not depend on its proof.
    pub fn check_response(&self, defender: &PlayerId, x: u32, y: u32) -> (result: Result<
        (),
        GameError,
    >)
        ensures
            match result {
                Ok(()) => rules::response_refusal(self@, defender@, x, y) is None,
                Err(e) => rules::response_refusal(self@, defender@, x, y) == Some(e),
            },
    {
        if self.phase != GamePhase::Playing {
            return Err(GameError::PhaseViolation);
        }
        if self.pending_shot_x == NO_SHOT {
            return Err(GameError::NoPendingShot);
        }
        if self.pending_shot_x != x || self.pending_shot_y != y {
            return Err(GameError::ShotMismatch);
        }
        if defender.same(&self.pending_shooter) {
            return Err(GameError::InvalidResponder);
        }
        if !self.turn.same(defender) {
            return Err(GameError::NotYourTurn);
        }
        if !self.is_participant(defender) {
            return Err(GameError::UnknownPlayer);
        }
        Ok(())
    }

    /// The commitment that an answer by `defender` is checked against.
    pub fn defender_commitment(&self, defender: &PlayerId) -> (board_hash: [u8; 32])
        ensures
            board_hash@ == rules::defender_commitment(self@, defender@),
    {
        if defender.same(&self.player1) {
            self.board_hash_p1
        } else {
            self.board_hash_p2
        }
    }

    /// Applies `defender`'s answer to the pending shot, given the proof
    /// verifier's verdict on it. Returns whether the answer ended the match.
    pub fn respond(
        &mut self,
        defender: &PlayerId,
        x: u32,
        y: u32,
        is_hit: bool,
        accepted: bool,
    ) -> (result: Result<bool, GameError>)
        requires
            rules::respond(old(self)@, defender@, x, y, is_hit, accepted) matches Ok(next)
                ==> next.fits(),
        ensures
            match result {
                Ok(finished) => {
                    &&& rules::respond(old(self)@, defender@, x, y, is_hit, accepted) == Ok::<
                        _,
                        GameError,
                    >(final(self)@)
                    &&& finished == rules::answer_is_final(old(self)@, defender@, is_hit)
                },
                Err(e) => {
                    &&& rules::respond(old(self)@, defender@, x, y, is_hit, accepted) == Err::<
                        Session,
                        _,
                    >(e)
                    &&& *final(self) == *old(self)
                },
            },
            result matches Ok(false) ==> final(self)@.turn == old(self)@.pending_shooter,
    {
        match self.check_response(defender, x, y) {
            Err(e) => {
                return Err(e);
            },
            Ok(()) => {},
        }
        if !accepted {
            return Err(GameError::InvalidProof);
        }
        let on_player1 = defender.same(&self.player1);
        self.pending_shot_x = NO_SHOT;
        self.pending_shot_y = NO_SHOT;
        if is_hit {
            if on_player1 {
                self.hits_on_p1 = self.hits_on_p1 + 1;
            } else {
                self.hits_on_p2 = self.hits_on_p2 + 1;
            }
            let hits_on_defender: u32 = if on_player1 {
                self.hits_on_p1
            } else {
                self.hits_on_p2
            };
            if hits_on_defender >= TOTAL_SHIPS {
                self.winner = self.pending_shooter.clone();
                self.has_winner = true;
                self.phase = GamePhase::Finished;
                return Ok(true);
            }
        }
        self.turn = self.pending_shooter.clone();
        Ok(false)
    }
}

} // verus!
