//! The contract: one session slot and the records of all players, with the
//! calls that players and the host make on it.

use crate::player::PlayerId;
use crate::player_map::PlayerMap;
use crate::records::{start_notice, Notice, Records};
use crate::rules;
use crate::rules::MIN_PROOF_LEN;
use crate::settlement::{
    credit_loss, credit_win, history_after_win, history_of, loser, loss_entry, settled_history,
    settled_stats, settlement_fits, stats_after_win, win_entry,
};
use crate::state::{GameError, GamePhase, GameState, Session, GRID_SIZE, NO_SHOT, TOTAL_SHIPS};
use crate::stats::{clone_history, outcomes, GameResult, Outcome, PlayerStats, Totals};
use vstd::prelude::*;

verus! {

/// A message that the host passes on to the match registry after the call
/// that returned it. Delivery is best effort: the call has already taken
/// effect, and a failed delivery changes nothing.
#[derive(Debug, PartialEq, Eq)]
pub enum HubCall {
    /// A match began.
    StartGame { session_id: u32, player1: PlayerId, player2: PlayerId },
    /// A match ended.
    EndGame { session_id: u32, player1_won: bool },
}

impl View for HubCall {
    type V = Notice;

    open spec fn view(&self) -> Notice {
        match self {
            HubCall::StartGame { session_id, player1, player2 } => Notice::StartGame {
                session_id: *session_id,
                player1: player1@,
                player2: player2@,
            },
            HubCall::EndGame { session_id, player1_won } => Notice::EndGame {
                session_id: *session_id,
                player1_won: *player1_won,
            },
        }
    }
}

/// The model of an optional message.
pub open spec fn notice_of(call: Option<HubCall>) -> Option<Notice> {
    match call {
        Some(c) => Some(c@),
        None => None,
    }
}

/// The models of the stored totals.
pub open spec fn totals_map(stats: Map<Seq<char>, PlayerStats>) -> Map<Seq<char>, Totals> {
    Map::new(|player: Seq<char>| stats.dom().contains(player), |player: Seq<char>| stats[player]@)
}

/// The models of the stored histories.
pub open spec fn outcomes_map(history: Map<Seq<char>, Vec<GameResult>>) -> Map<
    Seq<char>,
    Seq<Outcome>,
> {
    Map::new(
        |player: Seq<char>| history.dom().contains(player),
        |player: Seq<char>| outcomes(history[player]@),
    )
}

/// The stand-in proof verifier: accepts a proof of at least
/// `MIN_PROOF_LEN` bytes and looks at nothing else. It has no cryptographic
/// meaning and has to be replaced by a real verifier before any serious
/// use.
pub fn verify_zk_proof(proof: &Vec<u8>, board_hash: &[u8; 32], x: u32, y: u32, is_hit: bool) -> (accepted:
    bool)
    ensures
        accepted == rules::proof_accepted(proof@, board_hash@, x, y, is_hit),
{
    proof.len() >= MIN_PROOF_LEN
}

/// The message that announces the start of the match in `state`.
pub fn call_hub_start(state: &GameState) -> (call: HubCall)
    ensures
        call@ == start_notice(state@),
{
    HubCall::StartGame {
        session_id: state.session_id,
        player1: state.player1.clone(),
        player2: state.player2.clone(),
    }
}

/// The message that announces the end of a match.
pub fn call_hub_end(session_id: u32, player1_won: bool) -> (call: HubCall)
    ensures
        call@ == (Notice::EndGame { session_id, player1_won }),
{
    HubCall::EndGame { session_id, player1_won }
}

/// The contract's state: the session slot and the player records.
pub struct BattleshipContract {
    state: Option<GameState>,
    stats: PlayerMap<PlayerStats>,
    history: PlayerMap<Vec<GameResult>>,
}

impl View for BattleshipContract {
    type V = Records;

    closed spec fn view(&self) -> Records {
        Records {
            session: match self.state {
                Some(s) => Some(s@),
                None => None,
            },
            stats: totals_map(self.stats@),
            history: outcomes_map(self.history@),
        }
    }
}

impl BattleshipContract {
    /// A contract that has seen no call yet.
    pub fn new() -> (contract: BattleshipContract)
        ensures
            contract@ == Records::empty(),
    {
        let contract = BattleshipContract {
            state: None,
            stats: PlayerMap::new(),
            history: PlayerMap::new(),
        };
        assert(contract@.stats =~= Map::empty());
        assert(contract@.history =~= Map::empty());
        contract
    }

    /// The active session.
    pub fn load_state(&self) -> (result: Result<&GameState, GameError>)
        ensures
            match result {
                Ok(state) => self@.session == Some(state@),
                Err(e) => e == GameError::NotInitialized && self@.session is None,
            },
    {
        match &self.state {
            Some(state) => Ok(state),
            None => Err(GameError::NotInitialized),
        }
    }

    /// A copy of the active session, if there is one.
    pub fn get_state(&self) -> (state: Option<GameState>)
        ensures
            match state {
                Some(s) => self@.session == Some(s@),
                None => self@.session is None,
            },
    {
        match &self.state {
            Some(state) => Some(state.clone()),
            None => None,
        }
    }

    /// The totals of `player`, if a match of theirs has been settled.
    pub fn get_player_stats(&self, player: PlayerId) -> (stats: Option<PlayerStats>)
        ensures
            match stats {
                Some(s) => self@.stats.dom().contains(player@) && self@.stats[player@] == s@,
                None => !self@.stats.dom().contains(player@),
            },
    {
        match self.stats.get(&player) {
            Some(stats) => Some(*stats),
            None => None,
        }
    }

    /// The history of `player`, oldest entry first; empty if no match of
    /// theirs has been settled.
    pub fn get_player_history(&self, player: PlayerId) -> (history: Vec<GameResult>)
        ensures
            outcomes(history@) == history_of(self@.history, player@),
    {
        match self.history.get(&player) {
            Some(history) => clone_history(history),
            None => {
                let history: Vec<GameResult> = Vec::new();
                assert(outcomes(history@) =~= Seq::<Outcome>::empty());
                history
            },
        }
    }

    /// Settles the finished session `state`: brings the totals of both
    /// players up to date and appends one entry to each history. The
    /// winner's records are written before the loser's.
    fn record_result(&mut self, state: &GameState, timestamp: u64)
        requires
            settlement_fits(old(self)@.stats, state@),
        ensures
            final(self)@.session == old(self)@.session,
            final(self)@.stats == settled_stats(old(self)@.stats, state@),
            final(self)@.history == settled_history(old(self)@.history, state@, timestamp),
    {
        let winner_is_p1 = state.winner.same(&state.player1);
        let loser_id = state.other_player(&state.winner);
        let winner_shots: u32 = if winner_is_p1 {
            state.shots_fired_p1
        } else {
            state.shots_fired_p2
        };
        let loser_shots: u32 = if winner_is_p1 {
            state.shots_fired_p2
        } else {
            state.shots_fired_p1
        };

        let winner_before = match self.stats.get(&state.winner) {
            Some(stats) => *stats,
            None => PlayerStats::zero(),
        };
        let winner_after = winner_before.credit_win(winner_shots, loser_shots);
        self.stats.insert(state.winner.clone(), winner_after);
        assert(totals_map(self.stats@) =~= stats_after_win(old(self)@.stats, state@));

        let loser_before = match self.stats.get(&loser_id) {
            Some(stats) => *stats,
            None => PlayerStats::zero(),
        };
        let loser_after = loser_before.credit_loss(loser_shots, winner_shots);
        self.stats.insert(loser_id.clone(), loser_after);
        assert(totals_map(self.stats@) =~= settled_stats(old(self)@.stats, state@));

        let mut winner_history = match self.history.take(&state.winner) {
            Some(history) => history,
            None => Vec::new(),
        };
        let ghost winner_prior = winner_history@;
        assert(outcomes(winner_prior) =~= history_of(old(self)@.history, state.winner@));
        winner_history.push(state.win_entry(timestamp));
        assert(outcomes(winner_history@) =~= outcomes(winner_prior).push(
            win_entry(state@, timestamp),
        ));
        self.history.insert(state.winner.clone(), winner_history);
        assert(outcomes_map(self.history@) =~= history_after_win(
            old(self)@.history,
            state@,
            timestamp,
        ));

        let mut loser_history = match self.history.take(&loser_id) {
            Some(history) => history,
            None => Vec::new(),
        };
        let ghost loser_prior = loser_history@;
        assert(outcomes(loser_prior) =~= history_of(
            history_after_win(old(self)@.history, state@, timestamp),
            loser_id@,
        ));
        loser_history.push(state.loss_entry(timestamp));
        assert(outcomes(loser_history@) =~= outcomes(loser_prior).push(
            loss_entry(state@, timestamp),
        ));
        self.history.insert(loser_id, loser_history);
        assert(outcomes_map(self.history@) =~= settled_history(
            old(self)@.history,
            state@,
            timestamp,
        ));
    }

    /// `player` asks for a seat. The first call creates the session, under
    /// `session_id`, and seats its caller; the second seats a distinct
    /// caller, moves the session to the commit phase and returns the
    /// message that announces the match.
    pub fn join_game(&mut self, player: PlayerId, session_id: u32) -> (result: Result<
        Option<HubCall>,
        GameError,
    >)
        ensures
            match result {
                Ok(call) => {
                    &&& old(self)@.join_game(player@, session_id) == Ok::<_, GameError>(
                        final(self)@,
                    )
                    &&& notice_of(call) == old(self)@.join_notice(player@, session_id)
                },
                Err(e) => {
                    &&& old(self)@.join_game(player@, session_id) == Err::<Records, _>(e)
                    &&& *final(self) == *old(self)
                },
            },
    {
        let mut state = match self.state.take() {
            Some(state) => state,
            None => GameState::new(&player, session_id),
        };
        match state.seat(player) {
            Ok(started) => {
                let call = if started {
                    Some(call_hub_start(&state))
                } else {
                    None
                };
                self.state = Some(state);
                Ok(call)
            },
            Err(e) => {
                self.state = Some(state);
                Err(e)
            },
        }
    }

    /// `player` commits the hash of a board.
    pub fn commit_board(&mut self, player: PlayerId, board_hash: [u8; 32]) -> (result: Result<
        (),
        GameError,
    >)
        ensures
            match result {
                Ok(()) => old(self)@.commit_board(player@, board_hash@) == Ok::<_, GameError>(
                    final(self)@,
                ),
                Err(e) => {
                    &&& old(self)@.commit_board(player@, board_hash@) == Err::<Records, _>(e)
                    &&& *final(self) == *old(self)
                },
            },
    {
        let mut state = match self.state.take() {
            Some(state) => state,
            None => {
                return Err(GameError::NotInitialized);
            },
        };
        let result = state.commit_board(&player, board_hash);
        self.state = Some(state);
        result
    }

    /// `shooter` fires at `(x, y)`.
    pub fn fire_shot(&mut self, shooter: PlayerId, x: u32, y: u32) -> (result: Result<
        (),
        GameError,
    >)
        requires
            old(self)@.shot_fits(shooter@, x, y),
        ensures
            match result {
                Ok(()) => old(self)@.fire_shot(shooter@, x, y) == Ok::<_, GameError>(
                    final(self)@,
                ),
                Err(e) => {
                    &&& old(self)@.fire_shot(shooter@, x, y) == Err::<Records, _>(e)
                    &&& *final(self) == *old(self)
                },
            },
            result is Ok ==> final(self)@.session->0.turn == old(self)@.session->0.other_player(
                shooter@,
            ),
    {
        let mut state = match self.state.take() {
            Some(state) => state,
            None => {
                return Err(GameError::NotInitialized);
            },
        };
        let result = state.fire_shot(&shooter, x, y);
        self.state = Some(state);
        result
    }

    /// `defender` answers the pending shot at `(x, y)`, and the proof
    /// verifier has judged the answer: `accepted` is what it found. An
    /// accepted answer that sinks the defender's last ship ends the match:
    /// it is settled under `timestamp`, and the message that announces its
    /// end is returned.
    pub fn resolve_response(
        &mut self,
        defender: PlayerId,
        x: u32,
        y: u32,
        is_hit: bool,
        accepted: bool,
        timestamp: u64,
    ) -> (result: Result<Option<HubCall>, GameError>)
        requires
            old(self)@.respond_fits(defender@, x, y, is_hit, accepted),
        ensures
            match result {
                Ok(call) => {
                    &&& old(self)@.respond(defender@, x, y, is_hit, accepted, timestamp) == Ok::<
                        _,
                        GameError,
                    >(final(self)@)
                    &&& notice_of(call) == old(self)@.respond_notice(
                        defender@,
                        x,
                        y,
                        is_hit,
                        accepted,
                    )
                },
                Err(e) => {
                    &&& old(self)@.respond(defender@, x, y, is_hit, accepted, timestamp) == Err::<
                        Records,
                        _,
                    >(e)
                    &&& *final(self) == *old(self)
                },
            },
            result matches Ok(None) ==> final(self)@.session->0.turn
                == old(self)@.session->0.pending_shooter,
    {
        let mut state = match self.state.take() {
            Some(state) => state,
            None => {
                return Err(GameError::NotInitialized);
            },
        };
        match state.respond(&defender, x, y, is_hit, accepted) {
            Ok(finished) => {
                let call = if finished {
                    self.record_result(&state, timestamp);
                    Some(call_hub_end(state.session_id, state.winner.same(&state.player1)))
                } else {
                    None
                };
                self.state = Some(state);
                Ok(call)
            },
            Err(e) => {
                self.state = Some(state);
                Err(e)
            },
        }
    }

    /// `defender` answers the pending shot at `(x, y)` with `proof`. The
    /// proof is judged by the length check, and only once nothing else
    /// speaks against the answer; the answer is then applied as by
    /// `resolve_response`.
    pub fn submit_response(
        &mut self,
        defender: PlayerId,
        x: u32,
        y: u32,
        is_hit: bool,
        proof: Vec<u8>,
        timestamp: u64,
    ) -> (result: Result<Option<HubCall>, GameError>)
        requires
            old(self)@.respond_fits(
                defender@,
                x,
                y,
                is_hit,
                old(self)@.proof_verdict(defender@, x, y, is_hit, proof@),
            ),
        ensures
            match result {
                Ok(call) => {
                    &&& old(self)@.submit_response(defender@, x, y, is_hit, proof@, timestamp)
                        == Ok::<_, GameError>(final(self)@)
                    &&& notice_of(call) == old(self)@.respond_notice(
                        defender@,
                        x,
                        y,
                        is_hit,
                        old(self)@.proof_verdict(defender@, x, y, is_hit, proof@),
                    )
                },
                Err(e) => {
                    &&& old(self)@.submit_response(defender@, x, y, is_hit, proof@, timestamp)
                        == Err::<Records, _>(e)
                    &&& *final(self) == *old(self)
                },
            },
            result matches Ok(None) ==> final(self)@.session->0.turn
                == old(self)@.session->0.pending_shooter,
    {
        let accepted = match &self.state {
            None => {
                return Err(GameError::NotInitialized);
            },
            Some(state) => match state.check_response(&defender, x, y) {
                Err(e) => {
                    return Err(e);
                },
                Ok(()) => {
                    let board_hash = state.defender_commitment(&defender);
                    verify_zk_proof(&proof, &board_hash, x, y, is_hit)
                },
            },
        };
        self.resolve_response(defender, x, y, is_hit, accepted, timestamp)
    }

    /// `caller` abandons the session: a participant discards it, whatever
    /// its phase. Nothing is settled and no record of a player changes.
    pub fn reset(&mut self, caller: PlayerId) -> (result: Result<(), GameError>)
        ensures
            match result {
                Ok(()) => old(self)@.reset(caller@) == Ok::<_, GameError>(final(self)@),
                Err(e) => {
                    &&& old(self)@.reset(caller@) == Err::<Records, _>(e)
                    &&& *final(self) == *old(self)
                },
            },
    {
        let allowed = match &self.state {
            Some(state) => state.is_participant(&caller),
            None => true,
        };
        if !allowed {
            return Err(GameError::Unauthorized);
        }
        self.state = None;
        Ok(())
    }

    /// Puts back a session slot that the host has kept between calls.
    pub fn restore_state(&mut self, state: Option<GameState>)
        ensures
            final(self)@.session == match state {
                Some(s) => Some(s@),
                None => None::<Session>,
            },
            final(self)@.stats == old(self)@.stats,
            final(self)@.history == old(self)@.history,
    {
        self.state = state;
    }

    /// Puts back the totals that the host has kept for `player`.
    pub fn restore_player_stats(&mut self, player: PlayerId, stats: PlayerStats)
        ensures
            final(self)@.session == old(self)@.session,
            final(self)@.stats == old(self)@.stats.insert(player@, stats@),
            final(self)@.history == old(self)@.history,
    {
        self.stats.insert(player, stats);
        assert(totals_map(self.stats@) =~= old(self)@.stats.insert(player@, stats@));
    }

    /// Puts back the history that the host has kept for `player`.
    pub fn restore_player_history(&mut self, player: PlayerId, history: Vec<GameResult>)
        ensures
            final(self)@.session == old(self)@.session,
            final(self)@.stats == old(self)@.stats,
            final(self)@.history == old(self)@.history.insert(player@, outcomes(history@)),
    {
        self.history.insert(player, history);
        assert(outcomes_map(self.history@) =~= old(self)@.history.insert(
            player@,
            outcomes(history@),
        ));
    }

    /// Whether `fire_shot` can be called with these arguments: whether the
    /// counters still fit if the shot is accepted.
    pub fn can_fire_shot(&self, shooter: &PlayerId, x: u32, y: u32) -> (fits: bool)
        ensures
            fits == self@.shot_fits(shooter@, x, y),
    {
        match &self.state {
            None => true,
            Some(state) => {
                if state.phase != GamePhase::Playing || x >= GRID_SIZE || y >= GRID_SIZE
                    || !state.turn.same(shooter) || state.pending_shot_x != NO_SHOT {
                    true
                } else if shooter.same(&state.player1) {
                    state.shots_fired_p1 < u32::MAX
                } else {
                    state.shots_fired_p2 < u32::MAX
                }
            },
        }
    }

    /// Whether `resolve_response` can be called with these arguments:
    /// whether the counters, and at the end of a match the totals of both
    /// players, still fit if the answer is applied.
    pub fn can_resolve_response(
        &self,
        defender: &PlayerId,
        x: u32,
        y: u32,
        is_hit: bool,
        accepted: bool,
    ) -> (fits: bool)
        ensures
            fits == self@.respond_fits(defender@, x, y, is_hit, accepted),
    {
        let state = match &self.state {
            None => {
                return true;
            },
            Some(state) => state,
        };
        if state.check_response(defender, x, y).is_err() || !accepted || !is_hit {
            return true;
        }
        let on_player1 = defender.same(&state.player1);
        let hits: u32 = if on_player1 {
            state.hits_on_p1
        } else {
            state.hits_on_p2
        };
        if hits == u32::MAX {
            return false;
        }
        if hits + 1 < TOTAL_SHIPS {
            return true;
        }
        let ghost after = rules::apply_response(state@, defender@, is_hit);
        let winner = &state.pending_shooter;
        let winner_is_p1 = winner.same(&state.player1);
        let loser_id = state.other_player(winner);
        let winner_shots: u32 = if winner_is_p1 {
            state.shots_fired_p1
        } else {
            state.shots_fired_p2
        };
        let loser_shots: u32 = if winner_is_p1 {
            state.shots_fired_p2
        } else {
            state.shots_fired_p1
        };
        let winner_before = match self.stats.get(winner) {
            Some(stats) => *stats,
            None => PlayerStats::zero(),
        };
        assert(stats_after_win(self@.stats, after)[after.winner] == credit_win(
            winner_before@,
            winner_shots as nat,
            loser_shots as nat,
        ));
        if !winner_before.win_fits(winner_shots, loser_shots) {
            return false;
        }
        let loser_before = if loser_id.same(winner) {
            winner_before.credit_win(winner_shots, loser_shots)
        } else {
            match self.stats.get(&loser_id) {
                Some(stats) => *stats,
                None => PlayerStats::zero(),
            }
        };
        assert(settled_stats(self@.stats, after)[loser(after)] == credit_loss(
            loser_before@,
            loser_shots as nat,
            winner_shots as nat,
        ));
        loser_before.loss_fits(loser_shots, winner_shots)
    }

    /// Whether `submit_response` can be called with these arguments.
    pub fn can_submit_response(
        &self,
        defender: &PlayerId,
        x: u32,
        y: u32,
        is_hit: bool,
        proof: &Vec<u8>,
    ) -> (fits: bool)
        ensures
            fits == self@.respond_fits(
                defender@,
                x,
                y,
                is_hit,
                self@.proof_verdict(defender@, x, y, is_hit, proof@),
            ),
    {
        match &self.state {
            None => true,
            Some(state) => {
                let board_hash = state.defender_commitment(defender);
                let accepted = verify_zk_proof(proof, &board_hash, x, y, is_hit);
                self.can_resolve_response(defender, x, y, is_hit, accepted)
            },
        }
    }
}

} // verus!
