//! What holds of every session and of every sequence of calls.

use crate::records::Records;
use crate::rules;
use crate::settlement::{history_of, totals_of};
use crate::state::{GameError, GamePhase, Session, GRID_SIZE, TOTAL_SHIPS};
use vstd::prelude::*;

verus! {

/// A call on the contract, with its arguments. An answer carries the proof
/// verifier's finding, so that what is stated of calls holds whichever
/// verifier judges the proofs.
pub enum Call {
    Join { player: Seq<char>, session_id: u32 },
    Commit { player: Seq<char>, board_hash: Seq<u8> },
    Fire { shooter: Seq<char>, x: u32, y: u32 },
    Respond { defender: Seq<char>, x: u32, y: u32, is_hit: bool, accepted: bool, timestamp: u64 },
    Reset { caller: Seq<char> },
}

/// What `call` returns on `records`.
pub open spec fn apply(records: Records, call: Call) -> Result<Records, GameError> {
    match call {
        Call::Join { player, session_id } => records.join_game(player, session_id),
        Call::Commit { player, board_hash } => records.commit_board(player, board_hash),
        Call::Fire { shooter, x, y } => records.fire_shot(shooter, x, y),
        Call::Respond { defender, x, y, is_hit, accepted, timestamp } => records.respond(
            defender,
            x,
            y,
            is_hit,
            accepted,
            timestamp,
        ),
        Call::Reset { caller } => records.reset(caller),
    }
}

/// The records after `call`: a rejected call changes nothing.
pub open spec fn step(records: Records, call: Call) -> Records {
    match apply(records, call) {
        Ok(after) => after,
        Err(_) => records,
    }
}

/// The records after `calls`, made in order on `start`.
pub open spec fn run(start: Records, calls: Seq<Call>) -> Records
    decreases calls.len(),
{
    if calls.len() == 0 {
        start
    } else {
        step(run(start, calls.drop_last()), calls.last())
    }
}

/// Whether, after `calls`, a shot has been fired that is not answered yet:
/// the last accepted call is a shot. An accepted answer clears it, and so
/// does every accepted call that comes before play begins or that discards
/// the session; a rejected call changes nothing.
pub open spec fn shot_outstanding(start: Records, calls: Seq<Call>) -> bool
    decreases calls.len(),
{
    if calls.len() == 0 {
        false
    } else if apply(run(start, calls.drop_last()), calls.last()) is Ok {
        calls.last() is Fire
    } else {
        shot_outstanding(start, calls.drop_last())
    }
}

/// The number of accepted answers among `calls` that confirmed a hit.
pub open spec fn accepted_hits(start: Records, calls: Seq<Call>) -> nat
    decreases calls.len(),
{
    if calls.len() == 0 {
        0
    } else {
        let earlier = accepted_hits(start, calls.drop_last());
        if apply(run(start, calls.drop_last()), calls.last()) is Ok && calls.last() matches Call::Respond {
            is_hit: true,
            ..
        } {
            earlier + 1
        } else {
            earlier
        }
    }
}

/// What holds of a session that calls have produced.
pub open spec fn well_formed(s: Session) -> bool {
    &&& s.p1_joined
    &&& s.p2_joined == (s.phase != GamePhase::WaitingForPlayers)
    &&& s.p2_joined ==> s.player1 != s.player2
    &&& s.has_winner == (s.phase == GamePhase::Finished)
    &&& s.hits_on_p1 <= TOTAL_SHIPS
    &&& s.hits_on_p2 <= TOTAL_SHIPS
    &&& match s.phase {
        GamePhase::WaitingForPlayers => {
            &&& !s.p1_committed
            &&& !s.p2_committed
            &&& s.hits_on_p1 == 0
            &&& s.hits_on_p2 == 0
            &&& s.shots_fired_p1 == 0
            &&& s.shots_fired_p2 == 0
            &&& s.pending_shot() is None
        },
        GamePhase::Commit => {
            &&& !(s.p1_committed && s.p2_committed)
            &&& s.hits_on_p1 == 0
            &&& s.hits_on_p2 == 0
            &&& s.shots_fired_p1 == 0
            &&& s.shots_fired_p2 == 0
            &&& s.pending_shot() is None
        },
        GamePhase::Playing => {
            &&& s.p1_committed
            &&& s.p2_committed
            &&& s.hits_on_p1 < TOTAL_SHIPS
            &&& s.hits_on_p2 < TOTAL_SHIPS
            &&& s.is_participant(s.turn)
            &&& s.pending_shot() matches Some(shot) ==> {
                &&& shot.x < GRID_SIZE
                &&& shot.y < GRID_SIZE
                &&& s.is_participant(shot.shooter)
                &&& s.turn == s.other_player(shot.shooter)
            }
        },
        GamePhase::Finished => {
            &&& s.p1_committed
            &&& s.p2_committed
            &&& s.pending_shot() is None
            &&& s.is_participant(s.winner)
            &&& rules::hits_on(s, s.other_player(s.winner)) == TOTAL_SHIPS
            &&& rules::hits_on(s, s.winner) < TOTAL_SHIPS
        },
    }
}

/// Whether the session of `records`, if there is one, is well formed.
pub open spec fn session_well_formed(records: Records) -> bool {
    records.session matches Some(s) ==> well_formed(s)
}

/// No call takes a well-formed session to one that is not.
pub proof fn law_calls_keep_sessions_well_formed(records: Records, call: Call)
    requires
        session_well_formed(records),
    ensures
        session_well_formed(step(records, call)),
{
}

/// Whatever calls are made on a contract without a session, in whatever
/// order, the session is well formed: in particular the two seats hold
/// distinct players, no hit counter exceeds the number of ships, and there
/// is a winner exactly when the session is finished.
pub proof fn law_reachable_sessions_are_well_formed(start: Records, calls: Seq<Call>)
    requires
        start.session is None,
    ensures
        session_well_formed(run(start, calls)),
    decreases calls.len(),
{
    if calls.len() > 0 {
        law_reachable_sessions_are_well_formed(start, calls.drop_last());
        law_calls_keep_sessions_well_formed(run(start, calls.drop_last()), calls.last());
    }
}

/// A shot is pending if and only if a shot has been fired since the last
/// accepted answer, or since play began if none was given yet.
pub proof fn law_pending_shot_iff_fired_since_last_answer(start: Records, calls: Seq<Call>)
    requires
        start.session is None,
    ensures
        (run(start, calls).session matches Some(s) && s.pending_shot() is Some)
            <==> shot_outstanding(start, calls),
    decreases calls.len(),
{
    if calls.len() > 0 {
        law_pending_shot_iff_fired_since_last_answer(start, calls.drop_last());
        law_reachable_sessions_are_well_formed(start, calls.drop_last());
        law_reachable_sessions_are_well_formed(start, calls);
    }
}

/// The two hit counters together never exceed the number of accepted
/// answers that confirmed a hit, and neither exceeds the number of ships.
pub proof fn law_hits_are_bounded(start: Records, calls: Seq<Call>)
    requires
        start.session is None,
    ensures
        run(start, calls).session matches Some(s) ==> {
            &&& s.hits_on_p1 + s.hits_on_p2 <= accepted_hits(start, calls)
            &&& s.hits_on_p1 <= TOTAL_SHIPS
            &&& s.hits_on_p2 <= TOTAL_SHIPS
        },
    decreases calls.len(),
{
    law_reachable_sessions_are_well_formed(start, calls);
    if calls.len() > 0 {
        law_hits_are_bounded(start, calls.drop_last());
        law_reachable_sessions_are_well_formed(start, calls.drop_last());
    }
}

/// Right after an accepted shot the turn is the defender's; right after an
/// accepted answer that does not end the match it is the shooter's again.
pub proof fn law_turn_alternates(
    s: Session,
    shooter: Seq<char>,
    defender: Seq<char>,
    x: u32,
    y: u32,
    is_hit: bool,
    accepted: bool,
)
    ensures
        rules::fire_shot(s, shooter, x, y) matches Ok(after) ==> {
            &&& after.turn == s.other_player(shooter)
            &&& after.pending_shot() == Some(crate::state::Shot { x, y, shooter })
        },
        rules::respond(s, defender, x, y, is_hit, accepted) matches Ok(after) ==> {
            &&& after.pending_shot() is None
            &&& after.phase == GamePhase::Playing ==> after.turn == s.pending_shooter
            &&& after.phase == GamePhase::Playing || after.phase == GamePhase::Finished
        },
{
}

/// In a well-formed session the player whose turn it is after a shot is a
/// seated player other than the shooter.
pub proof fn law_defender_is_the_other_player(s: Session, shooter: Seq<char>, x: u32, y: u32)
    requires
        well_formed(s),
    ensures
        rules::fire_shot(s, shooter, x, y) matches Ok(after) ==> {
            &&& after.turn != shooter
            &&& after.is_participant(after.turn)
            &&& after.is_participant(shooter)
        },
{
}

/// After a first join, and before a second player has joined, another
/// join by the same player is refused as a duplicate.
pub proof fn law_second_join_by_same_player_is_duplicate(
    records: Records,
    player: Seq<char>,
    first_id: u32,
    second_id: u32,
)
    requires
        records.join_game(player, first_id) matches Ok(after) && after.session matches Some(s)
            && s.phase == GamePhase::WaitingForPlayers,
    ensures
        records.join_game(player, first_id)->Ok_0.join_game(player, second_id) == Err::<Records, _>(
            GameError::DuplicateJoin,
        ),
{
}

/// Once a session is finished, every further shot, answer and commitment
/// is refused for its phase, whoever makes the call and whatever the proof
/// verifier finds: a session is settled once.
pub proof fn law_finished_session_refuses_play(
    records: Records,
    player: Seq<char>,
    x: u32,
    y: u32,
    is_hit: bool,
    accepted: bool,
    proof: Seq<u8>,
    timestamp: u64,
    board_hash: Seq<u8>,
)
    requires
        records.session matches Some(s) && s.phase == GamePhase::Finished,
    ensures
        records.fire_shot(player, x, y) == Err::<Records, _>(GameError::PhaseViolation),
        records.respond(player, x, y, is_hit, accepted, timestamp) == Err::<Records, _>(
            GameError::PhaseViolation,
        ),
        records.submit_response(player, x, y, is_hit, proof, timestamp) == Err::<Records, _>(
            GameError::PhaseViolation,
        ),
        records.commit_board(player, board_hash) == Err::<Records, _>(GameError::PhaseViolation),
{
}

/// The records of the players change only when an answer ends the match,
/// which is the one call that takes a session from play to its end.
pub proof fn law_settlement_only_at_the_end(records: Records, call: Call)
    ensures
        apply(records, call) matches Ok(after) ==> {
            let settles = call matches Call::Respond { defender, x, y, is_hit, accepted, .. }
                && records.respond_settles(defender, x, y, is_hit, accepted);
            &&& !settles ==> after.stats == records.stats && after.history == records.history
            &&& settles <==> (after.session matches Some(t) && t.phase == GamePhase::Finished)
                && (records.session matches Some(s) && s.phase == GamePhase::Playing)
        },
{
}

/// The place of a phase in the order in which a session passes through
/// the phases.
pub open spec fn phase_rank(phase: GamePhase) -> nat {
    match phase {
        GamePhase::WaitingForPlayers => 0,
        GamePhase::Commit => 1,
        GamePhase::Playing => 2,
        GamePhase::Finished => 3,
    }
}

/// As long as a session lasts, no call takes it back to an earlier phase,
/// lowers one of its counters, changes its identifier, or unseats a player
/// or withdraws a commitment.
pub proof fn law_sessions_only_move_forward(records: Records, call: Call)
    requires
        session_well_formed(records),
    ensures
        records.session is Some && step(records, call).session is Some ==> {
            let s = records.session->0;
            let t = step(records, call).session->0;
            &&& phase_rank(s.phase) <= phase_rank(t.phase)
            &&& s.hits_on_p1 <= t.hits_on_p1
            &&& s.hits_on_p2 <= t.hits_on_p2
            &&& s.shots_fired_p1 <= t.shots_fired_p1
            &&& s.shots_fired_p2 <= t.shots_fired_p2
            &&& s.session_id == t.session_id
            &&& s.p1_joined ==> t.p1_joined && t.player1 == s.player1
            &&& s.p2_joined ==> t.p2_joined && t.player2 == s.player2
            &&& s.p1_committed ==> t.p1_committed && t.board_hash_p1 == s.board_hash_p1
            &&& s.p2_committed ==> t.p2_committed && t.board_hash_p2 == s.board_hash_p2
            &&& s.has_winner ==> t.has_winner && t.winner == s.winner
        },
{
}

/// No call removes the totals of a player or lowers one of them, and no
/// call removes or alters an entry of a history: entries are only added at
/// its end.
pub proof fn law_player_records_only_grow(records: Records, call: Call, player: Seq<char>)
    ensures
        records.stats.dom().contains(player) ==> {
            let before = records.stats[player];
            let after = step(records, call).stats[player];
            &&& step(records, call).stats.dom().contains(player)
            &&& before.games_played <= after.games_played
            &&& before.games_won <= after.games_won
            &&& before.total_shots_fired <= after.total_shots_fired
            &&& before.total_shots_received <= after.total_shots_received
            &&& before.total_hits <= after.total_hits
        },
        records.history.dom().contains(player) ==> {
            &&& step(records, call).history.dom().contains(player)
            &&& records.history[player].is_prefix_of(step(records, call).history[player])
        },
{
}

/// Settlement adds one match to the totals of each of two distinct
/// players, a win to the winner's only, and one entry to each history.
pub proof fn law_settlement_counts_one_match_each(
    records: Records,
    defender: Seq<char>,
    x: u32,
    y: u32,
    is_hit: bool,
    accepted: bool,
    timestamp: u64,
)
    requires
        session_well_formed(records),
        records.respond_settles(defender, x, y, is_hit, accepted),
    ensures
        ({
            let after = records.respond(defender, x, y, is_hit, accepted, timestamp)->Ok_0;
            let s = after.session->0;
            let winner = s.winner;
            let loser = crate::settlement::loser(s);
            &&& winner != loser
            &&& loser == defender
            &&& after.stats[winner].games_played == totals_of(records.stats, winner).games_played + 1
            &&& after.stats[winner].games_won == totals_of(records.stats, winner).games_won + 1
            &&& after.stats[loser].games_played == totals_of(records.stats, loser).games_played + 1
            &&& after.stats[loser].games_won == totals_of(records.stats, loser).games_won
            &&& after.history[winner] == history_of(records.history, winner).push(
                crate::settlement::win_entry(s, timestamp),
            )
            &&& after.history[loser] == history_of(records.history, loser).push(
                crate::settlement::loss_entry(s, timestamp),
            )
        }),
{
}

} // verus!
