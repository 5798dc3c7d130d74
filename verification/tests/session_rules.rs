use battleship::contract::{call_hub_end, call_hub_start, verify_zk_proof};
use battleship::state::{NO_SHOT, TOTAL_SHIPS};
use battleship::{BattleshipContract, GameError, GamePhase, GameResult, GameState, HubCall, PlayerId};

fn ann() -> PlayerId {
    PlayerId::from_str("ann")
}

fn ben() -> PlayerId {
    PlayerId::from_str("ben")
}

fn playing() -> GameState {
    let mut state = GameState::new(&ann(), 31);
    assert_eq!(state.seat(ann()), Ok(false));
    assert_eq!(state.seat(ben()), Ok(true));
    assert_eq!(state.commit_board(&ann(), [0xa; 32]), Ok(()));
    assert_eq!(state.commit_board(&ben(), [0xb; 32]), Ok(()));
    state
}

#[test]
fn length_check_accepts_from_thirty_two_bytes_on() {
    let hash = [0u8; 32];
    assert!(!verify_zk_proof(&Vec::new(), &hash, 0, 0, true));
    assert!(!verify_zk_proof(&vec![1u8; 31], &hash, 0, 0, true));
    assert!(verify_zk_proof(&vec![1u8; 32], &hash, 0, 0, true));
    assert!(verify_zk_proof(&vec![1u8; 33], &hash, 4, 4, false));
    assert!(verify_zk_proof(&vec![0u8; 1000], &[9u8; 32], 2, 1, false));
}

#[test]
fn hub_messages_carry_the_session_and_its_players() {
    let state = playing();
    assert_eq!(
        call_hub_start(&state),
        HubCall::StartGame { session_id: 31, player1: ann(), player2: ben() }
    );
    assert_eq!(call_hub_end(31, false), HubCall::EndGame { session_id: 31, player1_won: false });
    assert_eq!(call_hub_end(8, true), HubCall::EndGame { session_id: 8, player1_won: true });
}

#[test]
fn new_session_waits_for_players() {
    let state = GameState::new(&ben(), 77);
    assert_eq!(state.phase, GamePhase::WaitingForPlayers);
    assert_eq!(state.session_id, 77);
    assert_eq!(state.player1, ben());
    assert_eq!(state.player2, ben());
    assert!(!state.p1_joined);
    assert!(!state.p2_joined);
    assert_eq!(state.pending_shot_x, NO_SHOT);
    assert_eq!(state.pending_shot_y, NO_SHOT);
    assert_eq!(TOTAL_SHIPS, 3);
}

#[test]
fn other_player_is_the_opposite_seat() {
    let state = playing();
    assert_eq!(state.other_player(&ann()), ben());
    assert_eq!(state.other_player(&ben()), ann());
    // Anyone who is not player one is answered with player one.
    assert_eq!(state.other_player(&PlayerId::from_str("zed")), ann());
    assert!(state.is_participant(&ann()));
    assert!(state.is_participant(&ben()));
    assert!(!state.is_participant(&PlayerId::from_str("zed")));
}

#[test]
fn answers_are_checked_against_the_defenders_commitment() {
    let state = playing();
    assert_eq!(state.defender_commitment(&ann()), [0xa; 32]);
    assert_eq!(state.defender_commitment(&ben()), [0xb; 32]);
}

#[test]
fn seat_and_commit_follow_the_phases() {
    let mut state = GameState::new(&ann(), 1);
    assert_eq!(state.commit_board(&ann(), [1; 32]), Err(GameError::PhaseViolation));
    assert_eq!(state.fire_shot(&ann(), 0, 0), Err(GameError::PhaseViolation));
    assert_eq!(state.seat(ann()), Ok(false));
    assert_eq!(state.seat(ann()), Err(GameError::DuplicateJoin));
    assert_eq!(state.seat(ben()), Ok(true));
    assert_eq!(state.seat(ben()), Err(GameError::PhaseViolation));
    assert_eq!(state.phase, GamePhase::Commit);
    assert_eq!(state.commit_board(&ben(), [2; 32]), Ok(()));
    assert_eq!(state.commit_board(&ben(), [3; 32]), Err(GameError::DuplicateCommit));
    assert_eq!(state.phase, GamePhase::Commit);
    assert_eq!(state.commit_board(&ann(), [1; 32]), Ok(()));
    assert_eq!(state.phase, GamePhase::Playing);
    assert_eq!(state.turn, ann());
    assert_eq!(state.board_hash_p2, [2; 32]);
}

#[test]
fn respond_applies_the_verdict() {
    let mut state = playing();
    assert_eq!(state.check_response(&ben(), 0, 0), Err(GameError::NoPendingShot));
    assert_eq!(state.fire_shot(&ann(), 3, 4), Ok(()));
    assert_eq!(state.check_response(&ben(), 3, 4), Ok(()));
    assert_eq!(state.check_response(&ben(), 4, 3), Err(GameError::ShotMismatch));
    assert_eq!(state.check_response(&ann(), 3, 4), Err(GameError::InvalidResponder));

    assert_eq!(state.respond(&ben(), 3, 4, true, false), Err(GameError::InvalidProof));
    assert_eq!(state.hits_on_p2, 0);
    assert_eq!(state.pending_shot_x, 3);

    assert_eq!(state.respond(&ben(), 3, 4, true, true), Ok(false));
    assert_eq!(state.hits_on_p2, 1);
    assert_eq!(state.hits_on_p1, 0);
    assert_eq!(state.turn, ann());
    assert_eq!(state.pending_shot_x, NO_SHOT);
    assert_eq!(state.pending_shot_y, NO_SHOT);
    // The shooter of the answered shot stays on record.
    assert_eq!(state.pending_shooter, ann());

    assert_eq!(state.fire_shot(&ann(), 0, 0), Ok(()));
    assert_eq!(state.respond(&ben(), 0, 0, true, true), Ok(false));
    assert_eq!(state.fire_shot(&ann(), 0, 1), Ok(()));
    assert_eq!(state.respond(&ben(), 0, 1, true, true), Ok(true));
    assert_eq!(state.phase, GamePhase::Finished);
    assert!(state.has_winner);
    assert_eq!(state.winner, ann());
    assert_eq!(state.hits_on_p2, 3);
}

#[test]
fn history_entries_mirror_each_other() {
    let mut state = playing();
    for y in 0..3 {
        state.fire_shot(&ann(), 1, y).unwrap();
        state.respond(&ben(), 1, y, true, true).unwrap();
    }
    assert_eq!(
        state.win_entry(900),
        GameResult {
            opponent: ben(),
            won: true,
            shots_fired: 3,
            shots_received: 0,
            hits_scored: 3,
            timestamp: 900,
        }
    );
    assert_eq!(
        state.loss_entry(900),
        GameResult {
            opponent: ann(),
            won: false,
            shots_fired: 0,
            shots_received: 3,
            hits_scored: 0,
            timestamp: 900,
        }
    );
}

#[test]
fn load_state_lends_the_session() {
    let mut contract = BattleshipContract::new();
    assert!(matches!(contract.load_state(), Err(GameError::NotInitialized)));
    contract.join_game(ann(), 12).unwrap();
    let state = contract.load_state().unwrap();
    assert_eq!(state.session_id, 12);
    assert_eq!(state.player1, ann());
}

#[test]
fn copies_of_a_session_are_independent() {
    let state = playing();
    let mut copy = state.clone();
    copy.fire_shot(&ann(), 1, 1).unwrap();
    assert_eq!(copy.shots_fired_p1, 1);
    assert_eq!(state.shots_fired_p1, 0);
    assert_eq!(state.pending_shot_x, NO_SHOT);
}
