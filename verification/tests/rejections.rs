use battleship::{BattleshipContract, GameError, GamePhase, PlayerId};

const TS: u64 = 99;

fn players() -> (PlayerId, PlayerId, PlayerId) {
    (PlayerId::from_str("alice"), PlayerId::from_str("bob"), PlayerId::from_str("mallory"))
}

fn good_proof() -> Vec<u8> {
    vec![7u8; 32]
}

fn in_commit_phase() -> (PlayerId, PlayerId, PlayerId, BattleshipContract) {
    let (p1, p2, p3) = players();
    let mut contract = BattleshipContract::new();
    contract.join_game(p1.clone(), 1).unwrap();
    contract.join_game(p2.clone(), 1).unwrap();
    (p1, p2, p3, contract)
}

fn in_play() -> (PlayerId, PlayerId, PlayerId, BattleshipContract) {
    let (p1, p2, p3, mut contract) = in_commit_phase();
    contract.commit_board(p1.clone(), [1u8; 32]).unwrap();
    contract.commit_board(p2.clone(), [2u8; 32]).unwrap();
    (p1, p2, p3, contract)
}

fn finished() -> (PlayerId, PlayerId, PlayerId, BattleshipContract) {
    let (p1, p2, p3, mut contract) = in_play();
    for x in 0..3u32 {
        contract.fire_shot(p1.clone(), x, 0).unwrap();
        contract.submit_response(p2.clone(), x, 0, true, good_proof(), TS).unwrap();
    }
    (p1, p2, p3, contract)
}

#[test]
fn calls_without_a_session_are_not_initialized() {
    let (p1, _, _) = players();
    let mut contract = BattleshipContract::new();
    assert_eq!(contract.commit_board(p1.clone(), [0u8; 32]), Err(GameError::NotInitialized));
    assert_eq!(contract.fire_shot(p1.clone(), 0, 0), Err(GameError::NotInitialized));
    assert_eq!(
        contract.submit_response(p1.clone(), 0, 0, true, good_proof(), TS),
        Err(GameError::NotInitialized)
    );
    assert!(matches!(contract.load_state(), Err(GameError::NotInitialized)));
    assert!(contract.get_state().is_none());
}

#[test]
fn second_join_by_the_same_player_is_a_duplicate() {
    let (p1, _, _) = players();
    let mut contract = BattleshipContract::new();
    contract.join_game(p1.clone(), 1).unwrap();
    assert_eq!(contract.join_game(p1.clone(), 2), Err(GameError::DuplicateJoin));
    assert_eq!(contract.join_game(p1.clone(), 3), Err(GameError::DuplicateJoin));

    let state = contract.get_state().unwrap();
    assert_eq!(state.phase, GamePhase::WaitingForPlayers);
    assert!(!state.p2_joined);
    assert_eq!(state.session_id, 1);
}

#[test]
fn third_join_is_a_phase_violation() {
    let (p1, p2, p3, mut contract) = in_commit_phase();
    assert_eq!(contract.join_game(p3.clone(), 5), Err(GameError::PhaseViolation));
    assert_eq!(contract.join_game(p1.clone(), 5), Err(GameError::PhaseViolation));
    let state = contract.get_state().unwrap();
    assert_eq!(state.player1, p1);
    assert_eq!(state.player2, p2);
}

#[test]
fn commit_outside_the_commit_phase_is_a_phase_violation() {
    let (p1, _, _) = players();
    let mut contract = BattleshipContract::new();
    contract.join_game(p1.clone(), 1).unwrap();
    assert_eq!(contract.commit_board(p1.clone(), [1u8; 32]), Err(GameError::PhaseViolation));

    let (p1, _, _, mut contract) = in_play();
    assert_eq!(contract.commit_board(p1.clone(), [1u8; 32]), Err(GameError::PhaseViolation));
}

#[test]
fn commit_by_a_stranger_is_unknown_player() {
    let (_, _, p3, mut contract) = in_commit_phase();
    assert_eq!(contract.commit_board(p3, [1u8; 32]), Err(GameError::UnknownPlayer));
}

#[test]
fn second_commit_is_a_duplicate_and_keeps_the_first_hash() {
    let (p1, p2, _, mut contract) = in_commit_phase();
    contract.commit_board(p1.clone(), [1u8; 32]).unwrap();
    assert_eq!(contract.commit_board(p1.clone(), [5u8; 32]), Err(GameError::DuplicateCommit));
    assert_eq!(contract.get_state().unwrap().board_hash_p1, [1u8; 32]);

    contract.commit_board(p2.clone(), [2u8; 32]).unwrap();
    assert_eq!(contract.commit_board(p2.clone(), [6u8; 32]), Err(GameError::PhaseViolation));
}

#[test]
fn shot_before_play_is_a_phase_violation() {
    let (p1, _, _, mut contract) = in_commit_phase();
    assert_eq!(contract.fire_shot(p1.clone(), 0, 0), Err(GameError::PhaseViolation));
    assert_eq!(
        contract.submit_response(p1.clone(), 0, 0, true, good_proof(), TS),
        Err(GameError::PhaseViolation)
    );
}

#[test]
fn shot_outside_the_grid_is_out_of_bounds() {
    let (p1, _, _, mut contract) = in_play();
    assert_eq!(contract.fire_shot(p1.clone(), 5, 0), Err(GameError::OutOfBounds));
    assert_eq!(contract.fire_shot(p1.clone(), 0, 5), Err(GameError::OutOfBounds));
    assert_eq!(contract.fire_shot(p1.clone(), u32::MAX, 0), Err(GameError::OutOfBounds));
    assert_eq!(contract.fire_shot(p1.clone(), 4, 4), Ok(()));
}

#[test]
fn shot_out_of_turn_is_not_your_turn() {
    let (_, p2, p3, mut contract) = in_play();
    assert_eq!(contract.fire_shot(p2.clone(), 0, 0), Err(GameError::NotYourTurn));
    assert_eq!(contract.fire_shot(p3.clone(), 0, 0), Err(GameError::NotYourTurn));
    assert_eq!(contract.get_state().unwrap().shots_fired_p2, 0);
}

#[test]
fn second_shot_before_the_answer_is_refused() {
    let (p1, p2, _, mut contract) = in_play();
    contract.fire_shot(p1.clone(), 1, 1).unwrap();
    // The turn is the defender's: the shooter is out of turn, and the
    // defender may answer but not fire.
    assert_eq!(contract.fire_shot(p1.clone(), 2, 2), Err(GameError::NotYourTurn));
    assert_eq!(contract.fire_shot(p2.clone(), 2, 2), Err(GameError::ShotAlreadyPending));
    let state = contract.get_state().unwrap();
    assert_eq!((state.pending_shot_x, state.pending_shot_y), (1, 1));
    assert_eq!(state.shots_fired_p1, 1);
    assert_eq!(state.shots_fired_p2, 0);
}

#[test]
fn answer_without_a_shot_is_no_pending_shot() {
    let (_, p2, _, mut contract) = in_play();
    assert_eq!(
        contract.submit_response(p2.clone(), 0, 0, false, good_proof(), TS),
        Err(GameError::NoPendingShot)
    );
}

#[test]
fn answer_to_other_coordinates_is_a_mismatch() {
    let (p1, p2, _, mut contract) = in_play();
    contract.fire_shot(p1.clone(), 1, 2).unwrap();
    assert_eq!(
        contract.submit_response(p2.clone(), 2, 2, false, good_proof(), TS),
        Err(GameError::ShotMismatch)
    );
    assert_eq!(
        contract.submit_response(p2.clone(), 1, 3, false, good_proof(), TS),
        Err(GameError::ShotMismatch)
    );
    assert_eq!(
        contract.submit_response(p2.clone(), 2, 1, false, good_proof(), TS),
        Err(GameError::ShotMismatch)
    );
    assert_eq!(contract.get_state().unwrap().pending_shot_x, 1);
}

#[test]
fn shooter_cannot_answer_their_own_shot() {
    let (p1, _, _, mut contract) = in_play();
    contract.fire_shot(p1.clone(), 1, 2).unwrap();
    assert_eq!(
        contract.submit_response(p1.clone(), 1, 2, false, good_proof(), TS),
        Err(GameError::InvalidResponder)
    );
}

#[test]
fn answer_by_a_stranger_is_not_your_turn() {
    let (p1, _, p3, mut contract) = in_play();
    contract.fire_shot(p1.clone(), 1, 2).unwrap();
    assert_eq!(
        contract.submit_response(p3.clone(), 1, 2, false, good_proof(), TS),
        Err(GameError::NotYourTurn)
    );
}

#[test]
fn answer_by_an_unseated_player_whose_turn_it_is_is_unknown_player() {
    let (p1, _, p3, contract) = in_play();
    let mut state = contract.get_state().unwrap();
    state.pending_shot_x = 1;
    state.pending_shot_y = 2;
    state.pending_shooter = p1.clone();
    state.turn = p3.clone();
    assert_eq!(state.check_response(&p3, 1, 2), Err(GameError::UnknownPlayer));
    assert_eq!(state.respond(&p3, 1, 2, true, true), Err(GameError::UnknownPlayer));
}

#[test]
fn finished_session_refuses_every_further_move() {
    let (p1, p2, p3, mut contract) = finished();
    let before = contract.get_state().unwrap();
    assert_eq!(before.phase, GamePhase::Finished);

    for player in [p1.clone(), p2.clone(), p3.clone()] {
        assert_eq!(contract.fire_shot(player.clone(), 0, 0), Err(GameError::PhaseViolation));
        assert_eq!(contract.fire_shot(player.clone(), 9, 9), Err(GameError::PhaseViolation));
        assert_eq!(
            contract.submit_response(player.clone(), 2, 0, true, good_proof(), TS),
            Err(GameError::PhaseViolation)
        );
        assert_eq!(
            contract.commit_board(player.clone(), [3u8; 32]),
            Err(GameError::PhaseViolation)
        );
        assert_eq!(contract.join_game(player.clone(), 8), Err(GameError::PhaseViolation));
    }

    let after = contract.get_state().unwrap();
    assert_eq!(after.phase, GamePhase::Finished);
    assert_eq!(after.winner, p1);
    assert_eq!(after.hits_on_p2, 3);
    assert_eq!(after.shots_fired_p1, 3);
    assert_eq!(contract.get_player_stats(p1).unwrap().games_played, 1);
    assert_eq!(contract.get_player_history(p2).len(), 1);
}

#[test]
fn reset_by_a_stranger_is_unauthorized() {
    let (p1, _, p3, mut contract) = in_play();
    assert_eq!(contract.reset(p3), Err(GameError::Unauthorized));
    assert_eq!(contract.get_state().unwrap().turn, p1);
}

#[test]
fn reset_by_a_participant_discards_the_session() {
    let (p1, p2, _, mut contract) = in_play();
    contract.fire_shot(p1.clone(), 0, 0).unwrap();
    assert_eq!(contract.reset(p2.clone()), Ok(()));
    assert!(contract.get_state().is_none());
    assert!(contract.get_player_stats(p1.clone()).is_none());
    assert!(contract.get_player_history(p2.clone()).is_empty());

    // A new session starts from scratch, under a new identifier.
    assert_eq!(contract.join_game(p2.clone(), 77), Ok(None));
    let state = contract.get_state().unwrap();
    assert_eq!(state.player1, p2);
    assert_eq!(state.session_id, 77);
    assert_eq!(state.phase, GamePhase::WaitingForPlayers);
}

#[test]
fn reset_without_a_session_does_nothing() {
    let (p1, _, _) = players();
    let mut contract = BattleshipContract::new();
    assert_eq!(contract.reset(p1), Ok(()));
    assert!(contract.get_state().is_none());
}

#[test]
fn reset_while_waiting_is_open_to_the_first_player_only() {
    let (p1, p2, _) = players();
    let mut contract = BattleshipContract::new();
    contract.join_game(p1.clone(), 1).unwrap();
    assert_eq!(contract.reset(p2), Err(GameError::Unauthorized));
    assert_eq!(contract.reset(p1), Ok(()));
    assert!(contract.get_state().is_none());
}
