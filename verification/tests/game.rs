use pebbles_game::adapter::{Inbound, Pebbles, Reply, MAX_DRAWS_PER_MESSAGE};
use pebbles_game::error::GameError;
use pebbles_game::messages::{
    DifficultyLevel, GameState, PebblesAction, PebblesEvent, PebblesInit, Player,
};
use pebbles_game::random::RandomSource;

fn config(
    difficulty: DifficultyLevel,
    pebbles_count: u32,
    max_pebbles_per_turn: u32,
) -> PebblesInit {
    PebblesInit { difficulty, pebbles_count, max_pebbles_per_turn }
}

fn record(difficulty: DifficultyLevel, count: u32, limit: u32, remaining: u32) -> GameState {
    GameState {
        pebbles_count: count,
        max_pebbles_per_turn: limit,
        pebbles_remaining: remaining,
        difficulty,
        first_player: Player::User,
        winner: None,
    }
}

#[test]
fn validate_accepts_pile_larger_than_limit() {
    assert_eq!(config(DifficultyLevel::Easy, 2, 1).validate(), Ok(()));
    assert_eq!(config(DifficultyLevel::Hard, 15, 2).validate(), Ok(()));
    assert_eq!(config(DifficultyLevel::Hard, u32::MAX, u32::MAX - 1).validate(), Ok(()));
}

#[test]
fn validate_names_the_fault() {
    assert_eq!(config(DifficultyLevel::Easy, 5, 0).validate(), Err(GameError::ZeroTurnLimit));
    assert_eq!(config(DifficultyLevel::Easy, 0, 0).validate(), Err(GameError::ZeroTurnLimit));
    assert_eq!(config(DifficultyLevel::Easy, 3, 3).validate(), Err(GameError::PileTooSmall));
    assert_eq!(config(DifficultyLevel::Easy, 2, 3).validate(), Err(GameError::PileTooSmall));
    assert_eq!(config(DifficultyLevel::Easy, 0, 1).validate(), Err(GameError::PileTooSmall));
    assert_eq!(
        config(DifficultyLevel::Hard, u32::MAX, u32::MAX).validate(),
        Err(GameError::PileTooSmall)
    );
}

#[test]
fn init_with_pile_not_above_limit_is_rejected_before_any_draw() {
    for (count, limit) in [(3u32, 3u32), (2, 3), (1, 1), (0, 1), (10, 50)] {
        let mut rng = RandomSource::new(vec![1, 2, 3]);
        let result = GameState::init(config(DifficultyLevel::Easy, count, limit), &mut rng);
        assert_eq!(result, Err(GameError::PileTooSmall));
        assert_eq!(rng.remaining(), 3);

        let mut host = Pebbles::new();
        let reply = host.init(config(DifficultyLevel::Hard, count, limit), &mut rng);
        assert_eq!(reply, Reply::Rejected(GameError::PileTooSmall));
        assert_eq!(
            reply.text(),
            Some("Pebbles count must be greater than max pebbles per turn.")
        );
        assert_eq!(host.state(), Err(GameError::NotInitialized));
        assert_eq!(rng.remaining(), 3);
    }
}

#[test]
fn init_with_zero_limit_is_rejected() {
    let mut rng = RandomSource::new(vec![1, 2, 3]);
    let result = GameState::init(config(DifficultyLevel::Easy, 7, 0), &mut rng);
    assert_eq!(result, Err(GameError::ZeroTurnLimit));
    assert_eq!(rng.remaining(), 3);
}

#[test]
fn init_without_draw_fails() {
    let mut rng = RandomSource::new(vec![]);
    let result = GameState::init(config(DifficultyLevel::Easy, 7, 2), &mut rng);
    assert_eq!(result, Err(GameError::OracleFailure));
    let mut host = Pebbles::new();
    assert_eq!(
        host.init(config(DifficultyLevel::Easy, 7, 2), &mut rng),
        Reply::Rejected(GameError::OracleFailure)
    );
    assert_eq!(host.state(), Err(GameError::NotInitialized));
}

#[test]
fn init_fails_when_opening_move_lacks_its_draw() {
    let mut rng = RandomSource::new(vec![1]);
    let result = GameState::init(config(DifficultyLevel::Easy, 7, 2), &mut rng);
    assert_eq!(result, Err(GameError::OracleFailure));
    assert_eq!(rng.remaining(), 0);
}

#[test]
fn init_lets_hard_program_open_without_second_draw() {
    let mut rng = RandomSource::new(vec![1]);
    let game = GameState::init(config(DifficultyLevel::Hard, 15, 2), &mut rng).unwrap();
    assert_eq!(game.first_player, Player::Program);
    // 14 mod 3 is 2: the program takes two and leaves 13.
    assert_eq!(game.pebbles_remaining, 13);
    assert_eq!(game.pebbles_count, 15);
    assert_eq!(game.max_pebbles_per_turn, 2);
    assert_eq!(game.difficulty, DifficultyLevel::Hard);
    assert_eq!(game.winner, None);
    assert_eq!(rng.remaining(), 0);
}

#[test]
fn init_lets_hard_program_open_at_random_on_target_pile() {
    let mut rng = RandomSource::new(vec![3, 5, 8]);
    let game = GameState::init(config(DifficultyLevel::Hard, 13, 2), &mut rng).unwrap();
    assert_eq!(game.first_player, Player::Program);
    // 12 mod 3 is 0: no winning move, so the draw decides: 5 mod 2 is 1.
    assert_eq!(game.pebbles_remaining, 12);
    assert_eq!(rng.remaining(), 1);
}

#[test]
fn init_copies_parameters_into_record() {
    let mut rng = RandomSource::new(vec![4]);
    let game = GameState::init(config(DifficultyLevel::Easy, 21, 6), &mut rng).unwrap();
    assert_eq!(
        game,
        GameState {
            pebbles_count: 21,
            max_pebbles_per_turn: 6,
            pebbles_remaining: 21,
            difficulty: DifficultyLevel::Easy,
            first_player: Player::User,
            winner: None,
        }
    );
    assert!(game.is_valid());
}

#[test]
fn init_at_smallest_game() {
    let mut rng = RandomSource::new(vec![1, 0]);
    let game = GameState::init(config(DifficultyLevel::Easy, 2, 1), &mut rng).unwrap();
    assert_eq!(game.first_player, Player::Program);
    assert_eq!(game.pebbles_remaining, 1);
}

#[test]
fn second_init_is_rejected() {
    let mut rng = RandomSource::new(vec![0, 0, 0]);
    let mut host = Pebbles::new();
    assert_eq!(host.init(config(DifficultyLevel::Easy, 7, 2), &mut rng), Reply::Initiated);
    let before = host.state();
    let reply = host.init(config(DifficultyLevel::Hard, 9, 3), &mut rng);
    assert_eq!(reply, Reply::Rejected(GameError::AlreadyInitialized));
    assert_eq!(reply.text(), Some("Game state already initialized."));
    assert_eq!(host.state(), before);
    assert_eq!(rng.remaining(), 2);
}

#[test]
fn init_can_be_repeated_after_a_rejection() {
    let mut rng = RandomSource::new(vec![0]);
    let mut host = Pebbles::new();
    assert_eq!(
        host.init(config(DifficultyLevel::Easy, 2, 2), &mut rng),
        Reply::Rejected(GameError::PileTooSmall)
    );
    assert_eq!(host.init(config(DifficultyLevel::Easy, 3, 2), &mut rng), Reply::Initiated);
    assert_eq!(host.state().unwrap().pebbles_remaining, 3);
}

#[test]
fn handle_before_init_is_rejected() {
    let mut rng = RandomSource::new(vec![1, 2]);
    let mut host = Pebbles::new();
    for action in [
        PebblesAction::Turn(1),
        PebblesAction::GiveUp,
        PebblesAction::Restart {
            difficulty: DifficultyLevel::Easy,
            pebbles_count: 9,
            max_pebbles_per_turn: 2,
        },
    ] {
        let reply = host.handle(action, &mut rng);
        assert_eq!(reply, Reply::Rejected(GameError::NotInitialized));
        assert_eq!(reply.text(), Some("Game state not initialized."));
        assert_eq!(host.state(), Err(GameError::NotInitialized));
        assert_eq!(rng.remaining(), 2);
    }
}

#[test]
fn state_before_init_is_rejected() {
    let host = Pebbles::new();
    assert_eq!(host.state(), Err(GameError::NotInitialized));
}

#[test]
fn empty_turn_is_rejected() {
    let mut game = record(DifficultyLevel::Easy, 10, 3, 6);
    let mut rng = RandomSource::new(vec![2]);
    assert_eq!(game.handle_turn(0, &mut rng), Err(GameError::EmptyTurn));
    assert_eq!(game, record(DifficultyLevel::Easy, 10, 3, 6));
    assert_eq!(rng.remaining(), 1);
}

#[test]
fn turn_at_limit_is_accepted_and_above_it_rejected() {
    let mut game = record(DifficultyLevel::Hard, 10, 3, 10);
    let mut rng = RandomSource::new(vec![]);
    assert_eq!(game.handle_turn(4, &mut rng), Err(GameError::TurnTooLarge));
    assert_eq!(game.handle_turn(u32::MAX, &mut rng), Err(GameError::TurnTooLarge));
    assert_eq!(game.pebbles_remaining, 10);
    // 10 - 3 = 7, and 6 mod 4 is 2: the program takes two.
    assert_eq!(game.handle_turn(3, &mut rng), Ok(PebblesEvent::CounterTurn(2)));
    assert_eq!(game.pebbles_remaining, 5);
}

#[test]
fn turn_and_counter_turn_shrink_pile_by_their_sum() {
    let mut game = record(DifficultyLevel::Easy, 20, 5, 20);
    let mut rng = RandomSource::new(vec![9, 13, 5]);
    assert_eq!(game.handle_turn(2, &mut rng), Ok(PebblesEvent::CounterTurn(4)));
    assert_eq!(game.pebbles_remaining, 14);
    assert_eq!(game.handle_turn(5, &mut rng), Ok(PebblesEvent::CounterTurn(3)));
    assert_eq!(game.pebbles_remaining, 6);
    // 5 mod 5 is 0, which is raised to one.
    assert_eq!(game.handle_turn(1, &mut rng), Ok(PebblesEvent::CounterTurn(1)));
    assert_eq!(game.pebbles_remaining, 4);
    assert_eq!(game.pebbles_count, 20);
    assert_eq!(game.winner, None);
}

#[test]
fn turn_that_empties_pile_loses_to_program() {
    for n in [4u32, 5] {
        let mut game = record(DifficultyLevel::Easy, 20, 5, 4);
        let mut rng = RandomSource::new(vec![1]);
        assert_eq!(game.handle_turn(n, &mut rng), Ok(PebblesEvent::Won(Player::Program)));
        assert_eq!(game, record(DifficultyLevel::Easy, 20, 5, 20));
        assert_eq!(rng.remaining(), 1);
    }
}

#[test]
fn program_that_takes_last_pebble_loses_to_user() {
    let mut game = record(DifficultyLevel::Hard, 8, 3, 3);
    let mut rng = RandomSource::new(vec![]);
    // The user leaves one pebble, which the program has to take.
    assert_eq!(game.handle_turn(2, &mut rng), Ok(PebblesEvent::Won(Player::User)));
    assert_eq!(game, record(DifficultyLevel::Hard, 8, 3, 8));

    let mut game = record(DifficultyLevel::Easy, 8, 3, 3);
    let mut rng = RandomSource::new(vec![2]);
    // Two pebbles are left and the draw makes the program take both.
    assert_eq!(game.handle_turn(1, &mut rng), Ok(PebblesEvent::Won(Player::User)));
    assert_eq!(game, record(DifficultyLevel::Easy, 8, 3, 8));
    assert_eq!(rng.remaining(), 0);
}

#[test]
fn turn_on_empty_pile_loses_to_program() {
    let mut game = record(DifficultyLevel::Easy, 8, 3, 0);
    let mut rng = RandomSource::new(vec![]);
    assert_eq!(game.handle_turn(1, &mut rng), Ok(PebblesEvent::Won(Player::Program)));
    assert_eq!(game.pebbles_remaining, 8);
}

#[test]
fn turn_without_needed_draw_fails_and_keeps_pebbles() {
    let mut game = record(DifficultyLevel::Easy, 10, 3, 9);
    let mut rng = RandomSource::new(vec![]);
    assert_eq!(game.handle_turn(2, &mut rng), Err(GameError::OracleFailure));
    assert_eq!(game, record(DifficultyLevel::Easy, 10, 3, 9));

    let mut game = record(DifficultyLevel::Hard, 15, 2, 15);
    assert_eq!(game.handle_turn(2, &mut rng), Err(GameError::OracleFailure));
    assert_eq!(game, record(DifficultyLevel::Hard, 15, 2, 15));

    let mut host = Pebbles::new();
    let mut coin = RandomSource::new(vec![0]);
    host.init(config(DifficultyLevel::Easy, 10, 3), &mut coin);
    let reply = host.handle(PebblesAction::Turn(1), &mut rng);
    assert_eq!(reply, Reply::Rejected(GameError::OracleFailure));
    assert_eq!(reply.text(), Some("Random source failed."));
    assert_eq!(host.state().unwrap().pebbles_remaining, 10);
}

#[test]
fn reset_refills_pile_and_keeps_the_rest() {
    let mut game = GameState {
        pebbles_count: 30,
        max_pebbles_per_turn: 4,
        pebbles_remaining: 7,
        difficulty: DifficultyLevel::Hard,
        first_player: Player::Program,
        winner: Some(Player::User),
    };
    game.reset();
    assert_eq!(
        game,
        GameState {
            pebbles_count: 30,
            max_pebbles_per_turn: 4,
            pebbles_remaining: 30,
            difficulty: DifficultyLevel::Hard,
            first_player: Player::Program,
            winner: None,
        }
    );
}

#[test]
fn give_up_on_record_refills_pile() {
    let mut game = record(DifficultyLevel::Easy, 12, 3, 5);
    assert_eq!(game.handle_giveup(), PebblesEvent::Won(Player::Program));
    assert_eq!(game, record(DifficultyLevel::Easy, 12, 3, 12));
}

#[test]
fn restart_replaces_game() {
    let mut rng = RandomSource::new(vec![0, 1, 4]);
    let mut host = Pebbles::new();
    host.init(config(DifficultyLevel::Easy, 10, 3), &mut rng);
    let reply = host.handle(
        PebblesAction::Restart {
            difficulty: DifficultyLevel::Easy,
            pebbles_count: 20,
            max_pebbles_per_turn: 5,
        },
        &mut rng,
    );
    assert_eq!(reply, Reply::Initiated);
    assert_eq!(reply.text(), Some("Game initiated!"));
    assert_eq!(
        host.state(),
        Ok(GameState {
            pebbles_count: 20,
            max_pebbles_per_turn: 5,
            pebbles_remaining: 16,
            difficulty: DifficultyLevel::Easy,
            first_player: Player::Program,
            winner: None,
        })
    );
    assert_eq!(rng.remaining(), 0);
}

#[test]
fn restart_with_faulty_parameters_keeps_game() {
    let mut game = record(DifficultyLevel::Easy, 12, 3, 5);
    let mut rng = RandomSource::new(vec![1, 1]);
    assert_eq!(
        game.handle_restart(config(DifficultyLevel::Hard, 4, 4), &mut rng),
        Err(GameError::PileTooSmall)
    );
    assert_eq!(
        game.handle_restart(config(DifficultyLevel::Hard, 4, 0), &mut rng),
        Err(GameError::ZeroTurnLimit)
    );
    assert_eq!(game, record(DifficultyLevel::Easy, 12, 3, 5));
    assert_eq!(rng.remaining(), 2);
    let mut dry = RandomSource::new(vec![]);
    assert_eq!(
        game.handle_restart(config(DifficultyLevel::Hard, 9, 2), &mut dry),
        Err(GameError::OracleFailure)
    );
    assert_eq!(game, record(DifficultyLevel::Easy, 12, 3, 5));
    assert_eq!(game.handle_restart(config(DifficultyLevel::Hard, 9, 2), &mut rng), Ok(()));
    // The program opens: 8 mod 3 is 2.
    assert_eq!(
        game,
        GameState {
            pebbles_count: 9,
            max_pebbles_per_turn: 2,
            pebbles_remaining: 7,
            difficulty: DifficultyLevel::Hard,
            first_player: Player::Program,
            winner: None,
        }
    );
}

#[test]
fn is_valid_tells_records_apart() {
    assert!(record(DifficultyLevel::Easy, 12, 3, 12).is_valid());
    assert!(record(DifficultyLevel::Easy, 12, 3, 0).is_valid());
    assert!(!record(DifficultyLevel::Easy, 12, 3, 13).is_valid());
    assert!(!record(DifficultyLevel::Easy, 3, 3, 1).is_valid());
    assert!(!record(DifficultyLevel::Easy, 3, 0, 1).is_valid());
    let mut won = record(DifficultyLevel::Easy, 12, 3, 12);
    won.winner = Some(Player::User);
    assert!(!won.is_valid());
}

#[test]
fn every_error_has_its_message() {
    assert_eq!(
        GameError::ZeroTurnLimit.message(),
        "Max pebbles per turn must be at least one."
    );
    assert_eq!(
        GameError::PileTooSmall.message(),
        "Pebbles count must be greater than max pebbles per turn."
    );
    assert_eq!(GameError::EmptyTurn.message(), "At least one pebble must be removed.");
    assert_eq!(
        GameError::TurnTooLarge.message(),
        "Pebbles count exceeds the maximum allowed"
    );
    assert_eq!(GameError::NotInitialized.message(), "Game state not initialized.");
    assert_eq!(GameError::AlreadyInitialized.message(), "Game state already initialized.");
    assert_eq!(GameError::OracleFailure.message(), "Random source failed.");
}

#[test]
fn reply_text_is_set_for_acknowledgement_and_refusal_only() {
    assert_eq!(Reply::Initiated.text(), Some("Game initiated!"));
    assert_eq!(Reply::Event(PebblesEvent::CounterTurn(2)).text(), None);
    assert_eq!(Reply::Event(PebblesEvent::Won(Player::User)).text(), None);
    assert_eq!(
        Reply::Rejected(GameError::EmptyTurn).text(),
        Some("At least one pebble must be removed.")
    );
}

#[test]
fn deliver_routes_to_entry_points() {
    let mut rng = RandomSource::new(vec![0, 3]);
    let mut host = Pebbles::new();
    assert_eq!(
        host.deliver(Inbound::Handle(PebblesAction::GiveUp), &mut rng),
        Reply::Rejected(GameError::NotInitialized)
    );
    assert_eq!(
        host.deliver(Inbound::Init(config(DifficultyLevel::Easy, 10, 4)), &mut rng),
        Reply::Initiated
    );
    assert_eq!(
        host.deliver(Inbound::Handle(PebblesAction::Turn(4)), &mut rng),
        Reply::Event(PebblesEvent::CounterTurn(3))
    );
    assert_eq!(host.state().unwrap().pebbles_remaining, 3);
}

#[test]
fn run_collects_one_reply_per_message() {
    let mut rng = RandomSource::new(vec![0, 1, 1, 1]);
    let mut host = Pebbles::new();
    let trace = vec![
        Inbound::Handle(PebblesAction::Turn(1)),
        Inbound::Init(config(DifficultyLevel::Hard, 15, 2)),
        Inbound::Handle(PebblesAction::Turn(2)),
        Inbound::Handle(PebblesAction::Turn(5)),
        Inbound::Handle(PebblesAction::Turn(0)),
        Inbound::Handle(PebblesAction::Turn(1)),
        Inbound::Handle(PebblesAction::GiveUp),
        Inbound::Init(config(DifficultyLevel::Hard, 15, 2)),
    ];
    let replies = host.run(&trace, &mut rng);
    assert_eq!(
        replies,
        vec![
            Reply::Rejected(GameError::NotInitialized),
            Reply::Initiated,
            Reply::Event(PebblesEvent::CounterTurn(1)),
            Reply::Rejected(GameError::TurnTooLarge),
            Reply::Rejected(GameError::EmptyTurn),
            Reply::Event(PebblesEvent::CounterTurn(1)),
            Reply::Event(PebblesEvent::Won(Player::Program)),
            Reply::Rejected(GameError::AlreadyInitialized),
        ]
    );
    assert_eq!(host.state().unwrap().pebbles_remaining, 15);
    assert_eq!(rng.remaining(), 2);
}

#[test]
fn run_of_empty_trace_changes_nothing() {
    let mut rng = RandomSource::new(vec![5]);
    let mut host = Pebbles::new();
    assert_eq!(host.run(&vec![], &mut rng), vec![]);
    assert_eq!(host.state(), Err(GameError::NotInitialized));
    assert_eq!(rng.remaining(), 1);
}

#[test]
fn full_script_is_enough_for_any_message() {
    assert_eq!(MAX_DRAWS_PER_MESSAGE, 2);
    for coin in 0..4u32 {
        for difficulty in [DifficultyLevel::Easy, DifficultyLevel::Hard] {
            let mut rng = RandomSource::new(vec![coin, coin]);
            let mut host = Pebbles::new();
            assert_eq!(host.init(config(difficulty, 13, 2), &mut rng), Reply::Initiated);
            let mut rng = RandomSource::new(vec![coin, coin]);
            let reply = host.handle(PebblesAction::Turn(1), &mut rng);
            assert!(matches!(reply, Reply::Event(_)));
        }
    }
}
