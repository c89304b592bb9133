use connectfour::game::{BoardState, PoleCoords, PutError, Side, TokenCoords, BOARD_CELLS};
use connectfour::game_manager::GameState;
use connectfour::registry::{Delivery, JoinError, PlayError, PlayerToPlayer, Registry};
use connectfour::WSFullGameState;

fn fresh_state() -> WSFullGameState {
    WSFullGameState {
        game_state: GameState::WaitingFor(Side::White),
        ws_player_side: Side::White,
        board: BoardState::new(),
    }
}

/// A short text for each delivery, to compare lists of them.
fn show(out: &[Delivery]) -> Vec<String> {
    out.iter()
        .map(|d| match &d.msg {
            PlayerToPlayer::OpponentIsHere(v) => {
                format!("{}: here {} {:?}", d.to, v.to_opponent, v.my_side)
            }
            PlayerToPlayer::OpponentIsGone => format!("{}: gone", d.to),
            PlayerToPlayer::PutToken(p) => format!("{}: put {},{}", d.to, p.x, p.z),
        })
        .collect()
}

#[test]
fn first_player_creates_the_game() {
    let mut r = Registry::new();
    assert!(!r.is_member("g1", "A"));
    let mut state = fresh_state();
    state.game_state = GameState::WaitingFor(Side::Black);
    state.ws_player_side = Side::Black;
    state.board.set(Side::White, TokenCoords::new(2, 0, 2));
    let cells = state.board.tokens();
    let out = r.join_or_create_game("g1", "A", state).unwrap();
    assert!(out.is_empty());
    assert!(r.is_member("g1", "A"));
    assert!(!r.is_member("g1", "B"));
    assert!(!r.is_member("g2", "A"));
    // The game starts from the state that the player offered.
    let st = r.full_state("g1", "A", Side::White).unwrap();
    assert_eq!(st.game_state, GameState::WaitingFor(Side::Black));
    assert_eq!(st.ws_player_side, Side::White);
    assert_eq!(st.board.tokens(), cells);
    assert!(r.full_state("g1", "B", Side::White).is_none());
}

#[test]
fn second_player_is_introduced() {
    let mut r = Registry::new();
    r.join_or_create_game("g1", "A", fresh_state()).unwrap();
    // What the second player offers is not used.
    let mut offered = fresh_state();
    offered.board.set(Side::Black, TokenCoords::new(0, 0, 0));
    let out = r.join_or_create_game("g1", "B", offered).unwrap();
    assert_eq!(show(&out), vec!["A: here B White", "B: here A Black"]);
    assert!(r.is_member("g1", "A"));
    assert!(r.is_member("g1", "B"));
    let st = r.full_state("g1", "B", Side::Black).unwrap();
    assert_eq!(st.board.tokens(), vec![None; BOARD_CELLS]);
    assert_eq!(st.ws_player_side, Side::Black);
}

#[test]
fn third_player_is_turned_away() {
    let mut r = Registry::new();
    r.join_or_create_game("g1", "A", fresh_state()).unwrap();
    r.join_or_create_game("g1", "B", fresh_state()).unwrap();
    assert_eq!(r.join_or_create_game("g1", "C", fresh_state()).unwrap_err(), JoinError::AlreadyFull);
    assert!(!r.is_member("g1", "C"));
    assert!(r.is_member("g1", "A"));
    assert!(r.is_member("g1", "B"));
    // Another game is not affected.
    assert!(r.join_or_create_game("g2", "C", fresh_state()).unwrap().is_empty());
    assert!(r.is_member("g2", "C"));
}

#[test]
fn last_player_leaving_destroys_the_game() {
    let mut r = Registry::new();
    r.join_or_create_game("g1", "A", fresh_state()).unwrap();
    r.join_or_create_game("g2", "X", fresh_state()).unwrap();
    r.put_token("g1", "A", Side::White, PoleCoords::new(0, 0)).unwrap();
    assert!(r.leave_game("g1", "A").is_empty());
    assert!(!r.is_member("g1", "A"));
    assert!(r.is_member("g2", "X"));
    // A later game of the same id starts afresh.
    r.join_or_create_game("g1", "B", fresh_state()).unwrap();
    let st = r.full_state("g1", "B", Side::White).unwrap();
    assert_eq!(st.board.tokens(), vec![None; BOARD_CELLS]);
}

#[test]
fn secondary_leaving_frees_its_place() {
    let mut r = Registry::new();
    r.join_or_create_game("g1", "A", fresh_state()).unwrap();
    r.join_or_create_game("g1", "B", fresh_state()).unwrap();
    let out = r.leave_game("g1", "B");
    assert_eq!(show(&out), vec!["A: gone"]);
    assert!(r.is_member("g1", "A"));
    assert!(!r.is_member("g1", "B"));
    // The primary player keeps its side.
    let out = r.join_or_create_game("g1", "C", fresh_state()).unwrap();
    assert_eq!(show(&out), vec!["A: here C White", "C: here A Black"]);
}

#[test]
fn primary_leaves_and_rejoins() {
    let mut r = Registry::new();
    // A joins, creates the game and is primary.
    assert!(r.join_or_create_game("g1", "A", fresh_state()).unwrap().is_empty());
    // B joins and is secondary: both are introduced.
    let out = r.join_or_create_game("g1", "B", fresh_state()).unwrap();
    assert_eq!(show(&out), vec!["A: here B White", "B: here A Black"]);
    r.put_token("g1", "A", Side::White, PoleCoords::new(1, 1)).unwrap();
    let board = r.full_state("g1", "B", Side::Black).unwrap().board.tokens();
    // A leaves: B is told, and B is primary now.
    let out = r.leave_game("g1", "A");
    assert_eq!(show(&out), vec!["B: gone"]);
    assert!(!r.is_member("g1", "A"));
    assert!(r.is_member("g1", "B"));
    // A rejoins: B gets a fresh introduction with A as the new secondary, on the same board.
    let out = r.join_or_create_game("g1", "A", fresh_state()).unwrap();
    assert_eq!(show(&out), vec!["B: here A Black", "A: here B White"]);
    let st = r.full_state("g1", "A", Side::White).unwrap();
    assert_eq!(st.board.tokens(), board);
    assert_eq!(st.board.get(TokenCoords::new(1, 0, 1)), Some(Side::White));
    assert_eq!(st.game_state, GameState::WaitingFor(Side::Black));
    // B is primary: when B leaves now, A is told and stays.
    let out = r.leave_game("g1", "B");
    assert_eq!(show(&out), vec!["A: gone"]);
    assert!(r.leave_game("g1", "A").is_empty());
    assert!(!r.is_member("g1", "A"));
}

#[test]
fn finished_game_is_replaced_by_a_new_one() {
    let mut r = Registry::new();
    r.join_or_create_game("g1", "A", fresh_state()).unwrap();
    r.join_or_create_game("g1", "B", fresh_state()).unwrap();
    // A (White) and B (Black) play until White has a line.
    for n in 0..3 {
        r.put_token("g1", "A", Side::White, PoleCoords::new(n, 0)).unwrap();
        r.put_token("g1", "B", Side::Black, PoleCoords::new(n, 1)).unwrap();
    }
    r.put_token("g1", "A", Side::White, PoleCoords::new(3, 0)).unwrap();
    assert_eq!(
        r.put_token("g1", "B", Side::Black, PoleCoords::new(3, 1)).unwrap_err(),
        PlayError::Refused(PutError::WinnerDecided(Side::White))
    );
    // C joins: the finished game is gone, and C is the primary player of a new, empty one.
    let out = r.join_or_create_game("g1", "C", fresh_state()).unwrap();
    assert!(out.is_empty());
    assert!(r.is_member("g1", "C"));
    assert!(!r.is_member("g1", "A"));
    assert!(!r.is_member("g1", "B"));
    let st = r.full_state("g1", "C", Side::White).unwrap();
    assert_eq!(st.board.tokens(), vec![None; BOARD_CELLS]);
    assert_eq!(st.game_state, GameState::WaitingFor(Side::White));
    // The players of the old game have no game any more.
    assert_eq!(
        r.put_token("g1", "A", Side::White, PoleCoords::new(0, 0)).unwrap_err(),
        PlayError::NotInGame
    );
    // The new game takes a second player.
    let out = r.join_or_create_game("g1", "D", fresh_state()).unwrap();
    assert_eq!(show(&out), vec!["C: here D White", "D: here C Black"]);
}

#[test]
fn offered_board_with_a_winner_is_replaced_on_next_join() {
    let mut r = Registry::new();
    let mut state = fresh_state();
    for n in 0..4 {
        state.board.set(Side::Black, TokenCoords::new(n, n, n));
    }
    r.join_or_create_game("g1", "A", state).unwrap();
    assert!(r.join_or_create_game("g1", "B", fresh_state()).unwrap().is_empty());
    assert!(r.is_member("g1", "B"));
    assert!(!r.is_member("g1", "A"));
}

#[test]
fn token_in_registry_game_sets_the_turn() {
    let mut r = Registry::new();
    r.join_or_create_game("g1", "A", fresh_state()).unwrap();
    r.put_token("g1", "A", Side::Black, PoleCoords::new(2, 3)).unwrap();
    let st = r.full_state("g1", "A", Side::White).unwrap();
    assert_eq!(st.game_state, GameState::WaitingFor(Side::White));
    assert_eq!(st.board.get(TokenCoords::new(2, 0, 3)), Some(Side::Black));
    // Unknown game or player.
    assert_eq!(
        r.put_token("g2", "A", Side::White, PoleCoords::new(0, 0)).unwrap_err(),
        PlayError::NotInGame
    );
    assert_eq!(
        r.put_token("g1", "B", Side::White, PoleCoords::new(0, 0)).unwrap_err(),
        PlayError::NotInGame
    );
    // Full pole.
    for _ in 0..3 {
        r.put_token("g1", "A", Side::White, PoleCoords::new(2, 3)).unwrap();
        r.put_token("g1", "A", Side::Black, PoleCoords::new(0, 0)).unwrap();
    }
    let before = r.full_state("g1", "A", Side::White).unwrap();
    assert_eq!(
        r.put_token("g1", "A", Side::White, PoleCoords::new(2, 3)).unwrap_err(),
        PlayError::Refused(PutError::PoleFull)
    );
    let after = r.full_state("g1", "A", Side::White).unwrap();
    assert_eq!(after.board.tokens(), before.board.tokens());
    assert_eq!(after.game_state, before.game_state);
}

#[test]
fn winning_token_wins_the_registry_game() {
    let mut r = Registry::new();
    r.join_or_create_game("g1", "A", fresh_state()).unwrap();
    r.join_or_create_game("g1", "B", fresh_state()).unwrap();
    for n in 0..3 {
        r.put_token("g1", "A", Side::White, PoleCoords::new(n, 0)).unwrap();
        assert_eq!(
            r.full_state("g1", "A", Side::White).unwrap().game_state,
            GameState::WaitingFor(Side::Black)
        );
        r.put_token("g1", "B", Side::Black, PoleCoords::new(n, 1)).unwrap();
        assert_eq!(
            r.full_state("g1", "A", Side::White).unwrap().game_state,
            GameState::WaitingFor(Side::White)
        );
    }
    // The fourth token in the row wins at once.
    r.put_token("g1", "A", Side::White, PoleCoords::new(3, 0)).unwrap();
    let st = r.full_state("g1", "B", Side::Black).unwrap();
    assert_eq!(st.game_state, GameState::WonBy(Side::White));
    assert_eq!(st.board.get(TokenCoords::new(3, 0, 0)), Some(Side::White));
    // The state never goes back: no token is taken any more.
    let board = st.board.tokens();
    for (player, side) in [("A", Side::White), ("B", Side::Black)] {
        assert_eq!(
            r.put_token("g1", player, side, PoleCoords::new(2, 2)).unwrap_err(),
            PlayError::Refused(PutError::WinnerDecided(Side::White))
        );
        let st = r.full_state("g1", "A", Side::White).unwrap();
        assert_eq!(st.game_state, GameState::WonBy(Side::White));
        assert_eq!(st.board.tokens(), board);
    }
}

#[test]
fn registry_knows_its_games() {
    let mut r = Registry::new();
    assert!(!r.has_game("g1"));
    r.join_or_create_game("g1", "A", fresh_state()).unwrap();
    assert!(r.has_game("g1"));
    assert!(!r.has_game("g2"));
    r.join_or_create_game("g1", "B", fresh_state()).unwrap();
    r.leave_game("g1", "A");
    assert!(r.has_game("g1"));
    r.leave_game("g1", "B");
    assert!(!r.has_game("g1"));
}
