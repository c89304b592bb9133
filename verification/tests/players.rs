use connectfour::game::{BoardState, PoleCoords, Side, TokenCoords, BOARD_CELLS};
use connectfour::game_manager::player_local::{
    PlayerLocal, PlayerLocalEvent, PlayerLocalOut, PlayerLocalToUI,
};
use connectfour::game_manager::player_ws_client::{
    PlayerWSClient, WSClientOut, WSConnEvent, RECONNECT_DELAY_MS,
};
use connectfour::game_manager::{
    FullGameState, GameManagerToPlayer, GameState, PlayerState, PlayerToGameManager,
};
use connectfour::{WSClientToServer, WSFullGameState, WSGameReset, WSServerToClient};

fn not_ready_text(out: &WSClientOut) -> String {
    match out {
        WSClientOut::ToManager(PlayerToGameManager::StateChanged(PlayerState::NotReady(t))) => {
            t.clone()
        }
        other => panic!("unexpected {:?}", other),
    }
}

#[test]
fn primary_local_player_sets_up_the_game() {
    let mut p = PlayerLocal::new(Some(Side::White));
    let out = p.run(PlayerLocalEvent::Started);
    assert_eq!(out.len(), 2);
    match &out[0] {
        PlayerLocalOut::ToManager(PlayerToGameManager::SetFullGameState(FullGameState {
            game_state: GameState::WaitingFor(Side::White),
            primary_player_side: Side::White,
            board,
        })) => assert_eq!(board.tokens(), vec![None; BOARD_CELLS]),
        other => panic!("unexpected {:?}", other),
    }
    assert!(matches!(
        &out[1],
        PlayerLocalOut::ToManager(PlayerToGameManager::StateChanged(PlayerState::Ready))
    ));
}

#[test]
fn secondary_local_player_is_just_ready() {
    let mut p = PlayerLocal::new(None);
    let out = p.run(PlayerLocalEvent::Started);
    assert_eq!(out.len(), 1);
    assert!(matches!(
        &out[0],
        PlayerLocalOut::ToManager(PlayerToGameManager::StateChanged(PlayerState::Ready))
    ));
    // Without a side it never asks for input.
    let out = p.run(PlayerLocalEvent::FromManager(GameManagerToPlayer::GameStateChanged(
        GameState::WaitingFor(Side::Black),
    )));
    assert!(out.is_empty());
}

#[test]
fn local_player_asks_for_input_on_its_turn_only() {
    let mut p = PlayerLocal::new(None);
    let out = p.run(PlayerLocalEvent::FromManager(GameManagerToPlayer::Reset(
        BoardState::new(),
        Side::Black,
    )));
    assert!(out.is_empty());
    let out = p.run(PlayerLocalEvent::FromManager(GameManagerToPlayer::GameStateChanged(
        GameState::WaitingFor(Side::Black),
    )));
    assert_eq!(out.len(), 1);
    assert!(matches!(&out[0], PlayerLocalOut::ToUI(PlayerLocalToUI::RequestInput(Side::Black))));
    for gs in [
        GameState::WaitingFor(Side::White),
        GameState::WonBy(Side::Black),
        GameState::WonBy(Side::White),
    ] {
        let out = p.run(PlayerLocalEvent::FromManager(GameManagerToPlayer::GameStateChanged(gs)));
        assert!(out.is_empty());
    }
    let out = p.run(PlayerLocalEvent::FromManager(GameManagerToPlayer::OpponentPutToken(
        PoleCoords::new(1, 1),
    )));
    assert!(out.is_empty());
    // A reset changes the side.
    p.run(PlayerLocalEvent::FromManager(GameManagerToPlayer::Reset(BoardState::new(), Side::White)));
    let out = p.run(PlayerLocalEvent::FromManager(GameManagerToPlayer::GameStateChanged(
        GameState::WaitingFor(Side::White),
    )));
    assert!(matches!(&out[0], PlayerLocalOut::ToUI(PlayerLocalToUI::RequestInput(Side::White))));
}

#[test]
fn local_player_forwards_the_chosen_pole() {
    let mut p = PlayerLocal::new(Some(Side::White));
    let out = p.run(PlayerLocalEvent::PoleChosen(PoleCoords::new(3, 2)));
    assert_eq!(out.len(), 1);
    match &out[0] {
        PlayerLocalOut::ToManager(PlayerToGameManager::PutToken(pc)) => {
            assert_eq!(*pc, PoleCoords::new(3, 2))
        }
        other => panic!("unexpected {:?}", other),
    }
}

#[test]
fn network_player_reports_each_stage_of_connecting() {
    let mut p = PlayerWSClient::new("mygame1".to_string());
    let out = p.handle_ws_conn(WSConnEvent::Connecting);
    assert_eq!(out.len(), 1);
    assert_eq!(not_ready_text(&out[0]), "connecting to server...");

    let out = p.handle_ws_conn(WSConnEvent::Connected);
    assert_eq!(out.len(), 2);
    assert_eq!(not_ready_text(&out[0]), "authenticating...");
    match &out[1] {
        WSClientOut::ToServer(WSClientToServer::Hello(info)) => {
            assert_eq!(info.game_id, "mygame1");
            assert_eq!(info.player_name, "me");
            assert_eq!(info.game_state.game_state, GameState::WaitingFor(Side::White));
            assert_eq!(info.game_state.ws_player_side, Side::White);
            assert_eq!(info.game_state.board.tokens(), vec![None; BOARD_CELLS]);
        }
        other => panic!("unexpected {:?}", other),
    }

    let out = p.handle_ws_conn(WSConnEvent::HelloSent);
    assert_eq!(out.len(), 1);
    assert_eq!(not_ready_text(&out[0]), "connected, waiting for the opponent...");
}

#[test]
fn network_player_retries_after_failure() {
    let mut p = PlayerWSClient::new("g".to_string());
    let out = p.handle_ws_conn(WSConnEvent::Failed("connection refused".to_string()));
    assert_eq!(out.len(), 2);
    assert_eq!(not_ready_text(&out[0]), "connection refused");
    assert!(matches!(&out[1], WSClientOut::Reconnect(1000)));
    assert_eq!(RECONNECT_DELAY_MS, 1000);
}

#[test]
fn server_message_is_put_in_front_of_not_ready_states() {
    let mut p = PlayerWSClient::new("g".to_string());
    let out = p.handle_ws_conn(WSConnEvent::FromServer(WSServerToClient::Msg(
        "game g already has both players".to_string(),
    )));
    // The message itself is reported as it is.
    assert_eq!(out.len(), 1);
    assert_eq!(not_ready_text(&out[0]), "game g already has both players");

    let out = p.handle_ws_conn(WSConnEvent::Failed("closed".to_string()));
    assert_eq!(not_ready_text(&out[0]), "game g already has both players: closed");
    let out = p.handle_ws_conn(WSConnEvent::Connecting);
    assert_eq!(
        not_ready_text(&out[0]),
        "game g already has both players: connecting to server..."
    );

    // A second message is reported after the first, and then replaces it.
    let out = p.handle_ws_conn(WSConnEvent::FromServer(WSServerToClient::Msg("hi".to_string())));
    assert_eq!(not_ready_text(&out[0]), "game g already has both players: hi");
    let out = p.handle_ws_conn(WSConnEvent::FromServer(WSServerToClient::OpponentIsGone));
    assert_eq!(out.len(), 1);
    assert_eq!(not_ready_text(&out[0]), "hi: opponent disconnected, waiting...");
}

#[test]
fn game_reset_makes_network_player_ready() {
    let mut p = PlayerWSClient::new("g".to_string());
    p.handle_ws_conn(WSConnEvent::FromServer(WSServerToClient::Msg("old".to_string())));
    let mut board = BoardState::new();
    board.set(Side::Black, TokenCoords::new(0, 0, 0));
    let out = p.handle_ws_conn(WSConnEvent::FromServer(WSServerToClient::GameReset(WSGameReset {
        opponent_name: "my opponent".to_string(),
        game_state: WSFullGameState {
            game_state: GameState::WaitingFor(Side::White),
            ws_player_side: Side::Black,
            board: board.clone(),
        },
    })));
    assert_eq!(out.len(), 2);
    assert!(matches!(
        &out[0],
        WSClientOut::ToManager(PlayerToGameManager::StateChanged(PlayerState::Ready))
    ));
    match &out[1] {
        WSClientOut::ToManager(PlayerToGameManager::SetFullGameState(f)) => {
            assert_eq!(f.game_state, GameState::WaitingFor(Side::White));
            assert_eq!(f.primary_player_side, Side::Black);
            assert_eq!(f.board.tokens(), board.tokens());
        }
        other => panic!("unexpected {:?}", other),
    }
    // The old server message is forgotten.
    let out = p.handle_ws_conn(WSConnEvent::FromServer(WSServerToClient::OpponentIsGone));
    assert_eq!(not_ready_text(&out[0]), "opponent disconnected, waiting...");
}

#[test]
fn upd_state_ready_forgets_server_message() {
    let mut p = PlayerWSClient::new("g".to_string());
    p.handle_ws_conn(WSConnEvent::FromServer(WSServerToClient::Msg("old".to_string())));
    let out = p.upd_state_ready();
    assert!(matches!(
        out,
        WSClientOut::ToManager(PlayerToGameManager::StateChanged(PlayerState::Ready))
    ));
    let out = p.handle_ws_conn(WSConnEvent::HelloSent);
    assert_eq!(not_ready_text(&out[0]), "connected, waiting for the opponent...");
}

#[test]
fn network_player_translates_moves_both_ways() {
    let mut p = PlayerWSClient::new("g".to_string());
    let out =
        p.handle_ws_conn(WSConnEvent::FromServer(WSServerToClient::PutToken(PoleCoords::new(1, 2))));
    assert_eq!(out.len(), 1);
    match &out[0] {
        WSClientOut::ToManager(PlayerToGameManager::PutToken(pc)) => {
            assert_eq!(*pc, PoleCoords::new(1, 2))
        }
        other => panic!("unexpected {:?}", other),
    }
    let out = p.handle_ws_conn(WSConnEvent::FromManager(GameManagerToPlayer::OpponentPutToken(
        PoleCoords::new(3, 0),
    )));
    assert_eq!(out.len(), 1);
    match &out[0] {
        WSClientOut::ToServer(WSClientToServer::PutToken(pc)) => {
            assert_eq!(*pc, PoleCoords::new(3, 0))
        }
        other => panic!("unexpected {:?}", other),
    }
    // Nothing else goes over the connection.
    assert!(p.handle_ws_conn(WSConnEvent::FromServer(WSServerToClient::Ping)).is_empty());
    assert!(p
        .handle_ws_conn(WSConnEvent::FromManager(GameManagerToPlayer::GameStateChanged(
            GameState::WaitingFor(Side::White)
        )))
        .is_empty());
    assert!(p
        .handle_ws_conn(WSConnEvent::FromManager(GameManagerToPlayer::Reset(
            BoardState::new(),
            Side::White
        )))
        .is_empty());
}

/// The state that the player offers to the server when it connects.
fn offered(p: &mut PlayerWSClient) -> WSFullGameState {
    let mut out = p.handle_ws_conn(WSConnEvent::Connected);
    match out.pop() {
        Some(WSClientOut::ToServer(WSClientToServer::Hello(info))) => info.game_state,
        other => panic!("unexpected {:?}", other),
    }
}

fn reset(p: &mut PlayerWSClient, game_state: GameState, ws_player_side: Side, board: &BoardState) {
    p.handle_ws_conn(WSConnEvent::FromServer(WSServerToClient::GameReset(WSGameReset {
        opponent_name: "my opponent".to_string(),
        game_state: WSFullGameState { game_state, ws_player_side, board: board.clone() },
    })));
}

#[test]
fn hello_offers_the_game_that_the_server_gave() {
    let mut p = PlayerWSClient::new("g".to_string());
    let mut board = BoardState::new();
    board.set(Side::White, TokenCoords::new(2, 0, 1));
    board.set(Side::Black, TokenCoords::new(2, 1, 1));
    reset(&mut p, GameState::WaitingFor(Side::White), Side::Black, &board);
    // The connection fails, and the player connects again.
    p.handle_ws_conn(WSConnEvent::Failed("closed".to_string()));
    p.handle_ws_conn(WSConnEvent::Connecting);
    let st = offered(&mut p);
    assert_eq!(st.game_state, GameState::WaitingFor(Side::White));
    assert_eq!(st.ws_player_side, Side::Black);
    assert_eq!(st.board.tokens(), board.tokens());
    // A later reset replaces what is known.
    reset(&mut p, GameState::WaitingFor(Side::Black), Side::White, &BoardState::new());
    let st = offered(&mut p);
    assert_eq!(st.game_state, GameState::WaitingFor(Side::Black));
    assert_eq!(st.ws_player_side, Side::White);
    assert_eq!(st.board.tokens(), vec![None; BOARD_CELLS]);
}

#[test]
fn known_game_follows_the_tokens_of_both_players() {
    let mut p = PlayerWSClient::new("g".to_string());
    // The remote player has Black, the local one White, who moves first.
    reset(&mut p, GameState::WaitingFor(Side::White), Side::Black, &BoardState::new());
    // A token of the remote player out of turn is not taken.
    p.handle_ws_conn(WSConnEvent::FromServer(WSServerToClient::PutToken(PoleCoords::new(0, 0))));
    let st = offered(&mut p);
    assert_eq!(st.board.tokens(), vec![None; BOARD_CELLS]);
    assert_eq!(st.game_state, GameState::WaitingFor(Side::White));
    // The local player puts a token.
    p.handle_ws_conn(WSConnEvent::FromManager(GameManagerToPlayer::OpponentPutToken(
        PoleCoords::new(1, 2),
    )));
    let st = offered(&mut p);
    assert_eq!(st.board.get(TokenCoords::new(1, 0, 2)), Some(Side::White));
    assert_eq!(st.game_state, GameState::WaitingFor(Side::Black));
    // The remote player answers on the same pole.
    p.handle_ws_conn(WSConnEvent::FromServer(WSServerToClient::PutToken(PoleCoords::new(1, 2))));
    let st = offered(&mut p);
    assert_eq!(st.board.get(TokenCoords::new(1, 0, 2)), Some(Side::White));
    assert_eq!(st.board.get(TokenCoords::new(1, 1, 2)), Some(Side::Black));
    assert_eq!(st.board.tokens().iter().filter(|c| c.is_some()).count(), 2);
    assert_eq!(st.game_state, GameState::WaitingFor(Side::White));
    assert_eq!(st.ws_player_side, Side::Black);
    // A pole that does not stand on the board changes nothing, but is handed on.
    let out = p.handle_ws_conn(WSConnEvent::FromManager(GameManagerToPlayer::OpponentPutToken(
        PoleCoords::new(4, 0),
    )));
    assert_eq!(out.len(), 1);
    let st = offered(&mut p);
    assert_eq!(st.board.tokens().iter().filter(|c| c.is_some()).count(), 2);
    assert_eq!(st.game_state, GameState::WaitingFor(Side::White));
}

#[test]
fn known_game_is_won_by_the_fourth_token_in_a_row() {
    let mut p = PlayerWSClient::new("g".to_string());
    let mut board = BoardState::new();
    for n in 0..3 {
        board.set(Side::Black, TokenCoords::new(n, 0, 0));
        board.set(Side::White, TokenCoords::new(n, 0, 3));
    }
    reset(&mut p, GameState::WaitingFor(Side::Black), Side::Black, &board);
    p.handle_ws_conn(WSConnEvent::FromServer(WSServerToClient::PutToken(PoleCoords::new(3, 0))));
    let st = offered(&mut p);
    assert_eq!(st.game_state, GameState::WonBy(Side::Black));
    assert_eq!(st.board.get(TokenCoords::new(3, 0, 0)), Some(Side::Black));
    // Nothing is put after that.
    p.handle_ws_conn(WSConnEvent::FromManager(GameManagerToPlayer::OpponentPutToken(
        PoleCoords::new(3, 3),
    )));
    let st = offered(&mut p);
    assert_eq!(st.game_state, GameState::WonBy(Side::Black));
    assert_eq!(st.board.get(TokenCoords::new(3, 0, 3)), None);
}

#[test]
fn tokens_before_any_reset_leave_the_fresh_offer() {
    let mut p = PlayerWSClient::new("g".to_string());
    p.handle_ws_conn(WSConnEvent::FromServer(WSServerToClient::PutToken(PoleCoords::new(0, 0))));
    p.handle_ws_conn(WSConnEvent::FromManager(GameManagerToPlayer::OpponentPutToken(
        PoleCoords::new(1, 1),
    )));
    let st = offered(&mut p);
    assert_eq!(st.game_state, GameState::WaitingFor(Side::White));
    assert_eq!(st.ws_player_side, Side::White);
    assert_eq!(st.board.tokens(), vec![None; BOARD_CELLS]);
}
