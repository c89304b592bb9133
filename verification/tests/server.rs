use connectfour::game::{BoardState, PoleCoords, PutError, Side, TokenCoords, BOARD_CELLS};
use connectfour::game_manager::GameState;
use connectfour::registry::{Delivery, GameStartOrResume, PlayError, PlayerToPlayer, Registry};
use connectfour::server::{handle_conn, ConnError, ConnEvent, ConnOut, PlayerConn, PING_INTERVAL_MS};
use connectfour::{WSClientInfo, WSClientToServer, WSFullGameState, WSServerToClient};

fn hello(game_id: &str) -> WSClientToServer {
    WSClientToServer::Hello(WSClientInfo {
        game_id: game_id.to_string(),
        player_name: "me".to_string(),
        game_state: WSFullGameState {
            game_state: GameState::WaitingFor(Side::White),
            ws_player_side: Side::White,
            board: BoardState::new(),
        },
    })
}

fn join(r: &mut Registry, game_id: &str, player_id: &str) -> (PlayerConn, Vec<Delivery>) {
    match handle_conn(r, player_id, hello(game_id)) {
        Ok(v) => v,
        Err(msg) => panic!("unexpected {:?}", msg),
    }
}

fn here(to_opponent: &str, my_side: Side) -> ConnEvent {
    ConnEvent::FromOpponent(PlayerToPlayer::OpponentIsHere(GameStartOrResume {
        to_opponent: to_opponent.to_string(),
        my_side,
    }))
}

#[test]
fn first_message_must_be_hello() {
    let mut r = Registry::new();
    match handle_conn(&mut r, "A", WSClientToServer::PutToken(PoleCoords::new(0, 0))) {
        Err(WSServerToClient::Msg(t)) => assert_eq!(t, "expected hello"),
        other => panic!("unexpected {:?}", other.map(|_| ())),
    }
    assert!(!r.is_member("g1", "A"));
}

#[test]
fn hello_joins_the_game() {
    let mut r = Registry::new();
    let (conn, out) = join(&mut r, "g1", "127.0.0.1:5000");
    assert!(out.is_empty());
    assert_eq!(conn.get_game_id(), "g1");
    assert_eq!(conn.get_player_id(), "127.0.0.1:5000");
    assert!(r.is_member("g1", "127.0.0.1:5000"));
    let (_, out) = join(&mut r, "g1", "127.0.0.1:5001");
    assert_eq!(out.len(), 2);
    assert_eq!(out[0].to, "127.0.0.1:5000");
    assert_eq!(out[1].to, "127.0.0.1:5001");
}

#[test]
fn full_game_is_reported_to_the_client() {
    let mut r = Registry::new();
    join(&mut r, "g1", "A");
    join(&mut r, "g1", "B");
    match handle_conn(&mut r, "C", hello("g1")) {
        Err(WSServerToClient::Msg(t)) => assert_eq!(t, "game g1 already has both players"),
        other => panic!("unexpected {:?}", other.map(|_| ())),
    }
    assert!(!r.is_member("g1", "C"));
}

#[test]
fn second_hello_ends_the_connection() {
    let mut r = Registry::new();
    let (mut conn, _) = join(&mut r, "g1", "A");
    let res = conn.handle_player(&mut r, ConnEvent::FromClient(hello("g1")));
    assert_eq!(res.unwrap_err(), ConnError::UnexpectedHello);
    assert!(r.is_member("g1", "A"));
}

#[test]
fn ping_is_sent_when_due() {
    let mut r = Registry::new();
    let (mut conn, _) = join(&mut r, "g1", "A");
    let out = conn.handle_player(&mut r, ConnEvent::PingDue).unwrap();
    assert_eq!(out.len(), 1);
    assert!(matches!(&out[0], ConnOut::ToClient(WSServerToClient::Ping)));
    assert_eq!(PING_INTERVAL_MS, 5000);
}

#[test]
fn both_clients_get_the_game_when_they_meet() {
    let mut r = Registry::new();
    let (mut a, _) = join(&mut r, "g1", "A");
    let (mut b, notices) = join(&mut r, "g1", "B");
    // Deliver the introductions.
    let mut notices = notices.into_iter();
    let to_a = notices.next().unwrap();
    let to_b = notices.next().unwrap();
    assert_eq!(to_a.to, "A");
    assert_eq!(to_b.to, "B");
    let out = a.handle_player(&mut r, ConnEvent::FromOpponent(to_a.msg)).unwrap();
    assert_eq!(out.len(), 1);
    match &out[0] {
        ConnOut::ToClient(WSServerToClient::GameReset(reset)) => {
            assert_eq!(reset.opponent_name, "my opponent");
            assert_eq!(reset.game_state.game_state, GameState::WaitingFor(Side::White));
            assert_eq!(reset.game_state.ws_player_side, Side::White);
            assert_eq!(reset.game_state.board.tokens(), vec![None; BOARD_CELLS]);
        }
        other => panic!("unexpected {:?}", other),
    }
    let out = b.handle_player(&mut r, ConnEvent::FromOpponent(to_b.msg)).unwrap();
    match &out[0] {
        ConnOut::ToClient(WSServerToClient::GameReset(reset)) => {
            assert_eq!(reset.game_state.ws_player_side, Side::Black);
            assert_eq!(reset.game_state.game_state, GameState::WaitingFor(Side::White));
        }
        other => panic!("unexpected {:?}", other),
    }

    // B's client moves: its tokens are White, the opposite of the side of its connection.
    let out = b
        .handle_player(
            &mut r,
            ConnEvent::FromClient(WSClientToServer::PutToken(PoleCoords::new(1, 2))),
        )
        .unwrap();
    assert_eq!(out.len(), 1);
    match &out[0] {
        ConnOut::ToOpponent(d) => {
            assert_eq!(d.to, "A");
            assert!(matches!(&d.msg, PlayerToPlayer::PutToken(p) if *p == PoleCoords::new(1, 2)));
        }
        other => panic!("unexpected {:?}", other),
    }
    let st = r.full_state("g1", "A", Side::White).unwrap();
    assert_eq!(st.board.get(TokenCoords::new(1, 0, 2)), Some(Side::White));
    assert_eq!(st.game_state, GameState::WaitingFor(Side::Black));

    // A's client is told about the token.
    let out = a
        .handle_player(
            &mut r,
            ConnEvent::FromOpponent(PlayerToPlayer::PutToken(PoleCoords::new(1, 2))),
        )
        .unwrap();
    assert!(matches!(
        &out[0],
        ConnOut::ToClient(WSServerToClient::PutToken(p)) if *p == PoleCoords::new(1, 2)
    ));
}

#[test]
fn leaving_and_rejoining_over_connections() {
    let mut r = Registry::new();
    let (a, _) = join(&mut r, "g1", "A");
    let (mut b, notices) = join(&mut r, "g1", "B");
    let to_b = notices.into_iter().nth(1).unwrap();
    b.handle_player(&mut r, ConnEvent::FromOpponent(to_b.msg)).unwrap();
    b.handle_player(&mut r, ConnEvent::FromClient(WSClientToServer::PutToken(PoleCoords::new(0, 0))))
        .unwrap();

    // A leaves: B is told that the opponent is gone, and forgets it.
    let notices = r.leave_game(a.get_game_id(), a.get_player_id());
    assert_eq!(notices.len(), 1);
    assert_eq!(notices[0].to, "B");
    let gone = notices.into_iter().next().unwrap();
    let out = b.handle_player(&mut r, ConnEvent::FromOpponent(gone.msg)).unwrap();
    assert_eq!(out.len(), 1);
    assert!(matches!(&out[0], ConnOut::ToClient(WSServerToClient::OpponentIsGone)));
    // Without an opponent a token is put but handed on to nobody.
    let out = b
        .handle_player(
            &mut r,
            ConnEvent::FromClient(WSClientToServer::PutToken(PoleCoords::new(0, 0))),
        )
        .unwrap();
    assert!(out.is_empty());

    // A comes back on a new connection: B gets the game again, with the same board.
    let (_, notices) = join(&mut r, "g1", "A2");
    assert_eq!(notices[0].to, "B");
    let to_b = notices.into_iter().next().unwrap();
    let out = b.handle_player(&mut r, ConnEvent::FromOpponent(to_b.msg)).unwrap();
    match &out[0] {
        ConnOut::ToClient(WSServerToClient::GameReset(reset)) => {
            assert_eq!(reset.game_state.board.get(TokenCoords::new(0, 0, 0)), Some(Side::White));
            assert_eq!(reset.game_state.board.get(TokenCoords::new(0, 1, 0)), Some(Side::White));
            // B is primary now, with the side that was the secondary's.
            assert_eq!(reset.game_state.ws_player_side, Side::Black);
        }
        other => panic!("unexpected {:?}", other),
    }
}

#[test]
fn refused_token_ends_the_connection() {
    let mut r = Registry::new();
    let (mut a, _) = join(&mut r, "g1", "A");
    let p = PoleCoords::new(2, 2);
    for _ in 0..2 {
        a.handle_player(&mut r, ConnEvent::FromClient(WSClientToServer::PutToken(p))).unwrap();
        a.handle_player(&mut r, here("B", Side::Black)).unwrap();
        a.handle_player(&mut r, ConnEvent::FromClient(WSClientToServer::PutToken(p))).unwrap();
        a.handle_player(&mut r, here("B", Side::White)).unwrap();
    }
    let res = a.handle_player(&mut r, ConnEvent::FromClient(WSClientToServer::PutToken(p)));
    assert_eq!(res.unwrap_err(), ConnError::Play(PlayError::Refused(PutError::PoleFull)));

    // After the game has left the registry, nothing is put.
    r.leave_game("g1", "A");
    let res = a.handle_player(
        &mut r,
        ConnEvent::FromClient(WSClientToServer::PutToken(PoleCoords::new(0, 0))),
    );
    assert_eq!(res.unwrap_err(), ConnError::Play(PlayError::NotInGame));
    let res = a.handle_player(&mut r, here("B", Side::White));
    assert_eq!(res.unwrap_err(), ConnError::Play(PlayError::NotInGame));
}

#[test]
fn play_to_completion_then_new_player_starts_afresh() {
    let mut r = Registry::new();
    let (mut a, _) = join(&mut r, "g1", "A");
    let (mut b, notices) = join(&mut r, "g1", "B");
    let mut notices = notices.into_iter();
    a.handle_player(&mut r, ConnEvent::FromOpponent(notices.next().unwrap().msg)).unwrap();
    b.handle_player(&mut r, ConnEvent::FromOpponent(notices.next().unwrap().msg)).unwrap();
    // B's client plays White on the pole (0, 0), A's client Black on (1, 1).
    for _ in 0..3 {
        b.handle_player(
            &mut r,
            ConnEvent::FromClient(WSClientToServer::PutToken(PoleCoords::new(0, 0))),
        )
        .unwrap();
        a.handle_player(
            &mut r,
            ConnEvent::FromClient(WSClientToServer::PutToken(PoleCoords::new(1, 1))),
        )
        .unwrap();
    }
    b.handle_player(&mut r, ConnEvent::FromClient(WSClientToServer::PutToken(PoleCoords::new(0, 0))))
        .unwrap();
    // The game is won by White, and whoever is given the game sees that.
    assert_eq!(
        r.full_state("g1", "A", Side::White).unwrap().game_state,
        GameState::WonBy(Side::White)
    );
    let out = a.handle_player(&mut r, here("B", Side::White)).unwrap();
    match &out[0] {
        ConnOut::ToClient(WSServerToClient::GameReset(reset)) => {
            assert_eq!(reset.game_state.game_state, GameState::WonBy(Side::White));
            assert_eq!(reset.game_state.board.get(TokenCoords::new(0, 3, 0)), Some(Side::White));
        }
        other => panic!("unexpected {:?}", other),
    }
    // The game is won: it takes no more tokens.
    let res = a.handle_player(
        &mut r,
        ConnEvent::FromClient(WSClientToServer::PutToken(PoleCoords::new(1, 1))),
    );
    assert_eq!(
        res.unwrap_err(),
        ConnError::Play(PlayError::Refused(PutError::WinnerDecided(Side::White)))
    );
    // C joins: a new empty game with C as its primary player.
    let (_, notices) = join(&mut r, "g1", "C");
    assert!(notices.is_empty());
    assert!(r.is_member("g1", "C"));
    assert!(!r.is_member("g1", "A"));
    assert!(!r.is_member("g1", "B"));
    let st = r.full_state("g1", "C", Side::White).unwrap();
    assert_eq!(st.board.tokens(), vec![None; BOARD_CELLS]);
}
