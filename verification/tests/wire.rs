use deathroll::client;
use deathroll::client::feed_bus::Request;
use deathroll::client::websockets::{on_socket_event, SocketEvent};
use deathroll::game_server::Command;
use deathroll::player::PlayerId;
use deathroll::protocol::{copy_feed, GameMessage, GameScore};
use deathroll::start_roll::StartRoll;
use deathroll::websockets::{handle_frame, FrameAction, WsMsg};
use deathroll::wire::{array, tagged};

#[test]
fn bare_notifications_are_json_strings() {
    assert_eq!(GameMessage::Spectate.encode(), "\"Spectate\"");
    assert_eq!(GameMessage::Disconnect.encode(), "\"Disconnect\"");
    assert_eq!(GameMessage::Reconnect.encode(), "\"Reconnect\"");
    assert_eq!(GameMessage::NoGameFound.encode(), "\"NoGameFound\"");
    assert_eq!(GameMessage::P1Join.encode(), "\"P1Join\"");
    assert_eq!(GameMessage::P2Join.encode(), "\"P2Join\"");
    assert_eq!(GameMessage::Pong.encode(), "\"Pong\"");
}

#[test]
fn notifications_with_text_are_tagged_objects() {
    assert_eq!(GameMessage::StartGame("go".to_string()).encode(), "{\"StartGame\":\"go\"}");
    assert_eq!(GameMessage::Status("x y".to_string()).encode(), "{\"Status\":\"x y\"}");
    assert_eq!(GameMessage::StartRoll("100".to_string()).encode(), "{\"StartRoll\":\"100\"}");
    assert_eq!(GameMessage::GameOver(String::new()).encode(), "{\"GameOver\":\"\"}");
}

#[test]
fn text_is_escaped_as_json() {
    assert_eq!(
        GameMessage::Status("say \"hi\"\\\n\t\u{1}".to_string()).encode(),
        "{\"Status\":\"say \\\"hi\\\"\\\\\\n\\t\\u0001\"}"
    );
    assert_eq!(
        GameMessage::Status("\u{1F9DF} \u{1F3B2}".to_string()).encode(),
        "{\"Status\":\"\u{1F9DF} \u{1F3B2}\"}"
    );
}

#[test]
fn feed_is_an_object_with_a_list() {
    let empty = GameMessage::GameScore(GameScore { client_feed: Vec::new() });
    assert_eq!(empty.encode(), "{\"GameScore\":{\"client_feed\":[]}}");
    let one = GameMessage::GameScore(GameScore { client_feed: vec!["a".to_string()] });
    assert_eq!(one.encode(), "{\"GameScore\":{\"client_feed\":[\"a\"]}}");
    let three = GameScore {
        client_feed: vec!["a".to_string(), "b \"c\"".to_string(), String::new()],
    };
    assert_eq!(three.encode(), "{\"client_feed\":[\"a\",\"b \\\"c\\\"\",\"\"]}");
}

#[test]
fn frames_parse_back_as_json() {
    let message = GameMessage::GameScore(GameScore {
        client_feed: vec!["one\n".to_string(), "\u{1F9DF} 2".to_string()],
    });
    let value: serde_json::Value = serde_json::from_str(&message.encode()).unwrap();
    let list = value["GameScore"]["client_feed"].as_array().unwrap();
    assert_eq!(list.len(), 2);
    assert_eq!(list[0].as_str(), Some("one\n"));
    assert_eq!(list[1].as_str(), Some("\u{1F9DF} 2"));
    let value: serde_json::Value =
        serde_json::from_str(&GameMessage::Status("a\"b".to_string()).encode()).unwrap();
    assert_eq!(value["Status"].as_str(), Some("a\"b"));
    let value: serde_json::Value = serde_json::from_str(&GameMessage::Pong.encode()).unwrap();
    assert_eq!(value.as_str(), Some("Pong"));
}

#[test]
fn clone_keeps_the_message() {
    let message = GameMessage::GameScore(GameScore {
        client_feed: vec!["a".to_string(), "b".to_string()],
    });
    assert_eq!(message.clone().encode(), message.encode());
    let message = GameMessage::GameOver("done".to_string());
    assert_eq!(message.clone().encode(), "{\"GameOver\":\"done\"}");
    assert_eq!(copy_feed(&vec!["x".to_string(), "y".to_string()]), vec!["x", "y"]);
}

#[test]
fn ping_is_answered_on_the_spot() {
    let action = handle_frame(Some(WsMsg::Ping), PlayerId(1), &"room".to_string());
    assert!(matches!(action, FrameAction::Reply(GameMessage::Pong)));
}

#[test]
fn roll_becomes_a_turn() {
    match handle_frame(Some(WsMsg::Roll), PlayerId(1), &"room".to_string()) {
        FrameAction::Forward(Command::Turn { player_id, game_id }) => {
            assert_eq!(player_id, PlayerId(1));
            assert_eq!(game_id, "room");
        }
        other => panic!("unexpected {:?}", other),
    }
}

#[test]
fn close_disconnects_and_reading_goes_on() {
    match handle_frame(Some(WsMsg::Close), PlayerId(4), &"room".to_string()) {
        FrameAction::Forward(Command::Disconnect { player_id }) => assert_eq!(player_id, PlayerId(4)),
        other => panic!("unexpected {:?}", other),
    }
}

#[test]
fn malformed_frame_disconnects_and_ends_reading() {
    match handle_frame(None, PlayerId(4), &"room".to_string()) {
        FrameAction::Hangup(Command::Disconnect { player_id }) => assert_eq!(player_id, PlayerId(4)),
        other => panic!("unexpected {:?}", other),
    }
}

#[test]
fn recorded_bound_is_read_as_a_number() {
    let mut table = StartRoll::new();
    table.insert("a".to_string(), "100".to_string());
    table.insert("b".to_string(), " 7\n".to_string());
    table.insert("c".to_string(), "seven".to_string());
    table.insert("d".to_string(), "0".to_string());
    table.insert("e".to_string(), "4294967296".to_string());
    assert_eq!(table.bound_for(&"a".to_string()), 100);
    assert_eq!(table.bound_for(&"b".to_string()), 7);
    assert_eq!(table.bound_for(&"c".to_string()), 0);
    assert_eq!(table.bound_for(&"d".to_string()), 0);
    assert_eq!(table.bound_for(&"e".to_string()), 0);
    assert_eq!(table.bound_for(&"f".to_string()), 0);
    assert_eq!(table.get(&"b".to_string()), Some(&" 7\n".to_string()));
    assert_eq!(table.get(&"f".to_string()), None);
}

#[test]
fn recording_again_replaces_the_bound() {
    let mut table = StartRoll::default();
    table.insert("a".to_string(), "100".to_string());
    table.insert("a".to_string(), "5".to_string());
    assert_eq!(table.bound_for(&"a".to_string()), 5);
    assert_eq!(table.bound_for(&"A".to_string()), 0);
}

#[test]
fn client_requests_on_the_wire() {
    assert_eq!(client::websockets::WsMsg::Ping.encode(), "\"ping\"");
    assert_eq!(client::websockets::WsMsg::Close.encode(), "\"close\"");
    assert_eq!(client::websockets::WsMsg::Start.encode(), "\"start\"");
    assert_eq!(client::websockets::WsMsg::Roll.encode(), "\"roll\"");
}

#[test]
fn socket_events_on_the_bus() {
    match on_socket_event(SocketEvent::Text("{\"Status\":\"x\"}".to_string())) {
        Some(Request::EventBusMsg(text)) => assert_eq!(text, "{\"Status\":\"x\"}"),
        None => panic!("a text frame was dropped"),
    }
    match on_socket_event(SocketEvent::ConnectionClose) {
        Some(request) => assert_eq!(request.into_text(), "\"Disconnect\""),
        None => panic!("the close was dropped"),
    }
    assert!(on_socket_event(SocketEvent::Bytes).is_none());
    assert!(on_socket_event(SocketEvent::ConnectionError).is_none());
    assert!(on_socket_event(SocketEvent::MessageSendError).is_none());
}

#[test]
fn tagged_puts_a_payload_under_a_tag() {
    assert_eq!(tagged("Status", "\"x\""), "{\"Status\":\"x\"}");
    assert_eq!(tagged("", ""), "{\"\":}");
}

#[test]
fn array_joins_with_commas() {
    assert_eq!(array(&Vec::new()), "[]");
    assert_eq!(array(&vec!["1".to_string()]), "[1]");
    assert_eq!(array(&vec!["1".to_string(), "\"b\"".to_string(), "{}".to_string()]), "[1,\"b\",{}]");
}
