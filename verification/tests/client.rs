use textroom::config::PING_INTERVAL;
use textroom::misc::clock::Clock;
use textroom::model::{Participant, TextRoomRequest, TextRoomResponse};
use textroom::service::client_service::{ClientInner, ClientOutcome};
use textroom::service::client_state::{ClientEffect, Command, Frame, Output, Undecoded};
use textroom::service::room_state;

fn alice() -> Participant {
    Participant {
        username: Some("a".to_string()),
        display: Some("A".to_string()),
    }
}

fn client_at(now: u64) -> ClientInner {
    ClientInner::new_at(
        7,
        alice(),
        "s".to_string(),
        PING_INTERVAL,
        Clock::start(),
        now,
    )
}

fn parting() -> Vec<ClientEffect> {
    vec![
        ClientEffect::Room(room_state::Command::RemoveClient { id: 7 }),
        ClientEffect::CancelPing,
        ClientEffect::CancelReader,
        ClientEffect::CloseSink,
    ]
}

#[test]
fn a_new_client_is_attached() {
    let client = ClientInner::new(7, alice(), "s".to_string(), PING_INTERVAL);
    assert_eq!(client.id(), 7);
    assert_eq!(client.me(), &alice());
    assert!(!client.is_detached());
    assert!(client.clock().now() < 60_000);
}

#[test]
fn a_message_goes_to_the_room_without_an_answer() {
    let mut client = client_at(0);
    let (response, effects) = client.handle_request(TextRoomRequest::Message {
        kind: "chat".to_string(),
        text: "hi".to_string(),
        transaction: Some("t".to_string()),
    });
    assert_eq!(response, None);
    assert_eq!(
        effects,
        vec![ClientEffect::Room(room_state::Command::SendMessage {
            sender: alice(),
            kind: "chat".to_string(),
            text: "hi".to_string()
        })]
    );
}

#[test]
fn an_announcement_needs_the_rooms_secret() {
    let mut client = client_at(0);
    let (response, effects) = client.handle_request(TextRoomRequest::Announcement {
        kind: "info".to_string(),
        text: "hello".to_string(),
        secret: "wrong".to_string(),
        transaction: Some("t1".to_string()),
    });
    assert_eq!(
        response,
        Some(TextRoomResponse::Error {
            transaction: Some("t1".to_string()),
            error: "Secret does not match.".to_string()
        })
    );
    assert_eq!(effects, vec![]);
    let (response, effects) = client.handle_request(TextRoomRequest::Announcement {
        kind: "info".to_string(),
        text: "hello".to_string(),
        secret: "s".to_string(),
        transaction: None,
    });
    assert_eq!(response, None);
    assert_eq!(
        effects,
        vec![ClientEffect::Room(room_state::Command::Announce {
            sender: alice(),
            kind: "info".to_string(),
            text: "hello".to_string()
        })]
    );
}

#[test]
fn a_ban_needs_the_rooms_secret() {
    let mut client = client_at(0);
    let (response, effects) = client.handle_request(TextRoomRequest::Ban {
        username: "b".to_string(),
        secret: "S".to_string(),
        transaction: None,
    });
    assert_eq!(
        response,
        Some(TextRoomResponse::Error {
            transaction: None,
            error: "Secret does not match.".to_string()
        })
    );
    assert_eq!(effects, vec![]);
    let (response, effects) = client.handle_request(TextRoomRequest::Ban {
        username: "b".to_string(),
        secret: "s".to_string(),
        transaction: None,
    });
    assert_eq!(response, None);
    assert_eq!(
        effects,
        vec![ClientEffect::Room(room_state::Command::Ban {
            from: Some("a".to_string()),
            victim: "b".to_string()
        })]
    );
}

#[test]
fn a_leave_is_answered_before_the_client_parts() {
    let mut client = client_at(0);
    let effects = client.on_listen(Ok(TextRoomRequest::Leave {
        transaction: Some("t2".to_string()),
    }));
    let mut expected = vec![ClientEffect::Write(Output::Response(
        TextRoomResponse::Success {
            transaction: Some("t2".to_string()),
            ok: "left".to_string(),
        },
    ))];
    expected.extend(parting());
    assert_eq!(effects, expected);
    assert!(client.is_detached());
}

#[test]
fn a_detached_client_answers_every_request_with_destroyed() {
    let mut client = client_at(0);
    client.close();
    let requests = vec![
        TextRoomRequest::Message {
            kind: "chat".to_string(),
            text: "hi".to_string(),
            transaction: Some("m".to_string()),
        },
        TextRoomRequest::Announcement {
            kind: "info".to_string(),
            text: "x".to_string(),
            secret: "s".to_string(),
            transaction: None,
        },
        TextRoomRequest::Ban {
            username: "b".to_string(),
            secret: "wrong".to_string(),
            transaction: Some("b".to_string()),
        },
        TextRoomRequest::Leave {
            transaction: Some("l".to_string()),
        },
    ];
    let tokens = vec![
        Some("m".to_string()),
        None,
        Some("b".to_string()),
        Some("l".to_string()),
    ];
    for (request, token) in requests.into_iter().zip(tokens) {
        let effects = client.on_listen(Ok(request));
        assert_eq!(
            effects,
            vec![ClientEffect::Write(Output::Response(
                TextRoomResponse::Error {
                    transaction: token,
                    error: "Room was destroyed".to_string()
                }
            ))]
        );
        assert!(client.is_detached());
    }
}

#[test]
fn an_undecodable_frame_is_answered_with_the_decoders_message() {
    let mut client = client_at(0);
    let effects = client.on_listen(Err(Undecoded {
        error: "missing field `textroom`".to_string(),
        transaction: Some("t9".to_string()),
    }));
    assert_eq!(
        effects,
        vec![ClientEffect::Write(Output::Response(
            TextRoomResponse::Error {
                transaction: Some("t9".to_string()),
                error: "missing field `textroom`".to_string()
            }
        ))]
    );
    let effects = client.on_listen(Err(Undecoded {
        error: "expected value at line 1 column 1".to_string(),
        transaction: None,
    }));
    assert_eq!(
        effects,
        vec![ClientEffect::Write(Output::Response(
            TextRoomResponse::Error {
                transaction: None,
                error: "expected value at line 1 column 1".to_string()
            }
        ))]
    );
    assert!(!client.is_detached());
}

#[test]
fn frames_other_than_text_and_pong_are_ignored() {
    let mut client = client_at(0);
    for frame in [Frame::Binary, Frame::Ping, Frame::Close, Frame::Raw] {
        assert_eq!(client.on_frame(frame, 5), vec![]);
        assert!(!client.is_detached());
    }
    // none of them counted as a pong
    let (alive, _) = client.send_ping(2 * PING_INTERVAL + 1);
    assert!(!alive);
}

#[test]
fn a_ping_is_sent_while_pongs_are_recent() {
    let mut client = client_at(1_000);
    let (alive, effects) = client.send_ping(1_000 + PING_INTERVAL);
    assert!(alive);
    assert_eq!(effects, vec![ClientEffect::Write(Output::Ping)]);
    let (alive, effects) = client.send_ping(1_000 + 2 * PING_INTERVAL);
    assert!(alive);
    assert_eq!(effects, vec![ClientEffect::Write(Output::Ping)]);
    assert!(!client.is_detached());
}

#[test]
fn a_ping_after_two_silent_intervals_closes_the_client() {
    let mut client = client_at(1_000);
    let (alive, effects) = client.send_ping(1_000 + 2 * PING_INTERVAL + 1);
    assert!(!alive);
    assert_eq!(effects, parting());
    assert!(client.is_detached());
    let (alive, effects) = client.send_ping(1_000 + 4 * PING_INTERVAL);
    assert!(!alive);
    assert_eq!(effects, vec![]);
}

#[test]
fn a_pong_renews_the_lease() {
    let mut client = client_at(0);
    assert_eq!(client.on_frame(Frame::Pong, 2 * PING_INTERVAL), vec![]);
    let (alive, _) = client.send_ping(4 * PING_INTERVAL);
    assert!(alive);
    let (alive, _) = client.send_ping(4 * PING_INTERVAL + 1);
    assert!(!alive);
}

#[test]
fn a_clock_that_runs_backwards_is_no_timeout() {
    let mut client = client_at(500_000);
    let (alive, effects) = client.send_ping(10);
    assert!(alive);
    assert_eq!(effects, vec![ClientEffect::Write(Output::Ping)]);
}

#[test]
fn a_huge_interval_does_not_overflow() {
    let mut client = ClientInner::new_at(1, alice(), "s".to_string(), u64::MAX, Clock::start(), 0);
    let (alive, _) = client.send_ping(u64::MAX);
    assert!(alive);
}

#[test]
fn send_writes_unless_detached() {
    let mut client = client_at(0);
    assert_eq!(
        client.send("{\"textroom\":\"banned\"}".to_string()),
        vec![ClientEffect::Write(Output::Text(
            "{\"textroom\":\"banned\"}".to_string()
        ))]
    );
    client.leave();
    assert_eq!(client.send("late".to_string()), vec![]);
}

#[test]
fn detach_is_idempotent() {
    let mut client = client_at(0);
    assert_eq!(client.detach(), parting());
    assert_eq!(client.detach(), vec![]);
    assert_eq!(client.leave(), vec![]);
    assert_eq!(client.close(), vec![]);
    assert!(client.is_detached());
}

#[test]
fn client_handle_at_dispatches_commands() {
    let mut client = client_at(0);
    assert_eq!(
        client.handle_at(
            Command::Send {
                text: "x".to_string()
            },
            10
        ),
        ClientOutcome {
            alive: true,
            effects: vec![ClientEffect::Write(Output::Text("x".to_string()))]
        }
    );
    assert_eq!(
        client.handle_at(
            Command::OnMessageReceived { frame: Frame::Pong },
            3 * PING_INTERVAL
        ),
        ClientOutcome {
            alive: true,
            effects: vec![]
        }
    );
    assert_eq!(
        client.handle_at(
            Command::SendPing {
                now: 5 * PING_INTERVAL
            },
            0
        ),
        ClientOutcome {
            alive: true,
            effects: vec![ClientEffect::Write(Output::Ping)]
        }
    );
    let outcome = client.handle_at(
        Command::OnMessageReceived {
            frame: Frame::Text(Ok(TextRoomRequest::Message {
                kind: "chat".to_string(),
                text: "hi".to_string(),
                transaction: None,
            })),
        },
        0,
    );
    assert_eq!(outcome.effects.len(), 1);
    assert_eq!(
        client.handle_at(Command::Leave, 0),
        ClientOutcome {
            alive: false,
            effects: parting()
        }
    );
    assert_eq!(
        client.handle_at(Command::Close, 0),
        ClientOutcome {
            alive: false,
            effects: vec![]
        }
    );
}

#[test]
fn client_handle_reads_its_own_clock() {
    let mut client = ClientInner::new(7, alice(), "s".to_string(), PING_INTERVAL);
    let outcome = client.handle(Command::OnMessageReceived { frame: Frame::Pong });
    assert!(outcome.alive);
    assert_eq!(outcome.effects, vec![]);
    let effects = client.on_message_received(Frame::Binary);
    assert_eq!(effects, vec![]);
    let outcome = client.handle(Command::Close);
    assert!(!outcome.alive);
    assert_eq!(outcome.effects, parting());
}
