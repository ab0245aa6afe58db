use textroom::misc::date_serde::Timestamp;
use textroom::model::{
    JoinParams, Message, Participant, Room, RoomInfo, TextRoomEvent,
};
use textroom::service::room_service::{ChatRoom, ChatRoomInner, Outcome};
use textroom::service::room_state::{Command, Reply, RoomEffect};

fn settings(post: Option<&str>, post_types: &[&str]) -> Room {
    Room {
        uid: "/r/1".to_string(),
        secret: "s".to_string(),
        post: post.map(|url| url.to_string()),
        post_types: post_types.iter().map(|kind| kind.to_string()).collect(),
    }
}

fn joining(username: Option<&str>, display: Option<&str>, image_url: Option<&str>) -> JoinParams {
    JoinParams {
        username: username.map(|text| text.to_string()),
        display: display.map(|text| text.to_string()),
        image_url: image_url.map(|text| text.to_string()),
    }
}

fn person(username: Option<&str>, display: Option<&str>) -> Participant {
    Participant {
        username: username.map(|text| text.to_string()),
        display: display.map(|text| text.to_string()),
    }
}

fn at(millis: i64) -> Timestamp {
    Timestamp { millis }
}

#[test]
fn a_new_room_is_empty() {
    let room = ChatRoomInner::new(settings(None, &[]));
    assert_eq!(room.count(), 0);
    assert_eq!(room.participants(), vec![]);
    assert_eq!(room.next_id(), 1);
    assert_eq!(room.message_count(), 0);
    assert!(!room.is_destroyed());
    assert_eq!(
        room.status(),
        RoomInfo {
            room: "/r/1".to_string(),
            participants: vec![],
            messages: 0
        }
    );
    assert_eq!(room.room().secret, "s");
}

#[test]
fn create_hands_out_handle_and_state() {
    let (handle, state) = ChatRoom::create(settings(None, &[]));
    assert_eq!(
        handle,
        ChatRoom {
            uid: "/r/1".to_string(),
            secret: "s".to_string()
        }
    );
    assert_eq!(state.count(), 0);
    assert_eq!(state.room().uid, "/r/1");
}

#[test]
fn creation_is_posted_when_a_post_address_is_set() {
    let silent = ChatRoomInner::new(settings(None, &["chat"]));
    assert_eq!(silent.post_created(at(7)), vec![]);
    let posting = ChatRoomInner::new(settings(Some("https://hook"), &[]));
    assert_eq!(
        posting.post_created(at(7)),
        vec![RoomEffect::Post {
            message: Message {
                textroom: "moderate",
                room: "1".to_string(),
                kind: "room_created".to_string(),
                from: String::new(),
                text: String::new(),
                date: at(7),
            }
        }]
    );
}

#[test]
fn join_event_counts_the_newcomer_and_goes_to_the_others() {
    let mut room = ChatRoomInner::new(settings(None, &[]));
    let (first, effects) = room.add_client(joining(Some("a"), Some("A"), None));
    assert_eq!(first, 1);
    assert_eq!(
        effects,
        vec![RoomEffect::Broadcast {
            to: vec![],
            event: TextRoomEvent::Joined {
                username: Some("a".to_string()),
                display: Some("A".to_string()),
                participants: 1
            }
        }]
    );
    assert_eq!(room.count(), 1);
    let (second, effects) = room.add_client(joining(Some("b"), None, None));
    assert_eq!(second, 2);
    assert_eq!(
        effects,
        vec![RoomEffect::Broadcast {
            to: vec![1],
            event: TextRoomEvent::Joined {
                username: Some("b".to_string()),
                display: None,
                participants: 2
            }
        }]
    );
    assert_eq!(room.count(), 2);
    assert_eq!(
        room.participants(),
        vec![person(Some("a"), Some("A")), person(Some("b"), None)]
    );
}

#[test]
fn identifiers_are_never_reused() {
    let mut room = ChatRoomInner::new(settings(None, &[]));
    let (first, _) = room.add_client(joining(Some("a"), None, None));
    let (second, _) = room.add_client(joining(Some("b"), None, None));
    room.remove_client(second);
    room.remove_client(first);
    let (third, _) = room.add_client(joining(Some("c"), None, None));
    assert_eq!((first, second, third), (1, 2, 3));
    assert_eq!(room.next_id(), 4);
}

#[test]
fn a_portrait_needs_username_and_address() {
    let mut room = ChatRoomInner::new(settings(None, &[]));
    room.add_client(joining(Some("a"), None, Some("https://img/a.jpg")));
    room.add_client(joining(None, Some("B"), Some("https://img/b.jpg")));
    room.add_client(joining(Some("c"), Some("C"), None));
    assert_eq!(
        room.photo(&"a".to_string()),
        Some("https://img/a.jpg".to_string())
    );
    assert_eq!(room.photo(&"c".to_string()), None);
    assert_eq!(room.photo(&"B".to_string()), None);
    room.add_client(joining(Some("a"), None, Some("https://img/new.jpg")));
    assert_eq!(
        room.photo(&"a".to_string()),
        Some("https://img/new.jpg".to_string())
    );
}

#[test]
fn leave_event_counts_those_that_remain() {
    let mut room = ChatRoomInner::new(settings(None, &[]));
    room.add_client(joining(Some("a"), Some("A"), None));
    room.add_client(joining(Some("b"), Some("B"), None));
    room.add_client(joining(Some("c"), Some("C"), None));
    let effects = room.remove_client(2);
    assert_eq!(
        effects,
        vec![RoomEffect::Broadcast {
            to: vec![1, 3],
            event: TextRoomEvent::Left {
                username: Some("b".to_string()),
                display: Some("B".to_string()),
                participants: 2
            }
        }]
    );
    assert_eq!(room.count(), 2);
}

#[test]
fn removing_an_absent_client_does_nothing() {
    let mut room = ChatRoomInner::new(settings(None, &[]));
    room.add_client(joining(Some("a"), None, None));
    assert_eq!(room.remove_client(9), vec![]);
    assert_eq!(room.count(), 1);
    room.remove_client(1);
    assert_eq!(room.remove_client(1), vec![]);
    assert_eq!(room.count(), 0);
}

#[test]
fn an_announcement_is_broadcast_counted_and_remembered() {
    let mut room = ChatRoomInner::new(settings(None, &[]));
    room.add_client(joining(Some("a"), None, None));
    room.add_client(joining(Some("b"), None, None));
    let effects = room.announce(
        person(Some("a"), None),
        "info".to_string(),
        "hello".to_string(),
        at(11),
    );
    assert_eq!(
        effects,
        vec![RoomEffect::Broadcast {
            to: vec![1, 2],
            event: TextRoomEvent::Announcement {
                date: at(11),
                text: "hello".to_string(),
                kind: "info".to_string()
            }
        }]
    );
    assert_eq!(room.message_count(), 1);
    let found = room.last_announcement(&vec!["info".to_string(), "other".to_string()]);
    assert_eq!(found.len(), 1);
    assert_eq!(found.get(&"info".to_string()), Some(&"hello".to_string()));
    assert_eq!(found.get(&"other".to_string()), None);
}

#[test]
fn an_announcement_without_username_has_no_effect() {
    let mut room = ChatRoomInner::new(settings(Some("https://hook"), &["info"]));
    room.add_client(joining(None, Some("A"), None));
    let effects = room.announce(
        person(None, Some("A")),
        "info".to_string(),
        "hello".to_string(),
        at(1),
    );
    assert_eq!(effects, vec![]);
    assert_eq!(room.message_count(), 0);
    assert_eq!(room.last_announcement(&vec!["info".to_string()]).len(), 0);
}

#[test]
fn the_latest_announcement_of_a_type_wins() {
    let mut room = ChatRoomInner::new(settings(None, &[]));
    let sender = || person(Some("a"), None);
    room.announce(sender(), "info".to_string(), "one".to_string(), at(1));
    room.announce(sender(), "alert".to_string(), "fire".to_string(), at(2));
    room.announce(sender(), "info".to_string(), "two".to_string(), at(3));
    room.announce(person(None, None), "info".to_string(), "three".to_string(), at(4));
    let found = room.last_announcement(&vec![
        "alert".to_string(),
        "info".to_string(),
        "info".to_string(),
    ]);
    assert_eq!(found.len(), 2);
    assert_eq!(found.get(&"info".to_string()), Some(&"two".to_string()));
    assert_eq!(found.get(&"alert".to_string()), Some(&"fire".to_string()));
    assert_eq!(room.last_announcement(&vec![]).len(), 0);
    assert_eq!(room.message_count(), 3);
}

#[test]
fn a_message_needs_username_and_display() {
    let mut room = ChatRoomInner::new(settings(None, &[]));
    room.add_client(joining(Some("a"), Some("A"), None));
    assert_eq!(
        room.send_message(person(Some("a"), None), "chat".to_string(), "hi".to_string(), at(1)),
        vec![]
    );
    assert_eq!(
        room.send_message(person(None, Some("A")), "chat".to_string(), "hi".to_string(), at(1)),
        vec![]
    );
    assert_eq!(room.message_count(), 0);
    let effects = room.send_message(
        person(Some("a"), Some("A")),
        "chat".to_string(),
        "hi".to_string(),
        at(2),
    );
    assert_eq!(
        effects,
        vec![RoomEffect::Broadcast {
            to: vec![1],
            event: TextRoomEvent::Message {
                from: "a".to_string(),
                display: "A".to_string(),
                date: at(2),
                text: "hi".to_string(),
                kind: "chat".to_string()
            }
        }]
    );
    assert_eq!(room.message_count(), 1);
    assert_eq!(room.last_announcement(&vec!["chat".to_string()]).len(), 0);
}

#[test]
fn user_events_are_posted_only_for_post_types() {
    let mut room = ChatRoomInner::new(settings(Some("https://hook"), &["chat", "info"]));
    let effects = room.send_message(
        person(Some("a"), Some("A")),
        "chat".to_string(),
        "hi".to_string(),
        at(2),
    );
    assert_eq!(effects.len(), 2);
    assert_eq!(
        effects[1],
        RoomEffect::Post {
            message: Message {
                textroom: "message",
                room: "1".to_string(),
                kind: "chat".to_string(),
                from: "a".to_string(),
                text: "hi".to_string(),
                date: at(2),
            }
        }
    );
    let effects = room.announce(
        person(Some("a"), None),
        "info".to_string(),
        "hello".to_string(),
        at(3),
    );
    assert_eq!(effects.len(), 2);
    assert_eq!(
        effects[1],
        RoomEffect::Post {
            message: Message {
                textroom: "announcement",
                room: "1".to_string(),
                kind: "info".to_string(),
                from: "a".to_string(),
                text: "hello".to_string(),
                date: at(3),
            }
        }
    );
    let effects = room.send_message(
        person(Some("a"), Some("A")),
        "whisper".to_string(),
        "psst".to_string(),
        at(4),
    );
    assert_eq!(effects.len(), 1);
    assert_eq!(room.message_count(), 3);
}

#[test]
fn user_events_are_not_posted_without_a_post_address() {
    let mut room = ChatRoomInner::new(settings(None, &["chat"]));
    let effects = room.send_message(
        person(Some("a"), Some("A")),
        "chat".to_string(),
        "hi".to_string(),
        at(2),
    );
    assert_eq!(effects.len(), 1);
}

#[test]
fn a_ban_expels_every_bearer_of_the_name() {
    let mut room = ChatRoomInner::new(settings(Some("https://hook"), &[]));
    room.add_client(joining(Some("a"), None, None));
    room.add_client(joining(Some("b"), None, None));
    room.add_client(joining(None, Some("b"), None));
    room.add_client(joining(Some("b"), Some("B2"), None));
    let effects = room.ban(Some("a".to_string()), "b".to_string(), at(9));
    assert_eq!(
        effects,
        vec![
            RoomEffect::Send {
                client: 2,
                event: TextRoomEvent::Banned
            },
            RoomEffect::Leave { client: 2 },
            RoomEffect::Send {
                client: 4,
                event: TextRoomEvent::Banned
            },
            RoomEffect::Leave { client: 4 },
            RoomEffect::Post {
                message: Message {
                    textroom: "moderate",
                    room: "1".to_string(),
                    kind: "ban".to_string(),
                    from: "a".to_string(),
                    text: "b".to_string(),
                    date: at(9),
                }
            },
        ]
    );
    assert_eq!(room.count(), 4);
}

#[test]
fn a_ban_by_a_nameless_requester_is_posted_with_an_empty_from() {
    let room = ChatRoomInner::new(settings(Some("https://hook"), &["chat"]));
    let effects = room.ban(None, "nobody".to_string(), at(9));
    assert_eq!(
        effects,
        vec![RoomEffect::Post {
            message: Message {
                textroom: "moderate",
                room: "1".to_string(),
                kind: "ban".to_string(),
                from: String::new(),
                text: "nobody".to_string(),
                date: at(9),
            }
        }]
    );
    let silent = ChatRoomInner::new(settings(None, &[]));
    assert_eq!(silent.ban(None, "nobody".to_string(), at(9)), vec![]);
}

#[test]
fn destroy_tells_everyone_once() {
    let mut room = ChatRoomInner::new(settings(Some("https://hook"), &[]));
    room.add_client(joining(Some("a"), None, None));
    room.add_client(joining(Some("b"), None, None));
    let effects = room.destroy(at(20));
    assert_eq!(
        effects,
        vec![
            RoomEffect::Broadcast {
                to: vec![1, 2],
                event: TextRoomEvent::Destroyed
            },
            RoomEffect::Detach {
                uid: "/r/1".to_string()
            },
            RoomEffect::Post {
                message: Message {
                    textroom: "moderate",
                    room: "1".to_string(),
                    kind: "room_destroyed".to_string(),
                    from: String::new(),
                    text: String::new(),
                    date: at(20),
                }
            },
        ]
    );
    assert!(room.is_destroyed());
    assert_eq!(room.count(), 0);
    assert_eq!(room.destroy(at(21)), vec![]);
    assert!(room.is_destroyed());
}

#[test]
fn a_destroyed_room_sends_no_event() {
    let mut room = ChatRoomInner::new(settings(None, &[]));
    room.add_client(joining(Some("a"), Some("A"), None));
    room.destroy(at(1));
    let effects = room.send_message(
        person(Some("a"), Some("A")),
        "chat".to_string(),
        "hi".to_string(),
        at(2),
    );
    assert_eq!(
        effects,
        vec![RoomEffect::Broadcast {
            to: vec![],
            event: TextRoomEvent::Message {
                from: "a".to_string(),
                display: "A".to_string(),
                date: at(2),
                text: "hi".to_string(),
                kind: "chat".to_string()
            }
        }]
    );
    assert_eq!(room.ban(None, "a".to_string(), at(3)), vec![]);
    assert_eq!(room.remove_client(1), vec![]);
}

#[test]
fn handle_at_answers_each_command() {
    let mut room = ChatRoomInner::new(settings(None, &[]));
    let joined = room.handle_at(
        Command::AddClient {
            params: joining(Some("a"), Some("A"), Some("https://img/a.jpg")),
        },
        at(1),
    );
    assert_eq!(joined.reply, Reply::Joined(1));
    assert_eq!(joined.effects.len(), 1);
    assert_eq!(
        room.handle_at(Command::Count, at(2)),
        Outcome {
            reply: Reply::Count(1),
            effects: vec![]
        }
    );
    assert_eq!(
        room.handle_at(Command::Participants, at(2)).reply,
        Reply::Participants(vec![person(Some("a"), Some("A"))])
    );
    assert_eq!(
        room.handle_at(
            Command::Photo {
                username: "a".to_string()
            },
            at(2)
        )
        .reply,
        Reply::Photo(Some("https://img/a.jpg".to_string()))
    );
    let said = room.handle_at(
        Command::SendMessage {
            sender: person(Some("a"), Some("A")),
            kind: "chat".to_string(),
            text: "hi".to_string(),
        },
        at(3),
    );
    assert_eq!(said.reply, Reply::Done);
    assert_eq!(said.effects.len(), 1);
    room.handle_at(
        Command::Announce {
            sender: person(Some("a"), Some("A")),
            kind: "info".to_string(),
            text: "hello".to_string(),
        },
        at(4),
    );
    assert_eq!(
        room.handle_at(Command::Status, at(5)).reply,
        Reply::Status(RoomInfo {
            room: "/r/1".to_string(),
            participants: vec![person(Some("a"), Some("A"))],
            messages: 2
        })
    );
    match room
        .handle_at(
            Command::LastAnnouncement {
                types: vec!["info".to_string()],
            },
            at(5),
        )
        .reply
    {
        Reply::LastAnnouncement(found) => {
            assert_eq!(found.get(&"info".to_string()), Some(&"hello".to_string()))
        }
        other => panic!("unexpected reply {:?}", other),
    }
    let banned = room.handle_at(
        Command::Ban {
            from: None,
            victim: "a".to_string(),
        },
        at(6),
    );
    assert_eq!(banned.effects.len(), 2);
    let left = room.handle_at(Command::RemoveClient { id: 1 }, at(7));
    assert_eq!(left.reply, Reply::Done);
    assert_eq!(left.effects.len(), 1);
    let ended = room.handle_at(Command::Destroy, at(8));
    assert_eq!(ended.effects.len(), 2);
    assert!(room.is_destroyed());
}

#[test]
fn handle_stamps_events_with_the_clock() {
    let mut room = ChatRoomInner::new(settings(None, &[]));
    let outcome = room.handle(Command::SendMessage {
        sender: person(Some("a"), Some("A")),
        kind: "chat".to_string(),
        text: "hi".to_string(),
    });
    match &outcome.effects[0] {
        RoomEffect::Broadcast {
            event: TextRoomEvent::Message { date, text, .. },
            ..
        } => {
            assert!(date.millis > 1_577_836_800_000);
            assert_eq!(text, "hi");
        }
        other => panic!("unexpected effect {:?}", other),
    }
    assert_eq!(room.message_count(), 1);
}
