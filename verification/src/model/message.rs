//! The payload of a webhook post.

use crate::misc::date_serde::Timestamp;
use vstd::prelude::*;

verus! {

/// What is posted to the system of record for one significant event.
#[derive(Debug, PartialEq, Eq)]
pub struct Message {
    pub textroom: &'static str,
    pub room: String,
    pub kind: String,
    pub from: String,
    pub text: String,
    pub date: Timestamp,
}

/// A webhook payload as plain text.
pub struct MessageView {
    pub textroom: Seq<char>,
    pub room: Seq<char>,
    pub kind: Seq<char>,
    pub from: Seq<char>,
    pub text: Seq<char>,
    pub date: Timestamp,
}

impl View for Message {
    type V = MessageView;

    open spec fn view(&self) -> MessageView {
        MessageView {
            textroom: self.textroom@,
            room: self.room@,
            kind: self.kind@,
            from: self.from@,
            text: self.text@,
            date: self.date,
        }
    }
}

impl DeepView for Message {
    type V = MessageView;

    open spec fn deep_view(&self) -> MessageView {
        self@
    }
}

impl MessageView {
    /// The post that tells of a room's creation.
    pub open spec fn room_created(room: Seq<char>, date: Timestamp) -> MessageView {
        MessageView {
            textroom: "moderate"@,
            room,
            kind: "room_created"@,
            from: Seq::empty(),
            text: Seq::empty(),
            date,
        }
    }

    /// The post that tells of a room's destruction.
    pub open spec fn room_destroyed(room: Seq<char>, date: Timestamp) -> MessageView {
        MessageView {
            textroom: "moderate"@,
            room,
            kind: "room_destroyed"@,
            from: Seq::empty(),
            text: Seq::empty(),
            date,
        }
    }

    /// The post that tells of a ban of `victim`, asked for by `from`.
    pub open spec fn ban(
        room: Seq<char>,
        from: Seq<char>,
        victim: Seq<char>,
        date: Timestamp,
    ) -> MessageView {
        MessageView { textroom: "moderate"@, room, kind: "ban"@, from, text: victim, date }
    }

    /// The post that mirrors an announcement.
    pub open spec fn announcement(
        room: Seq<char>,
        from: Seq<char>,
        kind: Seq<char>,
        text: Seq<char>,
        date: Timestamp,
    ) -> MessageView {
        MessageView { textroom: "announcement"@, room, kind, from, text, date }
    }

    /// The post that mirrors a participant's message.
    pub open spec fn message(
        room: Seq<char>,
        from: Seq<char>,
        kind: Seq<char>,
        text: Seq<char>,
        date: Timestamp,
    ) -> MessageView {
        MessageView { textroom: "message"@, room, kind, from, text, date }
    }
}

impl Message {
    /// The class of posts about a room's life and about bans.
    pub const MODERATE: &'static str = "moderate";

    /// The class of posts that mirror announcements.
    pub const ANNOUNCEMENT: &'static str = "announcement";

    /// The class of posts that mirror participants' messages.
    pub const MESSAGE: &'static str = "message";

    /// The type of the post about a ban.
    pub const TYPE_BAN: &'static str = "ban";

    /// The type of the post about a room's creation.
    pub const TYPE_ROOM_CREATED: &'static str = "room_created";

    /// The type of the post about a room's destruction.
    pub const TYPE_ROOM_DESTROYED: &'static str = "room_destroyed";

    /// The post that tells of the creation of `room`, stamped `date`.
    pub fn room_created_at(room: &str, date: Timestamp) -> (message: Message)
        ensures
            message@ == MessageView::room_created(room@, date),
    {
        Message {
            textroom: Message::MODERATE,
            room: room.to_owned(),
            kind: Message::TYPE_ROOM_CREATED.to_owned(),
            text: String::new(),
            date,
            from: String::new(),
        }
    }

    /// The post that tells of the destruction of `room`, stamped `date`.
    pub fn room_destroyed_at(room: &str, date: Timestamp) -> (message: Message)
        ensures
            message@ == MessageView::room_destroyed(room@, date),
    {
        Message {
            textroom: Message::MODERATE,
            room: room.to_owned(),
            kind: Message::TYPE_ROOM_DESTROYED.to_owned(),
            text: String::new(),
            date,
            from: String::new(),
        }
    }

    /// The post that tells of the creation of `room`, stamped with the
    /// current instant.
    pub fn room_created(room: &str) -> (message: Message)
        ensures
            message@ == MessageView::room_created(room@, message.date),
    {
        Message::room_created_at(room, Timestamp::now())
    }

    /// The post that tells of the destruction of `room`, stamped with the
    /// current instant.
    pub fn room_destroyed(room: &str) -> (message: Message)
        ensures
            message@ == MessageView::room_destroyed(room@, message.date),
    {
        Message::room_destroyed_at(room, Timestamp::now())
    }
}

} // verus!
