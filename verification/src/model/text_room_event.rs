//! Events that a room sends to the clients attached to it.

use crate::misc::date_serde::Timestamp;
use vstd::prelude::*;

verus! {

/// One outbound event.
#[allow(inconsistent_fields)]
#[derive(Debug, PartialEq, Eq)]
pub enum TextRoomEvent {
    Announcement { date: Timestamp, text: String, kind: String },
    Banned,
    Destroyed,
    Joined { username: Option<String>, display: Option<String>, participants: usize },
    Left { username: Option<String>, display: Option<String>, participants: usize },
    Message { from: String, display: String, date: Timestamp, text: String, kind: String },
}

/// An event as plain text.
#[allow(inconsistent_fields)]
pub enum TextRoomEventView {
    Announcement { date: Timestamp, text: Seq<char>, kind: Seq<char> },
    Banned,
    Destroyed,
    Joined { username: Option<Seq<char>>, display: Option<Seq<char>>, participants: nat },
    Left { username: Option<Seq<char>>, display: Option<Seq<char>>, participants: nat },
    Message {
        from: Seq<char>,
        display: Seq<char>,
        date: Timestamp,
        text: Seq<char>,
        kind: Seq<char>,
    },
}

impl View for TextRoomEvent {
    type V = TextRoomEventView;

    open spec fn view(&self) -> TextRoomEventView {
        match self {
            TextRoomEvent::Announcement { date, text, kind } => TextRoomEventView::Announcement {
                date: *date,
                text: text@,
                kind: kind@,
            },
            TextRoomEvent::Banned => TextRoomEventView::Banned,
            TextRoomEvent::Destroyed => TextRoomEventView::Destroyed,
            TextRoomEvent::Joined { username, display, participants } => TextRoomEventView::Joined {
                username: username.deep_view(),
                display: display.deep_view(),
                participants: *participants as nat,
            },
            TextRoomEvent::Left { username, display, participants } => TextRoomEventView::Left {
                username: username.deep_view(),
                display: display.deep_view(),
                participants: *participants as nat,
            },
            TextRoomEvent::Message { from, display, date, text, kind } => {
                TextRoomEventView::Message {
                    from: from@,
                    display: display@,
                    date: *date,
                    text: text@,
                    kind: kind@,
                }
            },
        }
    }
}

impl DeepView for TextRoomEvent {
    type V = TextRoomEventView;

    open spec fn deep_view(&self) -> TextRoomEventView {
        self@
    }
}

} // verus!
