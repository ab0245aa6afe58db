//! A snapshot of a room.

use crate::model::participant::{Participant, ParticipantView};
use vstd::prelude::*;

verus! {

/// What a room reports of itself: its path, who is attached, and how many
/// announcements and messages it has broadcast.
#[derive(Debug, PartialEq, Eq)]
pub struct RoomInfo {
    pub room: String,
    pub participants: Vec<Participant>,
    pub messages: usize,
}

/// A snapshot as plain text.
pub struct RoomInfoView {
    pub room: Seq<char>,
    pub participants: Seq<ParticipantView>,
    pub messages: nat,
}

impl View for RoomInfo {
    type V = RoomInfoView;

    open spec fn view(&self) -> RoomInfoView {
        RoomInfoView {
            room: self.room@,
            participants: self.participants.deep_view(),
            messages: self.messages as nat,
        }
    }
}

impl DeepView for RoomInfo {
    type V = RoomInfoView;

    open spec fn deep_view(&self) -> RoomInfoView {
        self@
    }
}

} // verus!
