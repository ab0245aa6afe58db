//! What a room is created with.

use crate::misc::string_ext::{after_last, StringExt};
use vstd::prelude::*;

verus! {

/// The settings of a room, fixed at its creation.
#[derive(Debug, PartialEq, Eq)]
pub struct Room {
    /// Unique hierarchical path; slashes are allowed.
    pub uid: String,
    /// The moderators' token, compared by exact equality.
    pub secret: String,
    /// Where webhook posts go; `None` disables posting.
    pub post: Option<String>,
    /// The message types whose announcements and messages are posted.
    pub post_types: Vec<String>,
}

/// A room's settings as plain text.
pub struct RoomView {
    pub uid: Seq<char>,
    pub secret: Seq<char>,
    pub post: Option<Seq<char>>,
    pub post_types: Seq<Seq<char>>,
}

impl RoomView {
    /// The room's name: the last segment of its path.
    pub open spec fn name(self) -> Seq<char> {
        after_last(self.uid, '/')
    }
}

impl View for Room {
    type V = RoomView;

    open spec fn view(&self) -> RoomView {
        RoomView {
            uid: self.uid@,
            secret: self.secret@,
            post: self.post.deep_view(),
            post_types: self.post_types.deep_view(),
        }
    }
}

impl DeepView for Room {
    type V = RoomView;

    open spec fn deep_view(&self) -> RoomView {
        self@
    }
}

impl Room {
    /// The room's name: the last segment of its path.
    pub fn name(&self) -> (name: &str)
        ensures
            name@ == self@.name(),
    {
        self.uid.as_str().substring_after_last('/')
    }
}

} // verus!
