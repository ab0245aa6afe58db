//! The identity of a participant.

use vstd::prelude::*;

verus! {

/// An end-user identity. Neither field is unique within a room.
#[derive(Debug, PartialEq, Eq)]
pub struct Participant {
    pub username: Option<String>,
    pub display: Option<String>,
}

/// A participant as plain text.
pub struct ParticipantView {
    pub username: Option<Seq<char>>,
    pub display: Option<Seq<char>>,
}

impl View for Participant {
    type V = ParticipantView;

    open spec fn view(&self) -> ParticipantView {
        ParticipantView {
            username: self.username.deep_view(),
            display: self.display.deep_view(),
        }
    }
}

impl DeepView for Participant {
    type V = ParticipantView;

    open spec fn deep_view(&self) -> ParticipantView {
        self@
    }
}

impl Clone for Participant {
    fn clone(&self) -> (copy: Self)
        ensures
            copy@ == self@,
    {
        Participant { username: self.username.clone(), display: self.display.clone() }
    }
}

} // verus!
