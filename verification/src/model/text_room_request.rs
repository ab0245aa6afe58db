//! Requests that a participant sends over its socket.

use vstd::prelude::*;

verus! {

/// One inbound request. `transaction` is an opaque token that the server
/// echoes and never interprets.
#[derive(Debug, PartialEq, Eq)]
pub enum TextRoomRequest {
    Announcement { kind: String, text: String, secret: String, transaction: Option<String> },
    Ban { username: String, secret: String, transaction: Option<String> },
    Leave { transaction: Option<String> },
    Message { kind: String, text: String, transaction: Option<String> },
}

/// A request as plain text.
pub enum TextRoomRequestView {
    Announcement {
        kind: Seq<char>,
        text: Seq<char>,
        secret: Seq<char>,
        transaction: Option<Seq<char>>,
    },
    Ban { username: Seq<char>, secret: Seq<char>, transaction: Option<Seq<char>> },
    Leave { transaction: Option<Seq<char>> },
    Message { kind: Seq<char>, text: Seq<char>, transaction: Option<Seq<char>> },
}

impl TextRoomRequestView {
    /// The token to echo, whatever the variant.
    pub open spec fn transaction(self) -> Option<Seq<char>> {
        match self {
            TextRoomRequestView::Announcement { transaction, .. } => transaction,
            TextRoomRequestView::Ban { transaction, .. } => transaction,
            TextRoomRequestView::Leave { transaction } => transaction,
            TextRoomRequestView::Message { transaction, .. } => transaction,
        }
    }
}

impl View for TextRoomRequest {
    type V = TextRoomRequestView;

    open spec fn view(&self) -> TextRoomRequestView {
        match self {
            TextRoomRequest::Announcement { kind, text, secret, transaction } => {
                TextRoomRequestView::Announcement {
                    kind: kind@,
                    text: text@,
                    secret: secret@,
                    transaction: transaction.deep_view(),
                }
            },
            TextRoomRequest::Ban { username, secret, transaction } => TextRoomRequestView::Ban {
                username: username@,
                secret: secret@,
                transaction: transaction.deep_view(),
            },
            TextRoomRequest::Leave { transaction } => TextRoomRequestView::Leave {
                transaction: transaction.deep_view(),
            },
            TextRoomRequest::Message { kind, text, transaction } => TextRoomRequestView::Message {
                kind: kind@,
                text: text@,
                transaction: transaction.deep_view(),
            },
        }
    }
}

impl DeepView for TextRoomRequest {
    type V = TextRoomRequestView;

    open spec fn deep_view(&self) -> TextRoomRequestView {
        self@
    }
}

impl TextRoomRequest {
    /// The token to echo, whatever the variant.
    pub fn transaction(self) -> (token: Option<String>)
        ensures
            token.deep_view() == self@.transaction(),
    {
        match self {
            TextRoomRequest::Announcement { transaction, .. } => transaction,
            TextRoomRequest::Ban { transaction, .. } => transaction,
            TextRoomRequest::Leave { transaction } => transaction,
            TextRoomRequest::Message { transaction, .. } => transaction,
        }
    }
}

} // verus!
