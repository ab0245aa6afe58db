//! Responses that go back to the sender of a request.

use vstd::prelude::*;

verus! {

/// The answer to one request: success with a word, or failure with a reason.
#[derive(Debug, PartialEq, Eq)]
pub enum TextRoomResponse {
    Success { transaction: Option<String>, ok: String },
    Error { transaction: Option<String>, error: String },
}

/// A response as plain text.
pub enum TextRoomResponseView {
    Success { transaction: Option<Seq<char>>, ok: Seq<char> },
    Error { transaction: Option<Seq<char>>, error: Seq<char> },
}

impl View for TextRoomResponse {
    type V = TextRoomResponseView;

    open spec fn view(&self) -> TextRoomResponseView {
        match self {
            TextRoomResponse::Success { transaction, ok } => TextRoomResponseView::Success {
                transaction: transaction.deep_view(),
                ok: ok@,
            },
            TextRoomResponse::Error { transaction, error } => TextRoomResponseView::Error {
                transaction: transaction.deep_view(),
                error: error@,
            },
        }
    }
}

impl DeepView for TextRoomResponse {
    type V = TextRoomResponseView;

    open spec fn deep_view(&self) -> TextRoomResponseView {
        self@
    }
}

impl TextRoomResponseView {
    /// The answer to a leave that went through.
    pub open spec fn left(transaction: Option<Seq<char>>) -> TextRoomResponseView {
        TextRoomResponseView::Success { transaction, ok: "left"@ }
    }

    /// The answer to any request on a room that is gone.
    pub open spec fn destroyed(transaction: Option<Seq<char>>) -> TextRoomResponseView {
        TextRoomResponseView::Error { transaction, error: "Room was destroyed"@ }
    }

    /// The answer to a moderation request that carried the wrong secret.
    pub open spec fn secret(transaction: Option<Seq<char>>) -> TextRoomResponseView {
        TextRoomResponseView::Error { transaction, error: "Secret does not match."@ }
    }

    /// The answer to a frame that was no request.
    pub open spec fn invalid(
        transaction: Option<Seq<char>>,
        error: Seq<char>,
    ) -> TextRoomResponseView {
        TextRoomResponseView::Error { transaction, error }
    }
}

impl TextRoomResponse {
    /// The answer to a leave that went through.
    pub fn left(transaction: Option<String>) -> (response: TextRoomResponse)
        ensures
            response@ == TextRoomResponseView::left(transaction.deep_view()),
    {
        TextRoomResponse::Success { transaction, ok: "left".to_owned() }
    }

    /// The answer to any request on a room that is gone.
    pub fn destroyed(transaction: Option<String>) -> (response: TextRoomResponse)
        ensures
            response@ == TextRoomResponseView::destroyed(transaction.deep_view()),
    {
        TextRoomResponse::Error { transaction, error: "Room was destroyed".to_owned() }
    }

    /// The answer to a moderation request that carried the wrong secret.
    pub fn secret(transaction: Option<String>) -> (response: TextRoomResponse)
        ensures
            response@ == TextRoomResponseView::secret(transaction.deep_view()),
    {
        TextRoomResponse::Error { transaction, error: "Secret does not match.".to_owned() }
    }

    /// The answer to a frame that was no request: the decoder's complaint,
    /// with the token where one could be recovered.
    pub fn invalid(transaction: Option<String>, error: String) -> (response: TextRoomResponse)
        ensures
            response@ == TextRoomResponseView::invalid(transaction.deep_view(), error@),
    {
        TextRoomResponse::Error { transaction, error }
    }
}

} // verus!
