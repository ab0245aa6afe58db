//! What a room is created with over HTTP.

use crate::misc::query_params::{list_of, value_of, Params, ParseParamError, QueryParams};
use vstd::prelude::*;

verus! {

/// The secret of the new room, and where and what it posts.
#[derive(Debug, PartialEq, Eq)]
pub struct CreateParams {
    pub secret: String,
    pub post: Option<String>,
    pub post_types: Vec<String>,
}

/// Creation parameters as plain text.
pub struct CreateParamsView {
    pub secret: Seq<char>,
    pub post: Option<Seq<char>>,
    pub post_types: Seq<Seq<char>>,
}

impl View for CreateParams {
    type V = CreateParamsView;

    open spec fn view(&self) -> CreateParamsView {
        CreateParamsView {
            secret: self.secret@,
            post: self.post.deep_view(),
            post_types: self.post_types.deep_view(),
        }
    }
}

impl Params for CreateParams {
    open spec fn required() -> Option<Seq<char>> {
        Some("secret"@)
    }

    open spec fn read(pairs: Seq<(Seq<char>, Seq<char>)>) -> CreateParamsView {
        CreateParamsView {
            secret: value_of(pairs, "secret"@)->Some_0,
            post: value_of(pairs, "post"@),
            post_types: list_of(pairs, "postTypes"@),
        }
    }

    fn parse<'a>(params: &QueryParams) -> (parsed: Result<CreateParams, ParseParamError<'a>>) {
        match params.require("secret") {
            Ok(secret) => Ok(
                CreateParams {
                    secret,
                    post: params.get("post"),
                    post_types: params.get_list("postTypes"),
                },
            ),
            Err(error) => Err(error),
        }
    }
}

} // verus!
