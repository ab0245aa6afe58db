//! What a participant joins with.

use crate::misc::query_params::{value_of, Params, ParseParamError, QueryParams};
use vstd::prelude::*;

verus! {

/// The identity and portrait that a participant offers when it joins.
#[derive(Debug, PartialEq, Eq)]
pub struct JoinParams {
    pub username: Option<String>,
    pub display: Option<String>,
    pub image_url: Option<String>,
}

/// Join parameters as plain text.
pub struct JoinParamsView {
    pub username: Option<Seq<char>>,
    pub display: Option<Seq<char>>,
    pub image_url: Option<Seq<char>>,
}

impl View for JoinParams {
    type V = JoinParamsView;

    open spec fn view(&self) -> JoinParamsView {
        JoinParamsView {
            username: self.username.deep_view(),
            display: self.display.deep_view(),
            image_url: self.image_url.deep_view(),
        }
    }
}

impl DeepView for JoinParams {
    type V = JoinParamsView;

    open spec fn deep_view(&self) -> JoinParamsView {
        self@
    }
}

impl Params for JoinParams {
    open spec fn required() -> Option<Seq<char>> {
        None
    }

    open spec fn read(pairs: Seq<(Seq<char>, Seq<char>)>) -> JoinParamsView {
        JoinParamsView {
            username: value_of(pairs, "username"@),
            display: value_of(pairs, "display"@),
            image_url: value_of(pairs, "imageUrl"@),
        }
    }

    fn parse<'a>(params: &QueryParams) -> (parsed: Result<JoinParams, ParseParamError<'a>>) {
        Ok(
            JoinParams {
                username: params.get("username"),
                display: params.get("display"),
                image_url: params.get("imageUrl"),
            },
        )
    }
}

} // verus!
