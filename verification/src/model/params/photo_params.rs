//! Whose portrait is asked for.

use crate::misc::query_params::{value_of, Params, ParseParamError, QueryParams};
use vstd::prelude::*;

verus! {

/// The username whose portrait is asked for.
#[derive(Debug, PartialEq, Eq)]
pub struct PhotoParams {
    pub username: String,
}

/// Portrait parameters as plain text.
pub struct PhotoParamsView {
    pub username: Seq<char>,
}

impl View for PhotoParams {
    type V = PhotoParamsView;

    open spec fn view(&self) -> PhotoParamsView {
        PhotoParamsView { username: self.username@ }
    }
}

impl Params for PhotoParams {
    open spec fn required() -> Option<Seq<char>> {
        Some("username"@)
    }

    open spec fn read(pairs: Seq<(Seq<char>, Seq<char>)>) -> PhotoParamsView {
        PhotoParamsView { username: value_of(pairs, "username"@)->Some_0 }
    }

    fn parse<'a>(params: &QueryParams) -> (parsed: Result<PhotoParams, ParseParamError<'a>>) {
        match params.require("username") {
            Ok(username) => Ok(PhotoParams { username }),
            Err(error) => Err(error),
        }
    }
}

} // verus!
