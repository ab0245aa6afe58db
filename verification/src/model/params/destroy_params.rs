//! What a room is destroyed with over HTTP.

use crate::misc::query_params::{value_of, Params, ParseParamError, QueryParams};
use vstd::prelude::*;

verus! {

/// The secret that the moderator offers.
#[derive(Debug, PartialEq, Eq)]
pub struct DestroyParams {
    pub secret: String,
}

/// Destruction parameters as plain text.
pub struct DestroyParamsView {
    pub secret: Seq<char>,
}

impl View for DestroyParams {
    type V = DestroyParamsView;

    open spec fn view(&self) -> DestroyParamsView {
        DestroyParamsView { secret: self.secret@ }
    }
}

impl Params for DestroyParams {
    open spec fn required() -> Option<Seq<char>> {
        Some("secret"@)
    }

    open spec fn read(pairs: Seq<(Seq<char>, Seq<char>)>) -> DestroyParamsView {
        DestroyParamsView { secret: value_of(pairs, "secret"@)->Some_0 }
    }

    fn parse<'a>(params: &QueryParams) -> (parsed: Result<DestroyParams, ParseParamError<'a>>) {
        match params.require("secret") {
            Ok(secret) => Ok(DestroyParams { secret }),
            Err(error) => Err(error),
        }
    }
}

} // verus!
