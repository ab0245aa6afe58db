//! Which announcements are asked for.

use crate::misc::query_params::{list_of, Params, ParseParamError, QueryParams};
use vstd::prelude::*;

verus! {

/// The announcement types whose latest text is asked for.
#[derive(Debug, PartialEq, Eq)]
pub struct LastAnnouncementParams {
    pub types: Vec<String>,
}

/// Announcement parameters as plain text.
pub struct LastAnnouncementParamsView {
    pub types: Seq<Seq<char>>,
}

impl View for LastAnnouncementParams {
    type V = LastAnnouncementParamsView;

    open spec fn view(&self) -> LastAnnouncementParamsView {
        LastAnnouncementParamsView { types: self.types.deep_view() }
    }
}

impl Params for LastAnnouncementParams {
    open spec fn required() -> Option<Seq<char>> {
        None
    }

    open spec fn read(pairs: Seq<(Seq<char>, Seq<char>)>) -> LastAnnouncementParamsView {
        LastAnnouncementParamsView { types: list_of(pairs, "types"@) }
    }

    fn parse<'a>(params: &QueryParams) -> (parsed: Result<
        LastAnnouncementParams,
        ParseParamError<'a>,
    >) {
        Ok(LastAnnouncementParams { types: params.get_list("types") })
    }
}

} // verus!
