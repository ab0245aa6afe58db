//! Routing of HTTP requests: from the path and the query of a request to the
//! operation that it asks for.

use crate::misc::app_error::{not_found, AppError, AppErrorView, ToBadRequest};
use crate::misc::query_params::{list_of, query_pairs, value_of, Params};
use crate::misc::string_ext::{after_last, before_last, StringExt};
use crate::misc::text::same_text;
use crate::model::params::create_params::CreateParams;
use crate::model::params::destroy_params::DestroyParams;
use crate::model::params::join_params::{JoinParams, JoinParamsView};
use crate::model::params::last_announcement_params::LastAnnouncementParams;
use crate::model::params::photo_params::PhotoParams;
use crate::model::room::{Room, RoomView};
use vstd::prelude::*;

verus! {

/// What a request asks of the service.
#[derive(Debug, PartialEq, Eq)]
pub enum Route {
    /// Make a room with these settings.
    Create { settings: Room },
    /// End the room `room` on the strength of `secret`.
    Destroy { room: String, secret: String },
    /// Report the status of every room.
    Status,
    /// Report on the runtime; served by debug builds only.
    Debug,
    /// Look the room up, then do `action` on it.
    Room { room: String, action: String },
}

/// A route as plain text.
pub enum RouteView {
    Create { settings: RoomView },
    Destroy { room: Seq<char>, secret: Seq<char> },
    Status,
    Debug,
    Room { room: Seq<char>, action: Seq<char> },
}

impl View for Route {
    type V = RouteView;

    open spec fn view(&self) -> RouteView {
        match self {
            Route::Create { settings } => RouteView::Create { settings: settings@ },
            Route::Destroy { room, secret } => RouteView::Destroy { room: room@, secret: secret@ },
            Route::Status => RouteView::Status,
            Route::Debug => RouteView::Debug,
            Route::Room { room, action } => RouteView::Room { room: room@, action: action@ },
        }
    }
}

/// What a request asks of a room that exists.
#[derive(Debug, PartialEq, Eq)]
pub enum RoomAction {
    /// Upgrade to a socket and attach a participant.
    Join { params: JoinParams },
    Count,
    Status,
    LastAnnouncement { types: Vec<String> },
    Participants,
    Photo { username: String },
}

/// A room action as plain text.
pub enum RoomActionView {
    Join { params: JoinParamsView },
    Count,
    Status,
    LastAnnouncement { types: Seq<Seq<char>> },
    Participants,
    Photo { username: Seq<char> },
}

impl View for RoomAction {
    type V = RoomActionView;

    open spec fn view(&self) -> RoomActionView {
        match self {
            RoomAction::Join { params } => RoomActionView::Join { params: params@ },
            RoomAction::Count => RoomActionView::Count,
            RoomAction::Status => RoomActionView::Status,
            RoomAction::LastAnnouncement { types } => RoomActionView::LastAnnouncement {
                types: types.deep_view(),
            },
            RoomAction::Participants => RoomActionView::Participants,
            RoomAction::Photo { username } => RoomActionView::Photo { username: username@ },
        }
    }
}

/// The report that nothing is served under a path.
pub open spec fn nothing_there() -> AppErrorView {
    AppErrorView::not_found("Not found"@)
}

/// The settings of the room that a creation request describes.
pub open spec fn created(room: Seq<char>, pairs: Seq<(Seq<char>, Seq<char>)>) -> RoomView {
    RoomView {
        uid: room,
        secret: value_of(pairs, "secret"@)->Some_0,
        post: value_of(pairs, "post"@),
        post_types: list_of(pairs, "postTypes"@),
    }
}

/// Where a request goes: the last segment of `path` names the operation,
/// what precedes it names the room, and `pairs` are the query's parameters.
pub open spec fn routed(path: Seq<char>, pairs: Seq<(Seq<char>, Seq<char>)>) -> Result<
    RouteView,
    AppErrorView,
> {
    let action = after_last(path, '/');
    let room = before_last(path, '/');
    if action.len() == 0 {
        Err(nothing_there())
    } else if action == "create"@ {
        if room.len() == 0 {
            Err(nothing_there())
        } else if value_of(pairs, "secret"@) is None {
            Err(AppErrorView::of_missing("secret"@))
        } else {
            Ok(RouteView::Create { settings: created(room, pairs) })
        }
    } else if action == "destroy"@ {
        if room.len() == 0 {
            Err(nothing_there())
        } else if value_of(pairs, "secret"@) is None {
            Err(AppErrorView::of_missing("secret"@))
        } else {
            Ok(RouteView::Destroy { room, secret: value_of(pairs, "secret"@)->Some_0 })
        }
    } else if action == "status"@ && room.len() == 0 {
        Ok(RouteView::Status)
    } else if action == "debug"@ {
        if room.len() == 0 {
            Ok(RouteView::Debug)
        } else {
            Err(nothing_there())
        }
    } else {
        Ok(RouteView::Room { room, action })
    }
}

/// What `action` asks of a room, given the query's parameters.
pub open spec fn acted(action: Seq<char>, pairs: Seq<(Seq<char>, Seq<char>)>) -> Result<
    RoomActionView,
    AppErrorView,
> {
    if action == "join"@ {
        Ok(
            RoomActionView::Join {
                params: JoinParamsView {
                    username: value_of(pairs, "username"@),
                    display: value_of(pairs, "display"@),
                    image_url: value_of(pairs, "imageUrl"@),
                },
            },
        )
    } else if action == "count"@ {
        Ok(RoomActionView::Count)
    } else if action == "status"@ {
        Ok(RoomActionView::Status)
    } else if action == "lastAnnouncement"@ {
        Ok(RoomActionView::LastAnnouncement { types: list_of(pairs, "types"@) })
    } else if action == "participants"@ {
        Ok(RoomActionView::Participants)
    } else if action == "photo"@ {
        match value_of(pairs, "username"@) {
            Some(username) => Ok(RoomActionView::Photo { username }),
            None => Err(AppErrorView::of_missing("username"@)),
        }
    } else {
        Err(nothing_there())
    }
}

/// The pairs of an optional query string.
pub open spec fn pairs_in(query: Option<&str>) -> Seq<(Seq<char>, Seq<char>)> {
    match query {
        Some(text) => query_pairs(text@),
        None => Seq::empty(),
    }
}

/// The settings of the room `room` that is created with `params`.
pub fn create_room(room: String, params: CreateParams) -> (settings: Room)
    ensures
        settings@ == (RoomView {
            uid: room@,
            secret: params@.secret,
            post: params@.post,
            post_types: params@.post_types,
        }),
{
    Room { uid: room, secret: params.secret, post: params.post, post_types: params.post_types }
}

/// Routes a request by its path and query.
pub fn handle_request(path: &str, query: Option<&str>) -> (route: Result<Route, AppError>)
    ensures
        match route {
            Ok(found) => routed(path@, pairs_in(query)) == Ok::<RouteView, AppErrorView>(found@),
            Err(error) => routed(path@, pairs_in(query)) == Err::<RouteView, AppErrorView>(error@),
        },
{
    let action = path.substring_after_last('/');
    let room = path.substring_before_last('/');
    proof {
        reveal_strlit("");
        reveal_strlit("create");
        reveal_strlit("destroy");
        reveal_strlit("status");
        reveal_strlit("debug");
        if action@.len() == 0 {
            assert(action@ =~= ""@);
        }
    }
    if same_text(action, "") {
        not_found()
    } else if same_text(action, "create") {
        if room.is_empty() {
            not_found()
        } else {
            let parsed: Result<CreateParams, _> = Params::parse_uri(query);
            match parsed.to_bad_request() {
                Ok(params) => Ok(
                    Route::Create { settings: create_room(room.to_owned(), params) },
                ),
                Err(error) => Err(error),
            }
        }
    } else if same_text(action, "destroy") {
        if room.is_empty() {
            not_found()
        } else {
            let parsed: Result<DestroyParams, _> = Params::parse_uri(query);
            match parsed.to_bad_request() {
                Ok(params) => Ok(Route::Destroy { room: room.to_owned(), secret: params.secret }),
                Err(error) => Err(error),
            }
        }
    } else if same_text(action, "status") && room.is_empty() {
        Ok(Route::Status)
    } else if same_text(action, "debug") {
        if room.is_empty() {
            Ok(Route::Debug)
        } else {
            not_found()
        }
    } else {
        Ok(Route::Room { room: room.to_owned(), action: action.to_owned() })
    }
}

/// Reads what `action` asks of a room that was found.
pub fn room_action(action: &str, query: Option<&str>) -> (asked: Result<RoomAction, AppError>)
    ensures
        match asked {
            Ok(found) => acted(action@, pairs_in(query)) == Ok::<RoomActionView, AppErrorView>(
                found@,
            ),
            Err(error) => acted(action@, pairs_in(query)) == Err::<RoomActionView, AppErrorView>(
                error@,
            ),
        },
{
    proof {
        reveal_strlit("join");
        reveal_strlit("count");
        reveal_strlit("status");
        reveal_strlit("lastAnnouncement");
        reveal_strlit("participants");
        reveal_strlit("photo");
    }
    if same_text(action, "join") {
        let parsed: Result<JoinParams, _> = Params::parse_uri(query);
        match parsed.to_bad_request() {
            Ok(params) => Ok(RoomAction::Join { params }),
            Err(error) => Err(error),
        }
    } else if same_text(action, "count") {
        Ok(RoomAction::Count)
    } else if same_text(action, "status") {
        Ok(RoomAction::Status)
    } else if same_text(action, "lastAnnouncement") {
        let parsed: Result<LastAnnouncementParams, _> = Params::parse_uri(query);
        match parsed.to_bad_request() {
            Ok(params) => Ok(RoomAction::LastAnnouncement { types: params.types }),
            Err(error) => Err(error),
        }
    } else if same_text(action, "participants") {
        Ok(RoomAction::Participants)
    } else if same_text(action, "photo") {
        let parsed: Result<PhotoParams, _> = Params::parse_uri(query);
        match parsed.to_bad_request() {
            Ok(params) => Ok(RoomAction::Photo { username: params.username }),
            Err(error) => Err(error),
        }
    } else {
        not_found()
    }
}

} // verus!
