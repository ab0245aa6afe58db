use textroom::handlers::{create_room, handle_request, room_action, RoomAction, Route};
use textroom::misc::app_error::AppError;
use textroom::misc::response::{
    error_response, json_response, ok_response, photo_response, HttpResponse,
};
use textroom::model::{CreateParams, JoinParams, Room};

fn nothing_there() -> AppError {
    AppError {
        code: 404,
        message: Some("Not found".to_string()),
    }
}

#[test]
fn create_is_routed_with_its_settings() {
    let route = handle_request(
        "/r/1/create",
        Some("secret=s&post=https%3A%2F%2Fhook&postTypes=chat,info"),
    );
    assert_eq!(
        route,
        Ok(Route::Create {
            settings: Room {
                uid: "/r/1".to_string(),
                secret: "s".to_string(),
                post: Some("https://hook".to_string()),
                post_types: vec!["chat".to_string(), "info".to_string()],
            }
        })
    );
}

#[test]
fn create_without_secret_is_a_bad_request() {
    assert_eq!(
        handle_request("/r/1/create", Some("post=x")),
        Err(AppError {
            code: 400,
            message: Some("secret is required.".to_string())
        })
    );
    assert_eq!(
        handle_request("/r/1/create", None),
        Err(AppError {
            code: 400,
            message: Some("secret is required.".to_string())
        })
    );
}

#[test]
fn create_and_destroy_need_a_room() {
    assert_eq!(handle_request("/create", Some("secret=s")), Err(nothing_there()));
    assert_eq!(handle_request("/destroy", Some("secret=s")), Err(nothing_there()));
}

#[test]
fn a_path_without_slash_is_action_and_room_at_once() {
    assert_eq!(
        handle_request("create", Some("secret=s")),
        Ok(Route::Create {
            settings: Room {
                uid: "create".to_string(),
                secret: "s".to_string(),
                post: None,
                post_types: vec![],
            }
        })
    );
}

#[test]
fn destroy_is_routed_with_its_secret() {
    assert_eq!(
        handle_request("/r/1/destroy", Some("secret=s")),
        Ok(Route::Destroy {
            room: "/r/1".to_string(),
            secret: "s".to_string()
        })
    );
    assert_eq!(
        handle_request("/r/1/destroy", Some("other=s")),
        Err(AppError {
            code: 400,
            message: Some("secret is required.".to_string())
        })
    );
}

#[test]
fn status_is_of_the_service_or_of_a_room() {
    assert_eq!(handle_request("/status", None), Ok(Route::Status));
    assert_eq!(
        handle_request("/r/1/status", None),
        Ok(Route::Room {
            room: "/r/1".to_string(),
            action: "status".to_string()
        })
    );
}

#[test]
fn an_empty_last_segment_is_not_found() {
    assert_eq!(handle_request("/", None), Err(nothing_there()));
    assert_eq!(handle_request("/r/1/", None), Err(nothing_there()));
    assert_eq!(handle_request("", None), Err(nothing_there()));
}

#[test]
fn debug_is_served_at_the_root_only() {
    assert_eq!(handle_request("/debug", None), Ok(Route::Debug));
    assert_eq!(handle_request("/r/1/debug", None), Err(nothing_there()));
}

#[test]
fn other_segments_are_room_actions() {
    for action in ["join", "count", "lastAnnouncement", "participants", "photo", "xyz"] {
        let path = format!("/dev/528/{}", action);
        assert_eq!(
            handle_request(&path, Some("a=b")),
            Ok(Route::Room {
                room: "/dev/528".to_string(),
                action: action.to_string()
            })
        );
    }
}

#[test]
fn room_actions_are_read_with_their_parameters() {
    assert_eq!(room_action("count", None), Ok(RoomAction::Count));
    assert_eq!(room_action("status", None), Ok(RoomAction::Status));
    assert_eq!(room_action("participants", Some("x=y")), Ok(RoomAction::Participants));
    assert_eq!(
        room_action("lastAnnouncement", Some("types=info,other")),
        Ok(RoomAction::LastAnnouncement {
            types: vec!["info".to_string(), "other".to_string()]
        })
    );
    assert_eq!(
        room_action("lastAnnouncement", None),
        Ok(RoomAction::LastAnnouncement { types: vec![] })
    );
    assert_eq!(
        room_action("join", Some("username=a&display=A&imageUrl=u")),
        Ok(RoomAction::Join {
            params: JoinParams {
                username: Some("a".to_string()),
                display: Some("A".to_string()),
                image_url: Some("u".to_string())
            }
        })
    );
    assert_eq!(
        room_action("photo", Some("username=a")),
        Ok(RoomAction::Photo {
            username: "a".to_string()
        })
    );
}

#[test]
fn photo_needs_a_username_and_unknown_actions_are_not_found() {
    assert_eq!(
        room_action("photo", None),
        Err(AppError {
            code: 400,
            message: Some("username is required.".to_string())
        })
    );
    assert_eq!(room_action("create", Some("secret=s")), Err(nothing_there()));
    assert_eq!(room_action("Count", None), Err(nothing_there()));
    assert_eq!(room_action("", None), Err(nothing_there()));
}

#[test]
fn create_room_builds_the_settings() {
    let room = create_room(
        "/r/1".to_string(),
        CreateParams {
            secret: "s".to_string(),
            post: None,
            post_types: vec!["chat".to_string()],
        },
    );
    assert_eq!(
        room,
        Room {
            uid: "/r/1".to_string(),
            secret: "s".to_string(),
            post: None,
            post_types: vec!["chat".to_string()]
        }
    );
}

#[test]
fn responses_are_plain_values() {
    assert_eq!(
        ok_response(),
        HttpResponse {
            status: 200,
            content_type: None,
            location: None,
            body: String::new()
        }
    );
    assert_eq!(
        json_response("{\"count\":2}".to_string()),
        HttpResponse {
            status: 200,
            content_type: Some("application/json".to_string()),
            location: None,
            body: "{\"count\":2}".to_string()
        }
    );
    assert_eq!(
        error_response(&AppError::secret(), "{\"message\":\"Secret does not match\"}".to_string()),
        HttpResponse {
            status: 401,
            content_type: Some("application/json".to_string()),
            location: None,
            body: "{\"message\":\"Secret does not match\"}".to_string()
        }
    );
}

#[test]
fn a_portrait_is_a_redirect_or_not_found() {
    assert_eq!(
        photo_response(Some("https://img/a.jpg".to_string())),
        Ok(HttpResponse {
            status: 302,
            content_type: None,
            location: Some("https://img/a.jpg".to_string()),
            body: String::new()
        })
    );
    assert_eq!(photo_response(None), Err(nothing_there()));
}
