use textroom::misc::app_error::{error, not_found, AppError, ToBadRequest};
use textroom::misc::query_params::ParseParamError;
use textroom::model::Room;
use textroom::service::chat_service::{
    ChatService, ChatServiceInner, Command, ServiceEffect, ServiceReply,
};
use textroom::service::room_service::ChatRoom;
use textroom::service::ServiceError;

fn settings(uid: &str, secret: &str) -> Room {
    Room {
        uid: uid.to_string(),
        secret: secret.to_string(),
        post: None,
        post_types: vec![],
    }
}

fn handle(uid: &str, secret: &str) -> ChatRoom {
    ChatRoom {
        uid: uid.to_string(),
        secret: secret.to_string(),
    }
}

#[test]
fn a_room_is_created_once() {
    let mut service = ChatServiceInner::new();
    let state = service.create_room(settings("/r/1", "s")).unwrap();
    assert_eq!(state.room().uid, "/r/1");
    assert_eq!(state.count(), 0);
    assert_eq!(
        service.create_room(settings("/r/1", "other")).unwrap_err(),
        ServiceError::RoomAlreadyExists
    );
    assert_eq!(service.status(), vec![handle("/r/1", "s")]);
}

#[test]
fn get_room_finds_what_was_created() {
    let mut service = ChatServiceInner::new();
    assert_eq!(
        service.get_room(&"/r/1".to_string()),
        Err(ServiceError::RoomNotFound)
    );
    service.create_room(settings("/r/1", "s")).unwrap();
    service.create_room(settings("/r/2", "t")).unwrap();
    assert_eq!(
        service.get_room(&"/r/2".to_string()),
        Ok(handle("/r/2", "t"))
    );
    assert_eq!(
        service.get_room(&"/r".to_string()),
        Err(ServiceError::RoomNotFound)
    );
}

#[test]
fn status_lists_rooms_oldest_first() {
    let mut service = ChatServiceInner::new();
    assert_eq!(service.status(), vec![]);
    service.create_room(settings("b", "1")).unwrap();
    service.create_room(settings("a", "2")).unwrap();
    service.create_room(settings("c", "3")).unwrap();
    assert_eq!(
        service.status(),
        vec![handle("b", "1"), handle("a", "2"), handle("c", "3")]
    );
}

#[test]
fn destroy_room_checks_room_then_secret() {
    let mut service = ChatServiceInner::new();
    service.create_room(settings("/r/1", "s")).unwrap();
    assert_eq!(
        service.destroy_room("/r/9".to_string(), "s".to_string()),
        Err(ServiceError::RoomNotFound)
    );
    assert_eq!(
        service.destroy_room("/r/1".to_string(), "S".to_string()),
        Err(ServiceError::SecretMismatch)
    );
    assert_eq!(service.status().len(), 1);
    assert_eq!(
        service.destroy_room("/r/1".to_string(), "s".to_string()),
        Ok(handle("/r/1", "s"))
    );
    assert_eq!(service.status(), vec![]);
    assert_eq!(
        service.destroy_room("/r/1".to_string(), "s".to_string()),
        Err(ServiceError::RoomNotFound)
    );
    assert!(service.create_room(settings("/r/1", "s")).is_ok());
}

#[test]
fn detach_room_tolerates_missing_entries() {
    let mut service = ChatServiceInner::new();
    service.create_room(settings("a", "1")).unwrap();
    service.create_room(settings("b", "2")).unwrap();
    service.detach_room(&"zzz".to_string());
    assert_eq!(service.status().len(), 2);
    service.detach_room(&"a".to_string());
    assert_eq!(service.status(), vec![handle("b", "2")]);
    service.detach_room(&"a".to_string());
    assert_eq!(service.status(), vec![handle("b", "2")]);
}

#[test]
fn the_service_actor_dispatches_commands() {
    let mut service = ChatService::create();
    let made = service.handle(Command::CreateRoom {
        room: settings("/r/1", "s"),
    });
    assert_eq!(made.reply, ServiceReply::Created(Ok(())));
    assert_eq!(made.effects.len(), 1);
    match &made.effects[0] {
        ServiceEffect::Spawn(state) => assert_eq!(state.room().uid, "/r/1"),
        other => panic!("unexpected effect {:?}", other),
    }
    let again = service.handle(Command::CreateRoom {
        room: settings("/r/1", "s"),
    });
    assert_eq!(
        again.reply,
        ServiceReply::Created(Err(ServiceError::RoomAlreadyExists))
    );
    assert!(again.effects.is_empty());
    let listed = service.handle(Command::Status);
    assert_eq!(listed.reply, ServiceReply::Status(vec![handle("/r/1", "s")]));
    let found = service.handle(Command::GetRoom {
        uid: "/r/1".to_string(),
    });
    assert_eq!(found.reply, ServiceReply::Room(Ok(handle("/r/1", "s"))));
    let refused = service.handle(Command::DestroyRoom {
        uid: "/r/1".to_string(),
        secret: "x".to_string(),
    });
    assert_eq!(
        refused.reply,
        ServiceReply::Destroyed(Err(ServiceError::SecretMismatch))
    );
    assert!(refused.effects.is_empty());
    let ended = service.handle(Command::DestroyRoom {
        uid: "/r/1".to_string(),
        secret: "s".to_string(),
    });
    assert_eq!(ended.reply, ServiceReply::Destroyed(Ok(())));
    match &ended.effects[0] {
        ServiceEffect::Destroy(room) => assert_eq!(room, &handle("/r/1", "s")),
        other => panic!("unexpected effect {:?}", other),
    }
    let detached = service.handle(Command::DetachRoom {
        uid: "/r/1".to_string(),
    });
    assert_eq!(detached.reply, ServiceReply::Done);
    let missing = service.handle(Command::GetRoom {
        uid: "/r/1".to_string(),
    });
    assert_eq!(
        missing.reply,
        ServiceReply::Room(Err(ServiceError::RoomNotFound))
    );
}

#[test]
fn service_errors_map_to_http_errors() {
    let exists: Result<(), ServiceError> = Err(ServiceError::RoomAlreadyExists);
    assert_eq!(
        exists.to_bad_request(),
        Err(AppError {
            code: 400,
            message: Some("Room is not available".to_string())
        })
    );
    let missing: Result<(), ServiceError> = Err(ServiceError::RoomNotFound);
    assert_eq!(
        missing.to_bad_request(),
        Err(AppError {
            code: 404,
            message: Some("Room not found".to_string())
        })
    );
    let secret: Result<(), ServiceError> = Err(ServiceError::SecretMismatch);
    assert_eq!(
        secret.to_bad_request(),
        Err(AppError {
            code: 401,
            message: Some("Secret does not match".to_string())
        })
    );
    let fine: Result<u8, ServiceError> = Ok(3);
    assert_eq!(fine.to_bad_request(), Ok(3));
}

#[test]
fn a_missing_field_maps_to_bad_request() {
    let missing: Result<(), ParseParamError> =
        Err(ParseParamError::FieldRequired { name: "secret" });
    assert_eq!(
        missing.to_bad_request(),
        Err(AppError {
            code: 400,
            message: Some("secret is required.".to_string())
        })
    );
    let fine: Result<u8, ParseParamError> = Ok(3);
    assert_eq!(fine.to_bad_request(), Ok(3));
}

#[test]
fn app_errors_carry_their_status() {
    assert_eq!(
        AppError::bad_request("no".to_string()),
        AppError {
            code: 400,
            message: Some("no".to_string())
        }
    );
    assert_eq!(
        AppError::secret(),
        AppError {
            code: 401,
            message: Some("Secret does not match".to_string())
        }
    );
    assert_eq!(
        AppError::not_found("gone".to_string()),
        AppError {
            code: 404,
            message: Some("gone".to_string())
        }
    );
    assert_eq!(
        error::<u8>("bad".to_string()),
        Err(AppError {
            code: 400,
            message: Some("bad".to_string())
        })
    );
    assert_eq!(
        not_found::<u8>(),
        Err(AppError {
            code: 404,
            message: Some("Not found".to_string())
        })
    );
}
