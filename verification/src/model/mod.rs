//! The wire vocabulary and the records exchanged between the actors.

pub mod message;
pub mod params;
pub mod participant;
pub mod room;
pub mod room_info;
pub mod text_room_event;
pub mod text_room_request;
pub mod text_room_response;

pub use message::{Message, MessageView};
pub use params::{
    CreateParams, DestroyParams, JoinParams, JoinParamsView, LastAnnouncementParams, PhotoParams,
};
pub use participant::{Participant, ParticipantView};
pub use room::{Room, RoomView};
pub use room_info::{RoomInfo, RoomInfoView};
pub use text_room_event::{TextRoomEvent, TextRoomEventView};
pub use text_room_request::{TextRoomRequest, TextRoomRequestView};
pub use text_room_response::{TextRoomResponse, TextRoomResponseView};
