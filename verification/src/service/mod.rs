//! The actors: the service registry, the rooms, and the clients.

pub mod chat_service;
pub mod client_laws;
pub mod client_service;
pub mod client_state;
pub mod room_laws;
pub mod room_service;
pub mod room_state;
pub mod service_error;

pub use chat_service::{
    ChatService, ChatServiceInner, ServiceEffect, ServiceOutcome, ServiceReply, ServiceState,
};
pub use client_service::{ClientInner, ClientOutcome};
pub use client_state::{ClientEffect, ClientState, ClientStep, Frame, Output, Undecoded};
pub use room_service::{ChatRoom, ChatRoomInner, Outcome};
pub use room_state::{ChatClient, Command, Reply, RoomEffect, RoomState, RoomStep};
pub use service_error::ServiceError;
