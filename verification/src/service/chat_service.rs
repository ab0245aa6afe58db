//! The service actor: the registry of the rooms that exist.

use crate::model::room::{Room, RoomView};
use crate::service::room_service::{ChatRoom, ChatRoomInner, ChatRoomView};
use crate::service::room_state::RoomState;
use crate::service::service_error::ServiceError;
use vstd::prelude::*;

verus! {

/// Position in `rooms` of the room with path `uid`.
pub open spec fn index_of(rooms: Seq<ChatRoomView>, uid: Seq<char>) -> Option<int>
    decreases rooms.len(),
{
    if rooms.len() == 0 {
        None
    } else if rooms.last().uid == uid {
        Some(rooms.len() - 1)
    } else {
        index_of(rooms.drop_last(), uid)
    }
}

/// No two rooms have the same path.
pub open spec fn distinct_uids(rooms: Seq<ChatRoomView>) -> bool {
    forall|i: int, j: int|
        0 <= i < j < rooms.len() ==> (#[trigger] rooms[i]).uid != (#[trigger] rooms[j]).uid
}

/// Where `index_of` finds a path, the room there has it; where it finds
/// none, no room has it.
pub proof fn lemma_index_of(rooms: Seq<ChatRoomView>, uid: Seq<char>)
    ensures
        match index_of(rooms, uid) {
            Some(i) => 0 <= i < rooms.len() && rooms[i].uid == uid,
            None => forall|k: int| 0 <= k < rooms.len() ==> (#[trigger] rooms[k]).uid != uid,
        },
    decreases rooms.len(),
{
    if rooms.len() > 0 && rooms.last().uid != uid {
        let front = rooms.drop_last();
        lemma_index_of(front, uid);
        assert forall|k: int| 0 <= k < front.len() implies front[k] == rooms[k] by {}
    }
}

/// The registry: the handles of the rooms that exist, oldest first.
pub struct ServiceState {
    pub rooms: Seq<ChatRoomView>,
}

impl ServiceState {
    /// At most one room has a given path.
    pub open spec fn wf(self) -> bool {
        distinct_uids(self.rooms)
    }

    /// Whether a room with path `uid` is registered.
    pub open spec fn has(self, uid: Seq<char>) -> bool {
        index_of(self.rooms, uid) is Some
    }

    /// The handle of the room with path `uid`.
    pub open spec fn get_room(self, uid: Seq<char>) -> Result<ChatRoomView, ServiceError> {
        match index_of(self.rooms, uid) {
            Some(i) => Ok(self.rooms[i]),
            None => Err(ServiceError::RoomNotFound),
        }
    }

    /// The registry after a room with these settings was made; unchanged
    /// where a room with that path exists.
    pub open spec fn create_room(self, room: RoomView) -> ServiceState {
        if self.has(room.uid) {
            self
        } else {
            ServiceState {
                rooms: self.rooms.push(ChatRoomView { uid: room.uid, secret: room.secret }),
            }
        }
    }

    /// The registry without the room with path `uid`.
    pub open spec fn detach_room(self, uid: Seq<char>) -> ServiceState {
        match index_of(self.rooms, uid) {
            Some(i) => ServiceState { rooms: self.rooms.remove(i) },
            None => self,
        }
    }

    /// What an attempt to destroy the room `uid` with `secret` comes to: the
    /// handle of the room to end, or why there is none.
    pub open spec fn destroy_room(self, uid: Seq<char>, secret: Seq<char>) -> Result<
        ChatRoomView,
        ServiceError,
    > {
        match index_of(self.rooms, uid) {
            Some(i) => if self.rooms[i].secret == secret {
                Ok(self.rooms[i])
            } else {
                Err(ServiceError::SecretMismatch)
            },
            None => Err(ServiceError::RoomNotFound),
        }
    }
}

/// Removing a room keeps the paths distinct and leaves no room with the
/// removed path.
pub proof fn lemma_detach_forgets(state: ServiceState, uid: Seq<char>)
    requires
        state.wf(),
    ensures
        state.detach_room(uid).wf(),
        !state.detach_room(uid).has(uid),
        forall|other: Seq<char>|
            other != uid ==> state.detach_room(uid).get_room(other) == state.get_room(other),
{
    lemma_index_of(state.rooms, uid);
    let after = state.detach_room(uid);
    match index_of(state.rooms, uid) {
        Some(i) => {
            let rest = state.rooms.remove(i);
            assert forall|a: int, b: int| 0 <= a < b < rest.len() implies (#[trigger] rest[a]).uid
                != (#[trigger] rest[b]).uid by {
                let a0 = if a < i {
                    a
                } else {
                    a + 1
                };
                let b0 = if b < i {
                    b
                } else {
                    b + 1
                };
                assert(rest[a] == state.rooms[a0]);
                assert(rest[b] == state.rooms[b0]);
            }
            lemma_index_of(rest, uid);
            if index_of(rest, uid) is Some {
                let k = index_of(rest, uid)->Some_0;
                let k0 = if k < i {
                    k
                } else {
                    k + 1
                };
                assert(rest[k] == state.rooms[k0]);
                assert(state.rooms[k0].uid == state.rooms[i].uid);
            }
            assert forall|other: Seq<char>| other != uid implies after.get_room(other)
                == state.get_room(other) by {
                lemma_index_of(rest, other);
                lemma_index_of(state.rooms, other);
                match index_of(state.rooms, other) {
                    Some(j) => {
                        let j1 = if j < i {
                            j
                        } else {
                            j - 1
                        };
                        assert(rest[j1] == state.rooms[j]);
                        match index_of(rest, other) {
                            Some(k) => {
                                let k0 = if k < i {
                                    k
                                } else {
                                    k + 1
                                };
                                assert(rest[k] == state.rooms[k0]);
                                if k0 != j {
                                    if k0 < j {
                                        assert(state.rooms[k0].uid != state.rooms[j].uid);
                                    } else {
                                        assert(state.rooms[j].uid != state.rooms[k0].uid);
                                    }
                                }
                            },
                            None => {},
                        }
                    },
                    None => {
                        match index_of(rest, other) {
                            Some(k) => {
                                let k0 = if k < i {
                                    k
                                } else {
                                    k + 1
                                };
                                assert(rest[k] == state.rooms[k0]);
                            },
                            None => {},
                        }
                    },
                }
            }
        },
        None => {},
    }
}

/// Making a room keeps the paths distinct; afterwards a room with that path
/// is registered.
pub proof fn lemma_create_registers(state: ServiceState, room: RoomView)
    requires
        state.wf(),
    ensures
        state.create_room(room).wf(),
        state.create_room(room).has(room.uid),
{
    lemma_index_of(state.rooms, room.uid);
    let after = state.create_room(room);
    if !state.has(room.uid) {
        assert forall|a: int, b: int| 0 <= a < b < after.rooms.len() implies (
        #[trigger] after.rooms[a]).uid != (#[trigger] after.rooms[b]).uid by {
            assert(after.rooms[a] == state.rooms[a]);
            if b < state.rooms.len() {
                assert(after.rooms[b] == state.rooms[b]);
            }
        }
        assert(after.rooms.drop_last() =~= state.rooms);
    }
}

/// The state of the service: the registry of rooms.
#[derive(Debug)]
pub struct ChatServiceInner {
    rooms: Vec<ChatRoom>,
}

impl View for ChatServiceInner {
    type V = ServiceState;

    closed spec fn view(&self) -> ServiceState {
        ServiceState { rooms: self.rooms.deep_view() }
    }
}

/// Position in `rooms` of the room with path `uid`.
fn find_room(rooms: &Vec<ChatRoom>, uid: &String) -> (found: Option<usize>)
    ensures
        match found {
            Some(i) => index_of(rooms.deep_view(), uid@) == Some(i as int) && i < rooms.len(),
            None => index_of(rooms.deep_view(), uid@) is None,
        },
{
    let ghost all = rooms.deep_view();
    let mut i: usize = rooms.len();
    assert(all.take(i as int) =~= all);
    while i > 0
        invariant
            i <= rooms.len(),
            all == rooms.deep_view(),
            all.len() == rooms.len(),
            index_of(all, uid@) == index_of(all.take(i as int), uid@),
        decreases i,
    {
        if rooms[i - 1].uid == *uid {
            assert(all.take(i as int).last().uid == uid@);
            return Some(i - 1);
        }
        assert(all.take(i as int).drop_last() =~= all.take(i - 1));
        i = i - 1;
    }
    None
}

impl ChatServiceInner {
    #[verifier::type_invariant]
    spec fn inv(&self) -> bool {
        self@.wf()
    }

    /// A registry without rooms.
    pub fn new() -> (service: ChatServiceInner)
        ensures
            service@.rooms == Seq::<ChatRoomView>::empty(),
            service@.wf(),
    {
        let service = ChatServiceInner { rooms: Vec::new() };
        assert(service.rooms.deep_view() =~= Seq::empty());
        service
    }

    /// Makes a room with these settings and registers it, unless a room with
    /// that path exists. The state of the new room is handed out for its
    /// actor.
    pub fn create_room(&mut self, room: Room) -> (made: Result<ChatRoomInner, ServiceError>)
        ensures
            final(self)@ == old(self)@.create_room(room@),
            final(self)@.wf(),
            match made {
                Ok(state) => !old(self)@.has(room@.uid) && state@ == RoomState::initial(room@),
                Err(error) => old(self)@.has(room@.uid) && error
                    == ServiceError::RoomAlreadyExists,
            },
    {
        proof {
            use_type_invariant(&*self);
            lemma_create_registers(self@, room@);
        }
        match find_room(&self.rooms, &room.uid) {
            Some(_) => Err(ServiceError::RoomAlreadyExists),
            None => {
                let (handle, state) = ChatRoom::create(room);
                let mut rooms: Vec<ChatRoom> = Vec::new();
                std::mem::swap(&mut rooms, &mut self.rooms);
                assert(self.rooms.deep_view() =~= Seq::empty());
                let ghost before = rooms.deep_view();
                rooms.push(handle);
                assert(rooms.deep_view() =~= before.push(handle@));
                self.rooms = rooms;
                Ok(state)
            },
        }
    }

    /// The handles of the rooms to ask for their status, oldest first.
    pub fn status(&self) -> (rooms: Vec<ChatRoom>)
        ensures
            rooms.deep_view() == self@.rooms,
    {
        let mut rooms: Vec<ChatRoom> = Vec::new();
        let mut i: usize = 0;
        assert(rooms.deep_view() =~= self.rooms.deep_view().take(0));
        while i < self.rooms.len()
            invariant
                i <= self.rooms.len(),
                rooms.deep_view() == self.rooms.deep_view().take(i as int),
            decreases self.rooms.len() - i,
        {
            let ghost before = rooms.deep_view();
            let handle = self.rooms[i].clone();
            rooms.push(handle);
            assert(rooms.deep_view() =~= before.push(handle@));
            i = i + 1;
            assert(rooms.deep_view() =~= self.rooms.deep_view().take(i as int));
        }
        assert(self.rooms.deep_view().take(i as int) =~= self.rooms.deep_view());
        rooms
    }

    /// The handle of the room with path `uid`.
    pub fn get_room(&self, uid: &String) -> (found: Result<ChatRoom, ServiceError>)
        ensures
            match found {
                Ok(room) => self@.get_room(uid@) == Ok::<ChatRoomView, ServiceError>(room@),
                Err(error) => self@.get_room(uid@) == Err::<ChatRoomView, ServiceError>(error),
            },
    {
        match find_room(&self.rooms, uid) {
            Some(i) => Ok(self.rooms[i].clone()),
            None => Err(ServiceError::RoomNotFound),
        }
    }

    /// Ends the room with path `uid` if `secret` is its secret: the room
    /// leaves the registry at once, and its handle is handed out so that the
    /// room can be told to end.
    pub fn destroy_room(&mut self, uid: String, secret: String) -> (ended: Result<
        ChatRoom,
        ServiceError,
    >)
        ensures
            match ended {
                Ok(room) => old(self)@.destroy_room(uid@, secret@) == Ok::<
                    ChatRoomView,
                    ServiceError,
                >(room@) && final(self)@ == old(self)@.detach_room(uid@),
                Err(error) => old(self)@.destroy_room(uid@, secret@) == Err::<
                    ChatRoomView,
                    ServiceError,
                >(error) && final(self)@ == old(self)@,
            },
            final(self)@.wf(),
    {
        proof {
            use_type_invariant(&*self);
            lemma_detach_forgets(self@, uid@);
        }
        match find_room(&self.rooms, &uid) {
            Some(i) => {
                if self.rooms[i].secret == secret {
                    let mut rooms: Vec<ChatRoom> = Vec::new();
                    std::mem::swap(&mut rooms, &mut self.rooms);
                    assert(self.rooms.deep_view() =~= Seq::empty());
                    let ghost before = rooms.deep_view();
                    let room = rooms.remove(i);
                    assert(rooms.deep_view() =~= before.remove(i as int));
                    self.rooms = rooms;
                    Ok(room)
                } else {
                    Err(ServiceError::SecretMismatch)
                }
            },
            None => Err(ServiceError::RoomNotFound),
        }
    }

    /// Forgets the room with path `uid`. Nothing happens where it is not
    /// registered.
    pub fn detach_room(&mut self, uid: &String)
        ensures
            final(self)@ == old(self)@.detach_room(uid@),
            final(self)@.wf(),
    {
        proof {
            use_type_invariant(&*self);
            lemma_detach_forgets(self@, uid@);
        }
        match find_room(&self.rooms, uid) {
            Some(i) => {
                let mut rooms: Vec<ChatRoom> = Vec::new();
                std::mem::swap(&mut rooms, &mut self.rooms);
                assert(self.rooms.deep_view() =~= Seq::empty());
                let ghost before = rooms.deep_view();
                let _ = rooms.remove(i);
                assert(rooms.deep_view() =~= before.remove(i as int));
                self.rooms = rooms;
            },
            None => {},
        }
    }
}


/// One operation of the service actor.
#[derive(Debug, PartialEq, Eq)]
pub enum Command {
    /// Make a room with these settings.
    CreateRoom { room: Room },
    /// Report every room's status.
    Status,
    /// Hand out the handle of a room.
    GetRoom { uid: String },
    /// End a room on behalf of a moderator.
    DestroyRoom { uid: String, secret: String },
    /// Forget a room that has ended by itself.
    DetachRoom { uid: String },
}

/// What the service answers to a command.
#[derive(Debug, PartialEq, Eq)]
pub enum ServiceReply {
    Created(Result<(), ServiceError>),
    /// The rooms to ask for their status, in the order of the report.
    Status(Vec<ChatRoom>),
    Room(Result<ChatRoom, ServiceError>),
    Destroyed(Result<(), ServiceError>),
    /// The command has no result.
    Done,
}

/// Something that the service asks its runtime to do.
#[derive(Debug)]
pub enum ServiceEffect {
    /// Start an actor for a new room with this state.
    Spawn(ChatRoomInner),
    /// Tell this room to end, without waiting for it.
    Destroy(ChatRoom),
}

/// What the service hands back for one command.
#[derive(Debug)]
pub struct ServiceOutcome {
    pub reply: ServiceReply,
    /// What the runtime has to carry out, in this order.
    pub effects: Vec<ServiceEffect>,
}

/// The service actor.
#[derive(Debug)]
pub struct ChatService {
    state: ChatServiceInner,
}

impl View for ChatService {
    type V = ServiceState;

    closed spec fn view(&self) -> ServiceState {
        self.state@
    }
}

impl ChatService {
    /// A service without rooms.
    pub fn create() -> (service: ChatService)
        ensures
            service@.rooms == Seq::<ChatRoomView>::empty(),
    {
        ChatService { state: ChatServiceInner::new() }
    }

    /// Processes `command`.
    pub fn handle(&mut self, command: Command) -> (outcome: ServiceOutcome)
        ensures
            final(self)@.wf(),
            match command {
                Command::CreateRoom { room } => {
                    &&& final(self)@ == old(self)@.create_room(room@)
                    &&& if old(self)@.has(room@.uid) {
                        &&& outcome.reply == ServiceReply::Created(
                            Err(ServiceError::RoomAlreadyExists),
                        )
                        &&& outcome.effects.len() == 0
                    } else {
                        &&& outcome.reply == ServiceReply::Created(Ok(()))
                        &&& outcome.effects.len() == 1
                        &&& outcome.effects[0] matches ServiceEffect::Spawn(state)
                        &&& state@ == RoomState::initial(room@)
                    }
                },
                Command::Status => {
                    &&& final(self)@ == old(self)@
                    &&& outcome.reply matches ServiceReply::Status(rooms)
                    &&& rooms.deep_view() == old(self)@.rooms
                    &&& outcome.effects.len() == 0
                },
                Command::GetRoom { uid } => {
                    &&& final(self)@ == old(self)@
                    &&& outcome.reply matches ServiceReply::Room(found)
                    &&& match found {
                        Ok(handle) => old(self)@.get_room(uid@) == Ok::<
                            ChatRoomView,
                            ServiceError,
                        >(handle@),
                        Err(error) => old(self)@.get_room(uid@) == Err::<
                            ChatRoomView,
                            ServiceError,
                        >(error),
                    }
                    &&& outcome.effects.len() == 0
                },
                Command::DestroyRoom { uid, secret } => {
                    match old(self)@.destroy_room(uid@, secret@) {
                        Ok(handle) => {
                            &&& final(self)@ == old(self)@.detach_room(uid@)
                            &&& outcome.reply == ServiceReply::Destroyed(Ok(()))
                            &&& outcome.effects.len() == 1
                            &&& outcome.effects[0] matches ServiceEffect::Destroy(ended)
                            &&& ended@ == handle
                        },
                        Err(error) => {
                            &&& final(self)@ == old(self)@
                            &&& outcome.reply == ServiceReply::Destroyed(Err(error))
                            &&& outcome.effects.len() == 0
                        },
                    }
                },
                Command::DetachRoom { uid } => {
                    &&& final(self)@ == old(self)@.detach_room(uid@)
                    &&& outcome.reply == ServiceReply::Done
                    &&& outcome.effects.len() == 0
                },
            },
    {
        let mut effects: Vec<ServiceEffect> = Vec::new();
        let reply = match command {
            Command::CreateRoom { room } => {
                match self.state.create_room(room) {
                    Ok(state) => {
                        effects.push(ServiceEffect::Spawn(state));
                        ServiceReply::Created(Ok(()))
                    },
                    Err(error) => ServiceReply::Created(Err(error)),
                }
            },
            Command::Status => ServiceReply::Status(self.state.status()),
            Command::GetRoom { uid } => ServiceReply::Room(self.state.get_room(&uid)),
            Command::DestroyRoom { uid, secret } => {
                match self.state.destroy_room(uid, secret) {
                    Ok(handle) => {
                        effects.push(ServiceEffect::Destroy(handle));
                        ServiceReply::Destroyed(Ok(()))
                    },
                    Err(error) => ServiceReply::Destroyed(Err(error)),
                }
            },
            Command::DetachRoom { uid } => {
                self.state.detach_room(&uid);
                ServiceReply::Done
            },
        };
        proof {
            use_type_invariant(&self.state);
        }
        ServiceOutcome { reply, effects }
    }
}

} // verus!
