//! The room actor as a mathematical state machine: its state, the commands it
//! takes, and for each command the next state, the reply and the effects.

use crate::misc::date_serde::Timestamp;
use crate::misc::text_map::TextMap;
use crate::model::message::{Message, MessageView};
use crate::model::params::join_params::{JoinParams, JoinParamsView};
use crate::model::participant::{Participant, ParticipantView};
use crate::model::room::RoomView;
use crate::model::room_info::{RoomInfo, RoomInfoView};
use crate::model::text_room_event::{TextRoomEvent, TextRoomEventView};
use vstd::prelude::*;

verus! {

/// The handle that a room keeps of an attached participant: its identifier
/// and its identity. The identifier also addresses the participant's client
/// actor.
#[derive(Debug, PartialEq, Eq)]
pub struct ChatClient {
    pub id: u64,
    pub me: Participant,
}

/// A client handle as plain values.
pub struct ChatClientView {
    pub id: u64,
    pub me: ParticipantView,
}

impl View for ChatClient {
    type V = ChatClientView;

    open spec fn view(&self) -> ChatClientView {
        ChatClientView { id: self.id, me: self.me@ }
    }
}

impl DeepView for ChatClient {
    type V = ChatClientView;

    open spec fn deep_view(&self) -> ChatClientView {
        self@
    }
}

/// One operation of the room actor.
#[derive(Debug, PartialEq, Eq)]
pub enum Command {
    /// Report the room's path, who is attached and the message count.
    Status,
    /// Report how many participants are attached.
    Count,
    /// Attach a new participant under a fresh identifier.
    AddClient { params: JoinParams },
    /// Drop the participant with this identifier, if it is attached.
    RemoveClient { id: u64 },
    /// Report the latest announcement of each of the given types.
    LastAnnouncement { types: Vec<String> },
    /// Report the identities of the attached participants.
    Participants,
    /// Report the portrait registered for a username.
    Photo { username: String },
    /// Broadcast an announcement in the name of `sender`.
    Announce { sender: Participant, kind: String, text: String },
    /// Broadcast a participant's message.
    SendMessage { sender: Participant, kind: String, text: String },
    /// Expel every participant whose username is `victim`.
    Ban { from: Option<String>, victim: String },
    /// End the room.
    Destroy,
}

/// A command as plain values.
pub enum CommandView {
    Status,
    Count,
    AddClient { params: JoinParamsView },
    RemoveClient { id: u64 },
    LastAnnouncement { types: Seq<Seq<char>> },
    Participants,
    Photo { username: Seq<char> },
    Announce { sender: ParticipantView, kind: Seq<char>, text: Seq<char> },
    SendMessage { sender: ParticipantView, kind: Seq<char>, text: Seq<char> },
    Ban { from: Option<Seq<char>>, victim: Seq<char> },
    Destroy,
}

impl View for Command {
    type V = CommandView;

    open spec fn view(&self) -> CommandView {
        match self {
            Command::Status => CommandView::Status,
            Command::Count => CommandView::Count,
            Command::AddClient { params } => CommandView::AddClient { params: params@ },
            Command::RemoveClient { id } => CommandView::RemoveClient { id: *id },
            Command::LastAnnouncement { types } => CommandView::LastAnnouncement {
                types: types.deep_view(),
            },
            Command::Participants => CommandView::Participants,
            Command::Photo { username } => CommandView::Photo { username: username@ },
            Command::Announce { sender, kind, text } => CommandView::Announce {
                sender: sender@,
                kind: kind@,
                text: text@,
            },
            Command::SendMessage { sender, kind, text } => CommandView::SendMessage {
                sender: sender@,
                kind: kind@,
                text: text@,
            },
            Command::Ban { from, victim } => CommandView::Ban {
                from: from.deep_view(),
                victim: victim@,
            },
            Command::Destroy => CommandView::Destroy,
        }
    }
}

impl DeepView for Command {
    type V = CommandView;

    open spec fn deep_view(&self) -> CommandView {
        self@
    }
}

/// What the room answers to a command.
#[derive(Debug, PartialEq, Eq)]
pub enum Reply {
    Status(RoomInfo),
    Count(usize),
    /// The identifier given to the participant that was attached.
    Joined(u64),
    LastAnnouncement(TextMap),
    Participants(Vec<Participant>),
    Photo(Option<String>),
    /// The command has no result.
    Done,
}

/// A reply as plain values.
pub enum ReplyView {
    Status(RoomInfoView),
    Count(nat),
    Joined(u64),
    LastAnnouncement(Map<Seq<char>, Seq<char>>),
    Participants(Seq<ParticipantView>),
    Photo(Option<Seq<char>>),
    Done,
}

impl View for Reply {
    type V = ReplyView;

    open spec fn view(&self) -> ReplyView {
        match self {
            Reply::Status(info) => ReplyView::Status(info@),
            Reply::Count(count) => ReplyView::Count(*count as nat),
            Reply::Joined(id) => ReplyView::Joined(*id),
            Reply::LastAnnouncement(found) => ReplyView::LastAnnouncement(found@),
            Reply::Participants(list) => ReplyView::Participants(list.deep_view()),
            Reply::Photo(url) => ReplyView::Photo(url.deep_view()),
            Reply::Done => ReplyView::Done,
        }
    }
}

impl DeepView for Reply {
    type V = ReplyView;

    open spec fn deep_view(&self) -> ReplyView {
        self@
    }
}

/// Something that the room asks its runtime to do. None of them can fail in
/// the room's eyes.
#[derive(Debug, PartialEq, Eq)]
pub enum RoomEffect {
    /// Encode `event` once and send it to each of the clients `to`, in order.
    Broadcast { to: Vec<u64>, event: TextRoomEvent },
    /// Send `event` to one client.
    Send { client: u64, event: TextRoomEvent },
    /// Tell one client to leave.
    Leave { client: u64 },
    /// Post `message` to the room's webhook.
    Post { message: Message },
    /// Tell the service to forget the room `uid`.
    Detach { uid: String },
}

/// An effect as plain values.
pub enum RoomEffectView {
    Broadcast { to: Seq<u64>, event: TextRoomEventView },
    Send { client: u64, event: TextRoomEventView },
    Leave { client: u64 },
    Post { message: MessageView },
    Detach { uid: Seq<char> },
}

impl View for RoomEffect {
    type V = RoomEffectView;

    open spec fn view(&self) -> RoomEffectView {
        match self {
            RoomEffect::Broadcast { to, event } => RoomEffectView::Broadcast {
                to: to@,
                event: event@,
            },
            RoomEffect::Send { client, event } => RoomEffectView::Send {
                client: *client,
                event: event@,
            },
            RoomEffect::Leave { client } => RoomEffectView::Leave { client: *client },
            RoomEffect::Post { message } => RoomEffectView::Post { message: message@ },
            RoomEffect::Detach { uid } => RoomEffectView::Detach { uid: uid@ },
        }
    }
}

impl DeepView for RoomEffect {
    type V = RoomEffectView;

    open spec fn deep_view(&self) -> RoomEffectView {
        self@
    }
}

/// The state that a room actor owns.
pub struct RoomState {
    pub room: RoomView,
    /// The attached participants, in the order in which they joined.
    pub clients: Seq<ChatClientView>,
    /// From username to portrait.
    pub photos: Map<Seq<char>, Seq<char>>,
    /// From announcement type to the latest text of that type.
    pub last_announcements: Map<Seq<char>, Seq<char>>,
    /// How many announcements and messages were broadcast.
    pub messages: nat,
    /// The identifier that the next participant gets.
    pub next_id: nat,
    pub destroyed: bool,
}

/// The outcome of one command: the state after it, the reply, and the
/// effects in the order in which they are to be carried out.
pub struct RoomStep {
    pub state: RoomState,
    pub reply: ReplyView,
    pub effects: Seq<RoomEffectView>,
}

/// Position in `clients` of the participant with identifier `id`.
pub open spec fn position_of(clients: Seq<ChatClientView>, id: u64) -> Option<int>
    decreases clients.len(),
{
    if clients.len() == 0 {
        None
    } else if clients.last().id == id {
        Some(clients.len() - 1)
    } else {
        position_of(clients.drop_last(), id)
    }
}

/// For each participant named `victim`, in joining order: the `banned` event
/// for it, then the order to leave.
pub open spec fn expulsions(clients: Seq<ChatClientView>, victim: Seq<char>) -> Seq<
    RoomEffectView,
>
    decreases clients.len(),
{
    if clients.len() == 0 {
        Seq::empty()
    } else {
        let before = expulsions(clients.drop_last(), victim);
        let last = clients.last();
        if last.me.username == Some(victim) {
            before.push(
                RoomEffectView::Send { client: last.id, event: TextRoomEventView::Banned },
            ).push(
                RoomEffectView::Leave { client: last.id },
            )
        } else {
            before
        }
    }
}

impl RoomState {
    /// A room as it is created: empty, with identifiers starting at one.
    pub open spec fn initial(room: RoomView) -> RoomState {
        RoomState {
            room,
            clients: Seq::empty(),
            photos: Map::empty(),
            last_announcements: Map::empty(),
            messages: 0,
            next_id: 1,
            destroyed: false,
        }
    }

    /// Identifiers grow along the list of participants, and every one of them
    /// was handed out already.
    pub open spec fn wf(self) -> bool {
        &&& 1 <= self.next_id <= u64::MAX
        &&& forall|i: int|
            0 <= i < self.clients.len() ==> 1 <= (#[trigger] self.clients[i]).id < self.next_id
        &&& forall|i: int, j: int|
            0 <= i < j < self.clients.len() ==> (#[trigger] self.clients[i]).id < (
            #[trigger] self.clients[j]).id
    }

    /// The identifiers of the attached participants, in joining order.
    pub open spec fn ids(self) -> Seq<u64> {
        Seq::new(self.clients.len(), |i: int| self.clients[i].id)
    }

    /// The identities of the attached participants, in joining order.
    pub open spec fn participants(self) -> Seq<ParticipantView> {
        Seq::new(self.clients.len(), |i: int| self.clients[i].me)
    }

    /// What the room reports of itself.
    pub open spec fn info(self) -> RoomInfoView {
        RoomInfoView {
            room: self.room.uid,
            participants: self.participants(),
            messages: self.messages,
        }
    }

    /// `event`, addressed to everyone attached.
    pub open spec fn broadcast(self, event: TextRoomEventView) -> RoomEffectView {
        RoomEffectView::Broadcast { to: self.ids(), event }
    }

    /// Whether `message` goes to the webhook: a post address must be set, and
    /// where `check_type` holds the message's type must be among the room's
    /// post types.
    pub open spec fn posts(self, message: MessageView, check_type: bool) -> bool {
        self.room.post is Some && (check_type ==> self.room.post_types.contains(message.kind))
    }

    /// The effects of offering `message` to the webhook.
    pub open spec fn post(self, message: MessageView, check_type: bool) -> Seq<RoomEffectView> {
        if self.posts(message, check_type) {
            seq![RoomEffectView::Post { message }]
        } else {
            Seq::empty()
        }
    }

    /// The effects of the room's creation: the post that tells of it.
    pub open spec fn post_created(self, now: Timestamp) -> Seq<RoomEffectView> {
        self.post(MessageView::room_created(self.room.name(), now), false)
    }

    /// A command that changes nothing and asks for nothing.
    pub open spec fn unchanged(self, reply: ReplyView) -> RoomStep {
        RoomStep { state: self, reply, effects: Seq::empty() }
    }

    /// Attaches a participant. The `join` event goes to those attached
    /// before, and counts the newcomer.
    pub open spec fn add_client(self, params: JoinParamsView) -> RoomStep {
        let id = self.next_id as u64;
        let me = ParticipantView { username: params.username, display: params.display };
        let photos = match (params.username, params.image_url) {
            (Some(username), Some(url)) => self.photos.insert(username, url),
            _ => self.photos,
        };
        let event = TextRoomEventView::Joined {
            username: params.username,
            display: params.display,
            participants: self.clients.len() + 1,
        };
        RoomStep {
            state: RoomState {
                clients: self.clients.push(ChatClientView { id, me }),
                photos,
                next_id: self.next_id + 1,
                ..self
            },
            reply: ReplyView::Joined(id),
            effects: seq![self.broadcast(event)],
        }
    }

    /// Drops a participant. The `leave` event goes to those that remain, and
    /// counts them.
    pub open spec fn remove_client(self, id: u64) -> RoomStep {
        match position_of(self.clients, id) {
            Some(i) => {
                let gone = self.clients[i];
                let state = RoomState { clients: self.clients.remove(i), ..self };
                let event = TextRoomEventView::Left {
                    username: gone.me.username,
                    display: gone.me.display,
                    participants: state.clients.len(),
                };
                RoomStep { state, reply: ReplyView::Done, effects: seq![state.broadcast(event)] }
            },
            None => self.unchanged(ReplyView::Done),
        }
    }

    /// Publishes an announcement, if the sender has a username.
    pub open spec fn announce(
        self,
        sender: ParticipantView,
        kind: Seq<char>,
        text: Seq<char>,
        now: Timestamp,
    ) -> RoomStep {
        match sender.username {
            Some(from) => {
                let event = TextRoomEventView::Announcement { date: now, text, kind };
                let message = MessageView::announcement(self.room.name(), from, kind, text, now);
                RoomStep {
                    state: RoomState {
                        messages: self.messages + 1,
                        last_announcements: self.last_announcements.insert(kind, text),
                        ..self
                    },
                    reply: ReplyView::Done,
                    effects: seq![self.broadcast(event)] + self.post(message, true),
                }
            },
            None => self.unchanged(ReplyView::Done),
        }
    }

    /// Publishes a participant's message, if the sender has both a username
    /// and a display name.
    pub open spec fn send_message(
        self,
        sender: ParticipantView,
        kind: Seq<char>,
        text: Seq<char>,
        now: Timestamp,
    ) -> RoomStep {
        match (sender.username, sender.display) {
            (Some(from), Some(display)) => {
                let event = TextRoomEventView::Message { from, display, date: now, text, kind };
                let message = MessageView::message(self.room.name(), from, kind, text, now);
                RoomStep {
                    state: RoomState { messages: self.messages + 1, ..self },
                    reply: ReplyView::Done,
                    effects: seq![self.broadcast(event)] + self.post(message, true),
                }
            },
            _ => self.unchanged(ReplyView::Done),
        }
    }

    /// Expels everyone named `victim` and reports the ban to the webhook.
    /// The participants stay attached until their clients have left.
    pub open spec fn ban(
        self,
        from: Option<Seq<char>>,
        victim: Seq<char>,
        now: Timestamp,
    ) -> RoomStep {
        let requester = match from {
            Some(name) => name,
            None => Seq::empty(),
        };
        let message = MessageView::ban(self.room.name(), requester, victim, now);
        RoomStep {
            state: self,
            reply: ReplyView::Done,
            effects: expulsions(self.clients, victim) + self.post(message, false),
        }
    }

    /// Ends the room, once: tells everyone attached, lets them go, has the
    /// service forget the room, and reports to the webhook.
    pub open spec fn destroy(self, now: Timestamp) -> RoomStep {
        if self.destroyed {
            self.unchanged(ReplyView::Done)
        } else {
            let message = MessageView::room_destroyed(self.room.name(), now);
            RoomStep {
                state: RoomState { destroyed: true, clients: Seq::empty(), ..self },
                reply: ReplyView::Done,
                effects: seq![
                    self.broadcast(TextRoomEventView::Destroyed),
                    RoomEffectView::Detach { uid: self.room.uid },
                ] + self.post(message, false),
            }
        }
    }

    /// The latest announcements of the given types; types without one are
    /// left out.
    pub open spec fn last_announcement(self, types: Seq<Seq<char>>) -> Map<Seq<char>, Seq<char>> {
        self.last_announcements.restrict(types.to_set())
    }

    /// The portrait registered for `username`.
    pub open spec fn photo(self, username: Seq<char>) -> Option<Seq<char>> {
        if self.photos.dom().contains(username) {
            Some(self.photos[username])
        } else {
            None
        }
    }

    /// What the machine's integers allow: a fresh identifier and a count one
    /// higher must exist where the command needs them.
    pub open spec fn admits(self, command: CommandView) -> bool {
        match command {
            CommandView::AddClient { .. } => self.next_id < u64::MAX && self.clients.len()
                < usize::MAX,
            CommandView::Announce { .. } | CommandView::SendMessage { .. } => self.messages
                < usize::MAX,
            _ => true,
        }
    }

    /// The outcome of `command`, processed at the instant `now`.
    pub open spec fn step(self, command: CommandView, now: Timestamp) -> RoomStep {
        match command {
            CommandView::Status => self.unchanged(ReplyView::Status(self.info())),
            CommandView::Count => self.unchanged(ReplyView::Count(self.clients.len())),
            CommandView::AddClient { params } => self.add_client(params),
            CommandView::RemoveClient { id } => self.remove_client(id),
            CommandView::LastAnnouncement { types } => self.unchanged(
                ReplyView::LastAnnouncement(self.last_announcement(types)),
            ),
            CommandView::Participants => self.unchanged(
                ReplyView::Participants(self.participants()),
            ),
            CommandView::Photo { username } => self.unchanged(
                ReplyView::Photo(self.photo(username)),
            ),
            CommandView::Announce { sender, kind, text } => self.announce(sender, kind, text, now),
            CommandView::SendMessage { sender, kind, text } => self.send_message(
                sender,
                kind,
                text,
                now,
            ),
            CommandView::Ban { from, victim } => self.ban(from, victim, now),
            CommandView::Destroy => self.destroy(now),
        }
    }
}

} // verus!
