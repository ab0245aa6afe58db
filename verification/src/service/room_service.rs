//! The room actor: the owner of a room's participants, announcements,
//! portraits and counters.

use crate::misc::date_serde::Timestamp;
use crate::misc::option_ext::OptionExt;
use crate::misc::text_map::TextMap;
use crate::model::message::Message;
use crate::model::params::join_params::JoinParams;
use crate::model::participant::Participant;
use crate::model::room::Room;
use crate::model::room_info::RoomInfo;
use crate::model::text_room_event::{TextRoomEvent, TextRoomEventView};
use crate::service::room_state::{
    expulsions, position_of, ChatClient, Command, CommandView, Reply, ReplyView, RoomEffect,
    RoomEffectView, RoomState, RoomStep,
};
use vstd::prelude::*;

verus! {

/// What a room hands back for one command.
#[derive(Debug, PartialEq, Eq)]
pub struct Outcome {
    pub reply: Reply,
    /// What the runtime has to carry out, in this order.
    pub effects: Vec<RoomEffect>,
}

/// The handle of a room that the service keeps: the room's path, which
/// addresses its actor, and a copy of its secret.
#[derive(Debug, PartialEq, Eq)]
pub struct ChatRoom {
    pub uid: String,
    pub secret: String,
}

/// A room handle as plain text.
pub struct ChatRoomView {
    pub uid: Seq<char>,
    pub secret: Seq<char>,
}

impl View for ChatRoom {
    type V = ChatRoomView;

    open spec fn view(&self) -> ChatRoomView {
        ChatRoomView { uid: self.uid@, secret: self.secret@ }
    }
}

impl DeepView for ChatRoom {
    type V = ChatRoomView;

    open spec fn deep_view(&self) -> ChatRoomView {
        self@
    }
}

impl Clone for ChatRoom {
    fn clone(&self) -> (copy: Self)
        ensures
            copy@ == self@,
    {
        ChatRoom { uid: self.uid.clone(), secret: self.secret.clone() }
    }
}

impl ChatRoom {
    /// Makes a room: the handle for the registry and the state for the
    /// room's own actor.
    pub fn create(room: Room) -> (made: (ChatRoom, ChatRoomInner))
        ensures
            made.0@ == (ChatRoomView { uid: room@.uid, secret: room@.secret }),
            made.1@ == RoomState::initial(room@),
    {
        let handle = ChatRoom { uid: room.uid.clone(), secret: room.secret.clone() };
        (handle, ChatRoomInner::new(room))
    }
}

/// The state of one room.
#[derive(Debug)]
pub struct ChatRoomInner {
    room: Room,
    clients: Vec<ChatClient>,
    photos: TextMap,
    last_announcements: TextMap,
    room_name: String,
    messages: usize,
    next_id: u64,
    is_destroyed: bool,
}

impl View for ChatRoomInner {
    type V = RoomState;

    closed spec fn view(&self) -> RoomState {
        RoomState {
            room: self.room@,
            clients: self.clients.deep_view(),
            photos: self.photos@,
            last_announcements: self.last_announcements@,
            messages: self.messages as nat,
            next_id: self.next_id as nat,
            destroyed: self.is_destroyed,
        }
    }
}

/// The identifiers of `clients`, in order.
fn ids_of(clients: &Vec<ChatClient>) -> (ids: Vec<u64>)
    ensures
        ids@ == Seq::new(clients.deep_view().len(), |i: int| clients.deep_view()[i].id),
{
    let mut ids: Vec<u64> = Vec::new();
    let mut i: usize = 0;
    while i < clients.len()
        invariant
            i <= clients.len(),
            ids@ == Seq::new(i as nat, |k: int| clients.deep_view()[k].id),
        decreases clients.len() - i,
    {
        ids.push(clients[i].id);
        i = i + 1;
        assert(ids@ =~= Seq::new(i as nat, |k: int| clients.deep_view()[k].id));
    }
    assert(clients.deep_view().len() == clients.len());
    ids
}

/// The identities of `clients`, in order.
fn identities_of(clients: &Vec<ChatClient>) -> (list: Vec<Participant>)
    ensures
        list.deep_view() == Seq::new(
            clients.deep_view().len(),
            |i: int| clients.deep_view()[i].me,
        ),
{
    let mut list: Vec<Participant> = Vec::new();
    let mut i: usize = 0;
    while i < clients.len()
        invariant
            i <= clients.len(),
            list.deep_view() == Seq::new(i as nat, |k: int| clients.deep_view()[k].me),
        decreases clients.len() - i,
    {
        let ghost before = list.deep_view();
        let me = clients[i].me.clone();
        assert(me@ == clients.deep_view()[i as int].me);
        list.push(me);
        i = i + 1;
        assert(list.deep_view() =~= before.push(me@));
        assert(list.deep_view() =~= Seq::new(i as nat, |k: int| clients.deep_view()[k].me));
    }
    assert(clients.deep_view().len() == clients.len());
    list
}

/// Whether `list` holds `wanted`.
fn holds(list: &Vec<String>, wanted: &String) -> (found: bool)
    ensures
        found == list.deep_view().contains(wanted@),
{
    let mut i: usize = 0;
    while i < list.len()
        invariant
            i <= list.len(),
            forall|k: int| 0 <= k < i ==> list.deep_view()[k] != wanted@,
        decreases list.len() - i,
    {
        if list[i] == *wanted {
            assert(list.deep_view()[i as int] == wanted@);
            return true;
        }
        i = i + 1;
    }
    false
}

impl ChatRoomInner {
    #[verifier::type_invariant]
    spec fn inv(&self) -> bool {
        &&& self@.wf()
        &&& self.room_name@ == self.room@.name()
    }

    /// A room as it is created: empty, with identifiers starting at one.
    pub fn new(room: Room) -> (state: ChatRoomInner)
        ensures
            state@ == RoomState::initial(room@),
            state@.wf(),
    {
        let room_name = room.name().to_owned();
        let state = ChatRoomInner {
            room,
            clients: Vec::new(),
            photos: TextMap::new(),
            last_announcements: TextMap::new(),
            room_name,
            messages: 0,
            next_id: 1,
            is_destroyed: false,
        };
        assert(state.clients.deep_view() =~= Seq::empty());
        state
    }

    /// The effects of offering `message` to the webhook.
    fn post(&self, message: Message, should_check_type: bool) -> (effects: Vec<RoomEffect>)
        ensures
            effects.deep_view() == self@.post(message@, should_check_type),
    {
        let mut effects: Vec<RoomEffect> = Vec::new();
        let wanted = self.room.post.is_some() && (!should_check_type || holds(
            &self.room.post_types,
            &message.kind,
        ));
        if wanted {
            effects.push(RoomEffect::Post { message });
            assert(effects.deep_view() =~= seq![RoomEffectView::Post { message: message@ }]);
        } else {
            assert(effects.deep_view() =~= Seq::empty());
        }
        effects
    }

    /// `event`, addressed to everyone attached.
    fn broadcast(&self, event: TextRoomEvent) -> (effect: RoomEffect)
        ensures
            effect@ == self@.broadcast(event@),
    {
        RoomEffect::Broadcast { to: ids_of(&self.clients), event }
    }

    /// The post that tells of the room's creation, stamped `now`.
    pub fn post_created(&self, now: Timestamp) -> (effects: Vec<RoomEffect>)
        ensures
            effects.deep_view() == self@.post_created(now),
    {
        proof {
            use_type_invariant(self);
        }
        self.post(Message::room_created_at(self.room_name.as_str(), now), false)
    }

    /// What the room reports of itself.
    pub fn status(&self) -> (info: RoomInfo)
        ensures
            info@ == self@.info(),
    {
        RoomInfo {
            room: self.room.uid.clone(),
            participants: identities_of(&self.clients),
            messages: self.messages,
        }
    }

    /// How many participants are attached.
    pub fn count(&self) -> (count: usize)
        ensures
            count == self@.clients.len(),
    {
        assert(self.clients.deep_view().len() == self.clients.len());
        self.clients.len()
    }

    /// The identities of the attached participants, in joining order.
    pub fn participants(&self) -> (list: Vec<Participant>)
        ensures
            list.deep_view() == self@.participants(),
    {
        identities_of(&self.clients)
    }

    /// The portrait registered for `username`.
    pub fn photo(&self, username: &String) -> (url: Option<String>)
        ensures
            url.deep_view() == self@.photo(username@),
    {
        match self.photos.get(username) {
            Some(url) => Some(url.clone()),
            None => None,
        }
    }

    /// The identifier that the next participant gets.
    pub fn next_id(&self) -> (id: u64)
        ensures
            id == self@.next_id,
    {
        self.next_id
    }

    /// How many announcements and messages were broadcast.
    pub fn message_count(&self) -> (count: usize)
        ensures
            count == self@.messages,
    {
        self.messages
    }

    /// Whether the room was ended.
    pub fn is_destroyed(&self) -> (destroyed: bool)
        ensures
            destroyed == self@.destroyed,
    {
        self.is_destroyed
    }

    /// The settings that the room was created with.
    pub fn room(&self) -> (room: &Room)
        ensures
            room@ == self@.room,
    {
        &self.room
    }
}


/// Position in `clients` of the participant with identifier `id`.
fn find_client(clients: &Vec<ChatClient>, id: u64) -> (found: Option<usize>)
    ensures
        match found {
            Some(i) => position_of(clients.deep_view(), id) == Some(i as int) && i
                < clients.len(),
            None => position_of(clients.deep_view(), id) is None,
        },
{
    let ghost all = clients.deep_view();
    let mut i: usize = clients.len();
    assert(all.take(i as int) =~= all);
    while i > 0
        invariant
            i <= clients.len(),
            all == clients.deep_view(),
            all.len() == clients.len(),
            position_of(all, id) == position_of(all.take(i as int), id),
        decreases i,
    {
        if clients[i - 1].id == id {
            assert(all.take(i as int).last().id == id);
            return Some(i - 1);
        }
        assert(all.take(i as int).drop_last() =~= all.take(i - 1));
        i = i - 1;
    }
    None
}

/// An owned copy of `text`, if there is one.
fn copy_of(text: &Option<String>) -> (copy: Option<String>)
    ensures
        copy.deep_view() == text.deep_view(),
{
    match text {
        Some(value) => Some(value.clone()),
        None => None,
    }
}

impl ChatRoomInner {
    /// Attaches a participant under a fresh identifier, which is returned.
    /// The `join` event goes to those attached before, and counts the
    /// newcomer.
    pub fn add_client(&mut self, params: JoinParams) -> (joined: (u64, Vec<RoomEffect>))
        requires
            old(self)@.admits(CommandView::AddClient { params: params@ }),
        ensures
            final(self)@ == old(self)@.add_client(params@).state,
            ReplyView::Joined(joined.0) == old(self)@.add_client(params@).reply,
            joined.1.deep_view() == old(self)@.add_client(params@).effects,
            final(self)@.wf(),
    {
        proof {
            use_type_invariant(&*self);
        }
        let id = self.next_id;
        let count = self.clients.len();
        assert(self.clients.deep_view().len() == count);
        let event = TextRoomEvent::Joined {
            username: copy_of(&params.username),
            display: copy_of(&params.display),
            participants: count + 1,
        };
        let mut effects: Vec<RoomEffect> = Vec::new();
        effects.push(self.broadcast(event));
        assert(effects.deep_view() =~= old(self)@.add_client(params@).effects);
        let JoinParams { username, display, image_url } = params;
        match (&username, image_url) {
            (Some(name), Some(url)) => {
                let mut photos = TextMap::new();
                std::mem::swap(&mut photos, &mut self.photos);
                photos.insert(name.clone(), url);
                self.photos = photos;
            },
            _ => {},
        }
        let client = ChatClient { id, me: Participant { username, display } };
        let mut clients: Vec<ChatClient> = Vec::new();
        std::mem::swap(&mut clients, &mut self.clients);
        let ghost before = clients.deep_view();
        assert(self.clients.deep_view() =~= Seq::empty());
        clients.push(client);
        assert(clients.deep_view() =~= before.push(client@));
        self.next_id = id + 1;
        self.clients = clients;
        (id, effects)
    }
}


/// Removing an entry keeps identifiers growing along the list.
proof fn lemma_remove_keeps_order(state: RoomState, i: int)
    requires
        state.wf(),
        0 <= i < state.clients.len(),
    ensures
        (RoomState { clients: state.clients.remove(i), ..state }).wf(),
{
    let rest = state.clients.remove(i);
    assert forall|k: int| 0 <= k < rest.len() implies 1 <= (#[trigger] rest[k]).id
        < state.next_id by {
        if k < i {
            assert(rest[k] == state.clients[k]);
        } else {
            assert(rest[k] == state.clients[k + 1]);
        }
    }
    assert forall|a: int, b: int| 0 <= a < b < rest.len() implies (#[trigger] rest[a]).id < (
    #[trigger] rest[b]).id by {
        let a0 = if a < i { a } else { a + 1 };
        let b0 = if b < i { b } else { b + 1 };
        assert(rest[a] == state.clients[a0]);
        assert(rest[b] == state.clients[b0]);
    }
}

impl ChatRoomInner {
    /// Drops the participant `id`, if it is attached. The `leave` event goes
    /// to those that remain, and counts them.
    pub fn remove_client(&mut self, id: u64) -> (effects: Vec<RoomEffect>)
        ensures
            final(self)@ == old(self)@.remove_client(id).state,
            effects.deep_view() == old(self)@.remove_client(id).effects,
            final(self)@.wf(),
    {
        proof {
            use_type_invariant(&*self);
        }
        let mut effects: Vec<RoomEffect> = Vec::new();
        match find_client(&self.clients, id) {
            Some(i) => {
                proof {
                    lemma_remove_keeps_order(self@, i as int);
                }
                let mut clients: Vec<ChatClient> = Vec::new();
                std::mem::swap(&mut clients, &mut self.clients);
                assert(self.clients.deep_view() =~= Seq::empty());
                let ghost before = clients.deep_view();
                let gone = clients.remove(i);
                assert(gone@ == before[i as int]);
                assert(clients.deep_view() =~= before.remove(i as int));
                self.clients = clients;
                let event = TextRoomEvent::Left {
                    username: gone.me.username,
                    display: gone.me.display,
                    participants: self.clients.len(),
                };
                effects.push(self.broadcast(event));
                assert(effects.deep_view() =~= old(self)@.remove_client(id).effects);
            },
            None => {
                assert(effects.deep_view() =~= Seq::empty());
            },
        }
        effects
    }

    /// Publishes an announcement at the instant `now`, if the sender has a
    /// username: the event to everyone attached, the post to the webhook if
    /// the type is one to post, and the text as the latest of its type.
    pub fn announce(
        &mut self,
        sender: Participant,
        kind: String,
        text: String,
        now: Timestamp,
    ) -> (effects: Vec<RoomEffect>)
        requires
            old(self)@.messages < usize::MAX,
        ensures
            final(self)@ == old(self)@.announce(sender@, kind@, text@, now).state,
            effects.deep_view() == old(self)@.announce(sender@, kind@, text@, now).effects,
            final(self)@.wf(),
    {
        proof {
            use_type_invariant(&*self);
        }
        let mut effects: Vec<RoomEffect> = Vec::new();
        match sender.username {
            Some(from) => {
                let event = TextRoomEvent::Announcement {
                    date: now,
                    text: text.clone(),
                    kind: kind.clone(),
                };
                effects.push(self.broadcast(event));
                let message = Message {
                    textroom: Message::ANNOUNCEMENT,
                    room: self.room_name.clone(),
                    kind: kind.clone(),
                    from,
                    text: text.clone(),
                    date: now,
                };
                let mut posted = self.post(message, true);
                let ghost first = effects.deep_view();
                let ghost second = posted.deep_view();
                effects.append(&mut posted);
                assert(effects.deep_view() =~= first + second);
                assert(first =~= seq![old(self)@.broadcast(event@)]);
                self.messages = self.messages + 1;
                let mut latest = TextMap::new();
                std::mem::swap(&mut latest, &mut self.last_announcements);
                latest.insert(kind, text);
                self.last_announcements = latest;
            },
            None => {
                assert(effects.deep_view() =~= Seq::empty());
            },
        }
        effects
    }

    /// Publishes a participant's message at the instant `now`, if the sender
    /// has both a username and a display name.
    pub fn send_message(
        &mut self,
        sender: Participant,
        kind: String,
        text: String,
        now: Timestamp,
    ) -> (effects: Vec<RoomEffect>)
        requires
            old(self)@.messages < usize::MAX,
        ensures
            final(self)@ == old(self)@.send_message(sender@, kind@, text@, now).state,
            effects.deep_view() == old(self)@.send_message(sender@, kind@, text@, now).effects,
            final(self)@.wf(),
    {
        proof {
            use_type_invariant(&*self);
        }
        let mut effects: Vec<RoomEffect> = Vec::new();
        match (sender.username, sender.display) {
            (Some(from), Some(display)) => {
                let event = TextRoomEvent::Message {
                    from: from.clone(),
                    display,
                    date: now,
                    text: text.clone(),
                    kind: kind.clone(),
                };
                effects.push(self.broadcast(event));
                let message = Message {
                    textroom: Message::MESSAGE,
                    room: self.room_name.clone(),
                    kind,
                    from,
                    text,
                    date: now,
                };
                let mut posted = self.post(message, true);
                let ghost first = effects.deep_view();
                let ghost second = posted.deep_view();
                effects.append(&mut posted);
                assert(effects.deep_view() =~= first + second);
                assert(first =~= seq![old(self)@.broadcast(event@)]);
                self.messages = self.messages + 1;
            },
            _ => {
                assert(effects.deep_view() =~= Seq::empty());
            },
        }
        effects
    }
}


/// Whether `username` is the name `victim`.
fn is_named(username: &Option<String>, victim: &String) -> (same: bool)
    ensures
        same == (username.deep_view() == Some(victim@)),
{
    username.eq_to_some(victim)
}

impl ChatRoomInner {
    /// Expels everyone named `victim`, at the instant `now`: each gets the
    /// `banned` event and the order to leave, and the webhook gets the
    /// report, whatever the room's post types. The participants stay attached
    /// until their clients have left.
    pub fn ban(&self, from: Option<String>, victim: String, now: Timestamp) -> (effects: Vec<
        RoomEffect,
    >)
        ensures
            effects.deep_view() == self@.ban(from.deep_view(), victim@, now).effects,
    {
        proof {
            use_type_invariant(self);
        }
        let mut effects: Vec<RoomEffect> = Vec::new();
        let ghost all = self.clients.deep_view();
        let mut i: usize = 0;
        assert(effects.deep_view() =~= expulsions(all.take(0), victim@));
        while i < self.clients.len()
            invariant
                i <= self.clients.len(),
                all == self.clients.deep_view(),
                all.len() == self.clients.len(),
                effects.deep_view() == expulsions(all.take(i as int), victim@),
            decreases self.clients.len() - i,
        {
            let ghost before = effects.deep_view();
            assert(all.take(i + 1).drop_last() =~= all.take(i as int));
            assert(all.take(i + 1).last() == all[i as int]);
            if is_named(&self.clients[i].me.username, &victim) {
                let id = self.clients[i].id;
                effects.push(RoomEffect::Send { client: id, event: TextRoomEvent::Banned });
                effects.push(RoomEffect::Leave { client: id });
                assert(effects.deep_view() =~= before.push(
                    RoomEffectView::Send { client: id, event: TextRoomEventView::Banned },
                ).push(RoomEffectView::Leave { client: id }));
            }
            i = i + 1;
        }
        assert(all.take(i as int) =~= all);
        let requester = match from {
            Some(name) => name,
            None => String::new(),
        };
        let message = Message {
            textroom: Message::MODERATE,
            room: self.room_name.clone(),
            kind: Message::TYPE_BAN.to_owned(),
            from: requester,
            text: victim,
            date: now,
        };
        let mut posted = self.post(message, false);
        let ghost first = effects.deep_view();
        let ghost second = posted.deep_view();
        effects.append(&mut posted);
        assert(effects.deep_view() =~= first + second);
        effects
    }

    /// Ends the room at the instant `now`, once: tells everyone attached,
    /// lets them go, has the service forget the room, and reports to the
    /// webhook. On a room that was ended already nothing happens.
    pub fn destroy(&mut self, now: Timestamp) -> (effects: Vec<RoomEffect>)
        ensures
            final(self)@ == old(self)@.destroy(now).state,
            effects.deep_view() == old(self)@.destroy(now).effects,
            final(self)@.wf(),
    {
        proof {
            use_type_invariant(&*self);
        }
        let mut effects: Vec<RoomEffect> = Vec::new();
        if !self.is_destroyed {
            self.is_destroyed = true;
            effects.push(self.broadcast(TextRoomEvent::Destroyed));
            effects.push(RoomEffect::Detach { uid: self.room.uid.clone() });
            self.clients = Vec::new();
            assert(self.clients.deep_view() =~= Seq::empty());
            let message = Message::room_destroyed_at(self.room_name.as_str(), now);
            let mut posted = self.post(message, false);
            let ghost first = effects.deep_view();
            let ghost second = posted.deep_view();
            effects.append(&mut posted);
            assert(effects.deep_view() =~= first + second);
            assert(first =~= seq![
                old(self)@.broadcast(TextRoomEventView::Destroyed),
                RoomEffectView::Detach { uid: old(self)@.room.uid },
            ]);
        } else {
            assert(effects.deep_view() =~= Seq::empty());
        }
        effects
    }

    /// The latest announcements of the given types; types without one are
    /// left out, and the order of `types` does not matter.
    pub fn last_announcement(&self, types: &Vec<String>) -> (found: TextMap)
        ensures
            found@ == self@.last_announcement(types.deep_view()),
    {
        let mut found = TextMap::new();
        let ghost wanted = types.deep_view();
        let ghost known = self.last_announcements@;
        let mut i: usize = 0;
        assert(found@ =~= known.restrict(wanted.take(0).to_set()));
        while i < types.len()
            invariant
                i <= types.len(),
                wanted == types.deep_view(),
                wanted.len() == types.len(),
                known == self.last_announcements@,
                found@ == known.restrict(wanted.take(i as int).to_set()),
            decreases types.len() - i,
        {
            assert(wanted.take(i + 1).to_set() =~= wanted.take(i as int).to_set().insert(
                wanted[i as int],
            )) by {
                let grown = wanted.take(i + 1);
                let prior = wanted.take(i as int);
                let added = wanted[i as int];
                assert forall|t: Seq<char>| grown.to_set().contains(t) implies prior.to_set().insert(
                    added,
                ).contains(t) by {
                    let k = choose|k: int| 0 <= k < grown.len() && grown[k] == t;
                    if k < i {
                        assert(prior[k] == t);
                    }
                }
                assert forall|t: Seq<char>|
                    prior.to_set().insert(added).contains(t) implies grown.to_set().contains(t) by {
                    if t == wanted[i as int] {
                        assert(grown[i as int] == t);
                    } else {
                        let k = choose|k: int| 0 <= k < prior.len() && prior[k] == t;
                        assert(grown[k] == t);
                    }
                }
            }
            match self.last_announcements.get(&types[i]) {
                Some(text) => {
                    found.insert(types[i].clone(), text.clone());
                    assert(found@ =~= known.restrict(wanted.take(i + 1).to_set()));
                },
                None => {
                    assert(found@ =~= known.restrict(wanted.take(i + 1).to_set()));
                },
            }
            i = i + 1;
        }
        assert(wanted.take(i as int) =~= wanted);
        found
    }
}


impl ChatRoomInner {
    /// Processes `command` at the instant `now`.
    pub fn handle_at(&mut self, command: Command, now: Timestamp) -> (outcome: Outcome)
        requires
            old(self)@.admits(command@),
        ensures
            final(self)@ == old(self)@.step(command@, now).state,
            outcome.reply@ == old(self)@.step(command@, now).reply,
            outcome.effects.deep_view() == old(self)@.step(command@, now).effects,
            final(self)@.wf(),
    {
        proof {
            use_type_invariant(&*self);
        }
        match command {
            Command::Status => {
                let reply = Reply::Status(self.status());
                self.answer(reply)
            },
            Command::Count => {
                let reply = Reply::Count(self.count());
                self.answer(reply)
            },
            Command::AddClient { params } => {
                let (id, effects) = self.add_client(params);
                Outcome { reply: Reply::Joined(id), effects }
            },
            Command::RemoveClient { id } => {
                let effects = self.remove_client(id);
                Outcome { reply: Reply::Done, effects }
            },
            Command::LastAnnouncement { types } => {
                let reply = Reply::LastAnnouncement(self.last_announcement(&types));
                self.answer(reply)
            },
            Command::Participants => {
                let reply = Reply::Participants(self.participants());
                self.answer(reply)
            },
            Command::Photo { username } => {
                let reply = Reply::Photo(self.photo(&username));
                self.answer(reply)
            },
            Command::Announce { sender, kind, text } => {
                let effects = self.announce(sender, kind, text, now);
                Outcome { reply: Reply::Done, effects }
            },
            Command::SendMessage { sender, kind, text } => {
                let effects = self.send_message(sender, kind, text, now);
                Outcome { reply: Reply::Done, effects }
            },
            Command::Ban { from, victim } => {
                let effects = self.ban(from, victim, now);
                Outcome { reply: Reply::Done, effects }
            },
            Command::Destroy => {
                let effects = self.destroy(now);
                Outcome { reply: Reply::Done, effects }
            },
        }
    }

    /// Processes `command` at the current instant, whatever the clock reads.
    pub fn handle(&mut self, command: Command) -> (outcome: Outcome)
        requires
            old(self)@.admits(command@),
        ensures
            exists|now: Timestamp|
                (RoomStep {
                    state: final(self)@,
                    reply: outcome.reply@,
                    effects: outcome.effects.deep_view(),
                }) == #[trigger] old(self)@.step(command@, now),
            final(self)@.wf(),
    {
        let now = Timestamp::now();
        let outcome = self.handle_at(command, now);
        assert((RoomStep {
            state: self@,
            reply: outcome.reply@,
            effects: outcome.effects.deep_view(),
        }) == old(self)@.step(command@, now));
        outcome
    }

    /// A reply without effects.
    fn answer(&self, reply: Reply) -> (outcome: Outcome)
        ensures
            outcome.reply == reply,
            outcome.effects.deep_view() == Seq::<RoomEffectView>::empty(),
    {
        let outcome = Outcome { reply, effects: Vec::new() };
        assert(outcome.effects.deep_view() =~= Seq::empty());
        outcome
    }
}

} // verus!
