//! The client actor: the owner of one participant's socket, which turns
//! frames into commands for the room and watches that the participant is
//! alive.

use crate::misc::clock::Clock;
use crate::model::participant::Participant;
use crate::model::text_room_request::TextRoomRequest;
use crate::model::text_room_response::TextRoomResponse;
use crate::service::client_state::{
    decoded_view, ClientEffect, ClientEffectView, ClientState, ClientStep, Command, Frame, Output,
    OutputView, Undecoded,
};
use crate::service::room_state;
use vstd::prelude::*;

verus! {

/// What a client hands back for one command.
#[derive(Debug, PartialEq, Eq)]
pub struct ClientOutcome {
    /// Whether the client is still attached to its room.
    pub alive: bool,
    /// What the runtime has to carry out, in this order.
    pub effects: Vec<ClientEffect>,
}

/// The state of one client.
#[derive(Debug)]
pub struct ClientInner {
    id: u64,
    me: Participant,
    secret: String,
    ping_interval: u64,
    last_pong: u64,
    detached: bool,
    clock: Clock,
}

impl View for ClientInner {
    type V = ClientState;

    closed spec fn view(&self) -> ClientState {
        ClientState {
            id: self.id,
            me: self.me@,
            secret: self.secret@,
            ping_interval: self.ping_interval,
            last_pong: self.last_pong,
            detached: self.detached,
            clock: self.clock,
        }
    }
}

impl ClientInner {
    /// A client for the participant `me`, known to its room as `id`, made
    /// when `clock` reads `now`. `secret` is the room's.
    pub fn new_at(
        id: u64,
        me: Participant,
        secret: String,
        ping_interval: u64,
        clock: Clock,
        now: u64,
    ) -> (client: ClientInner)
        ensures
            client@ == ClientState::initial(id, me@, secret@, ping_interval, clock, now),
    {
        ClientInner { id, me, secret, ping_interval, last_pong: now, detached: false, clock }
    }

    /// A client for the participant `me`, known to its room as `id`, made
    /// now. `secret` is the room's.
    pub fn new(id: u64, me: Participant, secret: String, ping_interval: u64) -> (client:
        ClientInner)
        ensures
            client@ == ClientState::initial(
                id,
                me@,
                secret@,
                ping_interval,
                client@.clock,
                client@.last_pong,
            ),
    {
        let clock = Clock::start();
        let now = clock.now();
        ClientInner::new_at(id, me, secret, ping_interval, clock, now)
    }

    /// The clock by which the client measures the age of a pong: the one it
    /// was made with, which no command changes.
    pub fn clock(&self) -> (clock: Clock)
        ensures
            clock == self@.clock,
    {
        self.clock
    }

    /// The identifier by which the room knows the client.
    pub fn id(&self) -> (id: u64)
        ensures
            id == self@.id,
    {
        self.id
    }

    /// The participant behind the client.
    pub fn me(&self) -> (me: &Participant)
        ensures
            me@ == self@.me,
    {
        &self.me
    }

    /// Whether the client has left its room for good.
    pub fn is_detached(&self) -> (detached: bool)
        ensures
            detached == self@.detached,
    {
        self.detached
    }

    /// Leaves the room for good: the room is told to drop the client, both
    /// workers are stopped and the socket is closed. A second time nothing
    /// happens.
    pub fn detach(&mut self) -> (effects: Vec<ClientEffect>)
        ensures
            final(self)@ == old(self)@.detach().state,
            effects.deep_view() == old(self)@.detach().effects,
    {
        let mut effects: Vec<ClientEffect> = Vec::new();
        if !self.detached {
            self.detached = true;
            effects.push(ClientEffect::Room(room_state::Command::RemoveClient { id: self.id }));
            effects.push(ClientEffect::CancelPing);
            effects.push(ClientEffect::CancelReader);
            effects.push(ClientEffect::CloseSink);
            assert(effects.deep_view() =~= old(self)@.parting());
        } else {
            assert(effects.deep_view() =~= Seq::empty());
        }
        effects
    }

    /// Handles a decoded request: gives the answer, if the request gets one,
    /// and what else the request asks for. A client that has left answers
    /// every request with the `destroyed` error and does nothing else.
    pub fn handle_request(&mut self, request: TextRoomRequest) -> (handled: (
        Option<TextRoomResponse>,
        Vec<ClientEffect>,
    ))
        ensures
            handled.0.deep_view() == old(self)@.response_to(request@),
            final(self)@ == old(self)@.action_on(request@).state,
            handled.1.deep_view() == old(self)@.action_on(request@).effects,
    {
        let mut effects: Vec<ClientEffect> = Vec::new();
        if self.detached {
            assert(effects.deep_view() =~= Seq::empty());
            return (Some(TextRoomResponse::destroyed(request.transaction())), effects);
        }
        match request {
            TextRoomRequest::Message { kind, text, .. } => {
                let command = room_state::Command::SendMessage {
                    sender: self.me.clone(),
                    kind,
                    text,
                };
                effects.push(ClientEffect::Room(command));
                assert(effects.deep_view() =~= seq![ClientEffectView::Room(command@)]);
                (None, effects)
            },
            TextRoomRequest::Announcement { secret, kind, text, transaction } => {
                if self.secret == secret {
                    let command = room_state::Command::Announce {
                        sender: self.me.clone(),
                        kind,
                        text,
                    };
                    effects.push(ClientEffect::Room(command));
                    assert(effects.deep_view() =~= seq![ClientEffectView::Room(command@)]);
                    (None, effects)
                } else {
                    assert(effects.deep_view() =~= Seq::empty());
                    (Some(TextRoomResponse::secret(transaction)), effects)
                }
            },
            TextRoomRequest::Ban { secret, username, transaction } => {
                if self.secret == secret {
                    let from = match &self.me.username {
                        Some(name) => Some(name.clone()),
                        None => None,
                    };
                    let command = room_state::Command::Ban { from, victim: username };
                    effects.push(ClientEffect::Room(command));
                    assert(effects.deep_view() =~= seq![ClientEffectView::Room(command@)]);
                    (None, effects)
                } else {
                    assert(effects.deep_view() =~= Seq::empty());
                    (Some(TextRoomResponse::secret(transaction)), effects)
                }
            },
            TextRoomRequest::Leave { transaction } => {
                let effects = self.detach();
                (Some(TextRoomResponse::left(transaction)), effects)
            },
        }
    }

    /// Handles a text frame. A request is handled, and its answer is written
    /// before anything else it asks for; a frame that is no request is
    /// answered with the decoder's complaint and the token that could be
    /// recovered.
    pub fn on_listen(&mut self, decoded: Result<TextRoomRequest, Undecoded>) -> (effects: Vec<
        ClientEffect,
    >)
        ensures
            final(self)@ == old(self)@.on_listen(decoded_view(decoded)).state,
            effects.deep_view() == old(self)@.on_listen(decoded_view(decoded)).effects,
    {
        let mut effects: Vec<ClientEffect> = Vec::new();
        match decoded {
            Ok(request) => {
                let (response, mut asked) = self.handle_request(request);
                let ghost rest = asked.deep_view();
                match response {
                    Some(response) => {
                        effects.push(ClientEffect::Write(Output::Response(response)));
                        let ghost first = effects.deep_view();
                        effects.append(&mut asked);
                        assert(effects.deep_view() =~= first + rest);
                        assert(first =~= seq![
                            ClientEffectView::Write(OutputView::Response(response@)),
                        ]);
                    },
                    None => {
                        effects.append(&mut asked);
                        assert(effects.deep_view() =~= rest);
                    },
                }
            },
            Err(failure) => {
                let response = TextRoomResponse::invalid(failure.transaction, failure.error);
                effects.push(ClientEffect::Write(Output::Response(response)));
                assert(effects.deep_view() =~= seq![
                    ClientEffectView::Write(OutputView::Response(response@)),
                ]);
            },
        }
        effects
    }

    /// Handles a frame that arrived when the clock read `now`. Text frames
    /// are requests; a pong is noted; every other frame is ignored.
    pub fn on_frame(&mut self, frame: Frame, now: u64) -> (effects: Vec<ClientEffect>)
        ensures
            final(self)@ == old(self)@.on_message_received(frame@, now).state,
            effects.deep_view() == old(self)@.on_message_received(frame@, now).effects,
    {
        match frame {
            Frame::Text(decoded) => self.on_listen(decoded),
            Frame::Pong => {
                self.last_pong = now;
                self.nothing()
            },
            _ => self.nothing(),
        }
    }

    /// Handles a frame that arrives now, whatever the clock reads.
    pub fn on_message_received(&mut self, frame: Frame) -> (effects: Vec<ClientEffect>)
        ensures
            exists|now: u64|
                (ClientStep { state: final(self)@, effects: effects.deep_view() })
                    == #[trigger] old(self)@.on_message_received(frame@, now),
    {
        let now = self.clock.now();
        let effects = self.on_frame(frame, now);
        assert((ClientStep { state: self@, effects: effects.deep_view() })
            == old(self)@.on_message_received(frame@, now));
        effects
    }

    /// Writes an encoded event to the participant, unless the client has
    /// left.
    pub fn send(&self, text: String) -> (effects: Vec<ClientEffect>)
        ensures
            effects.deep_view() == self@.send(text@).effects,
    {
        let mut effects: Vec<ClientEffect> = Vec::new();
        if !self.detached {
            effects.push(ClientEffect::Write(Output::Text(text)));
            assert(effects.deep_view() =~= seq![ClientEffectView::Write(OutputView::Text(text@))]);
        } else {
            assert(effects.deep_view() =~= Seq::empty());
        }
        effects
    }

    /// Pings the participant if it is alive when the clock reads `now`, and
    /// says whether it is. A participant whose latest pong is more than two
    /// ping intervals old is not: its client leaves for good.
    pub fn send_ping(&mut self, now: u64) -> (pinged: (bool, Vec<ClientEffect>))
        ensures
            final(self)@ == old(self)@.send_ping(now).state,
            pinged.1.deep_view() == old(self)@.send_ping(now).effects,
            pinged.0 == !final(self)@.detached,
            pinged.0 == (!old(self)@.detached && !old(self)@.timed_out(now)),
    {
        if self.detached {
            return (false, self.nothing());
        }
        let late = now > self.last_pong && now - self.last_pong > self.ping_interval && now
            - self.last_pong - self.ping_interval > self.ping_interval;
        if late {
            let effects = self.detach();
            (false, effects)
        } else {
            let mut effects: Vec<ClientEffect> = Vec::new();
            effects.push(ClientEffect::Write(Output::Ping));
            assert(effects.deep_view() =~= seq![ClientEffectView::Write(OutputView::Ping)]);
            (true, effects)
        }
    }

    /// Leaves the room for good.
    pub fn leave(&mut self) -> (effects: Vec<ClientEffect>)
        ensures
            final(self)@ == old(self)@.detach().state,
            effects.deep_view() == old(self)@.detach().effects,
    {
        self.detach()
    }

    /// Shuts the client down: it leaves the room for good.
    pub fn close(&mut self) -> (effects: Vec<ClientEffect>)
        ensures
            final(self)@ == old(self)@.detach().state,
            effects.deep_view() == old(self)@.detach().effects,
    {
        self.detach()
    }

    /// Processes `command` when the clock reads `clock`.
    pub fn handle_at(&mut self, command: Command, clock: u64) -> (outcome: ClientOutcome)
        ensures
            final(self)@ == old(self)@.step(command@, clock).state,
            outcome.effects.deep_view() == old(self)@.step(command@, clock).effects,
            outcome.alive == !final(self)@.detached,
    {
        let effects = match command {
            Command::OnMessageReceived { frame } => self.on_frame(frame, clock),
            Command::Send { text } => self.send(text),
            Command::SendPing { now } => {
                let (_, effects) = self.send_ping(now);
                effects
            },
            Command::Leave => self.leave(),
            Command::Close => self.close(),
        };
        ClientOutcome { alive: !self.detached, effects }
    }

    /// Processes `command` now, whatever the clock reads.
    pub fn handle(&mut self, command: Command) -> (outcome: ClientOutcome)
        ensures
            exists|clock: u64|
                (ClientStep { state: final(self)@, effects: outcome.effects.deep_view() })
                    == #[trigger] old(self)@.step(command@, clock),
            outcome.alive == !final(self)@.detached,
    {
        let clock = self.clock.now();
        let outcome = self.handle_at(command, clock);
        assert((ClientStep { state: self@, effects: outcome.effects.deep_view() }) == old(
            self,
        )@.step(command@, clock));
        outcome
    }

    /// No effects.
    fn nothing(&self) -> (effects: Vec<ClientEffect>)
        ensures
            effects.deep_view() == Seq::<ClientEffectView>::empty(),
    {
        let effects: Vec<ClientEffect> = Vec::new();
        assert(effects.deep_view() =~= Seq::empty());
        effects
    }
}

} // verus!
