//! The client actor as a mathematical state machine.

use crate::misc::clock::Clock;
use crate::model::participant::ParticipantView;
use crate::model::text_room_request::{TextRoomRequest, TextRoomRequestView};
use crate::model::text_room_response::{TextRoomResponse, TextRoomResponseView};
use crate::service::room_state;
use vstd::prelude::*;

verus! {

/// A text frame that was no request: the decoder's complaint, and the token
/// of the request where a second, lenient reading could recover it.
#[derive(Debug, PartialEq, Eq)]
pub struct Undecoded {
    pub error: String,
    pub transaction: Option<String>,
}

/// An undecodable frame as plain text.
pub struct UndecodedView {
    pub error: Seq<char>,
    pub transaction: Option<Seq<char>>,
}

impl View for Undecoded {
    type V = UndecodedView;

    open spec fn view(&self) -> UndecodedView {
        UndecodedView { error: self.error@, transaction: self.transaction.deep_view() }
    }
}

/// A frame that arrived on a participant's socket. Text frames come decoded;
/// what the other kinds carry is of no interest to the client.
#[derive(Debug, PartialEq, Eq)]
pub enum Frame {
    Text(Result<TextRoomRequest, Undecoded>),
    Binary,
    Ping,
    Pong,
    Close,
    /// A raw or continuation frame.
    Raw,
}

/// An inbound frame as plain values.
pub enum FrameView {
    Text(Result<TextRoomRequestView, UndecodedView>),
    Binary,
    Ping,
    Pong,
    Close,
    Raw,
}

/// A decoded text frame as plain values.
pub open spec fn decoded_view(decoded: Result<TextRoomRequest, Undecoded>) -> Result<
    TextRoomRequestView,
    UndecodedView,
> {
    match decoded {
        Ok(request) => Ok(request@),
        Err(failure) => Err(failure@),
    }
}

impl View for Frame {
    type V = FrameView;

    open spec fn view(&self) -> FrameView {
        match self {
            Frame::Text(decoded) => FrameView::Text(decoded_view(*decoded)),
            Frame::Binary => FrameView::Binary,
            Frame::Ping => FrameView::Ping,
            Frame::Pong => FrameView::Pong,
            Frame::Close => FrameView::Close,
            Frame::Raw => FrameView::Raw,
        }
    }
}

/// Something to write to a participant's socket.
#[derive(Debug, PartialEq, Eq)]
pub enum Output {
    /// An event of the room, already encoded.
    Text(String),
    /// The answer to a request of this participant.
    Response(TextRoomResponse),
    Ping,
}

/// An outbound frame as plain values.
pub enum OutputView {
    Text(Seq<char>),
    Response(TextRoomResponseView),
    Ping,
}

impl View for Output {
    type V = OutputView;

    open spec fn view(&self) -> OutputView {
        match self {
            Output::Text(text) => OutputView::Text(text@),
            Output::Response(response) => OutputView::Response(response@),
            Output::Ping => OutputView::Ping,
        }
    }
}

/// One operation of the client actor.
#[derive(Debug, PartialEq, Eq)]
pub enum Command {
    /// A frame arrived from the participant.
    OnMessageReceived { frame: Frame },
    /// Write an encoded event to the participant.
    Send { text: String },
    /// Ping the participant if it is alive at the instant `now`.
    SendPing { now: u64 },
    /// Leave the room.
    Leave,
    /// Shut down.
    Close,
}

/// A client command as plain values.
pub enum CommandView {
    OnMessageReceived { frame: FrameView },
    Send { text: Seq<char> },
    SendPing { now: u64 },
    Leave,
    Close,
}

impl View for Command {
    type V = CommandView;

    open spec fn view(&self) -> CommandView {
        match self {
            Command::OnMessageReceived { frame } => CommandView::OnMessageReceived {
                frame: frame@,
            },
            Command::Send { text } => CommandView::Send { text: text@ },
            Command::SendPing { now } => CommandView::SendPing { now: *now },
            Command::Leave => CommandView::Leave,
            Command::Close => CommandView::Close,
        }
    }
}

/// Something that the client asks its runtime to do.
#[derive(Debug, PartialEq, Eq)]
pub enum ClientEffect {
    /// Write to the socket and flush.
    Write(Output),
    /// Hand a command to the room without waiting for its reply.
    Room(room_state::Command),
    /// Stop the worker that pings.
    CancelPing,
    /// Stop the worker that reads the socket.
    CancelReader,
    /// Close the socket.
    CloseSink,
}

/// A client effect as plain values.
pub enum ClientEffectView {
    Write(OutputView),
    Room(room_state::CommandView),
    CancelPing,
    CancelReader,
    CloseSink,
}

impl View for ClientEffect {
    type V = ClientEffectView;

    open spec fn view(&self) -> ClientEffectView {
        match self {
            ClientEffect::Write(output) => ClientEffectView::Write(output@),
            ClientEffect::Room(command) => ClientEffectView::Room(command@),
            ClientEffect::CancelPing => ClientEffectView::CancelPing,
            ClientEffect::CancelReader => ClientEffectView::CancelReader,
            ClientEffect::CloseSink => ClientEffectView::CloseSink,
        }
    }
}

impl DeepView for ClientEffect {
    type V = ClientEffectView;

    open spec fn deep_view(&self) -> ClientEffectView {
        self@
    }
}

/// The state that a client actor owns.
pub struct ClientState {
    pub id: u64,
    pub me: ParticipantView,
    /// The secret of the client's room.
    pub secret: Seq<char>,
    /// Milliseconds between two pings.
    pub ping_interval: u64,
    /// When the latest pong arrived, or when the client was made.
    pub last_pong: u64,
    /// Whether the client has left its room for good.
    pub detached: bool,
    /// The clock by which the instants of this client are read.
    pub clock: Clock,
}

/// The outcome of one client command: the state after it and the effects in
/// the order in which they are to be carried out.
pub struct ClientStep {
    pub state: ClientState,
    pub effects: Seq<ClientEffectView>,
}

impl ClientState {
    /// A client as it is made when `clock` reads `now`.
    pub open spec fn initial(
        id: u64,
        me: ParticipantView,
        secret: Seq<char>,
        ping_interval: u64,
        clock: Clock,
        now: u64,
    ) -> ClientState {
        ClientState { id, me, secret, ping_interval, last_pong: now, detached: false, clock }
    }

    /// A command that changes nothing and asks for nothing.
    pub open spec fn idle(self) -> ClientStep {
        ClientStep { state: self, effects: Seq::empty() }
    }

    /// The answer `response`, written to the participant.
    pub open spec fn answer(self, response: TextRoomResponseView) -> ClientStep {
        ClientStep {
            state: self,
            effects: seq![ClientEffectView::Write(OutputView::Response(response))],
        }
    }

    /// `command`, handed to the room.
    pub open spec fn forward(self, command: room_state::CommandView) -> ClientStep {
        ClientStep { state: self, effects: seq![ClientEffectView::Room(command)] }
    }

    /// What leaving the room for good asks for: the room drops the client,
    /// both workers stop, and the socket closes.
    pub open spec fn parting(self) -> Seq<ClientEffectView> {
        seq![
            ClientEffectView::Room(room_state::CommandView::RemoveClient { id: self.id }),
            ClientEffectView::CancelPing,
            ClientEffectView::CancelReader,
            ClientEffectView::CloseSink,
        ]
    }

    /// Leaves the room for good. A second time nothing happens.
    pub open spec fn detach(self) -> ClientStep {
        if self.detached {
            self.idle()
        } else {
            ClientStep { state: ClientState { detached: true, ..self }, effects: self.parting() }
        }
    }

    /// The answer to a request, if it gets one.
    pub open spec fn response_to(self, request: TextRoomRequestView) -> Option<
        TextRoomResponseView,
    > {
        if self.detached {
            Some(TextRoomResponseView::destroyed(request.transaction()))
        } else {
            match request {
                TextRoomRequestView::Message { .. } => None,
                TextRoomRequestView::Announcement { secret, transaction, .. } => if secret
                    == self.secret {
                    None
                } else {
                    Some(TextRoomResponseView::secret(transaction))
                },
                TextRoomRequestView::Ban { secret, transaction, .. } => if secret == self.secret {
                    None
                } else {
                    Some(TextRoomResponseView::secret(transaction))
                },
                TextRoomRequestView::Leave { transaction } => Some(
                    TextRoomResponseView::left(transaction),
                ),
            }
        }
    }

    /// What a request makes the client do, apart from answering.
    pub open spec fn action_on(self, request: TextRoomRequestView) -> ClientStep {
        if self.detached {
            self.idle()
        } else {
            match request {
                TextRoomRequestView::Message { kind, text, .. } => self.forward(
                    room_state::CommandView::SendMessage { sender: self.me, kind, text },
                ),
                TextRoomRequestView::Announcement { kind, text, secret, .. } => if secret
                    == self.secret {
                    self.forward(room_state::CommandView::Announce { sender: self.me, kind, text })
                } else {
                    self.idle()
                },
                TextRoomRequestView::Ban { username, secret, .. } => if secret == self.secret {
                    self.forward(
                        room_state::CommandView::Ban { from: self.me.username, victim: username },
                    )
                } else {
                    self.idle()
                },
                TextRoomRequestView::Leave { .. } => self.detach(),
            }
        }
    }

    /// A decoded request: the answer first, if there is one, then what the
    /// request asks for.
    pub open spec fn handle_request(self, request: TextRoomRequestView) -> ClientStep {
        let action = self.action_on(request);
        ClientStep {
            state: action.state,
            effects: match self.response_to(request) {
                Some(response) => seq![ClientEffectView::Write(OutputView::Response(response))]
                    + action.effects,
                None => action.effects,
            },
        }
    }

    /// A text frame: a request is handled, anything else is answered with the
    /// decoder's complaint.
    pub open spec fn on_listen(
        self,
        decoded: Result<TextRoomRequestView, UndecodedView>,
    ) -> ClientStep {
        match decoded {
            Ok(request) => self.handle_request(request),
            Err(failure) => self.answer(
                TextRoomResponseView::invalid(failure.transaction, failure.error),
            ),
        }
    }

    /// A frame from the participant, at the instant `now`.
    pub open spec fn on_message_received(self, frame: FrameView, now: u64) -> ClientStep {
        match frame {
            FrameView::Text(decoded) => self.on_listen(decoded),
            FrameView::Pong => ClientStep {
                state: ClientState { last_pong: now, ..self },
                effects: Seq::empty(),
            },
            _ => self.idle(),
        }
    }

    /// An encoded event for the participant. A client that has left writes
    /// nothing.
    pub open spec fn send(self, text: Seq<char>) -> ClientStep {
        if self.detached {
            self.idle()
        } else {
            ClientStep {
                state: self,
                effects: seq![ClientEffectView::Write(OutputView::Text(text))],
            }
        }
    }

    /// Whether at the instant `now` the latest pong is more than two ping
    /// intervals old.
    pub open spec fn timed_out(self, now: u64) -> bool {
        now - self.last_pong > 2 * self.ping_interval
    }

    /// Time for a ping: a client that is alive is pinged, one whose latest
    /// pong is too old leaves for good.
    pub open spec fn send_ping(self, now: u64) -> ClientStep {
        if self.detached {
            self.idle()
        } else if self.timed_out(now) {
            self.detach()
        } else {
            ClientStep { state: self, effects: seq![ClientEffectView::Write(OutputView::Ping)] }
        }
    }

    /// The outcome of `command`, processed when the client's clock reads
    /// `clock`.
    pub open spec fn step(self, command: CommandView, clock: u64) -> ClientStep {
        match command {
            CommandView::OnMessageReceived { frame } => self.on_message_received(frame, clock),
            CommandView::Send { text } => self.send(text),
            CommandView::SendPing { now } => self.send_ping(now),
            CommandView::Leave => self.detach(),
            CommandView::Close => self.detach(),
        }
    }
}

} // verus!
