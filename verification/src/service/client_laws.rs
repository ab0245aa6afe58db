//! What holds of a client whatever it is sent, alone and together with its
//! room.

use crate::misc::date_serde::Timestamp;
use crate::model::text_room_event::TextRoomEventView;
use crate::model::text_room_request::TextRoomRequestView;
use crate::model::text_room_response::TextRoomResponseView;
use crate::service::client_state::{
    ClientEffectView, ClientState, ClientStep, CommandView, FrameView, OutputView,
};
use crate::service::room_laws::lemma_leave_counts_after;
use crate::service::room_state;
use crate::service::room_state::{RoomEffectView, RoomState};
use vstd::prelude::*;

verus! {

/// How many answers to requests `effects` write.
pub open spec fn answers(effects: Seq<ClientEffectView>) -> nat
    decreases effects.len(),
{
    if effects.len() == 0 {
        0
    } else {
        answers(effects.drop_last()) + match effects.last() {
            ClientEffectView::Write(OutputView::Response(_)) => 1nat,
            _ => 0nat,
        }
    }
}

/// A client that has left answers every decoded request with the
/// `destroyed` error, which carries the request's token, and does nothing
/// else: it hands nothing to the room.
pub proof fn lemma_left_client_answers_destroyed(client: ClientState, request: TextRoomRequestView)
    requires
        client.detached,
    ensures
        client.on_listen(Ok(request)) == (ClientStep {
            state: client,
            effects: seq![
                ClientEffectView::Write(
                    OutputView::Response(TextRoomResponseView::destroyed(request.transaction())),
                ),
            ],
        }),
{
    let step = client.on_listen(Ok(request));
    assert(step.effects =~= seq![
        ClientEffectView::Write(
            OutputView::Response(TextRoomResponseView::destroyed(request.transaction())),
        ),
    ]);
}

/// Leaving is final: a client that has left stays so whatever it is sent,
/// hands nothing more to its room, and does not close its socket twice.
pub proof fn lemma_detached_is_final(client: ClientState, command: CommandView, clock: u64)
    requires
        client.detached,
    ensures
        client.step(command, clock).state.detached,
        forall|i: int|
            0 <= i < client.step(command, clock).effects.len() ==> (#[trigger] client.step(
                command,
                clock,
            ).effects[i]) is Write,
{
    match command {
        CommandView::OnMessageReceived { frame } => {
            match frame {
                FrameView::Text(Ok(request)) => {
                    lemma_left_client_answers_destroyed(client, request);
                },
                _ => {},
            }
        },
        _ => {},
    }
}

/// A leave asked for over the socket: the sender is written exactly one
/// answer, `left` with the request's token, before its client tells the room
/// to drop it; the room then sends the `leave` event to the peers that
/// remain, and the event counts them.
pub proof fn lemma_leave_flow(
    client: ClientState,
    room: RoomState,
    transaction: Option<Seq<char>>,
    now: Timestamp,
)
    requires
        !client.detached,
        room.wf(),
        exists|k: int| 0 <= k < room.clients.len() && (#[trigger] room.clients[k]).id == client.id,
    ensures
        ({
            let left = client.on_listen(Ok(TextRoomRequestView::Leave { transaction }));
            let dropped = room.step(room_state::CommandView::RemoveClient { id: client.id }, now);
            &&& left.state.detached
            &&& left.effects.len() == 5
            &&& left.effects[0] == ClientEffectView::Write(
                OutputView::Response(TextRoomResponseView::left(transaction)),
            )
            &&& left.effects[1] == ClientEffectView::Room(
                room_state::CommandView::RemoveClient { id: client.id },
            )
            &&& left.effects[4] == ClientEffectView::CloseSink
            &&& answers(left.effects) == 1
            &&& dropped.effects.len() == 1
            &&& dropped.effects[0] matches RoomEffectView::Broadcast {
                to,
                event: TextRoomEventView::Left { participants, .. },
            }
            &&& to == dropped.state.ids()
            &&& !to.contains(client.id)
            &&& participants == dropped.state.clients.len()
            &&& dropped.state.clients.len() == room.clients.len() - 1
        }),
{
    reveal_with_fuel(answers, 6);
    let left = client.on_listen(Ok(TextRoomRequestView::Leave { transaction }));
    let first = seq![
        ClientEffectView::Write(OutputView::Response(TextRoomResponseView::left(transaction))),
    ];
    assert(left.effects =~= first + client.parting());
    let e = left.effects;
    assert(e.drop_last().drop_last().drop_last().drop_last().drop_last() =~= Seq::empty());
    lemma_leave_counts_after(room, client.id);
}

/// A participant that sends no pong is given up: a ping that falls due more
/// than two ping intervals after the latest pong closes the client, which
/// tells the room to drop it; the room then sends the `leave` event to the
/// peers that remain.
pub proof fn lemma_ping_timeout_flow(client: ClientState, room: RoomState, now: u64, at: Timestamp)
    requires
        !client.detached,
        now - client.last_pong > 2 * client.ping_interval,
        room.wf(),
        exists|k: int| 0 <= k < room.clients.len() && (#[trigger] room.clients[k]).id == client.id,
    ensures
        ({
            let pinged = client.send_ping(now);
            let dropped = room.step(room_state::CommandView::RemoveClient { id: client.id }, at);
            &&& pinged.state.detached
            &&& pinged.effects == client.parting()
            &&& pinged.effects[0] == ClientEffectView::Room(
                room_state::CommandView::RemoveClient { id: client.id },
            )
            &&& pinged.effects[3] == ClientEffectView::CloseSink
            &&& dropped.effects.len() == 1
            &&& dropped.effects[0] matches RoomEffectView::Broadcast {
                to,
                event: TextRoomEventView::Left { participants, .. },
            }
            &&& to == dropped.state.ids()
            &&& !to.contains(client.id)
            &&& participants == dropped.state.clients.len()
        }),
{
    lemma_leave_counts_after(room, client.id);
}

} // verus!
