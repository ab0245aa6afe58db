//! What holds of a room over any sequence of commands.

use crate::misc::date_serde::Timestamp;
use crate::model::message::MessageView;
use crate::model::params::join_params::JoinParamsView;
use crate::model::participant::ParticipantView;
use crate::model::text_room_event::TextRoomEventView;
use crate::service::room_state::{
    expulsions, position_of, ChatClientView, CommandView, ReplyView, RoomEffectView, RoomState,
    RoomStep,
};
use vstd::prelude::*;

verus! {

/// A command together with the instant at which the room processes it.
pub struct Timed {
    pub command: CommandView,
    pub at: Timestamp,
}

/// The state after the commands of `trace`, processed in order from `start`.
pub open spec fn run(start: RoomState, trace: Seq<Timed>) -> RoomState
    decreases trace.len(),
{
    if trace.len() == 0 {
        start
    } else {
        run(start, trace.drop_last()).step(trace.last().command, trace.last().at).state
    }
}

/// The outcome of the last command of a non-empty `trace` that starts in
/// `start`.
pub open spec fn last_step(start: RoomState, trace: Seq<Timed>) -> RoomStep
    recommends
        trace.len() > 0,
{
    run(start, trace.drop_last()).step(trace.last().command, trace.last().at)
}

/// Every command of `trace` finds the integers it needs.
pub open spec fn admitted(start: RoomState, trace: Seq<Timed>) -> bool
    decreases trace.len(),
{
    trace.len() == 0 || (admitted(start, trace.drop_last()) && run(
        start,
        trace.drop_last(),
    ).admits(trace.last().command))
}

/// The clients that `effects` send an event to, in order.
pub open spec fn recipients(effects: Seq<RoomEffectView>) -> Seq<u64>
    decreases effects.len(),
{
    if effects.len() == 0 {
        Seq::empty()
    } else {
        let before = recipients(effects.drop_last());
        match effects.last() {
            RoomEffectView::Broadcast { to, .. } => before + to,
            RoomEffectView::Send { client, .. } => before.push(client),
            _ => before,
        }
    }
}

/// The webhook posts among `effects`, in order.
pub open spec fn posted(effects: Seq<RoomEffectView>) -> Seq<MessageView>
    decreases effects.len(),
{
    if effects.len() == 0 {
        Seq::empty()
    } else {
        let before = posted(effects.drop_last());
        match effects.last() {
            RoomEffectView::Post { message } => before.push(message),
            _ => before,
        }
    }
}

/// Whether `command` is an announcement that takes effect: one whose sender
/// has a username.
pub open spec fn announces(command: CommandView) -> bool {
    command matches CommandView::Announce { sender, .. } && sender.username is Some
}

/// Whether `command` is a participant's message that takes effect: one whose
/// sender has a username and a display name.
pub open spec fn speaks(command: CommandView) -> bool {
    command matches CommandView::SendMessage { sender, .. } && sender.username is Some
        && sender.display is Some
}

/// The text of the latest announcement of type `kind` that took effect in
/// `trace`.
pub open spec fn latest_announced(trace: Seq<Timed>, kind: Seq<char>) -> Option<Seq<char>>
    decreases trace.len(),
{
    if trace.len() == 0 {
        None
    } else {
        match trace.last().command {
            CommandView::Announce { sender, kind: k, text } if sender.username is Some && k
                == kind => Some(text),
            _ => latest_announced(trace.drop_last(), kind),
        }
    }
}

/// The posts among the effects that expel a name are none.
pub proof fn lemma_expulsions_post_nothing(clients: Seq<ChatClientView>, victim: Seq<char>)
    ensures
        posted(expulsions(clients, victim)) == Seq::<MessageView>::empty(),
    decreases clients.len(),
{
    reveal_with_fuel(posted, 3);
    if clients.len() > 0 {
        lemma_expulsions_post_nothing(clients.drop_last(), victim);
        let before = expulsions(clients.drop_last(), victim);
        let last = clients.last();
        if last.me.username == Some(victim) {
            let sent = before.push(
                RoomEffectView::Send { client: last.id, event: TextRoomEventView::Banned },
            );
            let all = sent.push(RoomEffectView::Leave { client: last.id });
            assert(all.drop_last() =~= sent);
            assert(sent.drop_last() =~= before);
        }
    }
}

/// The posts of two runs of effects, one after the other.
pub proof fn lemma_posted_concat(first: Seq<RoomEffectView>, second: Seq<RoomEffectView>)
    ensures
        posted(first + second) == posted(first) + posted(second),
    decreases second.len(),
{
    if second.len() == 0 {
        assert(first + second =~= first);
        assert(posted(first) + posted(second) =~= posted(first));
    } else {
        lemma_posted_concat(first, second.drop_last());
        assert((first + second).drop_last() =~= first + second.drop_last());
        assert((first + second).last() == second.last());
        match second.last() {
            RoomEffectView::Post { message } => {
                assert(posted(first + second) =~= posted(first) + posted(second));
            },
            _ => {},
        }
    }
}

/// What a room's offer of `message` to the webhook posts.
pub proof fn lemma_posted_offer(state: RoomState, message: MessageView, check_type: bool)
    ensures
        posted(state.post(message, check_type)) == if state.posts(message, check_type) {
            seq![message]
        } else {
            Seq::empty()
        },
{
    reveal_with_fuel(posted, 2);
    let offer = state.post(message, check_type);
    if state.posts(message, check_type) {
        assert(offer.drop_last() =~= Seq::empty());
        assert(posted(offer) =~= seq![message]);
    }
}

/// A join event counts the clients as they are right after the newcomer was
/// added, and goes to those that were attached before.
pub proof fn lemma_join_counts_after(state: RoomState, params: JoinParamsView)
    requires
        state.wf(),
        state.admits(CommandView::AddClient { params }),
    ensures
        ({
            let step = state.add_client(params);
            &&& step.effects.len() == 1
            &&& step.effects[0] == RoomEffectView::Broadcast {
                to: state.ids(),
                event: TextRoomEventView::Joined {
                    username: params.username,
                    display: params.display,
                    participants: step.state.clients.len(),
                },
            }
            &&& step.state.clients.len() == state.clients.len() + 1
            &&& step.state.clients.last().me == ParticipantView {
                username: params.username,
                display: params.display,
            }
        }),
{
}

/// Where `position_of` finds an identifier, the client there has it; where
/// it finds none, no client has it.
pub proof fn lemma_position_of(clients: Seq<ChatClientView>, id: u64)
    ensures
        match position_of(clients, id) {
            Some(i) => 0 <= i < clients.len() && clients[i].id == id,
            None => forall|k: int| 0 <= k < clients.len() ==> (#[trigger] clients[k]).id != id,
        },
    decreases clients.len(),
{
    if clients.len() > 0 && clients.last().id != id {
        let front = clients.drop_last();
        lemma_position_of(front, id);
        assert forall|k: int| 0 <= k < front.len() implies front[k] == clients[k] by {}
    }
}

/// A leave event counts the clients as they are right after the leaver was
/// removed, and goes to exactly those: the leaver is not among them.
pub proof fn lemma_leave_counts_after(state: RoomState, id: u64)
    requires
        state.wf(),
        exists|k: int| 0 <= k < state.clients.len() && (#[trigger] state.clients[k]).id == id,
    ensures
        ({
            let step = state.remove_client(id);
            &&& step.effects.len() == 1
            &&& step.effects[0] matches RoomEffectView::Broadcast {
                to,
                event: TextRoomEventView::Left { username, display, participants },
            }
            &&& to == step.state.ids()
            &&& participants == step.state.clients.len()
            &&& !to.contains(id)
            &&& step.state.clients.len() == state.clients.len() - 1
            &&& exists|k: int|
                0 <= k < state.clients.len() && (#[trigger] state.clients[k]).id == id
                    && state.clients[k].me.username == username && state.clients[k].me.display
                    == display
        }),
{
    lemma_position_of(state.clients, id);
    let i = position_of(state.clients, id)->Some_0;
    let step = state.remove_client(id);
    let rest = state.clients.remove(i);
    assert(step.state.clients == rest);
    let to = step.state.ids();
    assert forall|k: int| 0 <= k < to.len() implies to[k] != id by {
        if k < i {
            assert(rest[k] == state.clients[k]);
            assert(state.clients[k].id < state.clients[i].id);
        } else {
            assert(rest[k] == state.clients[k + 1]);
            assert(state.clients[i].id < state.clients[k + 1].id);
        }
    }
    assert(state.clients[i].id == id);
}

/// In a well-formed room no two participants have the same identifier.
pub proof fn lemma_ids_distinct(state: RoomState, i: int, j: int)
    requires
        state.wf(),
        0 <= i < state.clients.len(),
        0 <= j < state.clients.len(),
        i != j,
    ensures
        state.clients[i].id != state.clients[j].id,
{
    if i < j {
        assert(state.clients[i].id < state.clients[j].id);
    } else {
        assert(state.clients[j].id < state.clients[i].id);
    }
}

/// One command keeps the room well formed and never lowers the next
/// identifier; attaching a participant raises it, and hands out an identifier
/// that no attached participant has.
pub proof fn lemma_step_keeps_wf(state: RoomState, command: CommandView, now: Timestamp)
    requires
        state.wf(),
        state.admits(command),
    ensures
        state.step(command, now).state.wf(),
        state.step(command, now).state.next_id >= state.next_id,
        state.step(command, now).state.room == state.room,
        command is AddClient ==> {
            &&& state.step(command, now).state.next_id > state.next_id
            &&& state.step(command, now).reply == ReplyView::Joined(state.next_id as u64)
            &&& forall|k: int|
                0 <= k < state.clients.len() ==> (#[trigger] state.clients[k]).id
                    < state.next_id
        },
        !(command is AddClient) ==> state.step(command, now).state.next_id == state.next_id,
{
    match command {
        CommandView::AddClient { params } => {
            let after = state.add_client(params).state;
            assert forall|i: int| 0 <= i < after.clients.len() implies 1 <= (
            #[trigger] after.clients[i]).id < after.next_id by {
                if i < state.clients.len() {
                    assert(after.clients[i] == state.clients[i]);
                }
            }
            assert forall|i: int, j: int| 0 <= i < j < after.clients.len() implies (
            #[trigger] after.clients[i]).id < (#[trigger] after.clients[j]).id by {
                assert(after.clients[i] == state.clients[i]);
                if j < state.clients.len() {
                    assert(after.clients[j] == state.clients[j]);
                }
            }
        },
        CommandView::RemoveClient { id } => {
            lemma_position_of(state.clients, id);
            match position_of(state.clients, id) {
                Some(i) => {
                    let rest = state.clients.remove(i);
                    assert forall|k: int| 0 <= k < rest.len() implies 1 <= (#[trigger] rest[k]).id
                        < state.next_id by {
                        if k < i {
                            assert(rest[k] == state.clients[k]);
                        } else {
                            assert(rest[k] == state.clients[k + 1]);
                        }
                    }
                    assert forall|a: int, b: int| 0 <= a < b < rest.len() implies (
                    #[trigger] rest[a]).id < (#[trigger] rest[b]).id by {
                        let a0 = if a < i {
                            a
                        } else {
                            a + 1
                        };
                        let b0 = if b < i {
                            b
                        } else {
                            b + 1
                        };
                        assert(rest[a] == state.clients[a0]);
                        assert(rest[b] == state.clients[b0]);
                    }
                },
                None => {},
            }
        },
        _ => {},
    }
}

/// Over any sequence of commands the room stays well formed and the next
/// identifier never falls.
pub proof fn lemma_next_id_never_falls(start: RoomState, trace: Seq<Timed>)
    requires
        start.wf(),
        admitted(start, trace),
    ensures
        run(start, trace).wf(),
        run(start, trace).next_id >= start.next_id,
        run(start, trace).room == start.room,
    decreases trace.len(),
{
    if trace.len() > 0 {
        lemma_next_id_never_falls(start, trace.drop_last());
        lemma_step_keeps_wf(run(start, trace.drop_last()), trace.last().command, trace.last().at);
    }
}

/// A longer run continues a shorter one: the next identifier after a prefix
/// of a trace is no higher than after the whole.
pub proof fn lemma_prefix_next_id(start: RoomState, trace: Seq<Timed>, n: int)
    requires
        start.wf(),
        admitted(start, trace),
        0 <= n <= trace.len(),
    ensures
        admitted(start, trace.take(n)),
        run(start, trace.take(n)).wf(),
        run(start, trace.take(n)).next_id <= run(start, trace).next_id,
    decreases trace.len(),
{
    if n == trace.len() {
        assert(trace.take(n) =~= trace);
        lemma_next_id_never_falls(start, trace);
    } else {
        let front = trace.drop_last();
        assert(front.take(n) =~= trace.take(n));
        lemma_prefix_next_id(start, front, n);
        lemma_next_id_never_falls(start, front);
        lemma_step_keeps_wf(run(start, front), trace.last().command, trace.last().at);
    }
}

/// No identifier is handed out twice: of two participants attached in the
/// course of a trace, the later one gets the higher identifier.
pub proof fn lemma_ids_never_reused(start: RoomState, trace: Seq<Timed>, i: int, j: int)
    requires
        start.wf(),
        admitted(start, trace),
        0 <= i < j < trace.len(),
        trace[i].command is AddClient,
        trace[j].command is AddClient,
    ensures
        last_step(start, trace.take(i + 1)).reply matches ReplyView::Joined(first)
            && last_step(start, trace.take(j + 1)).reply matches ReplyView::Joined(second) && first
            < second,
{
    let upto_i = trace.take(i + 1);
    let upto_j = trace.take(j + 1);
    lemma_prefix_next_id(start, trace, i);
    lemma_prefix_next_id(start, trace, i + 1);
    lemma_prefix_next_id(start, trace, j);
    lemma_prefix_next_id(start, trace, j + 1);
    assert(upto_i.drop_last() =~= trace.take(i));
    assert(upto_j.drop_last() =~= trace.take(j));
    assert(upto_i.last() == trace[i]);
    assert(upto_j.last() == trace[j]);
    let before_i = run(start, trace.take(i));
    let before_j = run(start, trace.take(j));
    lemma_step_keeps_wf(before_i, trace[i].command, trace[i].at);
    lemma_step_keeps_wf(before_j, trace[j].command, trace[j].at);
    // the state after step i is a prefix of the run up to j
    let mid = trace.take(j);
    assert(mid.take(i + 1) =~= upto_i);
    lemma_prefix_next_id(start, mid, i + 1);
    assert(run(start, upto_i).next_id <= before_j.next_id);
    assert(run(start, upto_i) == last_step(start, upto_i).state);
}


/// How many commands of `trace` publish something: announcements and
/// messages that take effect.
pub open spec fn published(trace: Seq<Timed>) -> nat
    decreases trace.len(),
{
    if trace.len() == 0 {
        0
    } else {
        published(trace.drop_last()) + if announces(trace.last().command) || speaks(
            trace.last().command,
        ) {
            1nat
        } else {
            0nat
        }
    }
}

/// One command raises the message count by one if it is an announcement or a
/// message that takes effect, and leaves it alone otherwise.
pub proof fn lemma_message_count_step(state: RoomState, command: CommandView, now: Timestamp)
    ensures
        state.step(command, now).state.messages == state.messages + if announces(command)
            || speaks(command) {
            1nat
        } else {
            0nat
        },
{
}

/// The message count never falls: after a trace it is the count at the start
/// plus the number of announcements and messages that took effect.
pub proof fn lemma_message_count(start: RoomState, trace: Seq<Timed>)
    ensures
        run(start, trace).messages == start.messages + published(trace),
        run(start, trace).messages >= start.messages,
    decreases trace.len(),
{
    if trace.len() > 0 {
        lemma_message_count(start, trace.drop_last());
        lemma_message_count_step(
            run(start, trace.drop_last()),
            trace.last().command,
            trace.last().at,
        );
    }
}

/// Ending a room tells everyone attached, leaves it marked and empty, and
/// has the service forget it.
pub proof fn lemma_destroy_empties(state: RoomState, now: Timestamp)
    requires
        !state.destroyed,
    ensures
        ({
            let step = state.destroy(now);
            &&& step.state.destroyed
            &&& step.state.clients.len() == 0
            &&& step.effects.len() >= 2
            &&& step.effects[0] == RoomEffectView::Broadcast {
                to: state.ids(),
                event: TextRoomEventView::Destroyed,
            }
            &&& step.effects[1] == RoomEffectView::Detach { uid: state.room.uid }
        }),
{
}

/// An ended, empty room sends no event to anyone and stays ended and empty,
/// whatever the command, unless the command attaches a participant.
pub proof fn lemma_ended_room_is_silent(state: RoomState, command: CommandView, now: Timestamp)
    requires
        state.destroyed,
        state.clients.len() == 0,
        !(command is AddClient),
    ensures
        state.step(command, now).state.destroyed,
        state.step(command, now).state.clients.len() == 0,
        recipients(state.step(command, now).effects) == Seq::<u64>::empty(),
{
    reveal_with_fuel(recipients, 4);
    let step = state.step(command, now);
    assert(state.ids() =~= Seq::empty());
    match command {
        CommandView::Announce { sender, kind, text } => {
            if sender.username is Some {
                let message = MessageView::announcement(
                    state.room.name(),
                    sender.username->Some_0,
                    kind,
                    text,
                    now,
                );
                if state.posts(message, true) {
                    assert(step.effects.drop_last().drop_last() =~= Seq::empty());
                } else {
                    assert(step.effects.drop_last() =~= Seq::empty());
                }
                assert(recipients(step.effects) =~= Seq::empty());
            }
        },
        CommandView::SendMessage { sender, kind, text } => {
            if sender.username is Some && sender.display is Some {
                let message = MessageView::message(
                    state.room.name(),
                    sender.username->Some_0,
                    kind,
                    text,
                    now,
                );
                if state.posts(message, true) {
                    assert(step.effects.drop_last().drop_last() =~= Seq::empty());
                } else {
                    assert(step.effects.drop_last() =~= Seq::empty());
                }
                assert(recipients(step.effects) =~= Seq::empty());
            }
        },
        CommandView::Ban { from, victim } => {
            let requester = match from {
                Some(name) => name,
                None => Seq::empty(),
            };
            let message = MessageView::ban(state.room.name(), requester, victim, now);
            assert(expulsions(state.clients, victim) =~= Seq::empty());
            if state.posts(message, false) {
                assert(step.effects.drop_last() =~= Seq::empty());
            }
            assert(recipients(step.effects) =~= Seq::empty());
        },
        _ => {},
    }
}

/// After a room was ended, and as long as no participant is attached to it
/// again, no command makes it send an event to anyone.
pub proof fn lemma_silent_after_destroy(start: RoomState, trace: Seq<Timed>, m: int)
    requires
        start.destroyed,
        start.clients.len() == 0,
        forall|i: int| 0 <= i < trace.len() ==> !((#[trigger] trace[i]).command is AddClient),
        0 <= m < trace.len(),
    ensures
        run(start, trace).destroyed,
        run(start, trace).clients.len() == 0,
        recipients(last_step(start, trace.take(m + 1)).effects) == Seq::<u64>::empty(),
    decreases trace.len(),
{
    let front = trace.drop_last();
    assert forall|i: int| 0 <= i < front.len() implies !((#[trigger] front[i]).command
        is AddClient) by {
        assert(front[i] == trace[i]);
    }
    if front.len() > 0 {
        lemma_silent_after_destroy(start, front, if m < front.len() {
            m
        } else {
            0
        });
    }
    assert(trace.last() == trace[trace.len() - 1]);
    lemma_ended_room_is_silent(run(start, front), trace.last().command, trace.last().at);
    if m < front.len() {
        assert(front.take(m + 1) =~= trace.take(m + 1));
    } else {
        assert(trace.take(m + 1) =~= trace);
    }
}

/// One command changes the latest announcements only if it is an
/// announcement that takes effect, and then sets the entry of its type to its
/// text.
pub proof fn lemma_last_announcement_step(state: RoomState, command: CommandView, now: Timestamp)
    ensures
        state.step(command, now).state.last_announcements == match command {
            CommandView::Announce { sender, kind, text } => if sender.username is Some {
                state.last_announcements.insert(kind, text)
            } else {
                state.last_announcements
            },
            _ => state.last_announcements,
        },
{
}

/// The entry of a type among the latest announcements is the text of the most
/// recent announcement of that type that took effect; where there was none,
/// the entry is as it was at the start, which for a new room means absent.
pub proof fn lemma_last_announcement_is_latest(
    start: RoomState,
    trace: Seq<Timed>,
    kind: Seq<char>,
)
    ensures
        match latest_announced(trace, kind) {
            Some(text) => run(start, trace).last_announcements.dom().contains(kind) && run(
                start,
                trace,
            ).last_announcements[kind] == text,
            None => {
                &&& run(start, trace).last_announcements.dom().contains(kind)
                    == start.last_announcements.dom().contains(kind)
                &&& run(start, trace).last_announcements[kind] == start.last_announcements[kind]
            },
        },
        start.last_announcements == Map::<Seq<char>, Seq<char>>::empty() && latest_announced(
            trace,
            kind,
        ) is None ==> !run(start, trace).last_announcements.dom().contains(kind),
    decreases trace.len(),
{
    if trace.len() > 0 {
        lemma_last_announcement_is_latest(start, trace.drop_last(), kind);
        lemma_last_announcement_step(
            run(start, trace.drop_last()),
            trace.last().command,
            trace.last().at,
        );
    }
}

/// An announcement or a message is posted to the webhook exactly when it
/// takes effect, a post address is set, and its type is among the room's post
/// types.
pub proof fn lemma_user_posts(
    state: RoomState,
    sender: ParticipantView,
    kind: Seq<char>,
    text: Seq<char>,
    now: Timestamp,
)
    ensures
        posted(state.announce(sender, kind, text, now).effects) == if sender.username is Some
            && state.room.post is Some && state.room.post_types.contains(kind) {
            seq![
                MessageView::announcement(
                    state.room.name(),
                    sender.username->Some_0,
                    kind,
                    text,
                    now,
                ),
            ]
        } else {
            Seq::empty()
        },
        posted(state.send_message(sender, kind, text, now).effects) == if sender.username
            is Some && sender.display is Some && state.room.post is Some
            && state.room.post_types.contains(kind) {
            seq![MessageView::message(state.room.name(), sender.username->Some_0, kind, text, now)]
        } else {
            Seq::empty()
        },
{
    reveal_with_fuel(posted, 2);
    if sender.username is Some {
        let from = sender.username->Some_0;
        let event = TextRoomEventView::Announcement { date: now, text, kind };
        let message = MessageView::announcement(state.room.name(), from, kind, text, now);
        let first = seq![state.broadcast(event)];
        assert(first.drop_last() =~= Seq::empty());
        lemma_posted_concat(first, state.post(message, true));
        lemma_posted_offer(state, message, true);
        assert(posted(first) + posted(state.post(message, true)) =~= posted(
            state.post(message, true),
        ));
        if sender.display is Some {
            let display = sender.display->Some_0;
            let said = TextRoomEventView::Message { from, display, date: now, text, kind };
            let mirror = MessageView::message(state.room.name(), from, kind, text, now);
            let head = seq![state.broadcast(said)];
            assert(head.drop_last() =~= Seq::empty());
            lemma_posted_concat(head, state.post(mirror, true));
            lemma_posted_offer(state, mirror, true);
            assert(posted(head) + posted(state.post(mirror, true)) =~= posted(
                state.post(mirror, true),
            ));
        }
    }
}

/// The posts that tell of a room's creation, of its destruction and of a ban
/// are made exactly when a post address is set, whatever the room's post
/// types.
pub proof fn lemma_moderation_posts(
    state: RoomState,
    from: Option<Seq<char>>,
    victim: Seq<char>,
    now: Timestamp,
)
    ensures
        posted(state.post_created(now)) == if state.room.post is Some {
            seq![MessageView::room_created(state.room.name(), now)]
        } else {
            Seq::empty()
        },
        !state.destroyed ==> posted(state.destroy(now).effects) == if state.room.post is Some {
            seq![MessageView::room_destroyed(state.room.name(), now)]
        } else {
            Seq::empty()
        },
        state.destroyed ==> posted(state.destroy(now).effects) == Seq::<MessageView>::empty(),
        posted(state.ban(from, victim, now).effects) == if state.room.post is Some {
            seq![
                MessageView::ban(
                    state.room.name(),
                    match from {
                        Some(name) => name,
                        None => Seq::empty(),
                    },
                    victim,
                    now,
                ),
            ]
        } else {
            Seq::empty()
        },
{
    reveal_with_fuel(posted, 3);
    lemma_posted_offer(state, MessageView::room_created(state.room.name(), now), false);
    if !state.destroyed {
        let message = MessageView::room_destroyed(state.room.name(), now);
        let first = seq![
            state.broadcast(TextRoomEventView::Destroyed),
            RoomEffectView::Detach { uid: state.room.uid },
        ];
        assert(first.drop_last().drop_last() =~= Seq::empty());
        lemma_posted_concat(first, state.post(message, false));
        lemma_posted_offer(state, message, false);
        assert(posted(first) + posted(state.post(message, false)) =~= posted(
            state.post(message, false),
        ));
    }
    let requester = match from {
        Some(name) => name,
        None => Seq::empty(),
    };
    let report = MessageView::ban(state.room.name(), requester, victim, now);
    lemma_expulsions_post_nothing(state.clients, victim);
    lemma_posted_concat(expulsions(state.clients, victim), state.post(report, false));
    lemma_posted_offer(state, report, false);
    assert(posted(expulsions(state.clients, victim)) + posted(state.post(report, false))
        =~= posted(state.post(report, false)));
}

} // verus!
