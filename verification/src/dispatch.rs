//! The event dispatcher: what is done with each thing that the event feed
//! hands out, and which handling an event begins.

use crate::command::{command_route, route_command, Invocation, InvocationModel};
use crate::engine::{message_route, mirror_for, route_message};
use crate::envelope::{InboundMessage, MessageModel};
use crate::flow::{finished, Outcome, Step, StepModel};
use crate::ledger::{Ledger, Slot};
use crate::mirror::{channel_models, ChannelEntry, ChannelModel};
use crate::relay::{
    entry_model, lemma_guild_route_serves, lemma_private_route_serves, serves_guild,
    serves_private,
};
use crate::workspace::Workspace;
use twilight_cache_inmemory::InMemoryCache;
use vstd::prelude::*;

verus! {

/// What one pull at the event feed gave.
#[derive(Clone, Copy, Debug, PartialEq, Eq, Structural)]
pub enum Pull {
    /// An event.
    Event,
    /// An error, which the feed itself calls fatal or not.
    Error { fatal: bool },
}

/// One thing that the dispatcher does in a turn.
#[derive(Clone, Copy, Debug, PartialEq, Eq, Structural)]
pub enum Duty {
    /// Apply the event to the mirror.
    UpdateMirror,
    /// Hand the event to a handling of its own, which runs beside the
    /// dispatcher.
    HandOff,
    /// Report the error.
    Report,
}

/// What the dispatcher does in one turn, in order, and whether it pulls
/// again afterwards.
#[derive(Clone, Debug, PartialEq, Eq)]
pub struct Turn {
    pub duties: Vec<Duty>,
    pub proceed: bool,
}

/// The duties of a turn. An event is applied to the mirror first and handed
/// off second, so that its handling finds the mirror up to date with it. An
/// error is reported.
pub open spec fn duties_of(pull: Pull) -> Seq<Duty> {
    match pull {
        Pull::Event => seq![Duty::UpdateMirror, Duty::HandOff],
        Pull::Error { .. } => seq![Duty::Report],
    }
}

/// Whether the dispatcher pulls again: always, but after a fatal error.
pub open spec fn proceeds_after(pull: Pull) -> bool {
    match pull {
        Pull::Event => true,
        Pull::Error { fatal } => !fatal,
    }
}

/// Plans the turn for what the feed gave.
pub fn plan_turn(pull: Pull) -> (turn: Turn)
    ensures
        turn.duties@ == duties_of(pull),
        turn.proceed == proceeds_after(pull),
{
    let mut duties: Vec<Duty> = Vec::new();
    match pull {
        Pull::Event => {
            duties.push(Duty::UpdateMirror);
            duties.push(Duty::HandOff);
            Turn { duties, proceed: true }
        },
        Pull::Error { fatal } => {
            duties.push(Duty::Report);
            Turn { duties, proceed: !fatal }
        },
    }
}

/// An event as far as the bridge cares for it.
#[derive(Clone, Debug, PartialEq, Eq)]
pub enum Inbound {
    /// The feed is connected.
    Ready,
    /// A message was written.
    Message(InboundMessage),
    /// A command was invoked.
    Command(Invocation),
    /// Anything else.
    Other,
}

/// The mathematical value of an [`Inbound`].
pub enum InboundModel {
    Ready,
    Message(MessageModel),
    Command(InvocationModel),
    Other,
}

impl View for Inbound {
    type V = InboundModel;

    open spec fn view(&self) -> InboundModel {
        match self {
            Inbound::Ready => InboundModel::Ready,
            Inbound::Message(msg) => InboundModel::Message(msg@),
            Inbound::Command(inv) => InboundModel::Command(inv@),
            Inbound::Other => InboundModel::Other,
        }
    }
}

/// How the handling of an event begins, given what the mirror holds: a
/// message is routed, a command is begun, and nothing else calls for
/// anything.
pub open spec fn event_route(
    ws: Workspace,
    channels: Seq<ChannelModel>,
    channel: Option<ChannelModel>,
    ledger: Map<u64, Slot>,
    event: InboundModel,
) -> (Map<u64, Slot>, StepModel) {
    match event {
        InboundModel::Message(msg) => message_route(ws, channels, channel, ledger, msg),
        InboundModel::Command(inv) => (ledger, command_route(ws, inv)),
        _ => (ledger, finished(Outcome::Ignored)),
    }
}

/// Whether an event is a private message of someone who is no bot.
pub open spec fn is_private_request(event: InboundModel) -> bool {
    event matches InboundModel::Message(msg) && !msg.author_is_bot && msg.guild_id is None
}

/// Whether an event is a message written in a guild by someone who is no
/// bot.
pub open spec fn is_guild_request(event: InboundModel) -> bool {
    event matches InboundModel::Message(msg) && !msg.author_is_bot && msg.guild_id is Some
}

/// Begins the handling of an event, given what the mirror holds: all its
/// channels in its order, and the channel that a message was written in.
pub fn route_event(
    ws: &Workspace,
    channels: &Vec<ChannelEntry>,
    channel: Option<ChannelEntry>,
    ledger: &mut Ledger,
    event: Inbound,
) -> (step: Step)
    ensures
        final(ledger)@ == event_route(
            *ws,
            channel_models(channels@),
            entry_model(channel),
            old(ledger)@,
            event@,
        ).0,
        step@ == event_route(
            *ws,
            channel_models(channels@),
            entry_model(channel),
            old(ledger)@,
            event@,
        ).1,
{
    match event {
        Inbound::Message(msg) => route_message(ws, channels, channel, ledger, msg),
        Inbound::Command(inv) => route_command(ws, inv),
        _ => Step::Finished { outcome: Outcome::Ignored },
    }
}

/// Begins the handling of an event against the mirror as it stands at this
/// moment: reads from the mirror what the event takes and routes the event
/// by `route_event`. The mirror is shared with the dispatcher, so the step
/// is the one that `event_route` gives for some content of the mirror, in
/// which the channel looked at is that of the message. What does not depend
/// on the mirror is fixed: how a command begins, that a bot's message and an
/// event of no concern are ignored, that only a private message of someone
/// who is no bot touches the ledger, and that such a message is served: it
/// waits, or a channel is created for it, or it is sent into a channel. A
/// message written in a guild is dropped, or the conversation with the owner
/// of its ticket is opened.
pub fn handle_event(ws: &Workspace, cache: &InMemoryCache, ledger: &mut Ledger, event: Inbound) -> (step:
    Step)
    ensures
        exists|channels: Seq<ChannelModel>, channel: Option<ChannelModel>|
            #![trigger event_route(*ws, channels, channel, old(ledger)@, event@)]
            (channel matches Some(entry) ==> event@ is Message && entry.id
                == event@->Message_0.channel_id) && final(ledger)@ == event_route(
                *ws,
                channels,
                channel,
                old(ledger)@,
                event@,
            ).0 && step@ == event_route(*ws, channels, channel, old(ledger)@, event@).1,
        event@ matches InboundModel::Command(inv) ==> step@ == command_route(*ws, inv),
        event@ is Ready || event@ is Other ==> step@ == finished(Outcome::Ignored),
        event@ matches InboundModel::Message(msg) ==> (msg.author_is_bot ==> step@ == finished(
            Outcome::Ignored,
        )),
        !(event@ matches InboundModel::Message(msg) && !msg.author_is_bot && msg.guild_id is None)
            ==> final(ledger)@ == old(ledger)@,
        is_private_request(event@) ==> serves_private(
            *ws,
            old(ledger)@,
            event@->Message_0,
            step@,
        ),
        is_guild_request(event@) ==> serves_guild(event@->Message_0, step@),
{
    let (channels, channel) = match &event {
        Inbound::Message(msg) => mirror_for(cache, msg),
        _ => (Vec::new(), None),
    };
    proof {
        if is_private_request(event@) {
            lemma_private_route_serves(
                *ws,
                channel_models(channels@),
                ledger@,
                event@->Message_0,
            );
        }
        if is_guild_request(event@) {
            lemma_guild_route_serves(*ws, entry_model(channel), event@->Message_0);
        }
    }
    route_event(ws, &channels, channel, ledger, event)
}

} // verus!
