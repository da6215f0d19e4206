//! The engine: how a handling goes on when the host comes back with a reply,
//! and the entry points that read the mirror.
//!
//! No operation is tried twice and none is undone: the first reply that
//! reports a failure ends the handling.

use crate::command::{
    command_route, route_command, Invocation, CLOSE_CONFIRMED, PONG, REMOVAL_DONE,
};
use crate::envelope::{
    closing_notice, first_attachment, image_acceptable, lemma_staff_envelope_built,
    staff_envelope, user_envelope, Envelope, InboundMessage, MessageModel, STAFF_NAME,
};
use crate::flow::{
    conclude, failed, finished, Effect, EffectModel, Fault, Outcome, Reply, Session,
    SessionModel, Step, StepModel,
};
use crate::ident::{decimal_string, decimal_text};
use crate::ledger::{slot_of, Ledger, Slot};
use crate::mirror::{
    cached_channels, channel_models, guild_model, known_channel, known_guild, ChannelEntry,
    ChannelModel, GuildEntry, GuildModel,
};
use crate::relay::{
    deliver, deliver_to, entry_model, guild_route, lemma_guild_route_serves,
    lemma_private_route_serves, private_route, route_guild, route_private, serves_guild,
    serves_private,
};
use crate::workspace::Workspace;
use twilight_cache_inmemory::InMemoryCache;
use vstd::prelude::*;
use vstd::string::*;

verus! {

/// Whether a reply is of the kind that the pending operation of a session
/// gives when it succeeds: a channel where one is created or opened, a
/// latency where one is measured, and a plain word of success elsewhere.
pub open spec fn answers(session: SessionModel, reply: Reply) -> bool {
    match session {
        SessionModel::Provisioning { .. }
        | SessionModel::Reaching { .. }
        | SessionModel::CloseReaching { .. } => reply is Channel,
        SessionModel::PingMeasuring => reply is Latency,
        _ => reply is Done,
    }
}

/// The fault with which a reply that does not answer ends the handling.
pub open spec fn refusal(reply: Reply) -> Fault {
    if reply is Failed {
        Fault::Remote
    } else {
        Fault::Protocol
    }
}

/// The step that sends a staff message into the private conversation
/// `channel`, under the icon of the guild as the mirror holds it. Where the
/// mirror holds no guild, or the guild has no icon, the message goes out
/// under the name of staff alone.
pub open spec fn staff_delivery(guild: Option<GuildModel>, channel: u64, msg: MessageModel) -> StepModel {
    deliver(channel, staff_envelope(guild, msg))
}

/// Whether a step is what is owed to a staff message once the private
/// conversation `conversation` is open: the one send that carries the
/// message into the conversation under the name of staff, with whatever
/// picture; or, where the first attachment has an address that the platform
/// does not take, the end of the handling.
pub open spec fn is_staff_send(message: MessageModel, conversation: u64, step: StepModel) -> bool {
    if image_acceptable(first_attachment(message.attachments)) {
        &&& step matches StepModel::Perform {
            effect: EffectModel::SendEnvelope { channel_id, envelope },
            session,
        }
        &&& session == (SessionModel::Concluding { outcome: Outcome::Relayed })
        &&& channel_id == conversation
        &&& envelope.description == message.content
        &&& envelope.image_url == first_attachment(message.attachments)
        &&& envelope.timestamp == Some(message.timestamp)
        &&& envelope.attribution matches Some(attribution)
        &&& attribution.name == STAFF_NAME@
    } else {
        step == failed(Fault::ImageRejected)
    }
}

/// The answer to a health check: the greeting, then the latency in decimal.
pub open spec fn pong_text(latency: u128) -> Seq<char> {
    PONG@ + decimal_text(latency as nat)
}

/// What becomes of the ledger when a handling goes on.
///
/// The reply to the creation of a ticket channel settles the author's claim
/// with the channel that was made, or releases the claim where none was
/// made. The deletion of a ticket channel drops the note that names it. A
/// send into a noted channel that does not succeed drops the note too: the
/// channel may be gone, and the next message is to find the user free.
/// Nothing else touches the ledger.
pub open spec fn resume_ledger(ledger: Map<u64, Slot>, session: SessionModel, reply: Reply) -> Map<
    u64,
    Slot,
> {
    match session {
        SessionModel::Provisioning { message } => match reply {
            Reply::Channel(channel) => ledger.insert(message.author_id, Slot::Created(channel)),
            _ => ledger.remove(message.author_id),
        },
        SessionModel::CloseDeleting { ticket, owner } => if reply is Done && slot_of(ledger, owner)
            == Some(Slot::Created(ticket)) {
            ledger.remove(owner)
        } else {
            ledger
        },
        SessionModel::DeliveringNoted { user, channel } => if !(reply is Done) && slot_of(
            ledger,
            user,
        ) == Some(Slot::Created(channel)) {
            ledger.remove(user)
        } else {
            ledger
        },
        _ => ledger,
    }
}

/// How a handling goes on after a reply, given the guild of the workspace as
/// the mirror holds it.
///
/// A reply that does not answer the pending operation ends the handling
/// with a fault. One that does leads to the next operation of the flow, or
/// to its end.
pub open spec fn resume_step(
    ws: Workspace,
    guild: Option<GuildModel>,
    session: SessionModel,
    reply: Reply,
) -> StepModel {
    if !answers(session, reply) {
        failed(refusal(reply))
    } else {
        match session {
            SessionModel::Provisioning { message } => deliver(
                reply->Channel_0,
                user_envelope(message),
            ),
            SessionModel::Reaching { message } => staff_delivery(guild, reply->Channel_0, message),
            SessionModel::Concluding { outcome } => finished(outcome),
            SessionModel::DeliveringNoted { .. } => finished(Outcome::Relayed),
            SessionModel::PingAcknowledging => StepModel::Perform {
                effect: EffectModel::MeasureLatency,
                session: SessionModel::PingMeasuring,
            },
            SessionModel::PingMeasuring => conclude(
                EffectModel::FollowUp { content: pong_text(reply->Latency_0) },
                Outcome::Answered,
            ),
            SessionModel::CloseReaching { ticket, owner } => StepModel::Perform {
                effect: EffectModel::SendEnvelope {
                    channel_id: reply->Channel_0,
                    envelope: closing_notice(),
                },
                session: SessionModel::CloseNotifying { ticket, owner },
            },
            SessionModel::CloseNotifying { ticket, owner } => StepModel::Perform {
                effect: EffectModel::Respond { content: CLOSE_CONFIRMED@ },
                session: SessionModel::CloseConfirming { ticket, owner },
            },
            SessionModel::CloseConfirming { ticket, owner } => StepModel::Perform {
                effect: EffectModel::DeleteChannel { channel_id: ticket },
                session: SessionModel::CloseDeleting { ticket, owner },
            },
            SessionModel::CloseDeleting { .. } => finished(Outcome::Closed),
            SessionModel::RemovalAcknowledging { removal, target } => StepModel::Perform {
                effect: EffectModel::RemoveMember {
                    removal,
                    guild_id: ws.guild_id,
                    user_id: target,
                },
                session: SessionModel::Removing,
            },
            SessionModel::Removing => conclude(
                EffectModel::FollowUp { content: REMOVAL_DONE@ },
                Outcome::Removed,
            ),
        }
    }
}

/// Where a message goes: a private one by `private_route`, one written in a
/// guild by `guild_route`, which leaves the ledger alone.
pub open spec fn message_route(
    ws: Workspace,
    channels: Seq<ChannelModel>,
    channel: Option<ChannelModel>,
    ledger: Map<u64, Slot>,
    msg: MessageModel,
) -> (Map<u64, Slot>, StepModel) {
    if msg.guild_id is None {
        private_route(ws, channels, ledger, msg)
    } else {
        (ledger, guild_route(ws, channel, msg))
    }
}

/// What a handling came to: the operations it asked for, in order; the
/// ledger it left; and its outcome, if it ended.
pub struct Course {
    pub effects: Seq<EffectModel>,
    pub ledger: Map<u64, Slot>,
    pub end: Option<Outcome>,
}

/// The course of a handling that stands at `step`, when the host answers
/// the operations asked for with `replies`, in order, and the mirror holds
/// `guild` for the workspace throughout. The course stops where the
/// handling ends or where the replies run out.
pub open spec fn course(
    ws: Workspace,
    guild: Option<GuildModel>,
    ledger: Map<u64, Slot>,
    step: StepModel,
    replies: Seq<Reply>,
) -> Course
    decreases replies.len(),
{
    match step {
        StepModel::Finished { outcome } => Course {
            effects: Seq::empty(),
            ledger,
            end: Some(outcome),
        },
        StepModel::Perform { effect, session } => if replies.len() == 0 {
            Course { effects: seq![effect], ledger, end: None }
        } else {
            let rest = course(
                ws,
                guild,
                resume_ledger(ledger, session, replies[0]),
                resume_step(ws, guild, session, replies[0]),
                replies.drop_first(),
            );
            Course { effects: seq![effect] + rest.effects, ledger: rest.ledger, end: rest.end }
        },
    }
}

/// The values of a run of operations, in the same order.
pub open spec fn effect_models(effects: Seq<Effect>) -> Seq<EffectModel> {
    Seq::new(effects.len(), |i: int| effects[i]@)
}

/// What a replayed handling came to: the operations it asked for, in order,
/// and its outcome, if it ended.
#[derive(Clone, Debug, PartialEq, Eq)]
pub struct Transcript {
    pub effects: Vec<Effect>,
    pub end: Option<Outcome>,
}

/// The step that ends a handling over a reply that does not answer.
fn refuse(reply: Reply) -> (step: Step)
    ensures
        step@ == failed(refusal(reply)),
{
    match reply {
        Reply::Failed => Step::Finished { outcome: Outcome::Failed(Fault::Remote) },
        _ => Step::Finished { outcome: Outcome::Failed(Fault::Protocol) },
    }
}

/// The step that sends a staff message into a private conversation.
fn deliver_from_staff(guild: &Option<GuildEntry>, channel: u64, msg: &InboundMessage) -> (step: Step)
    ensures
        step@ == staff_delivery(guild_model(*guild), channel, msg@),
{
    deliver_to(channel, Envelope::from_staff(guild, msg))
}

/// The step that follows an acknowledgment up with a message and then ends
/// the handling.
fn follow_up_and_end(content: String, outcome: Outcome) -> (step: Step)
    ensures
        step@ == conclude(EffectModel::FollowUp { content: content@ }, outcome),
{
    Step::Perform {
        effect: Effect::FollowUp { content },
        session: Session::Concluding { outcome },
    }
}

/// Begins the handling of a message, given what the mirror holds: all its
/// channels in its order, and the channel that the message was written in.
pub fn route_message(
    ws: &Workspace,
    channels: &Vec<ChannelEntry>,
    channel: Option<ChannelEntry>,
    ledger: &mut Ledger,
    msg: InboundMessage,
) -> (step: Step)
    ensures
        final(ledger)@ == message_route(
            *ws,
            channel_models(channels@),
            entry_model(channel),
            old(ledger)@,
            msg@,
        ).0,
        step@ == message_route(
            *ws,
            channel_models(channels@),
            entry_model(channel),
            old(ledger)@,
            msg@,
        ).1,
{
    match msg.guild_id {
        None => route_private(ws, channels, ledger, msg),
        Some(_) => route_guild(ws, channel, msg),
    }
}

/// Goes on with a handling after the host performed the pending operation,
/// given the guild of the workspace as the mirror holds it.
pub fn resume_with(
    ws: &Workspace,
    guild: &Option<GuildEntry>,
    ledger: &mut Ledger,
    session: Session,
    reply: Reply,
) -> (step: Step)
    ensures
        final(ledger)@ == resume_ledger(old(ledger)@, session@, reply),
        step@ == resume_step(*ws, guild_model(*guild), session@, reply),
{
    match session {
        Session::Provisioning { message } => match reply {
            Reply::Channel(channel) => {
                ledger.settle(message.author_id, channel);
                deliver_to(channel, Envelope::from_user(&message))
            },
            _ => {
                ledger.release(message.author_id);
                refuse(reply)
            },
        },
        Session::Reaching { message } => match reply {
            Reply::Channel(channel) => deliver_from_staff(guild, channel, &message),
            _ => refuse(reply),
        },
        Session::Concluding { outcome } => match reply {
            Reply::Done => Step::Finished { outcome },
            _ => refuse(reply),
        },
        Session::DeliveringNoted { user, channel } => match reply {
            Reply::Done => Step::Finished { outcome: Outcome::Relayed },
            _ => {
                match ledger.slot(user) {
                    Some(Slot::Created(noted)) => {
                        if noted == channel {
                            ledger.release(user);
                        }
                    },
                    _ => {},
                }
                refuse(reply)
            },
        },
        Session::PingAcknowledging => match reply {
            Reply::Done => Step::Perform {
                effect: Effect::MeasureLatency,
                session: Session::PingMeasuring,
            },
            _ => refuse(reply),
        },
        Session::PingMeasuring => match reply {
            Reply::Latency(latency) => {
                let mut content = String::from_str(PONG);
                content.append(decimal_string(latency).as_str());
                follow_up_and_end(content, Outcome::Answered)
            },
            _ => refuse(reply),
        },
        Session::CloseReaching { ticket, owner } => match reply {
            Reply::Channel(channel) => Step::Perform {
                effect: Effect::SendEnvelope {
                    channel_id: channel,
                    envelope: Envelope::closing_notice(),
                },
                session: Session::CloseNotifying { ticket, owner },
            },
            _ => refuse(reply),
        },
        Session::CloseNotifying { ticket, owner } => match reply {
            Reply::Done => Step::Perform {
                effect: Effect::Respond { content: String::from_str(CLOSE_CONFIRMED) },
                session: Session::CloseConfirming { ticket, owner },
            },
            _ => refuse(reply),
        },
        Session::CloseConfirming { ticket, owner } => match reply {
            Reply::Done => Step::Perform {
                effect: Effect::DeleteChannel { channel_id: ticket },
                session: Session::CloseDeleting { ticket, owner },
            },
            _ => refuse(reply),
        },
        Session::CloseDeleting { ticket, owner } => match reply {
            Reply::Done => {
                match ledger.slot(owner) {
                    Some(Slot::Created(noted)) => {
                        if noted == ticket {
                            ledger.release(owner);
                        }
                    },
                    _ => {},
                }
                Step::Finished { outcome: Outcome::Closed }
            },
            _ => refuse(reply),
        },
        Session::RemovalAcknowledging { removal, target } => match reply {
            Reply::Done => Step::Perform {
                effect: Effect::RemoveMember { removal, guild_id: ws.guild_id, user_id: target },
                session: Session::Removing,
            },
            _ => refuse(reply),
        },
        Session::Removing => match reply {
            Reply::Done => follow_up_and_end(String::from_str(REMOVAL_DONE), Outcome::Removed),
            _ => refuse(reply),
        },
    }
}

/// Replays a handling that stands at `first` against a run of replies, as a
/// host would that has the replies at hand: each operation asked for is
/// answered with the next reply, until the handling ends or the replies run
/// out. The mirror holds `guild` for the workspace throughout.
pub fn replay(
    ws: &Workspace,
    guild: &Option<GuildEntry>,
    ledger: &mut Ledger,
    first: Step,
    replies: &Vec<Reply>,
) -> (transcript: Transcript)
    ensures
        effect_models(transcript.effects@) == course(
            *ws,
            guild_model(*guild),
            old(ledger)@,
            first@,
            replies@,
        ).effects,
        final(ledger)@ == course(*ws, guild_model(*guild), old(ledger)@, first@, replies@).ledger,
        transcript.end == course(*ws, guild_model(*guild), old(ledger)@, first@, replies@).end,
{
    let ghost whole = course(*ws, guild_model(*guild), ledger@, first@, replies@);
    let mut effects: Vec<Effect> = Vec::new();
    let mut step = first;
    let mut next: usize = 0;
    assert(replies@.subrange(0, replies@.len() as int) =~= replies@);
    loop
        invariant
            next <= replies.len(),
            whole == course(*ws, guild_model(*guild), old(ledger)@, first@, replies@),
            whole.effects == effect_models(effects@) + course(
                *ws,
                guild_model(*guild),
                ledger@,
                step@,
                replies@.subrange(next as int, replies@.len() as int),
            ).effects,
            whole.ledger == course(
                *ws,
                guild_model(*guild),
                ledger@,
                step@,
                replies@.subrange(next as int, replies@.len() as int),
            ).ledger,
            whole.end == course(
                *ws,
                guild_model(*guild),
                ledger@,
                step@,
                replies@.subrange(next as int, replies@.len() as int),
            ).end,
        decreases replies.len() - next,
    {
        let ghost rest = replies@.subrange(next as int, replies@.len() as int);
        match step {
            Step::Finished { outcome } => {
                return Transcript { effects, end: Some(outcome) };
            },
            Step::Perform { effect, session } => {
                effects.push(effect);
                if next == replies.len() {
                    return Transcript { effects, end: None };
                }
                assert(rest.drop_first() =~= replies@.subrange(next + 1, replies@.len() as int));
                step = resume_with(ws, guild, ledger, session, replies[next]);
                next = next + 1;
            },
        }
    }
}

/// Reads from the mirror what the routing of a message takes: for a
/// private message all the channels, in the mirror's order; for a message
/// written in a guild the channel that it was written in. What the mirror
/// holds is for the mirror to say; a channel entry that is handed back is
/// that of the channel of the message.
pub(crate) fn mirror_for(cache: &InMemoryCache, msg: &InboundMessage) -> (seen: (
    Vec<ChannelEntry>,
    Option<ChannelEntry>,
))
    ensures
        seen.1 matches Some(entry) ==> entry.id == msg.channel_id,
{
    match msg.guild_id {
        None => (cached_channels(cache), None),
        Some(_) => (Vec::new(), known_channel(cache, msg.channel_id)),
    }
}

/// Begins the handling of a message against the mirror as it stands at this
/// moment. The mirror is shared with the dispatcher, so the step is the one
/// that `message_route` gives for some content of the mirror, in which the
/// channel looked at is that of the message. Whatever the mirror holds, a
/// bot's message is ignored, only a private message of someone who is no bot
/// touches the ledger, and such a message is served: it waits, or a channel
/// is created for it, or it is sent into a channel. A message written in a
/// guild is dropped, or the conversation with the owner of its ticket is
/// opened.
pub fn accept_message(
    ws: &Workspace,
    cache: &InMemoryCache,
    ledger: &mut Ledger,
    msg: InboundMessage,
) -> (step: Step)
    ensures
        exists|channels: Seq<ChannelModel>, channel: Option<ChannelModel>|
            #![trigger message_route(*ws, channels, channel, old(ledger)@, msg@)]
            (channel matches Some(entry) ==> entry.id == msg.channel_id) && final(ledger)@
                == message_route(*ws, channels, channel, old(ledger)@, msg@).0 && step@
                == message_route(*ws, channels, channel, old(ledger)@, msg@).1,
        msg.author_is_bot ==> step@ == finished(Outcome::Ignored),
        msg.author_is_bot || msg.guild_id is Some ==> final(ledger)@ == old(ledger)@,
        !msg.author_is_bot && msg.guild_id is None ==> serves_private(
            *ws,
            old(ledger)@,
            msg@,
            step@,
        ),
        !msg.author_is_bot && msg.guild_id is Some ==> serves_guild(msg@, step@),
{
    let (channels, channel) = mirror_for(cache, &msg);
    proof {
        if !msg.author_is_bot {
            lemma_private_route_serves(*ws, channel_models(channels@), ledger@, msg@);
            lemma_guild_route_serves(*ws, entry_model(channel), msg@);
        }
    }
    route_message(ws, &channels, channel, ledger, msg)
}

/// Begins the handling of a command.
pub fn accept_command(ws: &Workspace, inv: Invocation) -> (step: Step)
    ensures
        step@ == command_route(*ws, inv@),
{
    route_command(ws, inv)
}

/// Goes on with a handling against the mirror as it stands at this moment.
/// Only a staff message on its way to a user reads the mirror, for the icon
/// of the guild: there the step is the one that `resume_step` gives for what
/// the mirror holds of the guild of the workspace, and of no other guild.
/// Whatever the mirror holds, a reply that does not answer ends the
/// handling, and a staff message whose conversation was opened is sent into
/// it under the name of staff, unless its first attachment has an address
/// that the platform does not take.
pub fn resume(
    ws: &Workspace,
    cache: &InMemoryCache,
    ledger: &mut Ledger,
    session: Session,
    reply: Reply,
) -> (step: Step)
    ensures
        final(ledger)@ == resume_ledger(old(ledger)@, session@, reply),
        session@ is Reaching ==> exists|guild: Option<GuildModel>|
            (guild matches Some(g) ==> g.id == ws.guild_id) && step@ == #[trigger] resume_step(
                *ws,
                guild,
                session@,
                reply,
            ),
        !(session@ is Reaching) ==> step@ == resume_step(*ws, None, session@, reply),
        !answers(session@, reply) ==> step@ == failed(refusal(reply)),
        session@ is Reaching && reply is Channel ==> is_staff_send(
            session@->Reaching_message,
            reply->Channel_0,
            step@,
        ),
{
    let guild = match &session {
        Session::Reaching { .. } => known_guild(cache, ws.guild_id),
        _ => None,
    };
    proof {
        if session@ is Reaching {
            lemma_staff_envelope_built(guild_model(guild), session@->Reaching_message);
        }
    }
    resume_with(ws, &guild, ledger, session, reply)
}

} // verus!
