//! What holds of whole handlings.
//!
//! A handling is a conversation of several steps, and the course of a
//! handling puts the steps together: it gives the operations that the
//! handling asks for, one after another, when the host answers them with a
//! given run of replies. The proof functions of this module state what the
//! courses of the bridge look like.

use crate::command::{
    command_of, command_route, holds_authority, target_of, Command, InvocationModel,
    CLOSE_CONFIRMED, CLOSE_REFUSED, REMOVAL_DONE, REMOVAL_REFUSED,
};
use crate::engine::{course, pong_text, resume_ledger, resume_step};
use crate::envelope::{
    avatar_address, closing_notice, first_attachment, image_acceptable,
    lemma_staff_envelope_built, lemma_user_envelope_built, staff_icon, AttributionModel,
    EnvelopeModel, MessageModel, STAFF_NAME,
};
use crate::flow::{
    failed, finished, EffectModel, Fault, Outcome, Removal, Reply, SessionModel, StepModel,
};
use crate::ident::{decimal_text, lemma_decimal_text_injective, lemma_identity_round_trip};
use crate::ledger::{slot_of, Slot};
use crate::mirror::{
    is_ticket_channel, is_ticket_of, last_ticket, lemma_last_ticket_push, ChannelModel,
    GuildModel,
};
use crate::relay::{guild_route, private_route, provision, ticket_owner};
use crate::workspace::Workspace;
use vstd::prelude::*;

verus! {

/// The envelope that carries `msg` under the given attribution.
pub open spec fn attributed(
    name: Seq<char>,
    icon_url: Option<Seq<char>>,
    msg: MessageModel,
) -> EnvelopeModel {
    EnvelopeModel {
        title: None,
        description: msg.content,
        color: None,
        attribution: Some(AttributionModel { name, icon_url }),
        image_url: first_attachment(msg.attachments),
        timestamp: Some(msg.timestamp),
    }
}

/// The channel that `provision` asks for, as the mirror will show it once it
/// was made under the identity `id`.
pub open spec fn provisioned(ws: Workspace, msg: MessageModel, id: u64) -> ChannelModel {
    ChannelModel {
        id,
        parent_id: Some(ws.category_id),
        topic: Some(decimal_text(msg.author_id as nat)),
    }
}

/// Whether a message can be put in an envelope: its first attachment, if
/// any, has an address that the platform takes. Who wrote the message, with
/// an avatar or without, makes no difference.
pub open spec fn presentable(msg: MessageModel) -> bool {
    image_acceptable(first_attachment(msg.attachments))
}

/// First contact. A user of whom neither the mirror nor the ledger knows a
/// ticket channel writes privately, with an avatar or without, and the
/// message is presentable. Then the handling asks for exactly two
/// operations: the creation of one channel in the guild of the workspace,
/// under the ticket category, named after the user and tagged with the
/// user's identity; and the sending of the message into the channel that
/// was made, with the text of the message under the user's name and, where
/// the user has one, avatar. The ledger notes the channel for the user, and
/// the mapper finds it as soon as the mirror shows it.
pub proof fn first_contact_opens_one_ticket(
    ws: Workspace,
    channels: Seq<ChannelModel>,
    guild: Option<GuildModel>,
    ledger: Map<u64, Slot>,
    msg: MessageModel,
    made: u64,
)
    requires
        !msg.author_is_bot,
        last_ticket(ws, channels, msg.author_id) is None,
        !ledger.contains_key(msg.author_id),
        presentable(msg),
    ensures
        ({
            let begun = private_route(ws, channels, ledger, msg);
            let done = course(
                ws,
                guild,
                begun.0,
                begun.1,
                seq![Reply::Channel(made), Reply::Done],
            );
            &&& done.effects == seq![
                EffectModel::CreateTicketChannel {
                    guild_id: ws.guild_id,
                    name: msg.author_name,
                    parent_id: ws.category_id,
                    topic: decimal_text(msg.author_id as nat),
                },
                EffectModel::SendEnvelope {
                    channel_id: made,
                    envelope: attributed(
                        msg.author_name,
                        avatar_address(msg.author_id, msg.author_avatar),
                        msg,
                    ),
                },
            ]
            &&& done.end == Some(Outcome::Relayed)
            &&& done.ledger == ledger.insert(msg.author_id, Slot::Created(made))
            &&& is_ticket_of(ws, provisioned(ws, msg, made), msg.author_id)
            &&& last_ticket(ws, channels.push(provisioned(ws, msg, made)), msg.author_id) == Some(
                made,
            )
        }),
{
    lemma_user_envelope_built(msg);
    lemma_last_ticket_push(ws, channels, provisioned(ws, msg, made), msg.author_id);
    reveal_with_fuel(course, 3);
}

/// First contact, creation refused. The first operation of a first contact
/// is the creation of the channel, whatever the message holds. Where the
/// creation fails the handling ends there: nothing is sent, nothing is tried
/// again, and the ledger is as it was before the message.
pub proof fn failed_creation_ends_first_contact(
    ws: Workspace,
    channels: Seq<ChannelModel>,
    guild: Option<GuildModel>,
    ledger: Map<u64, Slot>,
    msg: MessageModel,
    replies: Seq<Reply>,
)
    requires
        !msg.author_is_bot,
        last_ticket(ws, channels, msg.author_id) is None,
        !ledger.contains_key(msg.author_id),
        replies.len() > 0,
        replies[0] is Failed,
    ensures
        ({
            let begun = private_route(ws, channels, ledger, msg);
            let done = course(ws, guild, begun.0, begun.1, replies);
            &&& begun.1 is Perform
            &&& begun.1->effect == provision(ws, msg)
            &&& done.effects == seq![provision(ws, msg)]
            &&& done.end == Some(Outcome::Failed(Fault::Remote))
            &&& done.ledger == ledger
        }),
{
    reveal_with_fuel(course, 2);
}

/// Reuse. A user whose ticket channel the mirror shows writes privately.
/// Whatever the host replies, the handling never asks for the creation of a
/// channel; and where the message is presentable it asks for one operation,
/// the sending of the message into that channel.
pub proof fn known_ticket_is_reused(
    ws: Workspace,
    channels: Seq<ChannelModel>,
    guild: Option<GuildModel>,
    ledger: Map<u64, Slot>,
    msg: MessageModel,
    replies: Seq<Reply>,
)
    requires
        !msg.author_is_bot,
        last_ticket(ws, channels, msg.author_id) is Some,
    ensures
        ({
            let ticket = last_ticket(ws, channels, msg.author_id)->0;
            let begun = private_route(ws, channels, ledger, msg);
            let done = course(ws, guild, begun.0, begun.1, replies);
            &&& forall|i: int|
                0 <= i < done.effects.len() ==> !(#[trigger] done.effects[i]
                    is CreateTicketChannel)
            &&& presentable(msg) ==> done.effects == seq![
                EffectModel::SendEnvelope {
                    channel_id: ticket,
                    envelope: attributed(
                        msg.author_name,
                        avatar_address(msg.author_id, msg.author_avatar),
                        msg,
                    ),
                },
            ]
            &&& presentable(msg) && replies.len() > 0 && replies[0] is Done ==> done.end == Some(
                Outcome::Relayed,
            )
            &&& !presentable(msg) ==> done.effects.len() == 0 && done.end == Some(
                Outcome::Failed(Fault::ImageRejected),
            )
        }),
{
    lemma_user_envelope_built(msg);
    reveal_with_fuel(course, 2);
}

/// Reuse before the mirror has caught up. The ledger notes a channel as
/// created for a user, the mirror does not show it yet, and the user writes
/// privately. The handling never asks for the creation of a channel: a
/// presentable message goes into the noted channel, and once it is sent the
/// ledger is as it was.
pub proof fn noted_ticket_is_reused(
    ws: Workspace,
    channels: Seq<ChannelModel>,
    guild: Option<GuildModel>,
    ledger: Map<u64, Slot>,
    msg: MessageModel,
    noted: u64,
    replies: Seq<Reply>,
)
    requires
        !msg.author_is_bot,
        last_ticket(ws, channels, msg.author_id) is None,
        slot_of(ledger, msg.author_id) == Some(Slot::Created(noted)),
    ensures
        ({
            let begun = private_route(ws, channels, ledger, msg);
            let done = course(ws, guild, begun.0, begun.1, replies);
            &&& forall|i: int|
                0 <= i < done.effects.len() ==> !(#[trigger] done.effects[i]
                    is CreateTicketChannel)
            &&& presentable(msg) ==> done.effects == seq![
                EffectModel::SendEnvelope {
                    channel_id: noted,
                    envelope: attributed(
                        msg.author_name,
                        avatar_address(msg.author_id, msg.author_avatar),
                        msg,
                    ),
                },
            ]
            &&& presentable(msg) && replies.len() > 0 && replies[0] is Done ==> done.end == Some(
                Outcome::Relayed,
            ) && done.ledger == ledger
        }),
{
    lemma_user_envelope_built(msg);
    reveal_with_fuel(course, 2);
}

/// A stale note is dropped. The ledger notes a channel for a user, the
/// mirror does not show it, and the send into it does not succeed: the
/// channel may have been deleted behind the bridge's back. Then the note is
/// gone, and the next private message of that user, routed against a mirror
/// that still shows no ticket, asks for the creation of a new channel.
pub proof fn stale_note_is_dropped(
    ws: Workspace,
    channels: Seq<ChannelModel>,
    guild: Option<GuildModel>,
    ledger: Map<u64, Slot>,
    msg: MessageModel,
    next: MessageModel,
    noted: u64,
    reply: Reply,
)
    requires
        !msg.author_is_bot,
        !next.author_is_bot,
        next.author_id == msg.author_id,
        last_ticket(ws, channels, msg.author_id) is None,
        slot_of(ledger, msg.author_id) == Some(Slot::Created(noted)),
        presentable(msg),
        !(reply is Done),
    ensures
        ({
            let begun = private_route(ws, channels, ledger, msg);
            let done = course(ws, guild, begun.0, begun.1, seq![reply]);
            let again = private_route(ws, channels, done.ledger, next);
            &&& done.end is Some
            &&& done.end->0 is Failed
            &&& done.ledger == ledger.remove(msg.author_id)
            &&& again.1 == (StepModel::Perform {
                effect: provision(ws, next),
                session: SessionModel::Provisioning { message: next },
            })
        }),
{
    lemma_user_envelope_built(msg);
    reveal_with_fuel(course, 3);
}

/// Two first contacts at once. Two private messages of one user without a
/// ticket channel are routed against the same content of the mirror. The
/// first asks for the creation of a channel. The second asks for nothing:
/// it is postponed and leaves the ledger alone. Once the creation has
/// succeeded, the second message, handed in again against the same content
/// of the mirror, goes into the channel that was made. Once the creation has
/// failed, the ledger is as it was before the first message.
pub proof fn second_contact_waits(
    ws: Workspace,
    channels: Seq<ChannelModel>,
    ledger: Map<u64, Slot>,
    first: MessageModel,
    second: MessageModel,
    made: u64,
)
    requires
        !first.author_is_bot,
        !second.author_is_bot,
        first.author_id == second.author_id,
        last_ticket(ws, channels, first.author_id) is None,
        !ledger.contains_key(first.author_id),
    ensures
        ({
            let begun = private_route(ws, channels, ledger, first);
            let session = SessionModel::Provisioning { message: first };
            let waiting = private_route(ws, channels, begun.0, second);
            let settled = resume_ledger(begun.0, session, Reply::Channel(made));
            let released = resume_ledger(begun.0, session, Reply::Failed);
            let again = private_route(ws, channels, settled, second);
            &&& begun.1 == StepModel::Perform { effect: provision(ws, first), session }
            &&& waiting.1 == finished(Outcome::Postponed)
            &&& waiting.0 == begun.0
            &&& again.0 == settled
            &&& presentable(second) ==> again.1 == (StepModel::Perform {
                effect: EffectModel::SendEnvelope {
                    channel_id: made,
                    envelope: attributed(
                        second.author_name,
                        avatar_address(second.author_id, second.author_avatar),
                        second,
                    ),
                },
                session: SessionModel::DeliveringNoted { user: second.author_id, channel: made },
            })
            &&& !presentable(second) ==> again.1 == failed(Fault::ImageRejected)
            &&& released == ledger
        }),
{
    lemma_user_envelope_built(second);
}

/// One owner. A channel is the ticket of at most one user: two users of
/// whom it is the ticket are the same user.
pub proof fn ticket_has_one_owner(ws: Workspace, channel: ChannelModel, one: u64, other: u64)
    requires
        is_ticket_of(ws, channel, one),
        is_ticket_of(ws, channel, other),
    ensures
        one == other,
{
    lemma_decimal_text_injective(one as nat, other as nat);
}

/// The tag leads back. The topic that `provision` gives a channel reads as
/// the identity of the user it was made for, so that a message written in
/// that channel is on its way to that user.
pub proof fn ticket_topic_names_owner(ws: Workspace, msg: MessageModel, made: u64)
    requires
        msg.author_id != 0,
    ensures
        is_ticket_channel(ws, provisioned(ws, msg, made)),
        ticket_owner(provisioned(ws, msg, made)) == Ok::<u64, Fault>(msg.author_id),
{
    lemma_identity_round_trip(msg.author_id);
}

/// Staff reply. A message that is written in a ticket channel asks for
/// exactly two operations: the opening of the private conversation with the
/// owner of the ticket, and the sending of the message into it under the
/// name of staff and, where the mirror holds the guild with an icon, that
/// icon. A first attachment with an address that the platform does not take
/// ends the handling after the first operation.
pub proof fn staff_reply_reaches_owner(
    ws: Workspace,
    channel: ChannelModel,
    guild: Option<GuildModel>,
    ledger: Map<u64, Slot>,
    msg: MessageModel,
    owner: u64,
    conversation: u64,
)
    requires
        !msg.author_is_bot,
        is_ticket_channel(ws, channel),
        ticket_owner(channel) == Ok::<u64, Fault>(owner),
    ensures
        ({
            let begun = guild_route(ws, Some(channel), msg);
            let done = course(
                ws,
                guild,
                ledger,
                begun,
                seq![Reply::Channel(conversation), Reply::Done],
            );
            let open = EffectModel::OpenPrivateChannel { user_id: owner };
            &&& done.ledger == ledger
            &&& presentable(msg) ==> done.effects == seq![
                open,
                EffectModel::SendEnvelope {
                    channel_id: conversation,
                    envelope: attributed(STAFF_NAME@, staff_icon(guild), msg),
                },
            ] && done.end == Some(Outcome::Relayed)
            &&& !presentable(msg) ==> done.effects == seq![open] && done.end == Some(
                Outcome::Failed(Fault::ImageRejected),
            )
        }),
{
    lemma_staff_envelope_built(guild, msg);
    reveal_with_fuel(course, 3);
}

/// Outside the tickets. A message written in a channel that does not lie
/// under the ticket category, or that the mirror does not know, asks for no
/// operation at all.
pub proof fn message_outside_tickets_goes_nowhere(
    ws: Workspace,
    channel: Option<ChannelModel>,
    guild: Option<GuildModel>,
    ledger: Map<u64, Slot>,
    msg: MessageModel,
    replies: Seq<Reply>,
)
    requires
        channel matches Some(known) ==> !is_ticket_channel(ws, known),
    ensures
        guild_route(ws, channel, msg) == finished(Outcome::Ignored),
        course(ws, guild, ledger, guild_route(ws, channel, msg), replies).effects.len() == 0,
        course(ws, guild, ledger, guild_route(ws, channel, msg), replies).ledger == ledger,
{
}

/// Bots. A message written by a bot, private or not, asks for no operation
/// and leaves the ledger alone, whatever the mirror holds.
pub proof fn bot_messages_are_dropped(
    ws: Workspace,
    channels: Seq<ChannelModel>,
    channel: Option<ChannelModel>,
    guild: Option<GuildModel>,
    ledger: Map<u64, Slot>,
    msg: MessageModel,
    replies: Seq<Reply>,
)
    requires
        msg.author_is_bot,
    ensures
        private_route(ws, channels, ledger, msg) == (ledger, finished(Outcome::Ignored)),
        guild_route(ws, channel, msg) == finished(Outcome::Ignored),
        course(ws, guild, ledger, private_route(ws, channels, ledger, msg).1, replies).effects.len()
            == 0,
        course(ws, guild, ledger, guild_route(ws, channel, msg), replies).effects.len() == 0,
{
}

/// Closing outside a ticket. The command that closes a ticket, invoked in a
/// channel that is no ticket channel, asks for one operation, the refusal,
/// and never for a deletion.
pub proof fn close_outside_ticket_is_refused(
    ws: Workspace,
    guild: Option<GuildModel>,
    ledger: Map<u64, Slot>,
    inv: InvocationModel,
    replies: Seq<Reply>,
)
    requires
        command_of(inv.name) == Command::Close,
        inv.channel matches Some(channel) ==> !is_ticket_channel(ws, channel),
    ensures
        ({
            let done = course(ws, guild, ledger, command_route(ws, inv), replies);
            &&& done.effects == seq![EffectModel::Respond { content: CLOSE_REFUSED@ }]
            &&& done.ledger == ledger
            &&& replies.len() > 0 && replies[0] is Done ==> done.end == Some(Outcome::Rejected)
        }),
{
    reveal_with_fuel(course, 2);
}

/// Closing a ticket. The command that closes a ticket, invoked in a ticket
/// channel, asks for four operations in this order: the opening of the
/// private conversation with the owner, the sending of the closing notice
/// into it, the confirmation to the invoker, and the deletion of the ticket
/// channel. Afterwards the ledger no longer notes that channel.
pub proof fn close_in_ticket_runs_in_order(
    ws: Workspace,
    guild: Option<GuildModel>,
    ledger: Map<u64, Slot>,
    inv: InvocationModel,
    owner: u64,
    conversation: u64,
)
    requires
        command_of(inv.name) == Command::Close,
        inv.channel is Some,
        is_ticket_channel(ws, inv.channel->0),
        ticket_owner(inv.channel->0) == Ok::<u64, Fault>(owner),
    ensures
        ({
            let ticket = inv.channel->0.id;
            let done = course(
                ws,
                guild,
                ledger,
                command_route(ws, inv),
                seq![Reply::Channel(conversation), Reply::Done, Reply::Done, Reply::Done],
            );
            &&& done.effects == seq![
                EffectModel::OpenPrivateChannel { user_id: owner },
                EffectModel::SendEnvelope { channel_id: conversation, envelope: closing_notice() },
                EffectModel::Respond { content: CLOSE_CONFIRMED@ },
                EffectModel::DeleteChannel { channel_id: ticket },
            ]
            &&& done.end == Some(Outcome::Closed)
            &&& slot_of(done.ledger, owner) != Some(Slot::Created(ticket))
            &&& forall|user: u64| user != owner ==> slot_of(done.ledger, user) == slot_of(ledger, user)
        }),
{
    reveal_with_fuel(course, 5);
}

/// Removal without authority. A removal that is invoked without the
/// authority for it asks for one operation, the refusal, and never for the
/// removal of a member.
pub proof fn removal_without_authority_is_refused(
    ws: Workspace,
    guild: Option<GuildModel>,
    ledger: Map<u64, Slot>,
    inv: InvocationModel,
    removal: Removal,
    replies: Seq<Reply>,
)
    requires
        command_of(inv.name) == Command::Remove(removal),
        !holds_authority(inv.permissions, removal),
    ensures
        ({
            let done = course(ws, guild, ledger, command_route(ws, inv), replies);
            &&& done.effects == seq![EffectModel::Respond { content: REMOVAL_REFUSED@ }]
            &&& replies.len() > 0 && replies[0] is Done ==> done.end == Some(Outcome::Rejected)
        }),
{
    reveal_with_fuel(course, 2);
}

/// Removal with authority. A removal that is invoked with the authority for
/// it and aimed at a user asks for three operations in this order: the
/// acknowledgment, one removal of that user from the guild of the
/// workspace, and the follow-up that tells of the success.
pub proof fn removal_with_authority_removes_once(
    ws: Workspace,
    guild: Option<GuildModel>,
    ledger: Map<u64, Slot>,
    inv: InvocationModel,
    removal: Removal,
    target: u64,
)
    requires
        command_of(inv.name) == Command::Remove(removal),
        holds_authority(inv.permissions, removal),
        target_of(inv.arguments) == Some(target),
    ensures
        ({
            let done = course(
                ws,
                guild,
                ledger,
                command_route(ws, inv),
                seq![Reply::Done, Reply::Done, Reply::Done],
            );
            &&& done.effects == seq![
                EffectModel::Acknowledge,
                EffectModel::RemoveMember { removal, guild_id: ws.guild_id, user_id: target },
                EffectModel::FollowUp { content: REMOVAL_DONE@ },
            ]
            &&& done.end == Some(Outcome::Removed)
            &&& done.ledger == ledger
        }),
{
    reveal_with_fuel(course, 4);
}

/// Health check. The health check begins with the acknowledgment, whoever
/// invokes it and wherever. Once the latency is measured it asks for exactly
/// one follow-up, which holds the latency in decimal after the greeting.
pub proof fn ping_acknowledges_then_follows_up(
    ws: Workspace,
    guild: Option<GuildModel>,
    ledger: Map<u64, Slot>,
    inv: InvocationModel,
    latency: u128,
)
    requires
        command_of(inv.name) == Command::Ping,
    ensures
        ({
            let begun = command_route(ws, inv);
            let done = course(
                ws,
                guild,
                ledger,
                begun,
                seq![Reply::Done, Reply::Latency(latency), Reply::Done],
            );
            &&& begun is Perform
            &&& begun->effect == EffectModel::Acknowledge
            &&& done.effects == seq![
                EffectModel::Acknowledge,
                EffectModel::MeasureLatency,
                EffectModel::FollowUp { content: pong_text(latency) },
            ]
            &&& done.end == Some(Outcome::Answered)
            &&& done.ledger == ledger
        }),
{
    reveal_with_fuel(course, 4);
}

/// No second try. Whatever a handling waits for, the report of a failure
/// ends it: no operation follows, and none is undone.
pub proof fn failure_ends_the_handling(
    ws: Workspace,
    guild: Option<GuildModel>,
    ledger: Map<u64, Slot>,
    session: SessionModel,
    replies: Seq<Reply>,
)
    ensures
        resume_step(ws, guild, session, Reply::Failed) == failed(Fault::Remote),
        course(
            ws,
            guild,
            ledger,
            resume_step(ws, guild, session, Reply::Failed),
            replies,
        ).effects.len() == 0,
{
}

/// Whether a step asks for the creation of a ticket channel.
pub open spec fn asks_for_creation(step: StepModel) -> bool {
    step is Perform && step->effect is CreateTicketChannel
}

/// Every private sender is served. A presentable private message of anyone
/// who is no bot, with an avatar or without, is never given up at the start,
/// whatever the mirror and the ledger hold. It is sent into the author's
/// ticket channel as the mirror or the ledger knows it, or a channel is
/// created for it, or, while one is being created for the same author, it
/// waits. What is sent carries the text of the message under the author's
/// name.
pub proof fn every_private_sender_is_served(
    ws: Workspace,
    channels: Seq<ChannelModel>,
    ledger: Map<u64, Slot>,
    msg: MessageModel,
)
    requires
        !msg.author_is_bot,
        presentable(msg),
    ensures
        ({
            let step = private_route(ws, channels, ledger, msg).1;
            let envelope = attributed(
                msg.author_name,
                avatar_address(msg.author_id, msg.author_avatar),
                msg,
            );
            &&& step == finished(Outcome::Postponed) <==> last_ticket(ws, channels, msg.author_id)
                is None && slot_of(ledger, msg.author_id) == Some(Slot::Creating)
            &&& step != finished(Outcome::Postponed) ==> step is Perform && (step->effect
                == provision(ws, msg) || exists|channel: u64|
                step->effect == (EffectModel::SendEnvelope { channel_id: channel, envelope }))
            &&& envelope.description == msg.content
            &&& envelope.attribution == Some(
                AttributionModel {
                    name: msg.author_name,
                    icon_url: avatar_address(msg.author_id, msg.author_avatar),
                },
            )
        }),
{
    lemma_user_envelope_built(msg);
}

/// When a channel is created. A private message leads to the creation of a
/// channel exactly when its author is no bot and neither the mirror nor the
/// ledger knows anything about the author. The creation claims the author in
/// the ledger and stands for that very message.
pub proof fn creation_claims_a_free_user(
    ws: Workspace,
    channels: Seq<ChannelModel>,
    ledger: Map<u64, Slot>,
    msg: MessageModel,
)
    ensures
        ({
            let begun = private_route(ws, channels, ledger, msg);
            &&& asks_for_creation(begun.1) <==> !msg.author_is_bot && last_ticket(
                ws,
                channels,
                msg.author_id,
            ) is None && !ledger.contains_key(msg.author_id)
            &&& asks_for_creation(begun.1) ==> begun.0 == ledger.insert(
                msg.author_id,
                Slot::Creating,
            ) && begun.1 == (StepModel::Perform {
                effect: provision(ws, msg),
                session: SessionModel::Provisioning { message: msg },
            })
        }),
{
}

/// Nothing else creates. A message written in a guild, a command, and the
/// next step of any handling never ask for the creation of a channel.
pub proof fn only_private_messages_create(
    ws: Workspace,
    guild: Option<GuildModel>,
    channel: Option<ChannelModel>,
    msg: MessageModel,
    inv: InvocationModel,
    session: SessionModel,
    reply: Reply,
)
    ensures
        !asks_for_creation(guild_route(ws, channel, msg)),
        !asks_for_creation(command_route(ws, inv)),
        !asks_for_creation(resume_step(ws, guild, session, reply)),
{
}

/// A claim holds. While a user is claimed for a creation, no message and no
/// step of another handling takes the claim away: only the reply to the
/// creation that the claim stands for does.
pub proof fn claim_is_kept_until_answered(
    ws: Workspace,
    channels: Seq<ChannelModel>,
    ledger: Map<u64, Slot>,
    user: u64,
    msg: MessageModel,
    session: SessionModel,
    reply: Reply,
)
    requires
        slot_of(ledger, user) == Some(Slot::Creating),
    ensures
        slot_of(private_route(ws, channels, ledger, msg).0, user) == Some(Slot::Creating),
        !(session matches SessionModel::Provisioning { message } && message.author_id == user)
            ==> slot_of(resume_ledger(ledger, session, reply), user) == Some(Slot::Creating),
        msg.author_id == user ==> !asks_for_creation(private_route(ws, channels, ledger, msg).1),
{
}

/// How many operations a handling may still ask for.
pub open spec fn operations_left(step: StepModel) -> nat {
    match step {
        StepModel::Finished { .. } => 0,
        StepModel::Perform { session, .. } => match session {
            SessionModel::CloseReaching { .. } => 4,
            SessionModel::PingAcknowledging
            | SessionModel::CloseNotifying { .. }
            | SessionModel::RemovalAcknowledging { .. } => 3,
            SessionModel::Provisioning { .. }
            | SessionModel::Reaching { .. }
            | SessionModel::PingMeasuring
            | SessionModel::CloseConfirming { .. }
            | SessionModel::Removing => 2,
            SessionModel::Concluding { .. }
            | SessionModel::DeliveringNoted { .. }
            | SessionModel::CloseDeleting { .. } => 1,
        },
    }
}

/// Every step brings a handling nearer to its end.
pub proof fn each_reply_uses_an_operation(
    ws: Workspace,
    guild: Option<GuildModel>,
    effect: EffectModel,
    session: SessionModel,
    reply: Reply,
)
    ensures
        operations_left(resume_step(ws, guild, session, reply)) < operations_left(
            StepModel::Perform { effect, session },
        ),
{
}

/// Every handling ends. A handling asks for no more operations than
/// `operations_left` allows, which is four at most, and it has ended as soon
/// as that many replies are in.
pub proof fn handling_ends(
    ws: Workspace,
    guild: Option<GuildModel>,
    ledger: Map<u64, Slot>,
    step: StepModel,
    replies: Seq<Reply>,
)
    ensures
        operations_left(step) <= 4,
        course(ws, guild, ledger, step, replies).effects.len() <= operations_left(step),
        replies.len() >= operations_left(step) ==> course(ws, guild, ledger, step, replies).end
            is Some,
    decreases replies.len(),
{
    match step {
        StepModel::Finished { .. } => {},
        StepModel::Perform { effect, session } => {
            if replies.len() > 0 {
                each_reply_uses_an_operation(ws, guild, effect, session, replies[0]);
                handling_ends(
                    ws,
                    guild,
                    resume_ledger(ledger, session, replies[0]),
                    resume_step(ws, guild, session, replies[0]),
                    replies.drop_first(),
                );
            }
        },
    }
}

/// The routes begin what ends: a message or a command begins a handling of
/// at most four operations.
pub proof fn routes_begin_short_handlings(
    ws: Workspace,
    channels: Seq<ChannelModel>,
    channel: Option<ChannelModel>,
    ledger: Map<u64, Slot>,
    msg: MessageModel,
    inv: InvocationModel,
)
    ensures
        operations_left(private_route(ws, channels, ledger, msg).1) <= 2,
        operations_left(guild_route(ws, channel, msg)) <= 2,
        operations_left(command_route(ws, inv)) <= 4,
{
}

} // verus!
