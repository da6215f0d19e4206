//! The relay engine: where a message goes when it arrives.
//!
//! A private message goes to the ticket channel of its author, which is
//! created first if there is none. A message in a ticket channel goes to the
//! owner of the ticket. Messages written by bots go nowhere.

use crate::envelope::{user_envelope, Envelope, EnvelopeModel, InboundMessage, MessageModel};
use crate::flow::{
    conclude, failed, finished, Effect, EffectModel, Fault, Outcome, Session, SessionModel, Step,
    StepModel,
};
use crate::ident::{decimal_text, identity_of_text, identity_text, parse_identity};
use crate::ledger::{slot_of, Ledger, Slot};
use crate::mirror::{
    channel_models, find_ticket_channel, is_ticket_channel, last_ticket, ChannelEntry,
    ChannelModel,
};
use crate::workspace::Workspace;
use vstd::prelude::*;

verus! {

/// The step that sends an envelope to a channel and then ends the handling,
/// or that gives up where no envelope could be built.
pub open spec fn deliver(channel: u64, envelope: Result<EnvelopeModel, Fault>) -> StepModel {
    match envelope {
        Ok(envelope) => conclude(
            EffectModel::SendEnvelope { channel_id: channel, envelope },
            Outcome::Relayed,
        ),
        Err(fault) => failed(fault),
    }
}

/// The step that sends an envelope into a channel that the ledger notes for
/// `user` and that the mirror does not show. The handling remembers where
/// the channel came from, so that a send that fails can take the note back.
pub open spec fn deliver_noted(
    user: u64,
    channel: u64,
    envelope: Result<EnvelopeModel, Fault>,
) -> StepModel {
    match envelope {
        Ok(envelope) => StepModel::Perform {
            effect: EffectModel::SendEnvelope { channel_id: channel, envelope },
            session: SessionModel::DeliveringNoted { user, channel },
        },
        Err(fault) => failed(fault),
    }
}

/// The operation that creates the ticket channel of a message's author: in
/// the guild of the workspace, under its ticket category, named after the
/// author, with the author's identity as topic.
pub open spec fn provision(ws: Workspace, msg: MessageModel) -> EffectModel {
    EffectModel::CreateTicketChannel {
        guild_id: ws.guild_id,
        name: msg.author_name,
        parent_id: ws.category_id,
        topic: decimal_text(msg.author_id as nat),
    }
}

/// Where a private message goes, and what becomes of the ledger.
///
/// A bot's message is ignored. Otherwise the message goes to the author's
/// ticket channel: the one that the mirror shows, else the one that the
/// ledger notes as created. Where the mirror shows one, a ledger note of a
/// created channel has done its work and is dropped. Where neither knows a
/// channel, the author is claimed in the ledger and a channel is created,
/// unless the author is claimed already: then the message is postponed.
/// Whether the author has an avatar makes no difference to where the message
/// goes.
pub open spec fn private_route(
    ws: Workspace,
    channels: Seq<ChannelModel>,
    ledger: Map<u64, Slot>,
    msg: MessageModel,
) -> (Map<u64, Slot>, StepModel) {
    let author = msg.author_id;
    if msg.author_is_bot {
        (ledger, finished(Outcome::Ignored))
    } else {
        match last_ticket(ws, channels, author) {
            Some(channel) => (
                match slot_of(ledger, author) {
                    Some(Slot::Created(_)) => ledger.remove(author),
                    _ => ledger,
                },
                deliver(channel, user_envelope(msg)),
            ),
            None => match slot_of(ledger, author) {
                Some(Slot::Created(channel)) => (
                    ledger,
                    deliver_noted(author, channel, user_envelope(msg)),
                ),
                Some(Slot::Creating) => (ledger, finished(Outcome::Postponed)),
                None => (
                    ledger.insert(author, Slot::Creating),
                    StepModel::Perform {
                        effect: provision(ws, msg),
                        session: SessionModel::Provisioning { message: msg },
                    },
                ),
            },
        }
    }
}

/// Whether a step is one of the ways in which a private message of someone
/// who is no bot is served, whatever the mirror holds: the message waits
/// while a channel is being created for its author; or a channel is created
/// for it, where the ledger knows nothing of the author; or it is sent into
/// a channel, with the text of the message under the author's name. The
/// last gives up only where the message cannot be put in an envelope.
pub open spec fn serves_private(
    ws: Workspace,
    ledger: Map<u64, Slot>,
    msg: MessageModel,
    step: StepModel,
) -> bool {
    ||| step == finished(Outcome::Postponed) && slot_of(ledger, msg.author_id) == Some(
        Slot::Creating,
    )
    ||| step == (StepModel::Perform {
        effect: provision(ws, msg),
        session: SessionModel::Provisioning { message: msg },
    }) && !ledger.contains_key(msg.author_id)
    ||| exists|channel: u64| #[trigger] sends_into(msg, channel, step)
}

/// Whether a step sends a private message into `channel`, or gives up
/// because the message cannot be put in an envelope.
pub open spec fn sends_into(msg: MessageModel, channel: u64, step: StepModel) -> bool {
    step == deliver(channel, user_envelope(msg)) || step == deliver_noted(
        msg.author_id,
        channel,
        user_envelope(msg),
    )
}

/// A private message of someone who is no bot is served, whatever the
/// mirror holds.
pub proof fn lemma_private_route_serves(
    ws: Workspace,
    channels: Seq<ChannelModel>,
    ledger: Map<u64, Slot>,
    msg: MessageModel,
)
    requires
        !msg.author_is_bot,
    ensures
        serves_private(ws, ledger, msg, private_route(ws, channels, ledger, msg).1),
{
    let step = private_route(ws, channels, ledger, msg).1;
    match last_ticket(ws, channels, msg.author_id) {
        Some(channel) => {
            assert(sends_into(msg, channel, step));
        },
        None => match slot_of(ledger, msg.author_id) {
            Some(Slot::Created(channel)) => {
                assert(sends_into(msg, channel, step));
            },
            _ => {},
        },
    }
}

/// The owner of a ticket channel, read from its topic.
pub open spec fn ticket_owner(channel: ChannelModel) -> Result<u64, Fault> {
    match channel.topic {
        None => Err(Fault::TopicMissing),
        Some(topic) => match identity_of_text(topic) {
            Some(owner) => Ok(owner),
            None => Err(Fault::TopicUnreadable),
        },
    }
}

/// Where a message goes that was written in a guild, given what the mirror
/// holds of the channel it was written in.
///
/// A bot's message is ignored, and so is a message in a channel that the
/// mirror does not know or that does not lie under the ticket category. A
/// message in a ticket channel goes to the owner of the ticket, whose private
/// conversation is opened first.
pub open spec fn guild_route(ws: Workspace, channel: Option<ChannelModel>, msg: MessageModel) -> StepModel {
    if msg.author_is_bot {
        finished(Outcome::Ignored)
    } else {
        match channel {
            None => finished(Outcome::Ignored),
            Some(channel) => if !is_ticket_channel(ws, channel) {
                finished(Outcome::Ignored)
            } else {
                match ticket_owner(channel) {
                    Err(fault) => failed(fault),
                    Ok(owner) => StepModel::Perform {
                        effect: EffectModel::OpenPrivateChannel { user_id: owner },
                        session: SessionModel::Reaching { message: msg },
                    },
                }
            },
        }
    }
}

/// Whether a step opens the private conversation with `owner` to carry a
/// staff message.
pub open spec fn reaches(msg: MessageModel, owner: u64, step: StepModel) -> bool {
    owner != 0 && step == (StepModel::Perform {
        effect: EffectModel::OpenPrivateChannel { user_id: owner },
        session: SessionModel::Reaching { message: msg },
    })
}

/// Whether a step is one of the ways in which a message written in a guild
/// by someone who is no bot is dealt with, whatever the mirror holds: it is
/// dropped without a word, as no message of a ticket channel; or the
/// private conversation with the owner of the ticket is opened for it; or,
/// where the topic of the ticket channel names no owner, it is given up.
/// Nothing is sent into a channel of a guild, and no channel is created.
pub open spec fn serves_guild(msg: MessageModel, step: StepModel) -> bool {
    ||| step == finished(Outcome::Ignored)
    ||| step == failed(Fault::TopicMissing)
    ||| step == failed(Fault::TopicUnreadable)
    ||| exists|owner: u64| #[trigger] reaches(msg, owner, step)
}

/// A message written in a guild by someone who is no bot is dealt with in
/// one of the ways of `serves_guild`, whatever the mirror holds.
pub proof fn lemma_guild_route_serves(ws: Workspace, channel: Option<ChannelModel>, msg: MessageModel)
    requires
        !msg.author_is_bot,
    ensures
        serves_guild(msg, guild_route(ws, channel, msg)),
{
    let step = guild_route(ws, channel, msg);
    if channel is Some && is_ticket_channel(ws, channel->0) && ticket_owner(channel->0) is Ok {
        assert(reaches(msg, ticket_owner(channel->0)->Ok_0, step));
    }
}

/// The value of a channel entry that may be absent.
pub open spec fn entry_model(channel: Option<ChannelEntry>) -> Option<ChannelModel> {
    match channel {
        Some(channel) => Some(channel@),
        None => None,
    }
}

impl ChannelEntry {
    /// Reads the owner of this ticket channel from its topic. Fails exactly
    /// when there is no topic, or when the topic is not the text of an
    /// identity.
    pub fn owner(&self) -> (owner: Result<u64, Fault>)
        ensures
            owner == ticket_owner(self@),
    {
        match &self.topic {
            None => Err(Fault::TopicMissing),
            Some(topic) => match parse_identity(topic.as_str()) {
                Some(owner) => Ok(owner),
                None => Err(Fault::TopicUnreadable),
            },
        }
    }
}

/// Sends the envelope to the channel as the last operation of a relay, or
/// gives up with the fault that kept the envelope from being built.
pub fn deliver_to(channel: u64, envelope: Result<Envelope, Fault>) -> (step: Step)
    ensures
        step@ == deliver(
            channel,
            match envelope {
                Ok(e) => Ok(e@),
                Err(f) => Err(f),
            },
        ),
{
    match envelope {
        Ok(envelope) => Step::Perform {
            effect: Effect::SendEnvelope { channel_id: channel, envelope },
            session: Session::Concluding { outcome: Outcome::Relayed },
        },
        Err(fault) => Step::Finished { outcome: Outcome::Failed(fault) },
    }
}

/// The channel provisioner: names the operation that creates the ticket
/// channel of a message's author. It does not look whether the author has a
/// ticket channel already: that is for the caller to find out first.
pub fn provision_ticket_channel(ws: &Workspace, msg: &InboundMessage) -> (effect: Effect)
    ensures
        effect@ == provision(*ws, msg@),
{
    Effect::CreateTicketChannel {
        guild_id: ws.guild_id,
        name: msg.author_name.clone(),
        parent_id: ws.category_id,
        topic: identity_text(msg.author_id),
    }
}

/// Routes a private message, given the channels that the mirror holds, in
/// the mirror's order.
pub fn route_private(
    ws: &Workspace,
    channels: &Vec<ChannelEntry>,
    ledger: &mut Ledger,
    msg: InboundMessage,
) -> (step: Step)
    ensures
        final(ledger)@ == private_route(*ws, channel_models(channels@), old(ledger)@, msg@).0,
        step@ == private_route(*ws, channel_models(channels@), old(ledger)@, msg@).1,
{
    if msg.author_is_bot {
        return Step::Finished { outcome: Outcome::Ignored };
    }
    let author = msg.author_id;
    let noted = ledger.slot(author);
    match find_ticket_channel(ws, channels, author) {
        Some(channel) => {
            match noted {
                Some(Slot::Created(_)) => {
                    ledger.release(author);
                },
                _ => {},
            }
            deliver_to(channel, Envelope::from_user(&msg))
        },
        None => match noted {
            Some(Slot::Created(channel)) => match Envelope::from_user(&msg) {
                Ok(envelope) => Step::Perform {
                    effect: Effect::SendEnvelope { channel_id: channel, envelope },
                    session: Session::DeliveringNoted { user: author, channel },
                },
                Err(fault) => Step::Finished { outcome: Outcome::Failed(fault) },
            },
            Some(Slot::Creating) => Step::Finished { outcome: Outcome::Postponed },
            None => {
                let granted = ledger.claim(author);
                let effect = provision_ticket_channel(ws, &msg);
                Step::Perform { effect, session: Session::Provisioning { message: msg } }
            },
        },
    }
}

/// Routes a message that was written in a guild, given what the mirror holds
/// of the channel it was written in.
pub fn route_guild(ws: &Workspace, channel: Option<ChannelEntry>, msg: InboundMessage) -> (step:
    Step)
    ensures
        step@ == guild_route(*ws, entry_model(channel), msg@),
{
    if msg.author_is_bot {
        return Step::Finished { outcome: Outcome::Ignored };
    }
    match channel {
        None => Step::Finished { outcome: Outcome::Ignored },
        Some(channel) => {
            if !channel.is_ticket_channel(ws) {
                return Step::Finished { outcome: Outcome::Ignored };
            }
            match channel.owner() {
                Err(fault) => Step::Finished { outcome: Outcome::Failed(fault) },
                Ok(owner) => Step::Perform {
                    effect: Effect::OpenPrivateChannel { user_id: owner },
                    session: Session::Reaching { message: msg },
                },
            }
        },
    }
}

} // verus!
