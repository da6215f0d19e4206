//! The vocabulary between the bridge and its host.
//!
//! The handling of one event is a conversation: the bridge names a remote
//! operation as an [`Effect`] and keeps a [`Session`]; the host performs the
//! operation and comes back with the session and a [`Reply`]; and so on until
//! the bridge reports an [`Outcome`].

use crate::envelope::{Envelope, EnvelopeModel, InboundMessage, MessageModel};
use vstd::prelude::*;

verus! {

/// Why a handling was given up.
#[derive(Clone, Copy, Debug, PartialEq, Eq, Structural)]
pub enum Fault {
    /// A remote operation failed.
    Remote,
    /// The host answered with a reply of a kind that the pending operation
    /// never gives.
    Protocol,
    /// A ticket channel has no topic, so its owner is unknown.
    TopicMissing,
    /// The topic of a ticket channel is not the text of an identity.
    TopicUnreadable,
    /// The address of an image is one the platform does not take.
    ImageRejected,
}

/// How the handling of one event ended.
#[derive(Clone, Copy, Debug, PartialEq, Eq, Structural)]
pub enum Outcome {
    /// The event called for nothing.
    Ignored,
    /// A message was relayed.
    Relayed,
    /// A health check was answered with the latency.
    Answered,
    /// A command was refused, and the invoker was told so.
    Rejected,
    /// A ticket was closed.
    Closed,
    /// A member was removed from the guild.
    Removed,
    /// A ticket channel is already being created for the author: the host
    /// is to hand the message in again later.
    Postponed,
    /// The handling was given up.
    Failed(Fault),
}

/// What the host reports of the operation it performed.
#[derive(Clone, Copy, Debug, PartialEq, Eq, Structural)]
pub enum Reply {
    /// The operation succeeded and has nothing to tell.
    Done,
    /// The operation succeeded and made or found this channel.
    Channel(u64),
    /// The operation succeeded and measured this latency, in microseconds.
    Latency(u128),
    /// The operation failed.
    Failed,
}

/// The two ways of removing a member from the guild.
#[derive(Clone, Copy, Debug, PartialEq, Eq, Structural)]
pub enum Removal {
    /// The member may come back.
    Kick,
    /// The member may not.
    Ban,
}

/// A remote operation that the host is to perform.
#[derive(Clone, Debug, PartialEq, Eq)]
pub enum Effect {
    /// Create a channel in a guild, under a category, with a name and a topic.
    CreateTicketChannel { guild_id: u64, name: String, parent_id: u64, topic: String },
    /// Open the private conversation with a user, or find the one there is.
    OpenPrivateChannel { user_id: u64 },
    /// Send an envelope to a channel.
    SendEnvelope { channel_id: u64, envelope: Envelope },
    /// Answer the command with a deferred acknowledgment.
    Acknowledge,
    /// Answer the command with a message.
    Respond { content: String },
    /// Follow the acknowledgment up with a message.
    FollowUp { content: String },
    /// Measure the average latency of the event feed.
    MeasureLatency,
    /// Delete a channel.
    DeleteChannel { channel_id: u64 },
    /// Remove a member from a guild.
    RemoveMember { removal: Removal, guild_id: u64, user_id: u64 },
}

/// The mathematical value of an [`Effect`].
pub enum EffectModel {
    CreateTicketChannel { guild_id: u64, name: Seq<char>, parent_id: u64, topic: Seq<char> },
    OpenPrivateChannel { user_id: u64 },
    SendEnvelope { channel_id: u64, envelope: EnvelopeModel },
    Acknowledge,
    Respond { content: Seq<char> },
    FollowUp { content: Seq<char> },
    MeasureLatency,
    DeleteChannel { channel_id: u64 },
    RemoveMember { removal: Removal, guild_id: u64, user_id: u64 },
}

impl View for Effect {
    type V = EffectModel;

    open spec fn view(&self) -> EffectModel {
        match self {
            Effect::CreateTicketChannel { guild_id, name, parent_id, topic } => {
                EffectModel::CreateTicketChannel {
                    guild_id: *guild_id,
                    name: name@,
                    parent_id: *parent_id,
                    topic: topic@,
                }
            },
            Effect::OpenPrivateChannel { user_id } => EffectModel::OpenPrivateChannel {
                user_id: *user_id,
            },
            Effect::SendEnvelope { channel_id, envelope } => EffectModel::SendEnvelope {
                channel_id: *channel_id,
                envelope: envelope@,
            },
            Effect::Acknowledge => EffectModel::Acknowledge,
            Effect::Respond { content } => EffectModel::Respond { content: content@ },
            Effect::FollowUp { content } => EffectModel::FollowUp { content: content@ },
            Effect::MeasureLatency => EffectModel::MeasureLatency,
            Effect::DeleteChannel { channel_id } => EffectModel::DeleteChannel {
                channel_id: *channel_id,
            },
            Effect::RemoveMember { removal, guild_id, user_id } => EffectModel::RemoveMember {
                removal: *removal,
                guild_id: *guild_id,
                user_id: *user_id,
            },
        }
    }
}

/// What a handling remembers while the host performs an operation.
#[derive(Clone, Debug, PartialEq, Eq)]
pub enum Session {
    /// A ticket channel is being created for the author of the message.
    Provisioning { message: InboundMessage },
    /// The private conversation with the owner of a ticket is being opened
    /// to carry a staff message.
    Reaching { message: InboundMessage },
    /// The last operation is under way; once it is done the handling ends
    /// with the outcome.
    Concluding { outcome: Outcome },
    /// An envelope is on its way into a channel that the ledger notes for
    /// the user and that the mirror does not show; nothing follows.
    DeliveringNoted { user: u64, channel: u64 },
    /// The health check is being acknowledged.
    PingAcknowledging,
    /// The latency is being measured.
    PingMeasuring,
    /// The private conversation with the owner of a ticket is being opened
    /// to tell that the ticket is closed.
    CloseReaching { ticket: u64, owner: u64 },
    /// The closing notice is on its way to the owner.
    CloseNotifying { ticket: u64, owner: u64 },
    /// The invoker is being told that the ticket is closed.
    CloseConfirming { ticket: u64, owner: u64 },
    /// The ticket channel is being deleted.
    CloseDeleting { ticket: u64, owner: u64 },
    /// The removal command is being acknowledged.
    RemovalAcknowledging { removal: Removal, target: u64 },
    /// The member is being removed.
    Removing,
}

/// The mathematical value of a [`Session`].
pub enum SessionModel {
    Provisioning { message: MessageModel },
    Reaching { message: MessageModel },
    Concluding { outcome: Outcome },
    DeliveringNoted { user: u64, channel: u64 },
    PingAcknowledging,
    PingMeasuring,
    CloseReaching { ticket: u64, owner: u64 },
    CloseNotifying { ticket: u64, owner: u64 },
    CloseConfirming { ticket: u64, owner: u64 },
    CloseDeleting { ticket: u64, owner: u64 },
    RemovalAcknowledging { removal: Removal, target: u64 },
    Removing,
}

impl View for Session {
    type V = SessionModel;

    open spec fn view(&self) -> SessionModel {
        match self {
            Session::Provisioning { message } => SessionModel::Provisioning { message: message@ },
            Session::Reaching { message } => SessionModel::Reaching { message: message@ },
            Session::Concluding { outcome } => SessionModel::Concluding { outcome: *outcome },
            Session::DeliveringNoted { user, channel } => SessionModel::DeliveringNoted {
                user: *user,
                channel: *channel,
            },
            Session::PingAcknowledging => SessionModel::PingAcknowledging,
            Session::PingMeasuring => SessionModel::PingMeasuring,
            Session::CloseReaching { ticket, owner } => SessionModel::CloseReaching {
                ticket: *ticket,
                owner: *owner,
            },
            Session::CloseNotifying { ticket, owner } => SessionModel::CloseNotifying {
                ticket: *ticket,
                owner: *owner,
            },
            Session::CloseConfirming { ticket, owner } => SessionModel::CloseConfirming {
                ticket: *ticket,
                owner: *owner,
            },
            Session::CloseDeleting { ticket, owner } => SessionModel::CloseDeleting {
                ticket: *ticket,
                owner: *owner,
            },
            Session::RemovalAcknowledging { removal, target } => {
                SessionModel::RemovalAcknowledging { removal: *removal, target: *target }
            },
            Session::Removing => SessionModel::Removing,
        }
    }
}

/// What the bridge says when it is handed an event or a reply: the next
/// operation together with what to remember, or the end of the handling.
#[derive(Clone, Debug, PartialEq, Eq)]
pub enum Step {
    /// The host is to perform `effect` and come back with `session`.
    Perform { effect: Effect, session: Session },
    /// The handling is over.
    Finished { outcome: Outcome },
}

/// The mathematical value of a [`Step`].
pub enum StepModel {
    Perform { effect: EffectModel, session: SessionModel },
    Finished { outcome: Outcome },
}

impl View for Step {
    type V = StepModel;

    open spec fn view(&self) -> StepModel {
        match self {
            Step::Perform { effect, session } => StepModel::Perform {
                effect: effect@,
                session: session@,
            },
            Step::Finished { outcome } => StepModel::Finished { outcome: *outcome },
        }
    }
}

/// The step that ends a handling with a fault.
pub open spec fn failed(fault: Fault) -> StepModel {
    StepModel::Finished { outcome: Outcome::Failed(fault) }
}

/// The step that ends a handling with an outcome.
pub open spec fn finished(outcome: Outcome) -> StepModel {
    StepModel::Finished { outcome }
}

/// The step that asks for one last operation, after which the handling ends
/// with the outcome.
pub open spec fn conclude(effect: EffectModel, outcome: Outcome) -> StepModel {
    StepModel::Perform { effect, session: SessionModel::Concluding { outcome } }
}

} // verus!
