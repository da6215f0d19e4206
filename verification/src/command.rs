//! The command processor: how a staff command begins.
//!
//! Four commands are registered with the platform: a health check, the
//! closing of a ticket, and the two removals of a member.

use crate::flow::{
    conclude, failed, finished, Effect, EffectModel, Outcome, Removal, Session, SessionModel,
    Step, StepModel,
};
use crate::mirror::{is_ticket_channel, ChannelEntry, ChannelModel};
use crate::relay::{entry_model, ticket_owner};
use crate::workspace::Workspace;
use twilight_model::guild::Permissions;
use vstd::prelude::*;
use vstd::string::*;

verus! {

/// The name of the health check.
pub const PING: &'static str = "ping";

/// The name of the command that closes a ticket.
pub const CLOSE: &'static str = "close";

/// The name of the command that kicks a member.
pub const KICK: &'static str = "kick";

/// The name of the command that bans a member.
pub const BAN: &'static str = "ban";

/// What the invoker is told when a ticket is closed from outside a ticket
/// channel.
pub const CLOSE_REFUSED: &'static str = "このコマンドはチケットチャンネルでのみ使用できます。";

/// What the invoker is told when the ticket is closed.
pub const CLOSE_CONFIRMED: &'static str = "お問い合わせを閉じました。";

/// What the invoker is told when a removal is asked for without the
/// authority to remove.
pub const REMOVAL_REFUSED: &'static str = "このコマンドは運営のみ使用できます。";

/// What the invoker is told when the member is removed.
pub const REMOVAL_DONE: &'static str = "<:ok_handbutflipped:779364331350523909>";

/// What the answer to a health check starts with; the latency follows.
pub const PONG: &'static str = "Pong!\n";

/// The permission to kick members, as the platform numbers it.
pub const KICK_MEMBERS: u64 = 0x2;

/// The permission to ban members, as the platform numbers it.
pub const BAN_MEMBERS: u64 = 0x4;

/// Every permission that the platform model knows: bits 0 to 42, 45 and 46.
pub const KNOWN_PERMISSIONS: u64 = 0x67ff_ffff_ffff;

/// The value of one option of a command as it is invoked.
#[derive(Clone, Copy, Debug, PartialEq, Eq, Structural)]
pub enum Argument {
    /// A user.
    User(u64),
    /// Anything else.
    Other,
}

/// A command as it is invoked.
#[derive(Clone, Debug, PartialEq, Eq)]
pub struct Invocation {
    /// The name of the command.
    pub name: String,
    /// The permission set of the invoking member; none where the command
    /// was not invoked by a member of a guild.
    pub permissions: Option<u64>,
    /// The values of the options, in the order given.
    pub arguments: Vec<Argument>,
    /// The channel that the command was invoked in, if the platform says.
    pub channel: Option<ChannelEntry>,
}

/// The mathematical value of an [`Invocation`].
pub struct InvocationModel {
    pub name: Seq<char>,
    pub permissions: Option<u64>,
    pub arguments: Seq<Argument>,
    pub channel: Option<ChannelModel>,
}

impl View for Invocation {
    type V = InvocationModel;

    open spec fn view(&self) -> InvocationModel {
        InvocationModel {
            name: self.name@,
            permissions: self.permissions,
            arguments: self.arguments@,
            channel: entry_model(self.channel),
        }
    }
}

/// The user that a command is aimed at: the value of its first option, where
/// that is a user.
pub open spec fn target_of(arguments: Seq<Argument>) -> Option<u64> {
    if arguments.len() > 0 && arguments[0] is User {
        Some(arguments[0]->User_0)
    } else {
        None
    }
}

/// The commands that the processor knows.
#[derive(Clone, Copy, Debug, PartialEq, Eq, Structural)]
pub enum Command {
    Ping,
    Close,
    Remove(Removal),
    Unknown,
}

/// The command that a name stands for.
pub open spec fn command_of(name: Seq<char>) -> Command {
    if name == PING@ {
        Command::Ping
    } else if name == CLOSE@ {
        Command::Close
    } else if name == KICK@ {
        Command::Remove(Removal::Kick)
    } else if name == BAN@ {
        Command::Remove(Removal::Ban)
    } else {
        Command::Unknown
    }
}

/// The permission that a removal takes.
pub open spec fn authority_bit(removal: Removal) -> u64 {
    match removal {
        Removal::Kick => KICK_MEMBERS,
        Removal::Ban => BAN_MEMBERS,
    }
}

/// Whether a permission set carries the authority for a removal. Where there
/// is no permission set there is no authority.
pub open spec fn holds_authority(permissions: Option<u64>, removal: Removal) -> bool {
    match permissions {
        Some(held) => held & authority_bit(removal) == authority_bit(removal),
        None => false,
    }
}

/// How a command begins.
///
/// The health check is acknowledged at once. Closing is refused with a
/// message outside a ticket channel; inside one, the private conversation
/// with the owner is opened. A removal is refused with a message where the
/// invoker lacks the authority; with the authority and a target it is
/// acknowledged, and without a target nothing is done. An unknown command is
/// ignored. Whether the invoker has the authority is asked before whom the
/// removal is aimed at.
pub open spec fn command_route(ws: Workspace, inv: InvocationModel) -> StepModel {
    match command_of(inv.name) {
        Command::Ping => StepModel::Perform {
            effect: EffectModel::Acknowledge,
            session: SessionModel::PingAcknowledging,
        },
        Command::Close => if inv.channel is Some && is_ticket_channel(ws, inv.channel->0) {
            match ticket_owner(inv.channel->0) {
                Err(fault) => failed(fault),
                Ok(owner) => StepModel::Perform {
                    effect: EffectModel::OpenPrivateChannel { user_id: owner },
                    session: SessionModel::CloseReaching { ticket: inv.channel->0.id, owner },
                },
            }
        } else {
            conclude(EffectModel::Respond { content: CLOSE_REFUSED@ }, Outcome::Rejected)
        },
        Command::Remove(removal) => if !holds_authority(inv.permissions, removal) {
            conclude(EffectModel::Respond { content: REMOVAL_REFUSED@ }, Outcome::Rejected)
        } else {
            match target_of(inv.arguments) {
                Some(target) => StepModel::Perform {
                    effect: EffectModel::Acknowledge,
                    session: SessionModel::RemovalAcknowledging { removal, target },
                },
                None => finished(Outcome::Ignored),
            }
        },
        Command::Unknown => finished(Outcome::Ignored),
    }
}

/// Rebuilds two permission sets with `Permissions::from_bits_truncate` of
/// twilight_model and asks `Permissions::contains` whether the first holds
/// every permission of the second. The rebuilding keeps the bits that the
/// model knows and drops the others; `contains` compares what is left bit by
/// bit. The contract claims exactly that.
#[verifier::external_body]
fn permissions_contain(held: u64, wanted: u64) -> (contained: bool)
    ensures
        contained == ((held & KNOWN_PERMISSIONS) & (wanted & KNOWN_PERMISSIONS) == (wanted
            & KNOWN_PERMISSIONS)),
{
    Permissions::from_bits_truncate(held).contains(Permissions::from_bits_truncate(wanted))
}

/// Whether a text is exactly the given word.
fn is_word(text: &String, word: &str) -> (same: bool)
    ensures
        same == (text@ == word@),
{
    let word = String::from_str(word);
    *text == word
}

impl Removal {
    /// The permission that this removal takes.
    pub fn authority(&self) -> (bit: u64)
        ensures
            bit == authority_bit(*self),
    {
        match self {
            Removal::Kick => KICK_MEMBERS,
            Removal::Ban => BAN_MEMBERS,
        }
    }
}

impl Invocation {
    /// The user that the command is aimed at, if it is aimed at one.
    pub fn target(&self) -> (target: Option<u64>)
        ensures
            target == target_of(self@.arguments),
    {
        if self.arguments.len() > 0 {
            match self.arguments[0] {
                Argument::User(user) => Some(user),
                Argument::Other => None,
            }
        } else {
            None
        }
    }
}

impl Command {
    /// The command that a name stands for.
    pub fn named(name: &String) -> (command: Command)
        ensures
            command == command_of(name@),
    {
        if is_word(name, PING) {
            Command::Ping
        } else if is_word(name, CLOSE) {
            Command::Close
        } else if is_word(name, KICK) {
            Command::Remove(Removal::Kick)
        } else if is_word(name, BAN) {
            Command::Remove(Removal::Ban)
        } else {
            Command::Unknown
        }
    }
}

/// Whether a permission set carries the authority for a removal.
pub fn is_authorized(permissions: Option<u64>, removal: Removal) -> (authorized: bool)
    ensures
        authorized == holds_authority(permissions, removal),
{
    match permissions {
        Some(held) => {
            let wanted = removal.authority();
            assert((held & 0x67ff_ffff_ffffu64) & (0x2u64 & 0x67ff_ffff_ffffu64) == (0x2u64
                & 0x67ff_ffff_ffffu64) <==> held & 0x2u64 == 0x2u64) by (bit_vector);
            assert((held & 0x67ff_ffff_ffffu64) & (0x4u64 & 0x67ff_ffff_ffffu64) == (0x4u64
                & 0x67ff_ffff_ffffu64) <==> held & 0x4u64 == 0x4u64) by (bit_vector);
            permissions_contain(held, wanted)
        },
        None => false,
    }
}

/// The step that answers the invoker with a message and then ends the
/// handling with the outcome.
fn respond_and_end(content: &str, outcome: Outcome) -> (step: Step)
    ensures
        step@ == conclude(EffectModel::Respond { content: content@ }, outcome),
{
    Step::Perform {
        effect: Effect::Respond { content: String::from_str(content) },
        session: Session::Concluding { outcome },
    }
}

/// Begins the handling of a command.
pub fn route_command(ws: &Workspace, inv: Invocation) -> (step: Step)
    ensures
        step@ == command_route(*ws, inv@),
{
    match Command::named(&inv.name) {
        Command::Ping => Step::Perform {
            effect: Effect::Acknowledge,
            session: Session::PingAcknowledging,
        },
        Command::Close => {
            match inv.channel {
                Some(channel) => {
                    if channel.is_ticket_channel(ws) {
                        match channel.owner() {
                            Err(fault) => Step::Finished { outcome: Outcome::Failed(fault) },
                            Ok(owner) => Step::Perform {
                                effect: Effect::OpenPrivateChannel { user_id: owner },
                                session: Session::CloseReaching { ticket: channel.id, owner },
                            },
                        }
                    } else {
                        respond_and_end(CLOSE_REFUSED, Outcome::Rejected)
                    }
                },
                None => respond_and_end(CLOSE_REFUSED, Outcome::Rejected),
            }
        },
        Command::Remove(removal) => {
            if !is_authorized(inv.permissions, removal) {
                respond_and_end(REMOVAL_REFUSED, Outcome::Rejected)
            } else {
                match inv.target() {
                    Some(target) => Step::Perform {
                        effect: Effect::Acknowledge,
                        session: Session::RemovalAcknowledging { removal, target },
                    },
                    None => Step::Finished { outcome: Outcome::Ignored },
                }
            }
        },
        Command::Unknown => Step::Finished { outcome: Outcome::Ignored },
    }
}

/// The option of a command that names a user.
#[derive(Clone, Debug, PartialEq, Eq)]
pub struct UserOption {
    pub name: String,
    pub description: String,
    pub required: bool,
}

/// A command as it is registered with the platform.
#[derive(Clone, Debug, PartialEq, Eq)]
pub struct CommandSpec {
    pub name: String,
    pub description: String,
    pub user_option: Option<UserOption>,
}

/// The mathematical value of a [`CommandSpec`]: name, description, and name,
/// description and obligation of the user option if there is one.
pub struct CommandSpecModel {
    pub name: Seq<char>,
    pub description: Seq<char>,
    pub user_option: Option<(Seq<char>, Seq<char>, bool)>,
}

impl View for CommandSpec {
    type V = CommandSpecModel;

    open spec fn view(&self) -> CommandSpecModel {
        CommandSpecModel {
            name: self.name@,
            description: self.description@,
            user_option: match self.user_option {
                Some(option) => Some((option.name@, option.description@, option.required)),
                None => None,
            },
        }
    }
}

/// A command without options.
pub open spec fn plain_command(name: Seq<char>, description: Seq<char>) -> CommandSpecModel {
    CommandSpecModel { name, description, user_option: None }
}

/// A command with one required option that names a user.
pub open spec fn user_command(
    name: Seq<char>,
    description: Seq<char>,
    option_description: Seq<char>,
) -> CommandSpecModel {
    CommandSpecModel {
        name,
        description,
        user_option: Some(("user"@, option_description, true)),
    }
}

/// The command surface: the four commands in the order in which they are
/// registered.
pub open spec fn command_surface() -> Seq<CommandSpecModel> {
    seq![
        plain_command(PING@, "bot ping"@),
        plain_command(CLOSE@, "close some ticket"@),
        user_command(KICK@, "Kick some user"@, "user to kick"@),
        user_command(BAN@, "Ban some user"@, "user to ban user"@),
    ]
}

fn plain(name: &str, description: &str) -> (spec: CommandSpec)
    ensures
        spec@ == plain_command(name@, description@),
{
    CommandSpec {
        name: String::from_str(name),
        description: String::from_str(description),
        user_option: None,
    }
}

fn with_user(name: &str, description: &str, option_description: &str) -> (spec: CommandSpec)
    ensures
        spec@ == user_command(name@, description@, option_description@),
{
    CommandSpec {
        name: String::from_str(name),
        description: String::from_str(description),
        user_option: Some(
            UserOption {
                name: String::from_str("user"),
                description: String::from_str(option_description),
                required: true,
            },
        ),
    }
}

/// The commands to register with the platform, in order.
pub fn registered_commands() -> (commands: Vec<CommandSpec>)
    ensures
        commands@.len() == command_surface().len(),
        forall|i: int| 0 <= i < commands@.len() ==> (#[trigger] commands@[i])@ == command_surface()[i],
{
    let mut commands: Vec<CommandSpec> = Vec::new();
    commands.push(plain(PING, "bot ping"));
    commands.push(plain(CLOSE, "close some ticket"));
    commands.push(with_user(KICK, "Kick some user", "user to kick"));
    commands.push(with_user(BAN, "Ban some user", "user to ban user"));
    commands
}

/// The four names are four different commands.
pub proof fn lemma_command_names()
    ensures
        command_of(PING@) == Command::Ping,
        command_of(CLOSE@) == Command::Close,
        command_of(KICK@) == Command::Remove(Removal::Kick),
        command_of(BAN@) == Command::Remove(Removal::Ban),
{
    reveal_strlit("ping");
    reveal_strlit("close");
    reveal_strlit("kick");
    reveal_strlit("ban");
    assert(KICK@[0] != PING@[0]);
    assert(BAN@.len() != KICK@.len());
}

} // verus!
