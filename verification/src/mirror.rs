//! What the bridge reads from the local mirror of platform state, and the
//! identity mapper that finds a user's ticket channel in it.

use crate::ident::{decimal_text, identity_text};
use crate::workspace::Workspace;
use twilight_cache_inmemory::InMemoryCache;
use twilight_model::id::Id;
use vstd::prelude::*;

verus! {

/// A channel as the mirror knows it: its identity, the category it lies
/// under, and its topic.
#[derive(Clone, Debug, PartialEq, Eq)]
pub struct ChannelEntry {
    pub id: u64,
    pub parent_id: Option<u64>,
    pub topic: Option<String>,
}

/// The mathematical value of a [`ChannelEntry`].
pub struct ChannelModel {
    pub id: u64,
    pub parent_id: Option<u64>,
    pub topic: Option<Seq<char>>,
}

impl View for ChannelEntry {
    type V = ChannelModel;

    open spec fn view(&self) -> ChannelModel {
        ChannelModel { id: self.id, parent_id: self.parent_id, topic: self.topic.deep_view() }
    }
}

/// A guild as the mirror knows it: its identity and the hash of its icon.
#[derive(Clone, Debug, PartialEq, Eq)]
pub struct GuildEntry {
    pub id: u64,
    pub icon: Option<String>,
}

/// The mathematical value of a [`GuildEntry`].
pub struct GuildModel {
    pub id: u64,
    pub icon: Option<Seq<char>>,
}

impl View for GuildEntry {
    type V = GuildModel;

    open spec fn view(&self) -> GuildModel {
        GuildModel { id: self.id, icon: self.icon.deep_view() }
    }
}

/// The value of a guild entry that may be absent.
pub open spec fn guild_model(guild: Option<GuildEntry>) -> Option<GuildModel> {
    match guild {
        Some(guild) => Some(guild@),
        None => None,
    }
}

/// The values of a run of channel entries, in the same order.
pub open spec fn channel_models(channels: Seq<ChannelEntry>) -> Seq<ChannelModel> {
    Seq::new(channels.len(), |i: int| channels[i]@)
}

/// Whether a channel lies under the ticket category of the workspace.
pub open spec fn is_ticket_channel(ws: Workspace, channel: ChannelModel) -> bool {
    channel.parent_id == Some(ws.category_id)
}

/// Whether a channel is the ticket of `user`: it lies under the ticket
/// category and its topic is the text of the user's identity.
pub open spec fn is_ticket_of(ws: Workspace, channel: ChannelModel, user: u64) -> bool {
    is_ticket_channel(ws, channel) && channel.topic == Some(decimal_text(user as nat))
}

/// The ticket channel of `user` among `channels`: the last one, in the order
/// given, that is a ticket of that user; none if there is no such channel.
pub open spec fn last_ticket(ws: Workspace, channels: Seq<ChannelModel>, user: u64) -> Option<u64>
    decreases channels.len(),
{
    if channels.len() == 0 {
        None
    } else if is_ticket_of(ws, channels.last(), user) {
        Some(channels.last().id)
    } else {
        last_ticket(ws, channels.drop_last(), user)
    }
}

/// The identity mapper answers with a channel exactly when some channel is a
/// ticket of the user, and then with the last such channel; it answers with
/// nothing exactly when no channel is.
pub proof fn lemma_last_ticket_is_last_match(ws: Workspace, channels: Seq<ChannelModel>, user: u64)
    ensures
        match last_ticket(ws, channels, user) {
            Some(id) => exists|i: int|
                0 <= i < channels.len() && is_ticket_of(ws, #[trigger] channels[i], user)
                    && channels[i].id == id && forall|j: int|
                    i < j < channels.len() ==> !is_ticket_of(ws, #[trigger] channels[j], user),
            None => forall|i: int|
                0 <= i < channels.len() ==> !is_ticket_of(ws, #[trigger] channels[i], user),
        },
    decreases channels.len(),
{
    if channels.len() == 0 {
    } else if is_ticket_of(ws, channels.last(), user) {
        assert(is_ticket_of(ws, channels[channels.len() - 1], user));
    } else {
        let rest = channels.drop_last();
        lemma_last_ticket_is_last_match(ws, rest, user);
        match last_ticket(ws, rest, user) {
            Some(id) => {
                let i = choose|i: int|
                    0 <= i < rest.len() && is_ticket_of(ws, #[trigger] rest[i], user) && rest[i].id
                        == id && forall|j: int|
                        i < j < rest.len() ==> !is_ticket_of(ws, #[trigger] rest[j], user);
                assert forall|j: int| i < j < channels.len() implies !is_ticket_of(
                    ws,
                    #[trigger] channels[j],
                    user,
                ) by {
                    if j < rest.len() {
                        assert(channels[j] == rest[j]);
                    }
                }
            },
            None => {
                assert forall|i: int| 0 <= i < channels.len() implies !is_ticket_of(
                    ws,
                    #[trigger] channels[i],
                    user,
                ) by {
                    if i < rest.len() {
                        assert(channels[i] == rest[i]);
                    }
                }
            },
        }
    }
}

/// A channel that is no ticket of the user, added at the end, does not
/// change whom the mapper finds; one that is, added at the end, is found.
pub proof fn lemma_last_ticket_push(
    ws: Workspace,
    channels: Seq<ChannelModel>,
    added: ChannelModel,
    user: u64,
)
    ensures
        last_ticket(ws, channels.push(added), user) == if is_ticket_of(ws, added, user) {
            Some(added.id)
        } else {
            last_ticket(ws, channels, user)
        },
{
    assert(channels.push(added).drop_last() =~= channels);
}

impl ChannelEntry {
    /// Whether this channel lies under the ticket category.
    pub fn is_ticket_channel(&self, ws: &Workspace) -> (b: bool)
        ensures
            b == is_ticket_channel(*ws, self@),
    {
        match self.parent_id {
            Some(parent) => parent == ws.category_id,
            None => false,
        }
    }

    /// Whether this channel's topic is exactly `tag`.
    pub fn has_topic(&self, tag: &String) -> (b: bool)
        ensures
            b == (self@.topic == Some(tag@)),
    {
        match &self.topic {
            Some(topic) => *topic == *tag,
            None => false,
        }
    }
}

/// The identity mapper: finds the ticket channel of `user` among the channels
/// that the mirror knows, given in the mirror's order. Reads only.
pub fn find_ticket_channel(ws: &Workspace, channels: &Vec<ChannelEntry>, user: u64) -> (found:
    Option<u64>)
    ensures
        found == last_ticket(*ws, channel_models(channels@), user),
{
    let tag = identity_text(user);
    let ghost models = channel_models(channels@);
    let mut found: Option<u64> = None;
    let mut i: usize = 0;
    while i < channels.len()
        invariant
            i <= channels.len(),
            models == channel_models(channels@),
            tag@ == decimal_text(user as nat),
            found == last_ticket(*ws, models.subrange(0, i as int), user),
        decreases channels.len() - i,
    {
        let entry = &channels[i];
        proof {
            let seen = models.subrange(0, i + 1);
            assert(seen.drop_last() =~= models.subrange(0, i as int));
        }
        if entry.is_ticket_channel(ws) && entry.has_topic(&tag) {
            found = Some(entry.id);
        }
        i = i + 1;
    }
    assert(models.subrange(0, i as int) =~= models);
    found
}

/// The mirror itself: `InMemoryCache` of twilight_cache_inmemory, which the
/// dispatcher keeps up to date with the event feed. The verifier sees
/// nothing inside it and nothing is claimed of it.
#[verifier::external_type_specification]
#[verifier::external_body]
pub struct ExInMemoryCache(InMemoryCache);

/// Walks `InMemoryCache::iter().channels()` of twilight_cache_inmemory and
/// copies identity, parent and topic of each channel it meets. The cache is
/// shared and its walk has no fixed order, so nothing is claimed of the
/// result.
#[verifier::external_body]
pub(crate) fn cached_channels(cache: &InMemoryCache) -> (channels: Vec<ChannelEntry>) {
    cache.iter().channels().map(
        |c| ChannelEntry { id: c.id.get(), parent_id: c.parent_id.map(Id::get), topic: c.topic.clone() },
    ).collect()
}

/// Asks `InMemoryCache::channel` of twilight_cache_inmemory for one channel
/// and copies identity, parent and topic of what it finds. The cache is
/// shared, so whether it finds a channel, and with what parent and topic, is
/// not claimed. The cache keeps every channel under the channel's own
/// identity and never rewrites that identity, so what is found under an
/// identity carries it: the contract claims that much. `Id::new` panics on
/// zero, which the precondition leaves out.
#[verifier::external_body]
fn cached_channel(cache: &InMemoryCache, channel_id: u64) -> (channel: Option<ChannelEntry>)
    requires
        channel_id != 0,
    ensures
        channel matches Some(entry) ==> entry.id == channel_id,
{
    cache.channel(Id::new(channel_id)).map(
        |c| ChannelEntry { id: c.id.get(), parent_id: c.parent_id.map(Id::get), topic: c.topic.clone() },
    )
}

/// Asks `InMemoryCache::guild` of twilight_cache_inmemory for one guild and
/// copies its identity and the text of its icon hash. The cache is shared,
/// so whether it finds a guild, and with what icon, is not claimed. The
/// cache keeps every guild under the guild's own identity and never rewrites
/// that identity, so what is found under an identity carries it: the
/// contract claims that much. `Id::new` panics on zero, which the
/// precondition leaves out.
#[verifier::external_body]
fn cached_guild(cache: &InMemoryCache, guild_id: u64) -> (guild: Option<GuildEntry>)
    requires
        guild_id != 0,
    ensures
        guild matches Some(entry) ==> entry.id == guild_id,
{
    cache.guild(Id::new(guild_id)).map(
        |g| GuildEntry { id: g.id().get(), icon: g.icon().map(|hash| hash.to_string()) },
    )
}

/// The channel `channel_id` as the mirror holds it at this moment. Whether
/// the mirror holds it is for the mirror to say; an entry that is handed
/// back is the entry of the channel asked for. Zero is the identity of no
/// channel.
pub(crate) fn known_channel(cache: &InMemoryCache, channel_id: u64) -> (channel: Option<ChannelEntry>)
    ensures
        channel_id == 0 ==> channel is None,
        channel matches Some(entry) ==> entry.id == channel_id,
{
    if channel_id == 0 {
        None
    } else {
        cached_channel(cache, channel_id)
    }
}

/// The guild `guild_id` as the mirror holds it at this moment. Whether the
/// mirror holds it is for the mirror to say; an entry that is handed back is
/// the entry of the guild asked for. Zero is the identity of no guild.
pub(crate) fn known_guild(cache: &InMemoryCache, guild_id: u64) -> (guild: Option<GuildEntry>)
    ensures
        guild_id == 0 ==> guild is None,
        guild matches Some(entry) ==> entry.id == guild_id,
{
    if guild_id == 0 {
        None
    } else {
        cached_guild(cache, guild_id)
    }
}

} // verus!
