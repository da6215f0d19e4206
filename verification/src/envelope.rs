//! Inbound messages and the envelopes in which they are relayed.

use crate::flow::Fault;
use crate::ident::{decimal_text, identity_text};
use crate::mirror::{guild_model, GuildEntry, GuildModel};
use twilight_util::builder::embed::ImageSource;
use vstd::prelude::*;
use vstd::string::*;

verus! {

/// The name under which staff replies reach a user.
pub const STAFF_NAME: &'static str = "Staff";

/// The title of the notice that tells a user that the ticket was closed.
pub const CLOSING_TITLE: &'static str = "問い合わせ";

/// The body of the notice that tells a user that the ticket was closed.
pub const CLOSING_BODY: &'static str =
    "問い合わせを運営が終了しました\nまだ問題解決していない場合はお手数ですが、再度お問い合わせをお願いします。";

/// The colour of the closing notice.
pub const CLOSING_COLOR: u32 = 0xf50505;

/// Where the platform serves user avatars.
pub const AVATAR_BASE: &'static str = "https://cdn.discordapp.com/avatars/";

/// Where the platform serves guild icons.
pub const ICON_BASE: &'static str = "https://cdn.discordapp.com/icons/";

/// The ending of an image address.
pub const IMAGE_SUFFIX: &'static str = ".png";

/// A message as the event feed delivers it.
#[derive(Clone, Debug, PartialEq, Eq)]
pub struct InboundMessage {
    /// Identity of the author.
    pub author_id: u64,
    /// Display name of the author.
    pub author_name: String,
    /// Hash of the author's avatar, if the author has one.
    pub author_avatar: Option<String>,
    /// Whether the author is itself a bot.
    pub author_is_bot: bool,
    /// The text of the message.
    pub content: String,
    /// The addresses of the attachments, in the order sent.
    pub attachments: Vec<String>,
    /// When the message was sent, in microseconds since the Unix epoch.
    pub timestamp: i64,
    /// The guild the message was sent in; none for a private message.
    pub guild_id: Option<u64>,
    /// The channel the message was sent in.
    pub channel_id: u64,
}

/// The mathematical value of an [`InboundMessage`].
pub struct MessageModel {
    pub author_id: u64,
    pub author_name: Seq<char>,
    pub author_avatar: Option<Seq<char>>,
    pub author_is_bot: bool,
    pub content: Seq<char>,
    pub attachments: Seq<Seq<char>>,
    pub timestamp: i64,
    pub guild_id: Option<u64>,
    pub channel_id: u64,
}

impl View for InboundMessage {
    type V = MessageModel;

    open spec fn view(&self) -> MessageModel {
        MessageModel {
            author_id: self.author_id,
            author_name: self.author_name@,
            author_avatar: self.author_avatar.deep_view(),
            author_is_bot: self.author_is_bot,
            content: self.content@,
            attachments: self.attachments.deep_view(),
            timestamp: self.timestamp,
            guild_id: self.guild_id,
            channel_id: self.channel_id,
        }
    }
}

/// Who a relayed message is shown to come from: a name and, where there is
/// one, the address of a small picture.
#[derive(Clone, Debug, PartialEq, Eq)]
pub struct Attribution {
    pub name: String,
    pub icon_url: Option<String>,
}

/// The mathematical value of an [`Attribution`].
pub struct AttributionModel {
    pub name: Seq<char>,
    pub icon_url: Option<Seq<char>>,
}

impl View for Attribution {
    type V = AttributionModel;

    open spec fn view(&self) -> AttributionModel {
        AttributionModel { name: self.name@, icon_url: self.icon_url.deep_view() }
    }
}

/// The rendered form of a relay: a styled message with an optional title, a
/// body, an optional colour, an optional attribution header, an optional
/// image and an optional time.
#[derive(Clone, Debug, PartialEq, Eq)]
pub struct Envelope {
    pub title: Option<String>,
    pub description: String,
    pub color: Option<u32>,
    pub attribution: Option<Attribution>,
    pub image_url: Option<String>,
    pub timestamp: Option<i64>,
}

/// The mathematical value of an [`Envelope`].
pub struct EnvelopeModel {
    pub title: Option<Seq<char>>,
    pub description: Seq<char>,
    pub color: Option<u32>,
    pub attribution: Option<AttributionModel>,
    pub image_url: Option<Seq<char>>,
    pub timestamp: Option<i64>,
}

impl View for Envelope {
    type V = EnvelopeModel;

    open spec fn view(&self) -> EnvelopeModel {
        EnvelopeModel {
            title: self.title.deep_view(),
            description: self.description@,
            color: self.color,
            attribution: match self.attribution {
                Some(a) => Some(a@),
                None => None,
            },
            image_url: self.image_url.deep_view(),
            timestamp: self.timestamp,
        }
    }
}

/// Whether an address names one of the two protocols that the platform
/// takes images from: it starts with `https:` or with `http:`.
pub open spec fn has_web_scheme(url: Seq<char>) -> bool {
    "https:"@.is_prefix_of(url) || "http:"@.is_prefix_of(url)
}

/// The address of the avatar that a user has under the hash `avatar`.
pub open spec fn avatar_url_text(user: u64, avatar: Seq<char>) -> Seq<char> {
    AVATAR_BASE@ + decimal_text(user as nat) + "/"@ + avatar + IMAGE_SUFFIX@
}

/// The picture of a user: the address of the avatar, and none for a user
/// without one.
pub open spec fn avatar_address(user: u64, avatar: Option<Seq<char>>) -> Option<Seq<char>> {
    match avatar {
        Some(hash) => Some(avatar_url_text(user, hash)),
        None => None,
    }
}

/// The address of a guild's icon.
pub open spec fn icon_url_text(guild: u64, icon: Seq<char>) -> Seq<char> {
    ICON_BASE@ + decimal_text(guild as nat) + "/"@ + icon + IMAGE_SUFFIX@
}

/// The image of a relay: the first attachment of the message, if it has any.
pub open spec fn first_attachment(attachments: Seq<Seq<char>>) -> Option<Seq<char>> {
    if attachments.len() > 0 {
        Some(attachments[0])
    } else {
        None
    }
}

/// Whether the image of a relay, if there is one, has an address that the
/// platform takes.
pub open spec fn image_acceptable(image: Option<Seq<char>>) -> bool {
    match image {
        Some(url) => has_web_scheme(url),
        None => true,
    }
}

/// The envelope that carries a message under the given attribution, or the
/// fault that keeps it from being built: an address that the platform does
/// not take, be it that of the attribution's picture or that of the image.
/// An attribution without a picture, and a message without an attachment,
/// keep nothing from being built.
pub open spec fn relay_envelope(
    name: Seq<char>,
    icon_url: Option<Seq<char>>,
    msg: MessageModel,
) -> Result<EnvelopeModel, Fault> {
    let image = first_attachment(msg.attachments);
    if !image_acceptable(icon_url) || !image_acceptable(image) {
        Err(Fault::ImageRejected)
    } else {
        Ok(
            EnvelopeModel {
                title: None,
                description: msg.content,
                color: None,
                attribution: Some(AttributionModel { name, icon_url }),
                image_url: image,
                timestamp: Some(msg.timestamp),
            },
        )
    }
}

/// The envelope that carries a user's private message to staff: attributed
/// to the author by display name and, where the author has one, avatar.
pub open spec fn user_envelope(msg: MessageModel) -> Result<EnvelopeModel, Fault> {
    relay_envelope(msg.author_name, avatar_address(msg.author_id, msg.author_avatar), msg)
}

/// The picture of staff: the address of the guild's icon, and none where the
/// guild, or its icon, is not known.
pub open spec fn staff_icon(guild: Option<GuildModel>) -> Option<Seq<char>> {
    match guild {
        Some(guild) => match guild.icon {
            Some(icon) => Some(icon_url_text(guild.id, icon)),
            None => None,
        },
        None => None,
    }
}

/// The envelope that carries a staff message to a user: attributed to staff
/// under the icon of the guild, where there is one.
pub open spec fn staff_envelope(guild: Option<GuildModel>, msg: MessageModel) -> Result<
    EnvelopeModel,
    Fault,
> {
    relay_envelope(STAFF_NAME@, staff_icon(guild), msg)
}

/// The notice that tells a user that staff closed the ticket.
pub open spec fn closing_notice() -> EnvelopeModel {
    EnvelopeModel {
        title: Some(CLOSING_TITLE@),
        description: CLOSING_BODY@,
        color: Some(CLOSING_COLOR),
        attribution: None,
        image_url: None,
        timestamp: None,
    }
}

/// An address that starts with `https://` followed by anything has a
/// protocol that the platform takes.
proof fn lemma_https_prefix(base: Seq<char>, rest: Seq<char>)
    requires
        "https:"@.is_prefix_of(base),
    ensures
        has_web_scheme(base + rest),
{
    let scheme = "https:"@;
    assert(scheme =~= (base + rest).subrange(0, scheme.len() as int));
}

/// The address of an avatar is always acceptable.
pub proof fn lemma_avatar_url_acceptable(user: u64, avatar: Seq<char>)
    ensures
        has_web_scheme(avatar_url_text(user, avatar)),
{
    reveal_strlit("https:");
    reveal_strlit("https://cdn.discordapp.com/avatars/");
    let rest = decimal_text(user as nat) + "/"@ + avatar + IMAGE_SUFFIX@;
    lemma_https_prefix(AVATAR_BASE@, rest);
}

/// The address of a guild icon is always acceptable.
pub proof fn lemma_icon_url_acceptable(guild: u64, icon: Seq<char>)
    ensures
        has_web_scheme(icon_url_text(guild, icon)),
{
    reveal_strlit("https:");
    reveal_strlit("https://cdn.discordapp.com/icons/");
    let rest = decimal_text(guild as nat) + "/"@ + icon + IMAGE_SUFFIX@;
    lemma_https_prefix(ICON_BASE@, rest);
}

/// A user's message can be put in an envelope whoever the author is, with
/// an avatar or without: it takes no more than that the first attachment, if
/// any, has an acceptable address.
pub proof fn lemma_user_envelope_built(msg: MessageModel)
    ensures
        user_envelope(msg) is Ok <==> image_acceptable(first_attachment(msg.attachments)),
{
    if msg.author_avatar is Some {
        lemma_avatar_url_acceptable(msg.author_id, msg.author_avatar->0);
    }
}

/// A staff message can be put in an envelope whatever is known of the
/// guild: it takes no more than that the first attachment, if any, has an
/// acceptable address.
pub proof fn lemma_staff_envelope_built(guild: Option<GuildModel>, msg: MessageModel)
    ensures
        staff_envelope(guild, msg) is Ok <==> image_acceptable(first_attachment(msg.attachments)),
{
    if guild is Some && guild->0.icon is Some {
        lemma_icon_url_acceptable(guild->0.id, guild->0.icon->0);
    }
}

/// Asks `ImageSource::url` of twilight_util whether it takes an address. It
/// returns an error exactly when the address starts neither with `https:`
/// nor with `http:`; the contract claims exactly that.
#[verifier::external_body]
fn image_source_accepts(url: &str) -> (accepted: bool)
    ensures
        accepted == has_web_scheme(url@),
{
    ImageSource::url(url).is_ok()
}

/// Writes the address of a user's avatar, if the user has one.
pub fn avatar_url(user: u64, avatar: &Option<String>) -> (url: Option<String>)
    ensures
        url.deep_view() == avatar_address(user, avatar.deep_view()),
{
    match avatar {
        Some(hash) => {
            let mut url = String::from_str(AVATAR_BASE);
            url.append(identity_text(user).as_str());
            url.append("/");
            url.append(hash.as_str());
            url.append(IMAGE_SUFFIX);
            Some(url)
        },
        None => None,
    }
}

/// Writes the address of a guild's icon.
pub fn icon_url(guild: u64, icon: &str) -> (url: String)
    ensures
        url@ == icon_url_text(guild, icon@),
{
    let mut url = String::from_str(ICON_BASE);
    url.append(identity_text(guild).as_str());
    url.append("/");
    url.append(icon);
    url.append(IMAGE_SUFFIX);
    url
}

/// Writes the address of the picture of staff, if the guild and its icon are
/// known.
pub fn staff_icon_url(guild: &Option<GuildEntry>) -> (url: Option<String>)
    ensures
        url.deep_view() == staff_icon(guild_model(*guild)),
{
    match guild {
        Some(guild) => match &guild.icon {
            Some(icon) => Some(icon_url(guild.id, icon.as_str())),
            None => None,
        },
        None => None,
    }
}

/// Whether the platform takes the address of a picture, if there is one.
fn picture_accepted(url: &Option<String>) -> (accepted: bool)
    ensures
        accepted == image_acceptable(url.deep_view()),
{
    match url {
        Some(url) => image_source_accepts(url.as_str()),
        None => true,
    }
}

impl Envelope {
    /// Puts a message in an envelope under the given attribution. Fails
    /// exactly when the address of the attribution's picture, or that of the
    /// message's first attachment, is one the platform does not take.
    pub fn relay(name: String, icon_url: Option<String>, msg: &InboundMessage) -> (built: Result<
        Envelope,
        Fault,
    >)
        ensures
            match built {
                Ok(envelope) => relay_envelope(name@, icon_url.deep_view(), msg@) == Ok::<
                    EnvelopeModel,
                    Fault,
                >(envelope@),
                Err(fault) => relay_envelope(name@, icon_url.deep_view(), msg@) == Err::<
                    EnvelopeModel,
                    Fault,
                >(fault),
            },
    {
        if !picture_accepted(&icon_url) {
            return Err(Fault::ImageRejected);
        }
        let image_url = if msg.attachments.len() > 0 {
            Some(msg.attachments[0].clone())
        } else {
            None
        };
        if !picture_accepted(&image_url) {
            return Err(Fault::ImageRejected);
        }
        Ok(
            Envelope {
                title: None,
                description: msg.content.clone(),
                color: None,
                attribution: Some(Attribution { name, icon_url }),
                image_url,
                timestamp: Some(msg.timestamp),
            },
        )
    }

    /// The envelope that carries a user's private message to staff. Fails
    /// exactly when the first attachment has an address that the platform
    /// does not take; an author without an avatar is shown by name alone.
    pub fn from_user(msg: &InboundMessage) -> (built: Result<Envelope, Fault>)
        ensures
            match built {
                Ok(envelope) => user_envelope(msg@) == Ok::<EnvelopeModel, Fault>(envelope@),
                Err(fault) => user_envelope(msg@) == Err::<EnvelopeModel, Fault>(fault),
            },
            built is Ok <==> image_acceptable(first_attachment(msg@.attachments)),
    {
        proof {
            lemma_user_envelope_built(msg@);
        }
        let icon = avatar_url(msg.author_id, &msg.author_avatar);
        Envelope::relay(msg.author_name.clone(), icon, msg)
    }

    /// The envelope that carries a staff message to a user. Fails exactly
    /// when the first attachment has an address that the platform does not
    /// take; where the guild or its icon is not known, staff is shown by
    /// name alone.
    pub fn from_staff(guild: &Option<GuildEntry>, msg: &InboundMessage) -> (built: Result<
        Envelope,
        Fault,
    >)
        ensures
            match built {
                Ok(envelope) => staff_envelope(guild_model(*guild), msg@) == Ok::<
                    EnvelopeModel,
                    Fault,
                >(envelope@),
                Err(fault) => staff_envelope(guild_model(*guild), msg@) == Err::<
                    EnvelopeModel,
                    Fault,
                >(fault),
            },
            built is Ok <==> image_acceptable(first_attachment(msg@.attachments)),
    {
        proof {
            lemma_staff_envelope_built(guild_model(*guild), msg@);
        }
        Envelope::relay(String::from_str(STAFF_NAME), staff_icon_url(guild), msg)
    }

    /// The notice that tells a user that staff closed the ticket.
    pub fn closing_notice() -> (notice: Envelope)
        ensures
            notice@ == closing_notice(),
    {
        Envelope {
            title: Some(String::from_str(CLOSING_TITLE)),
            description: String::from_str(CLOSING_BODY),
            color: Some(CLOSING_COLOR),
            attribution: None,
            image_url: None,
            timestamp: None,
        }
    }
}

} // verus!
