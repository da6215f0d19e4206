use modmail::command::Invocation;
use modmail::dispatch::{handle_event, route_event, Inbound};
use modmail::engine::{accept_message, resume};
use modmail::envelope::InboundMessage;
use modmail::flow::{Effect, Fault, Outcome, Reply, Session, Step};
use modmail::mirror::ChannelEntry;
use modmail::ledger::{Ledger, Slot};
use modmail::workspace::Workspace;
use twilight_cache_inmemory::InMemoryCache;
use twilight_model::channel::{Channel, ChannelType};
use twilight_model::gateway::payload::incoming::{ChannelCreate, ChannelDelete, GuildCreate};
use twilight_model::guild::{
    AfkTimeout, DefaultMessageNotificationLevel, ExplicitContentFilter, Guild, MfaLevel,
    NSFWLevel, PremiumTier, SystemChannelFlags, VerificationLevel,
};
use twilight_model::id::Id;
use twilight_model::util::ImageHash;

const ICON: &str = "b0e09d6697b11e9c79a89e5e3756ddee";

fn cache_ws() -> Workspace {
    Workspace { guild_id: 100, category_id: 200 }
}

fn cache_channel(id: u64, parent: Option<u64>, topic: Option<&str>) -> Channel {
    Channel {
        application_id: None,
        applied_tags: None,
        available_tags: None,
        bitrate: None,
        default_auto_archive_duration: None,
        default_forum_layout: None,
        default_reaction_emoji: None,
        default_sort_order: None,
        default_thread_rate_limit_per_user: None,
        flags: None,
        guild_id: Some(Id::new(100)),
        icon: None,
        id: Id::new(id),
        invitable: None,
        kind: ChannelType::GuildText,
        last_message_id: None,
        last_pin_timestamp: None,
        managed: None,
        member: None,
        member_count: None,
        message_count: None,
        name: Some("ticket".to_string()),
        newly_created: None,
        nsfw: None,
        owner_id: None,
        parent_id: parent.map(Id::new),
        permission_overwrites: None,
        position: None,
        rate_limit_per_user: None,
        recipients: None,
        rtc_region: None,
        thread_metadata: None,
        topic: topic.map(|t| t.to_string()),
        user_limit: None,
        video_quality_mode: None,
    }
}

fn cache_guild(id: u64, icon: Option<&str>) -> Guild {
    Guild {
        afk_channel_id: None,
        afk_timeout: AfkTimeout::FIVE_MINUTES,
        application_id: None,
        approximate_member_count: None,
        approximate_presence_count: None,
        banner: None,
        channels: Vec::new(),
        default_message_notifications: DefaultMessageNotificationLevel::Mentions,
        description: None,
        discovery_splash: None,
        emojis: Vec::new(),
        explicit_content_filter: ExplicitContentFilter::None,
        features: Vec::new(),
        icon: icon.map(|hash| ImageHash::parse(hash.as_bytes()).unwrap()),
        id: Id::new(id),
        joined_at: None,
        large: false,
        max_members: None,
        max_presences: None,
        max_video_channel_users: None,
        member_count: None,
        members: Vec::new(),
        mfa_level: MfaLevel::None,
        name: "workspace".to_string(),
        nsfw_level: NSFWLevel::Default,
        owner_id: Id::new(1),
        owner: None,
        permissions: None,
        preferred_locale: "ja".to_string(),
        premium_progress_bar_enabled: false,
        premium_subscription_count: None,
        premium_tier: PremiumTier::None,
        presences: Vec::new(),
        public_updates_channel_id: None,
        roles: Vec::new(),
        rules_channel_id: None,
        safety_alerts_channel_id: None,
        splash: None,
        stage_instances: Vec::new(),
        stickers: Vec::new(),
        system_channel_flags: SystemChannelFlags::empty(),
        system_channel_id: None,
        threads: Vec::new(),
        unavailable: false,
        vanity_url_code: None,
        verification_level: VerificationLevel::None,
        voice_states: Vec::new(),
        widget_channel_id: None,
        widget_enabled: None,
    }
}

fn cache_private(author: u64) -> InboundMessage {
    InboundMessage {
        author_id: author,
        author_name: "alice".to_string(),
        author_avatar: Some("a1".to_string()),
        author_is_bot: false,
        content: "hello".to_string(),
        attachments: vec![],
        timestamp: 5,
        guild_id: None,
        channel_id: 900,
    }
}

fn cache_staff(channel: u64) -> InboundMessage {
    InboundMessage {
        author_id: 55,
        author_name: "mod".to_string(),
        author_avatar: None,
        author_is_bot: false,
        content: "reply".to_string(),
        attachments: vec![],
        timestamp: 6,
        guild_id: Some(100),
        channel_id: channel,
    }
}

#[test]
fn accept_message_creates_a_channel_on_an_empty_mirror() {
    let cache = InMemoryCache::new();
    let mut ledger = Ledger::new();
    let step = accept_message(&cache_ws(), &cache, &mut ledger, cache_private(7));
    assert!(matches!(
        step,
        Step::Perform { effect: Effect::CreateTicketChannel { guild_id: 100, parent_id: 200, ref topic, .. }, .. }
            if topic == "7"
    ));
    assert_eq!(ledger.slot(7), Some(Slot::Creating));
}

#[test]
fn accept_message_finds_the_ticket_in_the_mirror() {
    let cache = InMemoryCache::new();
    cache.update(&ChannelCreate(cache_channel(39, Some(200), Some("8"))));
    cache.update(&ChannelCreate(cache_channel(40, Some(200), Some("7"))));
    cache.update(&ChannelCreate(cache_channel(41, Some(300), Some("7"))));
    cache.update(&ChannelCreate(cache_channel(42, None, None)));
    let mut ledger = Ledger::new();
    let step = accept_message(&cache_ws(), &cache, &mut ledger, cache_private(7));
    assert!(matches!(step, Step::Perform { effect: Effect::SendEnvelope { channel_id: 40, .. }, .. }));
    let step = accept_message(&cache_ws(), &cache, &mut ledger, cache_private(8));
    assert!(matches!(step, Step::Perform { effect: Effect::SendEnvelope { channel_id: 39, .. }, .. }));
    let step = accept_message(&cache_ws(), &cache, &mut ledger, cache_private(9));
    assert!(matches!(step, Step::Perform { effect: Effect::CreateTicketChannel { .. }, .. }));
}

#[test]
fn accept_message_follows_the_mirror_as_it_changes() {
    let cache = InMemoryCache::new();
    let mut ledger = Ledger::new();
    let step = accept_message(&cache_ws(), &cache, &mut ledger, cache_private(7));
    let session = match step {
        Step::Perform { effect: Effect::CreateTicketChannel { .. }, session } => session,
        other => panic!("unexpected {:?}", other),
    };
    let step = accept_message(&cache_ws(), &cache, &mut ledger, cache_private(7));
    assert_eq!(step, Step::Finished { outcome: Outcome::Postponed });
    let step = resume(&cache_ws(), &cache, &mut ledger, session, Reply::Channel(40));
    assert!(matches!(step, Step::Perform { effect: Effect::SendEnvelope { channel_id: 40, .. }, .. }));
    assert_eq!(ledger.slot(7), Some(Slot::Created(40)));
    // The mirror hears of the channel: its word counts, the note is dropped.
    cache.update(&ChannelCreate(cache_channel(40, Some(200), Some("7"))));
    let step = accept_message(&cache_ws(), &cache, &mut ledger, cache_private(7));
    assert!(matches!(step, Step::Perform { effect: Effect::SendEnvelope { channel_id: 40, .. }, .. }));
    assert_eq!(ledger.slot(7), None);
    // The channel goes away: the next message opens a new ticket.
    cache.update(&ChannelDelete(cache_channel(40, Some(200), Some("7"))));
    let step = accept_message(&cache_ws(), &cache, &mut ledger, cache_private(7));
    assert!(matches!(step, Step::Perform { effect: Effect::CreateTicketChannel { .. }, .. }));
}

#[test]
fn accept_message_relays_from_a_ticket_in_the_mirror() {
    let cache = InMemoryCache::new();
    cache.update(&ChannelCreate(cache_channel(40, Some(200), Some("7"))));
    cache.update(&ChannelCreate(cache_channel(41, Some(300), Some("7"))));
    let mut ledger = Ledger::new();
    let step = accept_message(&cache_ws(), &cache, &mut ledger, cache_staff(40));
    assert_eq!(
        step,
        Step::Perform {
            effect: Effect::OpenPrivateChannel { user_id: 7 },
            session: Session::Reaching { message: cache_staff(40) },
        }
    );
    let step = accept_message(&cache_ws(), &cache, &mut ledger, cache_staff(41));
    assert_eq!(step, Step::Finished { outcome: Outcome::Ignored });
    let step = accept_message(&cache_ws(), &cache, &mut ledger, cache_staff(42));
    assert_eq!(step, Step::Finished { outcome: Outcome::Ignored });
    let step = accept_message(&cache_ws(), &cache, &mut ledger, cache_staff(0));
    assert_eq!(step, Step::Finished { outcome: Outcome::Ignored });
}

fn cache_staff_icon(step: Step) -> Option<String> {
    match step {
        Step::Perform { effect: Effect::SendEnvelope { channel_id, envelope }, session } => {
            assert_eq!(channel_id, 70);
            assert_eq!(session, Session::Concluding { outcome: Outcome::Relayed });
            assert_eq!(envelope.description, "reply");
            let attribution = envelope.attribution.unwrap();
            assert_eq!(attribution.name, "Staff");
            attribution.icon_url
        }
        other => panic!("unexpected {:?}", other),
    }
}

#[test]
fn resume_reads_the_guild_icon_from_the_mirror() {
    let cache = InMemoryCache::new();
    let mut ledger = Ledger::new();
    let session = Session::Reaching { message: cache_staff(40) };
    let step = resume(&cache_ws(), &cache, &mut ledger, session.clone(), Reply::Channel(70));
    assert_eq!(cache_staff_icon(step), None);

    cache.update(&GuildCreate(cache_guild(100, None)));
    let step = resume(&cache_ws(), &cache, &mut ledger, session.clone(), Reply::Channel(70));
    assert_eq!(cache_staff_icon(step), None);

    cache.update(&GuildCreate(cache_guild(100, Some(ICON))));
    cache.update(&GuildCreate(cache_guild(101, None)));
    let step = resume(&cache_ws(), &cache, &mut ledger, session, Reply::Channel(70));
    assert_eq!(
        cache_staff_icon(step),
        Some("https://cdn.discordapp.com/icons/100/b0e09d6697b11e9c79a89e5e3756ddee.png".to_string())
    );
}

#[test]
fn resume_takes_the_icon_of_the_workspace_guild_only() {
    let cache = InMemoryCache::new();
    cache.update(&GuildCreate(cache_guild(101, Some(ICON))));
    cache.update(&GuildCreate(cache_guild(200, Some(ICON))));
    let mut ledger = Ledger::new();
    let session = Session::Reaching { message: cache_staff(40) };
    let step = resume(&cache_ws(), &cache, &mut ledger, session, Reply::Channel(70));
    assert_eq!(cache_staff_icon(step), None);
}

#[test]
fn resume_with_a_zero_guild_knows_no_guild() {
    let cache = InMemoryCache::new();
    cache.update(&GuildCreate(cache_guild(100, Some(ICON))));
    let ws = Workspace { guild_id: 0, category_id: 200 };
    let mut ledger = Ledger::new();
    let session = Session::Reaching { message: cache_staff(40) };
    let step = resume(&ws, &cache, &mut ledger, session, Reply::Channel(70));
    assert_eq!(cache_staff_icon(step), None);
}

#[test]
fn resume_goes_on_with_other_sessions_without_the_mirror() {
    let cache = InMemoryCache::new();
    let mut ledger = Ledger::new();
    let step = resume(&cache_ws(), &cache, &mut ledger, Session::PingAcknowledging, Reply::Done);
    assert_eq!(step, Step::Perform { effect: Effect::MeasureLatency, session: Session::PingMeasuring });
    let step = resume(&cache_ws(), &cache, &mut ledger, Session::PingMeasuring, Reply::Failed);
    assert_eq!(step, Step::Finished { outcome: Outcome::Failed(Fault::Remote) });
}

#[test]
fn handle_event_sorts_the_events() {
    let cache = InMemoryCache::new();
    cache.update(&ChannelCreate(cache_channel(40, Some(200), Some("7"))));
    let ws = cache_ws();
    let mut ledger = Ledger::new();
    assert_eq!(
        handle_event(&ws, &cache, &mut ledger, Inbound::Ready),
        Step::Finished { outcome: Outcome::Ignored }
    );
    assert_eq!(
        handle_event(&ws, &cache, &mut ledger, Inbound::Other),
        Step::Finished { outcome: Outcome::Ignored }
    );
    let step = handle_event(&ws, &cache, &mut ledger, Inbound::Message(cache_private(7)));
    assert!(matches!(step, Step::Perform { effect: Effect::SendEnvelope { channel_id: 40, .. }, .. }));
    let step = handle_event(&ws, &cache, &mut ledger, Inbound::Message(cache_staff(40)));
    assert!(matches!(step, Step::Perform { effect: Effect::OpenPrivateChannel { user_id: 7 }, .. }));
    let inv = Invocation { name: "ping".to_string(), permissions: None, arguments: vec![], channel: None };
    let step = handle_event(&ws, &cache, &mut ledger, Inbound::Command(inv));
    assert_eq!(step, Step::Perform { effect: Effect::Acknowledge, session: Session::PingAcknowledging });
    let mut bot = cache_private(7);
    bot.author_is_bot = true;
    let step = handle_event(&ws, &cache, &mut ledger, Inbound::Message(bot));
    assert_eq!(step, Step::Finished { outcome: Outcome::Ignored });
}

#[test]
fn route_event_routes_by_what_it_is_given() {
    let ws = cache_ws();
    let ticket = ChannelEntry { id: 40, parent_id: Some(200), topic: Some("7".to_string()) };
    let mut ledger = Ledger::new();
    let step = route_event(&ws, &vec![], None, &mut ledger, Inbound::Message(cache_private(7)));
    assert!(matches!(step, Step::Perform { effect: Effect::CreateTicketChannel { .. }, .. }));
    let mut ledger = Ledger::new();
    let step = route_event(&ws, &vec![ticket.clone()], None, &mut ledger, Inbound::Message(cache_private(7)));
    assert!(matches!(step, Step::Perform { effect: Effect::SendEnvelope { channel_id: 40, .. }, .. }));
    let step = route_event(&ws, &vec![], Some(ticket), &mut ledger, Inbound::Message(cache_staff(40)));
    assert!(matches!(step, Step::Perform { effect: Effect::OpenPrivateChannel { user_id: 7 }, .. }));
    let step = route_event(&ws, &vec![], None, &mut ledger, Inbound::Message(cache_staff(40)));
    assert_eq!(step, Step::Finished { outcome: Outcome::Ignored });
    let step = route_event(&ws, &vec![], None, &mut ledger, Inbound::Ready);
    assert_eq!(step, Step::Finished { outcome: Outcome::Ignored });
    let inv = Invocation { name: "ping".to_string(), permissions: None, arguments: vec![], channel: None };
    let step = route_event(&ws, &vec![], None, &mut ledger, Inbound::Command(inv));
    assert_eq!(step, Step::Perform { effect: Effect::Acknowledge, session: Session::PingAcknowledging });
}

#[test]
fn handle_event_relays_for_an_author_without_avatar() {
    let cache = InMemoryCache::new();
    cache.update(&ChannelCreate(cache_channel(40, Some(200), Some("7"))));
    let mut ledger = Ledger::new();
    let mut msg = cache_private(7);
    msg.author_avatar = None;
    let step = handle_event(&cache_ws(), &cache, &mut ledger, Inbound::Message(msg.clone()));
    match step {
        Step::Perform { effect: Effect::SendEnvelope { channel_id, envelope }, .. } => {
            assert_eq!(channel_id, 40);
            assert_eq!(envelope.description, "hello");
            assert_eq!(envelope.attribution.unwrap().icon_url, None);
        }
        other => panic!("unexpected {:?}", other),
    }
    msg.author_id = 8;
    let step = handle_event(&cache_ws(), &cache, &mut ledger, Inbound::Message(msg));
    assert!(matches!(step, Step::Perform { effect: Effect::CreateTicketChannel { .. }, .. }));
}
