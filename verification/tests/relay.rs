use modmail::envelope::{Attribution, Envelope, InboundMessage};
use modmail::flow::{Effect, Fault, Outcome, Session, Step};
use modmail::ledger::{Ledger, Slot};
use modmail::mirror::ChannelEntry;
use modmail::relay::{deliver_to, provision_ticket_channel, route_guild, route_private};
use modmail::workspace::Workspace;

fn relay_ws() -> Workspace {
    Workspace { guild_id: 100, category_id: 200 }
}

fn relay_channel(id: u64, parent: Option<u64>, topic: Option<&str>) -> ChannelEntry {
    ChannelEntry { id, parent_id: parent, topic: topic.map(|t| t.to_string()) }
}

fn relay_private_message(author: u64) -> InboundMessage {
    InboundMessage {
        author_id: author,
        author_name: "alice".to_string(),
        author_avatar: Some("a1".to_string()),
        author_is_bot: false,
        content: "hello".to_string(),
        attachments: vec![],
        timestamp: 5,
        guild_id: None,
        channel_id: 900,
    }
}

fn relay_guild_message(channel: u64) -> InboundMessage {
    InboundMessage {
        author_id: 55,
        author_name: "mod".to_string(),
        author_avatar: None,
        author_is_bot: false,
        content: "reply".to_string(),
        attachments: vec![],
        timestamp: 6,
        guild_id: Some(100),
        channel_id: channel,
    }
}

fn relay_user_envelope(author: u64) -> Envelope {
    Envelope {
        title: None,
        description: "hello".to_string(),
        color: None,
        attribution: Some(Attribution {
            name: "alice".to_string(),
            icon_url: Some(format!("https://cdn.discordapp.com/avatars/{}/a1.png", author)),
        }),
        image_url: None,
        timestamp: Some(5),
    }
}

#[test]
fn private_message_without_ticket_asks_for_a_channel() {
    let mut ledger = Ledger::new();
    let msg = relay_private_message(7);
    let step = route_private(&relay_ws(), &vec![], &mut ledger, msg.clone());
    assert_eq!(
        step,
        Step::Perform {
            effect: Effect::CreateTicketChannel {
                guild_id: 100,
                name: "alice".to_string(),
                parent_id: 200,
                topic: "7".to_string(),
            },
            session: Session::Provisioning { message: msg },
        }
    );
    assert_eq!(ledger.slot(7), Some(Slot::Creating));
}

#[test]
fn private_message_with_ticket_goes_into_it() {
    let mut ledger = Ledger::new();
    let channels = vec![relay_channel(2, Some(200), Some("8")), relay_channel(3, Some(200), Some("7"))];
    let step = route_private(&relay_ws(), &channels, &mut ledger, relay_private_message(7));
    assert_eq!(
        step,
        Step::Perform {
            effect: Effect::SendEnvelope { channel_id: 3, envelope: relay_user_envelope(7) },
            session: Session::Concluding { outcome: Outcome::Relayed },
        }
    );
    assert_eq!(ledger.slot(7), None);
}

#[test]
fn private_message_from_a_bot_is_ignored() {
    let mut ledger = Ledger::new();
    let mut msg = relay_private_message(7);
    msg.author_is_bot = true;
    let step = route_private(&relay_ws(), &vec![], &mut ledger, msg.clone());
    assert_eq!(step, Step::Finished { outcome: Outcome::Ignored });
    assert_eq!(ledger.slot(7), None);
    let channels = vec![relay_channel(3, Some(200), Some("7"))];
    let step = route_private(&relay_ws(), &channels, &mut ledger, msg);
    assert_eq!(step, Step::Finished { outcome: Outcome::Ignored });
}

#[test]
fn private_message_while_the_channel_is_being_made_is_postponed() {
    let mut ledger = Ledger::new();
    assert!(ledger.claim(7));
    let step = route_private(&relay_ws(), &vec![], &mut ledger, relay_private_message(7));
    assert_eq!(step, Step::Finished { outcome: Outcome::Postponed });
    assert_eq!(ledger.slot(7), Some(Slot::Creating));
    let step = route_private(&relay_ws(), &vec![], &mut ledger, relay_private_message(8));
    assert!(matches!(step, Step::Perform { effect: Effect::CreateTicketChannel { .. }, .. }));
}

#[test]
fn private_message_goes_into_the_noted_channel() {
    let mut ledger = Ledger::new();
    ledger.settle(7, 40);
    let step = route_private(&relay_ws(), &vec![], &mut ledger, relay_private_message(7));
    assert_eq!(
        step,
        Step::Perform {
            effect: Effect::SendEnvelope { channel_id: 40, envelope: relay_user_envelope(7) },
            session: Session::DeliveringNoted { user: 7, channel: 40 },
        }
    );
    assert_eq!(ledger.slot(7), Some(Slot::Created(40)));
}

#[test]
fn mirror_is_asked_before_the_ledger() {
    let mut ledger = Ledger::new();
    ledger.settle(7, 40);
    let channels = vec![relay_channel(41, Some(200), Some("7"))];
    let step = route_private(&relay_ws(), &channels, &mut ledger, relay_private_message(7));
    assert!(matches!(step, Step::Perform { effect: Effect::SendEnvelope { channel_id: 41, .. }, .. }));
    assert_eq!(ledger.slot(7), None);
}

#[test]
fn claim_outlives_a_mirror_match() {
    let mut ledger = Ledger::new();
    assert!(ledger.claim(7));
    let channels = vec![relay_channel(41, Some(200), Some("7"))];
    let step = route_private(&relay_ws(), &channels, &mut ledger, relay_private_message(7));
    assert!(matches!(step, Step::Perform { effect: Effect::SendEnvelope { channel_id: 41, .. }, .. }));
    assert_eq!(ledger.slot(7), Some(Slot::Creating));
}

#[test]
fn private_message_without_avatar_is_relayed_by_name() {
    let mut ledger = Ledger::new();
    let mut msg = relay_private_message(7);
    msg.author_avatar = None;
    let channels = vec![relay_channel(3, Some(200), Some("7"))];
    let step = route_private(&relay_ws(), &channels, &mut ledger, msg.clone());
    let mut envelope = relay_user_envelope(7);
    envelope.attribution = Some(Attribution { name: "alice".to_string(), icon_url: None });
    assert_eq!(
        step,
        Step::Perform {
            effect: Effect::SendEnvelope { channel_id: 3, envelope },
            session: Session::Concluding { outcome: Outcome::Relayed },
        }
    );
    let step = route_private(&relay_ws(), &vec![], &mut ledger, msg);
    assert!(matches!(step, Step::Perform { effect: Effect::CreateTicketChannel { .. }, .. }));
}

#[test]
fn private_message_with_unacceptable_attachment_fails() {
    let mut ledger = Ledger::new();
    let mut msg = relay_private_message(7);
    msg.attachments = vec!["ftp://x.test/1.png".to_string()];
    let channels = vec![relay_channel(3, Some(200), Some("7"))];
    let step = route_private(&relay_ws(), &channels, &mut ledger, msg.clone());
    assert_eq!(step, Step::Finished { outcome: Outcome::Failed(Fault::ImageRejected) });
    ledger.settle(7, 40);
    let step = route_private(&relay_ws(), &vec![], &mut ledger, msg);
    assert_eq!(step, Step::Finished { outcome: Outcome::Failed(Fault::ImageRejected) });
    assert_eq!(ledger.slot(7), Some(Slot::Created(40)));
}

#[test]
fn guild_message_in_a_ticket_opens_the_conversation() {
    let msg = relay_guild_message(3);
    let step = route_guild(&relay_ws(), Some(relay_channel(3, Some(200), Some("7"))), msg.clone());
    assert_eq!(
        step,
        Step::Perform {
            effect: Effect::OpenPrivateChannel { user_id: 7 },
            session: Session::Reaching { message: msg },
        }
    );
}

#[test]
fn guild_message_outside_the_category_is_ignored() {
    let step = route_guild(&relay_ws(), Some(relay_channel(3, Some(201), Some("7"))), relay_guild_message(3));
    assert_eq!(step, Step::Finished { outcome: Outcome::Ignored });
    let step = route_guild(&relay_ws(), Some(relay_channel(3, None, Some("7"))), relay_guild_message(3));
    assert_eq!(step, Step::Finished { outcome: Outcome::Ignored });
}

#[test]
fn guild_message_in_an_unknown_channel_is_ignored() {
    let step = route_guild(&relay_ws(), None, relay_guild_message(3));
    assert_eq!(step, Step::Finished { outcome: Outcome::Ignored });
}

#[test]
fn guild_message_from_a_bot_is_ignored() {
    let mut msg = relay_guild_message(3);
    msg.author_is_bot = true;
    let step = route_guild(&relay_ws(), Some(relay_channel(3, Some(200), Some("7"))), msg);
    assert_eq!(step, Step::Finished { outcome: Outcome::Ignored });
}

#[test]
fn guild_message_in_a_ticket_without_topic_fails() {
    let step = route_guild(&relay_ws(), Some(relay_channel(3, Some(200), None)), relay_guild_message(3));
    assert_eq!(step, Step::Finished { outcome: Outcome::Failed(Fault::TopicMissing) });
}

#[test]
fn guild_message_in_a_ticket_with_edited_topic_fails() {
    for topic in ["", "alice", "0", "7 (vip)", "18446744073709551616"] {
        let step = route_guild(&relay_ws(), Some(relay_channel(3, Some(200), Some(topic))), relay_guild_message(3));
        assert_eq!(step, Step::Finished { outcome: Outcome::Failed(Fault::TopicUnreadable) }, "on {:?}", topic);
    }
}

#[test]
fn ticket_owner_is_read_from_the_topic() {
    assert_eq!(relay_channel(3, Some(200), Some("779364331350523909")).owner(), Ok(779364331350523909));
    assert_eq!(relay_channel(3, None, Some("+12")).owner(), Ok(12));
    assert_eq!(relay_channel(3, None, None).owner(), Err(Fault::TopicMissing));
    assert_eq!(relay_channel(3, None, Some("x")).owner(), Err(Fault::TopicUnreadable));
}

#[test]
fn deliver_to_sends_or_gives_up() {
    assert_eq!(
        deliver_to(3, Ok(relay_user_envelope(7))),
        Step::Perform {
            effect: Effect::SendEnvelope { channel_id: 3, envelope: relay_user_envelope(7) },
            session: Session::Concluding { outcome: Outcome::Relayed },
        }
    );
    assert_eq!(
        deliver_to(3, Err(Fault::ImageRejected)),
        Step::Finished { outcome: Outcome::Failed(Fault::ImageRejected) }
    );
}

#[test]
fn provisioner_names_the_channel_to_create() {
    let mut msg = relay_private_message(779364331350523909);
    msg.author_name = "bob".to_string();
    assert_eq!(
        provision_ticket_channel(&relay_ws(), &msg),
        Effect::CreateTicketChannel {
            guild_id: 100,
            name: "bob".to_string(),
            parent_id: 200,
            topic: "779364331350523909".to_string(),
        }
    );
}
