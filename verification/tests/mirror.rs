use modmail::mirror::{find_ticket_channel, ChannelEntry};
use modmail::workspace::Workspace;

fn mirror_ws() -> Workspace {
    Workspace { guild_id: 100, category_id: 200 }
}

fn mirror_channel(id: u64, parent: Option<u64>, topic: Option<&str>) -> ChannelEntry {
    ChannelEntry { id, parent_id: parent, topic: topic.map(|t| t.to_string()) }
}

#[test]
fn mapper_finds_nothing_in_an_empty_mirror() {
    assert_eq!(find_ticket_channel(&mirror_ws(), &vec![], 7), None);
}

#[test]
fn mapper_finds_the_ticket_of_a_user() {
    let channels = vec![
        mirror_channel(1, None, Some("general")),
        mirror_channel(2, Some(200), Some("7")),
        mirror_channel(3, Some(200), Some("8")),
    ];
    assert_eq!(find_ticket_channel(&mirror_ws(), &channels, 7), Some(2));
    assert_eq!(find_ticket_channel(&mirror_ws(), &channels, 8), Some(3));
    assert_eq!(find_ticket_channel(&mirror_ws(), &channels, 9), None);
}

#[test]
fn mapper_takes_the_last_of_several_tickets() {
    let channels = vec![
        mirror_channel(2, Some(200), Some("7")),
        mirror_channel(3, Some(200), Some("8")),
        mirror_channel(4, Some(200), Some("7")),
        mirror_channel(5, Some(200), Some("8")),
        mirror_channel(6, Some(201), Some("7")),
    ];
    assert_eq!(find_ticket_channel(&mirror_ws(), &channels, 7), Some(4));
    assert_eq!(find_ticket_channel(&mirror_ws(), &channels, 8), Some(5));
}

#[test]
fn mapper_wants_the_ticket_category() {
    let channels = vec![
        mirror_channel(2, Some(201), Some("7")),
        mirror_channel(3, None, Some("7")),
    ];
    assert_eq!(find_ticket_channel(&mirror_ws(), &channels, 7), None);
}

#[test]
fn mapper_wants_the_exact_topic() {
    let channels = vec![
        mirror_channel(2, Some(200), Some("07")),
        mirror_channel(3, Some(200), Some("+7")),
        mirror_channel(4, Some(200), Some("7 ")),
        mirror_channel(5, Some(200), Some("77")),
        mirror_channel(6, Some(200), None),
        mirror_channel(7, Some(200), Some("")),
    ];
    assert_eq!(find_ticket_channel(&mirror_ws(), &channels, 7), None);
    assert_eq!(find_ticket_channel(&mirror_ws(), &channels, 77), Some(5));
}

#[test]
fn channel_entry_predicates() {
    let ws = mirror_ws();
    assert!(mirror_channel(1, Some(200), None).is_ticket_channel(&ws));
    assert!(!mirror_channel(1, Some(100), None).is_ticket_channel(&ws));
    assert!(!mirror_channel(1, None, None).is_ticket_channel(&ws));
    assert!(mirror_channel(1, None, Some("7")).has_topic(&"7".to_string()));
    assert!(!mirror_channel(1, None, Some("7")).has_topic(&"8".to_string()));
    assert!(!mirror_channel(1, None, None).has_topic(&"".to_string()));
}
