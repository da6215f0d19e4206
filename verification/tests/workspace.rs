use modmail::workspace::{ConfigError, Settings, Workspace};

#[test]
fn settings_load_from_three_values() {
    let loaded = Settings::from_values(Some("token".to_string()), Some("100"), Some("200"));
    assert_eq!(
        loaded,
        Ok(Settings {
            token: "token".to_string(),
            workspace: Workspace { guild_id: 100, category_id: 200 },
        })
    );
}

#[test]
fn settings_without_token() {
    assert_eq!(Settings::from_values(None, Some("100"), Some("200")), Err(ConfigError::TokenMissing));
    assert_eq!(Settings::from_values(None, None, None), Err(ConfigError::TokenMissing));
}

#[test]
fn settings_without_guild() {
    let loaded = Settings::from_values(Some("t".to_string()), None, Some("200"));
    assert_eq!(loaded, Err(ConfigError::GuildMissing));
    let loaded = Settings::from_values(Some("t".to_string()), None, None);
    assert_eq!(loaded, Err(ConfigError::GuildMissing));
}

#[test]
fn settings_with_unreadable_guild() {
    for guild in ["", "guild", "-5", "0", "18446744073709551616", "1 "] {
        let loaded = Settings::from_values(Some("t".to_string()), Some(guild), Some("200"));
        assert_eq!(loaded, Err(ConfigError::GuildUnreadable), "on {:?}", guild);
    }
}

#[test]
fn settings_without_category() {
    let loaded = Settings::from_values(Some("t".to_string()), Some("100"), None);
    assert_eq!(loaded, Err(ConfigError::CategoryMissing));
}

#[test]
fn settings_with_unreadable_category() {
    for category in ["", "cat", "0", "1.5"] {
        let loaded = Settings::from_values(Some("t".to_string()), Some("100"), Some(category));
        assert_eq!(loaded, Err(ConfigError::CategoryUnreadable), "on {:?}", category);
    }
}

#[test]
fn settings_report_the_guild_before_the_category() {
    let loaded = Settings::from_values(Some("t".to_string()), Some("x"), Some("y"));
    assert_eq!(loaded, Err(ConfigError::GuildUnreadable));
}
