use yumetouch::config::{
    default_config_path, default_sound, Config, NotificationConfig, NotificationMode,
};

#[test]
fn mode_names_are_read() {
    assert_eq!(NotificationMode::from_str("notification"), Ok(NotificationMode::Notification));
    assert_eq!(NotificationMode::from_str("dialog"), Ok(NotificationMode::Dialog));
    assert_eq!(NotificationMode::from_str("both"), Ok(NotificationMode::Both));
}

#[test]
fn mode_names_are_read_in_any_case() {
    assert_eq!(NotificationMode::from_str("DIALOG"), Ok(NotificationMode::Dialog));
    assert_eq!(NotificationMode::from_str("Both"), Ok(NotificationMode::Both));
    assert_eq!(NotificationMode::from_str("NotiFication"), Ok(NotificationMode::Notification));
}

#[test]
fn unknown_mode_is_refused_with_its_name() {
    assert_eq!(
        NotificationMode::from_str("Loud"),
        Err("invalid notification mode: Loud".to_string())
    );
    assert_eq!(NotificationMode::from_str(""), Err("invalid notification mode: ".to_string()));
    assert_eq!(
        NotificationMode::from_str(" dialog"),
        Err("invalid notification mode:  dialog".to_string())
    );
}

#[test]
fn mode_is_parsed_through_the_std_trait() {
    assert_eq!("dialog".parse::<NotificationMode>(), Ok(NotificationMode::Dialog));
    assert_eq!(
        "banner".parse::<NotificationMode>(),
        Err("invalid notification mode: banner".to_string())
    );
}

#[test]
fn exact_names_only_without_lowercasing() {
    assert_eq!(NotificationMode::from_name("dialog"), Some(NotificationMode::Dialog));
    assert_eq!(NotificationMode::from_name("Dialog"), None);
    assert_eq!(NotificationMode::from_name("notification"), Some(NotificationMode::Notification));
    assert_eq!(NotificationMode::from_name("both"), Some(NotificationMode::Both));
    assert_eq!(NotificationMode::from_name("bot"), None);
}

#[test]
fn lowercase_form_decides_and_the_given_text_is_reported() {
    assert_eq!(NotificationMode::from_lowercase("BOTH", "both"), Ok(NotificationMode::Both));
    assert_eq!(
        NotificationMode::from_lowercase("LOUD", "loud"),
        Err("invalid notification mode: LOUD".to_string())
    );
}

#[test]
fn modes_are_named_as_they_are_read() {
    for mode in [NotificationMode::Notification, NotificationMode::Dialog, NotificationMode::Both]
    {
        assert_eq!(NotificationMode::from_str(mode.as_str()), Ok(mode));
        assert_eq!(NotificationMode::from_name(mode.as_str()), Some(mode));
    }
    assert_eq!(NotificationMode::Notification.as_str(), "notification");
    assert_eq!(NotificationMode::Dialog.as_str(), "dialog");
    assert_eq!(NotificationMode::Both.as_str(), "both");
}

#[test]
fn defaults_are_banner_and_funk() {
    assert_eq!(NotificationMode::default(), NotificationMode::Notification);
    assert_eq!(default_sound(), "Funk");
    let n = NotificationConfig::default();
    assert_eq!(n.mode, NotificationMode::Notification);
    assert_eq!(n.sound, "Funk");
    let c = Config::default();
    assert_eq!(c.notification.mode, NotificationMode::Notification);
    assert_eq!(c.notification.sound, "Funk");
}

#[test]
fn missing_options_take_their_defaults() {
    let n = NotificationConfig::from_options(None, None);
    assert_eq!((n.mode, n.sound.as_str()), (NotificationMode::Notification, "Funk"));
    let n = NotificationConfig::from_options(Some(NotificationMode::Both), None);
    assert_eq!((n.mode, n.sound.as_str()), (NotificationMode::Both, "Funk"));
    let n = NotificationConfig::from_options(None, Some("Glass".to_string()));
    assert_eq!((n.mode, n.sound.as_str()), (NotificationMode::Notification, "Glass"));
    let n = NotificationConfig::from_options(Some(NotificationMode::Dialog), Some("Ping".to_string()));
    assert_eq!((n.mode, n.sound.as_str()), (NotificationMode::Dialog, "Ping"));
}

#[test]
fn missing_section_takes_the_defaults() {
    let c = Config::from_options(None);
    assert_eq!(c.notification.mode, NotificationMode::Notification);
    assert_eq!(c.notification.sound, "Funk");
    let given = NotificationConfig { mode: NotificationMode::Dialog, sound: "Ping".to_string() };
    let c = Config::from_options(Some(given));
    assert_eq!(c.notification.mode, NotificationMode::Dialog);
    assert_eq!(c.notification.sound, "Ping");
}

#[test]
fn unreadable_configuration_falls_back_to_defaults() {
    let c = Config::load(None);
    assert_eq!(c.notification.mode, NotificationMode::Notification);
    assert_eq!(c.notification.sound, "Funk");
}

#[test]
fn parsed_configuration_is_kept() {
    let parsed = Config {
        notification: NotificationConfig { mode: NotificationMode::Both, sound: "Glass".to_string() },
    };
    let c = Config::load(Some(parsed));
    assert_eq!(c.notification.mode, NotificationMode::Both);
    assert_eq!(c.notification.sound, "Glass");
}

#[test]
fn configuration_is_looked_for_below_home() {
    assert_eq!(
        default_config_path(Some("/Users/ada")),
        "/Users/ada/.config/yumetouch/config.toml"
    );
    assert_eq!(
        default_config_path(Some("/Users/ada/")),
        "/Users/ada/.config/yumetouch/config.toml"
    );
}

#[test]
fn configuration_is_looked_for_below_tmp_without_home() {
    assert_eq!(default_config_path(None), "/tmp/.config/yumetouch/config.toml");
}

#[test]
fn empty_home_gives_a_relative_path() {
    assert_eq!(default_config_path(Some("")), ".config/yumetouch/config.toml");
}
