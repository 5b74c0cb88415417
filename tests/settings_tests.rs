use ntfy_desktop::config::{AppConfig, NotificationSound};
use ntfy_desktop::credentials::{merge_credentials, secret_update, Credentials, SecretUpdate};
use ntfy_desktop::notifications::compose_notification;
use ntfy_desktop::ntfy::{client_for_test, Authorization};

#[test]
fn sound_names_map_to_sounds() {
    assert_eq!(NotificationSound::from_name("none"), NotificationSound::Silent);
    assert_eq!(NotificationSound::from_name("alert"), NotificationSound::Alert);
    assert_eq!(NotificationSound::from_name("bell"), NotificationSound::Bell);
    assert_eq!(NotificationSound::from_name("chime"), NotificationSound::Chime);
    assert_eq!(NotificationSound::from_name("pop"), NotificationSound::Pop);
    assert_eq!(NotificationSound::from_name("Bell"), NotificationSound::Default);
    assert_eq!(NotificationSound::from_name(""), NotificationSound::Default);
}

#[test]
fn composed_notification_uses_title_as_topic() {
    let n = compose_notification("Test Notification", "Body", true, NotificationSound::Pop, true);
    assert_eq!(n.title, "Test Notification");
    assert_eq!(n.topic, "Test Notification");
    assert_eq!(n.message, "Body");
    assert_eq!(n.subtitle, None);
    assert_eq!(n.timestamp, 0);
    assert!(n.urgent);
    assert!(n.persistent);
    assert_eq!(n.sound, NotificationSound::Pop);
    assert_eq!(n.icon_url, None);
}

#[test]
fn connection_test_client_prefers_token() {
    let c = client_for_test("https://ntfy.sh/app", Some("tok".to_string()), Some("u".to_string()), Some("p".to_string()));
    assert_eq!(c.base_url, "https://ntfy.sh");
    assert_eq!(c.api_token, Some("tok".to_string()));
    assert_eq!(c.auth_user, None);

    let c = client_for_test("https://ntfy.sh", Some(String::new()), Some("u".to_string()), None);
    assert_eq!(c.api_token, None);
    assert_eq!(c.auth_user, Some("u".to_string()));
    assert_eq!(c.auth_pass, Some(String::new()));
    assert!(matches!(c.authorization(), Authorization::Basic { .. }));

    let c = client_for_test("https://ntfy.sh", None, Some(String::new()), Some("p".to_string()));
    assert_eq!(c.auth_user, None);
    assert_eq!(c.auth_pass, None);
    assert!(matches!(c.authorization(), Authorization::Anonymous));
}

#[test]
fn stored_credentials_override_only_when_present() {
    let mut config = AppConfig { api_token: "file".to_string(), auth_user: "fu".to_string(), ..AppConfig::default() };
    let stored = Credentials { api_token: "kc".to_string(), auth_user: String::new(), auth_pass: "kp".to_string() };
    merge_credentials(&mut config, stored);
    assert_eq!(config.api_token, "kc");
    assert_eq!(config.auth_user, "fu");
    assert_eq!(config.auth_pass, "kp");
    assert_eq!(config.instance_url, "https://ntfy.sh/app");

    let copy = Credentials::of_config(&config);
    assert_eq!((copy.api_token.as_str(), copy.auth_user.as_str(), copy.auth_pass.as_str()), ("kc", "fu", "kp"));
    let empty = Credentials::default();
    assert!(empty.api_token.is_empty() && empty.auth_user.is_empty() && empty.auth_pass.is_empty());
}

#[test]
fn empty_secrets_are_deleted() {
    assert!(matches!(secret_update(""), SecretUpdate::Delete));
    assert!(matches!(secret_update("s3"), SecretUpdate::Store(ref v) if v == "s3"));
}
