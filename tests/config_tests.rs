use ntfy_desktop::config::{AppConfig, NotificationSound, PersistentNotificationMode};

#[test]
fn test_default_config() {
    let config = AppConfig::default();

    assert_eq!(config.instance_url, "https://ntfy.sh/app");
    assert_eq!(config.api_token, "");
    assert_eq!(config.auth_user, "");
    assert_eq!(config.auth_pass, "");
    assert_eq!(config.topics, "announcements,stats");
    assert_eq!(config.poll_rate, 60);
    assert_eq!(config.datetime_format, "YYYY-MM-DD hh:mm a");
    assert!(!config.persistent_notifications);
    assert_eq!(config.persistent_notifications_mode, PersistentNotificationMode::Off);
    assert_eq!(config.notification_sound, NotificationSound::Default);
    assert_eq!(config.urgent_notification_sound, NotificationSound::Default);
    assert!(!config.self_hosted_instance);
    assert!(!config.start_hidden);
    assert!(!config.quit_on_close);
    assert!(!config.hotkeys_enabled);
    assert!(!config.dev_tools);
    assert!(!config.welcome_completed);
    assert_eq!(config.urgent_priority_threshold, 4);
}

#[test]
fn test_api_base_url() {
    let mut config = AppConfig::default();

    // Test normal URL
    config.instance_url = "https://ntfy.sh/app".to_string();
    assert_eq!(config.api_base_url(), "https://ntfy.sh");

    // Test URL without /app suffix
    config.instance_url = "https://ntfy.sh".to_string();
    assert_eq!(config.api_base_url(), "https://ntfy.sh");

    // Test URL with trailing slash
    config.instance_url = "https://ntfy.sh/app/".to_string();
    assert_eq!(config.api_base_url(), "https://ntfy.sh");

    // Test custom instance
    config.instance_url = "https://my-ntfy.example.com/app".to_string();
    assert_eq!(config.api_base_url(), "https://my-ntfy.example.com");

    // Test self-hosted instance without /app suffix
    config.instance_url = "http://localhost:8080".to_string();
    assert_eq!(config.api_base_url(), "http://localhost:8080");

    // Test self-hosted instance with /app suffix
    config.instance_url = "http://192.168.1.100:8080/app".to_string();
    assert_eq!(config.api_base_url(), "http://192.168.1.100:8080");
}

#[test]
fn config_test_topics_parsing() {
    let mut config = AppConfig::default();

    // Test normal comma-separated topics
    config.topics = "topic1,topic2,topic3".to_string();
    assert_eq!(config.topics_list(), vec!["topic1", "topic2", "topic3"]);
    assert_eq!(config.topics_path(), "topic1,topic2,topic3");

    // Test with spaces
    config.topics = "topic1, topic2, topic3".to_string();
    assert_eq!(config.topics_list(), vec!["topic1", "topic2", "topic3"]);
    assert_eq!(config.topics_path(), "topic1,topic2,topic3");

    // Test with empty topics
    config.topics = "".to_string();
    assert_eq!(config.topics_list(), Vec::<String>::new());
    assert_eq!(config.topics_path(), "");

    // Test with extra commas
    config.topics = "topic1,,topic2,".to_string();
    assert_eq!(config.topics_list(), vec!["topic1", "topic2"]);
    assert_eq!(config.topics_path(), "topic1,topic2");
}

#[test]
fn config_test_poll_rate_clamping() {
    let mut config = AppConfig::default();

    // Test normal value
    config.poll_rate = 60;
    assert_eq!(config.effective_poll_rate(), 60);

    // Test lower bound
    config.poll_rate = 3;
    assert_eq!(config.effective_poll_rate(), 5);

    // Test upper bound
    config.poll_rate = 5000;
    assert_eq!(config.effective_poll_rate(), 3600);

    // Test minimum valid
    config.poll_rate = 5;
    assert_eq!(config.effective_poll_rate(), 5);

    // Test maximum valid
    config.poll_rate = 3600;
    assert_eq!(config.effective_poll_rate(), 3600);
}

#[test]
fn test_config_default_values() {
    let config = AppConfig::default();

    assert_eq!(config.instance_url, "https://ntfy.sh/app");
    assert_eq!(config.api_token, "");
    assert_eq!(config.auth_user, "");
    assert_eq!(config.auth_pass, "");
    assert_eq!(config.topics, "announcements,stats");
    assert_eq!(config.poll_rate, 60);
    assert_eq!(config.datetime_format, "YYYY-MM-DD hh:mm a");
    assert!(!config.persistent_notifications);
    assert_eq!(config.persistent_notifications_mode, PersistentNotificationMode::Off);
    assert_eq!(config.notification_sound, NotificationSound::Default);
    assert_eq!(config.urgent_notification_sound, NotificationSound::Default);
    assert!(!config.self_hosted_instance);
    assert!(!config.start_hidden);
    assert!(!config.quit_on_close);
    assert!(!config.hotkeys_enabled);
    assert!(!config.dev_tools);
    assert!(!config.welcome_completed);
    assert_eq!(config.urgent_priority_threshold, 4);
}

#[test]
fn test_api_base_url_parsing() {
    let mut config = AppConfig::default();

    // Test various URL formats
    config.instance_url = "https://ntfy.sh/app".to_string();
    assert_eq!(config.api_base_url(), "https://ntfy.sh");

    config.instance_url = "https://ntfy.sh".to_string();
    assert_eq!(config.api_base_url(), "https://ntfy.sh");

    config.instance_url = "https://ntfy.sh/app/".to_string();
    assert_eq!(config.api_base_url(), "https://ntfy.sh");

    config.instance_url = "https://my-ntfy.example.com/app".to_string();
    assert_eq!(config.api_base_url(), "https://my-ntfy.example.com");

    config.instance_url = "http://localhost:8080".to_string();
    assert_eq!(config.api_base_url(), "http://localhost:8080");
}

#[test]
fn config_tests_test_topics_parsing() {
    let mut config = AppConfig::default();

    // Normal comma-separated topics
    config.topics = "topic1,topic2,topic3".to_string();
    assert_eq!(config.topics_list(), vec!["topic1", "topic2", "topic3"]);
    assert_eq!(config.topics_path(), "topic1,topic2,topic3");

    // Topics with spaces
    config.topics = "topic1, topic2, topic3".to_string();
    assert_eq!(config.topics_list(), vec!["topic1", "topic2", "topic3"]);
    assert_eq!(config.topics_path(), "topic1,topic2,topic3");

    // Empty topics
    config.topics = "".to_string();
    assert_eq!(config.topics_list(), Vec::<String>::new());
    assert_eq!(config.topics_path(), "");

    // Topics with extra commas
    config.topics = "topic1,,topic2,".to_string();
    assert_eq!(config.topics_list(), vec!["topic1", "topic2"]);
    assert_eq!(config.topics_path(), "topic1,topic2");
}

#[test]
fn config_tests_test_poll_rate_clamping() {
    let mut config = AppConfig::default();

    // Normal value
    config.poll_rate = 60;
    assert_eq!(config.effective_poll_rate(), 60);

    // Below minimum
    config.poll_rate = 3;
    assert_eq!(config.effective_poll_rate(), 5);

    // Above maximum
    config.poll_rate = 5000;
    assert_eq!(config.effective_poll_rate(), 3600);

    // At minimum
    config.poll_rate = 5;
    assert_eq!(config.effective_poll_rate(), 5);

    // At maximum
    config.poll_rate = 3600;
    assert_eq!(config.effective_poll_rate(), 3600);
}

#[test]
fn test_persistent_notification_logic() {
    let mut config = AppConfig::default();

    // Off mode
    config.persistent_notifications_mode = PersistentNotificationMode::Off;
    assert!(!config.should_persist_notification(false));
    assert!(!config.should_persist_notification(true));

    // All mode
    config.persistent_notifications_mode = PersistentNotificationMode::All;
    assert!(config.should_persist_notification(false));
    assert!(config.should_persist_notification(true));

    // UrgentOnly mode
    config.persistent_notifications_mode = PersistentNotificationMode::UrgentOnly;
    assert!(!config.should_persist_notification(false));
    assert!(config.should_persist_notification(true));
}

#[test]
fn config_tests_test_notification_sound_selection() {
    let mut config = AppConfig::default();

    config.notification_sound = NotificationSound::Chime;
    config.urgent_notification_sound = NotificationSound::Alert;

    assert_eq!(config.notification_sound_for(false), &NotificationSound::Chime);
    assert_eq!(config.notification_sound_for(true), &NotificationSound::Alert);
}
