use ntfy_desktop::config::AppConfig;
use ntfy_desktop::notifications::NotificationManager;

#[test]
fn test_app_config_default_flow() {
    // Test that default config provides sensible values
    let config = AppConfig::default();

    // Verify default instance URL
    assert_eq!(config.instance_url, "https://ntfy.sh/app");
    assert_eq!(config.api_base_url(), "https://ntfy.sh");

    // Verify default topics
    assert_eq!(config.topics, "announcements,stats");
    assert_eq!(config.topics_list(), vec!["announcements", "stats"]);
    assert_eq!(config.topics_path(), "announcements,stats");

    // Verify default poll rate
    assert_eq!(config.poll_rate, 60);
    assert_eq!(config.effective_poll_rate(), 60);

    // Verify default window behavior
    assert!(!config.start_hidden);
    assert!(!config.quit_on_close);
    assert!(!config.hotkeys_enabled);
    assert!(!config.dev_tools);

    // Verify notification defaults
    assert_eq!(config.persistent_notifications_mode, ntfy_desktop::config::PersistentNotificationMode::Off);
    assert_eq!(config.notification_sound, ntfy_desktop::config::NotificationSound::Default);
    assert_eq!(config.urgent_notification_sound, ntfy_desktop::config::NotificationSound::Default);
}

#[test]
fn test_notification_manager_flow() {
    // Test notification manager initialization and basic operations
    let manager = NotificationManager::new();

    // Manager should be created successfully
    assert!(matches!(manager, NotificationManager));

    // Default manager should also work
    let default_manager = NotificationManager::default();
    assert!(matches!(default_manager, NotificationManager));
}

#[test]
fn test_notification_logic_flow() {
    let config = AppConfig {
        persistent_notifications_mode: ntfy_desktop::config::PersistentNotificationMode::UrgentOnly,
        notification_sound: ntfy_desktop::config::NotificationSound::Bell,
        urgent_notification_sound: ntfy_desktop::config::NotificationSound::Alert,
        ..AppConfig::default()
    };

    // Test persistent notification logic
    assert!(!config.should_persist_notification(false)); // Regular notification
    assert!(config.should_persist_notification(true));   // Urgent notification

    // Test sound selection
    assert_eq!(config.notification_sound_for(false), &ntfy_desktop::config::NotificationSound::Bell);
    assert_eq!(config.notification_sound_for(true), &ntfy_desktop::config::NotificationSound::Alert);
}

#[test]
fn test_config_methods_flow() {
    // Test all config methods with various inputs
    let test_cases = vec![
        ("https://ntfy.sh/app", "https://ntfy.sh"),
        ("https://ntfy.sh", "https://ntfy.sh"),
        ("https://my-ntfy.example.com/app", "https://my-ntfy.example.com"),
        ("http://localhost:8080", "http://localhost:8080"),
    ];

    for (input_url, expected_base_url) in test_cases {
        let config = AppConfig {
            instance_url: input_url.to_string(),
            ..AppConfig::default()
        };

        assert_eq!(config.api_base_url(), expected_base_url);
    }

    // Test topics parsing
    let topics_cases = vec![
        ("topic1", vec!["topic1"], "topic1"),
        ("topic1,topic2", vec!["topic1", "topic2"], "topic1,topic2"),
        ("topic1, topic2", vec!["topic1", "topic2"], "topic1,topic2"),
        ("", Vec::<&str>::new(), ""),
        ("topic1,,topic2", vec!["topic1", "topic2"], "topic1,topic2"),
    ];

    for (input_topics, expected_list, expected_path) in topics_cases {
        let config = AppConfig {
            topics: input_topics.to_string(),
            ..AppConfig::default()
        };

        assert_eq!(config.topics_list(), expected_list);
        assert_eq!(config.topics_path(), expected_path);
    }

    // Test poll rate clamping
    let poll_cases = vec![
        (5, 5),   // Minimum
        (60, 60), // Normal
        (3600, 3600), // Maximum
        (3, 5),   // Below minimum -> clamped
        (5000, 3600), // Above maximum -> clamped
    ];

    for (input_rate, expected_rate) in poll_cases {
        let config = AppConfig {
            poll_rate: input_rate,
            ..AppConfig::default()
        };

        assert_eq!(config.effective_poll_rate(), expected_rate);
    }
}

#[test]
fn test_notification_flow_scenarios() {
    // Test different notification scenarios
    let scenarios = vec![
        // (persistent_mode, is_urgent, expected_persistent)
        (ntfy_desktop::config::PersistentNotificationMode::Off, false, false),
        (ntfy_desktop::config::PersistentNotificationMode::Off, true, false),
        (ntfy_desktop::config::PersistentNotificationMode::All, false, true),
        (ntfy_desktop::config::PersistentNotificationMode::All, true, true),
        (ntfy_desktop::config::PersistentNotificationMode::UrgentOnly, false, false),
        (ntfy_desktop::config::PersistentNotificationMode::UrgentOnly, true, true),
    ];

    for (mode, is_urgent, expected_persistent) in scenarios {
        let config = AppConfig {
            persistent_notifications_mode: mode,
            ..AppConfig::default()
        };

        assert_eq!(config.should_persist_notification(is_urgent), expected_persistent);
    }

    // Test sound selection scenarios
    let sound_scenarios = vec![
        // (regular_sound, urgent_sound, is_urgent, expected_sound)
        (ntfy_desktop::config::NotificationSound::Bell, ntfy_desktop::config::NotificationSound::Alert, false, ntfy_desktop::config::NotificationSound::Bell),
        (ntfy_desktop::config::NotificationSound::Bell, ntfy_desktop::config::NotificationSound::Alert, true, ntfy_desktop::config::NotificationSound::Alert),
        (ntfy_desktop::config::NotificationSound::Chime, ntfy_desktop::config::NotificationSound::Pop, false, ntfy_desktop::config::NotificationSound::Chime),
        (ntfy_desktop::config::NotificationSound::Chime, ntfy_desktop::config::NotificationSound::Pop, true, ntfy_desktop::config::NotificationSound::Pop),
    ];

    for (regular_sound, urgent_sound, is_urgent, expected_sound) in sound_scenarios {
        let config = AppConfig {
            notification_sound: regular_sound,
            urgent_notification_sound: urgent_sound,
            ..AppConfig::default()
        };

        assert_eq!(config.notification_sound_for(is_urgent), &expected_sound);
    }
}

#[test]
fn test_config_validation_flow() {
    // Test that config validation works correctly

    // Valid config
    let valid_config = AppConfig::default();
    assert_eq!(valid_config.instance_url, "https://ntfy.sh/app");
    assert_eq!(valid_config.poll_rate, 60);
    assert_eq!(valid_config.effective_poll_rate(), 60);

    // Test with extreme values
    let extreme_config = AppConfig {
        poll_rate: 1, // Will be clamped to 5
        ..AppConfig::default()
    };
    assert_eq!(extreme_config.effective_poll_rate(), 5);

    let extreme_config2 = AppConfig {
        poll_rate: 10000, // Will be clamped to 3600
        ..AppConfig::default()
    };
    assert_eq!(extreme_config2.effective_poll_rate(), 3600);

    // Test URL normalization
    let url_cases = vec![
        ("https://ntfy.sh/app", "https://ntfy.sh"),
        ("https://ntfy.sh/app/", "https://ntfy.sh"),
        ("https://ntfy.sh", "https://ntfy.sh"),
        ("http://localhost:8080/app", "http://localhost:8080"),
    ];

    for (input_url, expected_url) in url_cases {
        let config = AppConfig {
            instance_url: input_url.to_string(),
            ..AppConfig::default()
        };
        assert_eq!(config.api_base_url(), expected_url);
    }
}
