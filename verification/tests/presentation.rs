use nas_boot::app_state::AppState;
use nas_boot::config::{client_config_text, server_config_text, Config, ServerConfig};
use nas_boot::config_file::{get_config_path, parse_server_config};
use nas_boot::logging::{EventKind, EventLogger, LogLevel, QnapLogger};
use nas_boot::text::{decimal_i64, decimal_u64};
use nas_boot::status::{
    display_changed, elapsed, last_heartbeat_ago, status_text, tray_icon, Elapsed,
};
use nas_boot::user_activity::is_active_at;
use nas_boot::wake_mode::WakeMode;
use nas_boot::wide::to_wide_string;

#[test]
fn client_config_defaults() {
    let config = Config::default();
    assert_eq!(config.nas_mac, "00:08:9B:DB:EF:9A");
    assert_eq!(config.nas_ip, "192.168.42.2");
    assert_eq!(config.router_ip, "192.168.42.1");
    assert_eq!(config.heartbeat_url, "http://192.168.42.2:8090/heartbeat");
    assert_eq!(config.check_interval_secs, 60);
    assert_eq!(config.idle_threshold_mins, 5);
    assert_eq!(config.heartbeat_timeout_secs, 5);
    assert_eq!(config.wake_mode, WakeMode::Auto);
}

#[test]
fn server_config_defaults() {
    let config = ServerConfig::default();
    assert_eq!(config.bind_address, "0.0.0.0:8090");
    assert_eq!(config.shutdown_delay_mins, 10);
    assert_eq!(config.keepalive_file, "/share/Public/keepalive.txt");
    assert_eq!(
        config.backup_process_pattern,
        "python /share/CACHEDEV1_DATA/.qpkg/AzureStorage/bin/engine.pyc backup"
    );
    assert_eq!(config.heartbeat_timeout_mins, 2);
    assert_eq!(config.check_interval_secs, 60);
}

#[test]
fn server_config_path() {
    assert_eq!(
        get_config_path(),
        "/share/CACHEDEV1_DATA/.config/nas-boot/nas-boot-server-config.yaml"
    );
}

#[test]
fn status_lines() {
    for mode in [WakeMode::Off, WakeMode::Auto, WakeMode::AlwaysOn] {
        assert_eq!(status_text(AppState::Unknown, mode), "Status: Unknown");
        assert_eq!(status_text(AppState::NasReady, mode), "Status: NAS Ready");
    }
    assert_eq!(status_text(AppState::Idle, WakeMode::AlwaysOn), "Status: NAS Needed");
    assert_eq!(status_text(AppState::Idle, WakeMode::Auto), "Status: Idle");
    assert_eq!(status_text(AppState::Idle, WakeMode::Off), "Status: NAS Not Needed");
    assert_eq!(status_text(AppState::WakeUp, WakeMode::AlwaysOn), "Status: Waking NAS");
    assert_eq!(status_text(AppState::WakeUp, WakeMode::Auto), "Status: Waking NAS");
    assert_eq!(status_text(AppState::WakeUp, WakeMode::Off), "Status: NAS Not Needed");
}

#[test]
fn tray_icons() {
    assert_eq!(tray_icon(AppState::Unknown), "nas_grey_ico");
    assert_eq!(tray_icon(AppState::Idle), "nas_grey_ico");
    assert_eq!(tray_icon(AppState::WakeUp), "nas_yellow_ico");
    assert_eq!(tray_icon(AppState::NasReady), "nas_green_ico");
}

#[test]
fn heartbeat_age_units() {
    assert_eq!(elapsed(0), Elapsed::Seconds(0));
    assert_eq!(elapsed(59), Elapsed::Seconds(59));
    assert_eq!(elapsed(60), Elapsed::Minutes(1));
    assert_eq!(elapsed(3599), Elapsed::Minutes(59));
    assert_eq!(elapsed(3600), Elapsed::Hours(1));
    assert_eq!(elapsed(7199), Elapsed::Hours(1));
    assert_eq!(elapsed(86_400), Elapsed::Hours(24));
}

#[test]
fn heartbeat_age_in_words() {
    assert_eq!(last_heartbeat_ago(0), "0 seconds ago");
    assert_eq!(last_heartbeat_ago(59), "59 seconds ago");
    assert_eq!(last_heartbeat_ago(60), "1 minutes ago");
    assert_eq!(last_heartbeat_ago(3599), "59 minutes ago");
    assert_eq!(last_heartbeat_ago(3600), "1 hours ago");
    assert_eq!(last_heartbeat_ago(90_000), "25 hours ago");
    assert_eq!(last_heartbeat_ago(u64::MAX), "5124095576030431 hours ago");
}

#[test]
fn decimal_text_of_unsigned() {
    for number in [0u64, 1, 9, 10, 11, 99, 100, 101, 12_345, 1_000_000, u64::MAX] {
        assert_eq!(decimal_u64(number), format!("{number}"));
    }
}

#[test]
fn decimal_text_of_signed() {
    for number in [0i64, 1, -1, 9, -9, 10, -10, 12_345, -12_345, i64::MAX, i64::MIN] {
        assert_eq!(decimal_i64(number), format!("{number}"));
    }
}

#[test]
fn client_config_file_text() {
    let expected = "nas_mac: \"00:08:9B:DB:EF:9A\"\n\
                    nas_ip: \"192.168.42.2\"\n\
                    router_ip: \"192.168.42.1\"\n\
                    heartbeat_url: \"http://192.168.42.2:8090/heartbeat\"\n\
                    check_interval_secs: 60\n\
                    idle_threshold_mins: 5\n\
                    heartbeat_timeout_secs: 5\n";
    assert_eq!(client_config_text(&Config::default()), expected);
}

#[test]
fn server_config_file_text() {
    let expected = "bind_address: \"0.0.0.0:8090\"\n\
                    shutdown_delay_mins: 10\n\
                    keepalive_file: \"/share/Public/keepalive.txt\"\n\
                    backup_process_pattern: \"python /share/CACHEDEV1_DATA/.qpkg/AzureStorage/bin/engine.pyc backup\"\n\
                    heartbeat_timeout_mins: 2\n\
                    check_interval_secs: 60\n";
    assert_eq!(server_config_text(&ServerConfig::default()), expected);
}

#[test]
fn server_config_text_reads_back() {
    let config = ServerConfig {
        bind_address: "127.0.0.1:1".to_string(),
        shutdown_delay_mins: -7,
        keepalive_file: "/tmp/keep".to_string(),
        backup_process_pattern: "rsync --archive".to_string(),
        heartbeat_timeout_mins: 3,
        check_interval_secs: 15,
    };
    let read = parse_server_config(&server_config_text(&config)).unwrap();
    assert_eq!(read.bind_address, config.bind_address);
    assert_eq!(read.shutdown_delay_mins, config.shutdown_delay_mins);
    assert_eq!(read.keepalive_file, config.keepalive_file);
    assert_eq!(read.backup_process_pattern, config.backup_process_pattern);
    assert_eq!(read.heartbeat_timeout_mins, config.heartbeat_timeout_mins);
    assert_eq!(read.check_interval_secs, config.check_interval_secs);
}

#[test]
fn device_log_tool_arguments() {
    let sink = QnapLogger;
    assert_eq!(sink.level_code(LogLevel::Error), "2");
    assert_eq!(sink.level_code(LogLevel::Warn), "1");
    assert_eq!(sink.level_code(LogLevel::Info), "0");
    assert_eq!(sink.level_code(LogLevel::Debug), "0");
    assert_eq!(sink.level_code(LogLevel::Trace), "0");
    assert_eq!(sink.message("listening"), "[NAS Boot Server] listening");
    assert_eq!(sink.message(""), "[NAS Boot Server] ");
    assert!(sink.enabled(LogLevel::Trace));
    assert!(sink.enabled(LogLevel::Error));
}

#[test]
fn event_log_kinds_and_exit_codes() {
    let sink = EventLogger;
    assert_eq!(sink.event_kind(LogLevel::Error), EventKind::Error);
    assert_eq!(sink.event_kind(LogLevel::Warn), EventKind::Warning);
    assert_eq!(sink.event_kind(LogLevel::Info), EventKind::Information);
    assert_eq!(sink.event_kind(LogLevel::Debug), EventKind::Success);
    assert_eq!(sink.event_kind(LogLevel::Trace), EventKind::Success);
    assert_eq!(sink.exit_code(LogLevel::Error), Some(1));
    assert_eq!(sink.exit_code(LogLevel::Warn), Some(2));
    assert_eq!(sink.exit_code(LogLevel::Info), None);
    assert_eq!(sink.exit_code(LogLevel::Debug), None);
    assert_eq!(sink.exit_code(LogLevel::Trace), None);
}

#[test]
fn event_log_takes_records_up_to_the_maximum_level() {
    let sink = EventLogger;
    assert!(sink.enabled(LogLevel::Error, Some(LogLevel::Info)));
    assert!(sink.enabled(LogLevel::Info, Some(LogLevel::Info)));
    assert!(!sink.enabled(LogLevel::Debug, Some(LogLevel::Info)));
    assert!(!sink.enabled(LogLevel::Trace, Some(LogLevel::Error)));
    assert!(sink.enabled(LogLevel::Trace, Some(LogLevel::Trace)));
    assert!(!sink.enabled(LogLevel::Error, None));
    assert_eq!(LogLevel::Error.rank_of(), 1);
    assert_eq!(LogLevel::Trace.rank_of(), 5);
}

#[test]
fn display_change_detection() {
    assert!(!display_changed(AppState::Idle, WakeMode::Auto, AppState::Idle, WakeMode::Auto));
    assert!(display_changed(AppState::WakeUp, WakeMode::Auto, AppState::Idle, WakeMode::Auto));
    assert!(display_changed(AppState::Idle, WakeMode::Off, AppState::Idle, WakeMode::Auto));
}

#[test]
fn activity_from_tick_counters() {
    // Five minutes are 300000 ms.
    assert!(is_active_at(1_000_000, 1_000_000, 5));
    assert!(is_active_at(1_000_000, 700_001, 5));
    assert!(!is_active_at(1_000_000, 700_000, 5));
    assert!(!is_active_at(1_000_000, 0, 5));
    assert!(!is_active_at(5, 5, 0));
}

#[test]
fn activity_across_counter_wrap() {
    assert!(is_active_at(10, u32::MAX - 10, 5));
    assert_eq!(10u32.wrapping_sub(u32::MAX - 10), 21);
    assert!(!is_active_at(300_000, u32::MAX, 5));
    assert!(is_active_at(299_998, u32::MAX, 5));
}

#[test]
fn activity_threshold_wraps_like_the_counter() {
    // 71583 minutes are 4294980000 ms, which the 32-bit counter holds as 12704.
    assert!(is_active_at(12_703, 0, 71_583));
    assert!(!is_active_at(12_704, 0, 71_583));
}

#[test]
fn wide_string_of_ascii() {
    assert_eq!(to_wide_string("NAS"), vec![0x4e, 0x41, 0x53, 0]);
    assert_eq!(to_wide_string(""), vec![0]);
}

#[test]
fn wide_string_matches_utf16() {
    for text in ["NASBootClient", "héllo wörld", "日本語", "a😀b", "\u{10000}\u{10ffff}\u{ffff}"] {
        let mut expected: Vec<u16> = text.encode_utf16().collect();
        expected.push(0);
        assert_eq!(to_wide_string(text), expected);
    }
}

#[test]
fn wide_string_surrogate_pair() {
    assert_eq!(to_wide_string("😀"), vec![0xd83d, 0xde00, 0]);
}
