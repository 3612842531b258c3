use clipvanish::cli::{Command, ParseError, parse_interactive_command};
use clipvanish::config::Config;
use clipvanish::keyboard::{KeyAction, KeyboardEvent, KeyboardMonitor, Modifier, RawKey};
use clipvanish::memory::{MemoryStats, SecureMemory, SecureMemoryBlock, SecureString};
use clipvanish::timer::{DestructTimer, TimerEvent, TimerState};

#[test]
fn test_default_config() {
    let config = Config::default();
    assert_eq!(config.version, "0.1.0");
    assert_eq!(config.timer.default_countdown, 30);
    assert!(config.security.enable_memory_locking);
    assert!(config.ui.show_progress);
}

#[test]
fn test_config_validation() {
    let mut config = Config::default();

    assert!(config.validate().is_ok());

    config.timer.min_countdown = 100;
    config.timer.max_countdown = 50;
    assert!(config.validate().is_err());

    config.timer.min_countdown = 5;
    config.timer.max_countdown = 3600;
    assert!(config.validate().is_ok());

    config.ui.log_level = "invalid".to_string();
    assert!(config.validate().is_err());
}

#[test]
fn test_duration_helpers() {
    let config = Config::default();

    let countdown_seconds = config.get_default_countdown_duration();
    assert_eq!(countdown_seconds, 30);

    let poll_interval_ms = config.get_poll_interval();
    assert_eq!(poll_interval_ms, 100);
}

#[test]
fn test_config_reset() {
    let mut config = Config::default();
    config.timer.default_countdown = 99;
    config.reset_to_default().unwrap();
    assert_eq!(config.timer.default_countdown, 30);
    assert!(config.validate().is_ok());
}

#[test]
fn test_timer_creation() {
    let timer = DestructTimer::new();
    assert_eq!(timer.get_state(), TimerState::Idle);
    assert!(!timer.is_running());
}

#[test]
fn test_timer_start_and_complete() {
    // A two-second countdown, observed past its end, completes exactly once.
    let mut timer = DestructTimer::new();
    timer.start_service();

    let started = timer.start_countdown(2000, 0).unwrap();
    let generation = 1u64;
    assert!(matches!(started, TimerEvent::Started { duration_ms: 2000, timestamp_ms: 0 }));
    assert!(timer.is_running());

    let mut completed_events = 0;
    for now in [1000u64, 2000, 2200] {
        match timer.tick(generation, now) {
            Some(TimerEvent::Tick { remaining_ms, elapsed_ms, .. }) => {
                assert_eq!(remaining_ms + elapsed_ms, 2000);
            },
            Some(TimerEvent::Completed { total_duration_ms, .. }) => {
                assert_eq!(total_duration_ms, 2000);
                completed_events += 1;
            },
            Some(_) => panic!("unexpected event"),
            None => {},
        }
    }
    assert_eq!(completed_events, 1);
    assert_eq!(timer.get_state(), TimerState::Completed);
}

#[test]
fn test_timer_cancellation() {
    let mut timer = DestructTimer::new();
    timer.start_service();

    timer.start_countdown(10000, 0).unwrap();
    assert!(timer.is_running());

    let cancelled = timer.stop_countdown(100).unwrap();
    match cancelled {
        Some(TimerEvent::Cancelled { remaining_ms, timestamp_ms }) => {
            assert_eq!(remaining_ms, 9900);
            assert_eq!(timestamp_ms, 100);
        },
        _ => panic!("expected a cancelled event"),
    }
    assert_eq!(timer.get_state(), TimerState::Cancelled);

    // A tick of the aborted countdown's generation is ignored.
    assert!(timer.tick(1, 1000).is_none());
}

#[test]
fn test_timer_supersession() {
    // Starting a new countdown suppresses every event of the old one: no
    // tick or completion of the first countdown is observable after the
    // second starts, and the second completes normally.
    let mut timer = DestructTimer::new();
    timer.start_service();

    timer.start_countdown(10000, 0).unwrap();
    let first_generation = 1u64;
    timer.start_countdown(1000, 100).unwrap();
    let second_generation = 2u64;

    // The aborted countdown's pending ticks arrive late and die silently,
    // even past its own would-be completion.
    assert!(timer.tick(first_generation, 500).is_none());
    assert!(timer.tick(first_generation, 10500).is_none());
    assert!(timer.is_running());

    // The new countdown ticks and completes as the only visible one.
    assert!(matches!(
        timer.tick(second_generation, 600),
        Some(TimerEvent::Tick { remaining_ms: 500, .. })
    ));
    assert!(matches!(
        timer.tick(second_generation, 1100),
        Some(TimerEvent::Completed { total_duration_ms: 1000, .. })
    ));
    assert_eq!(timer.get_state(), TimerState::Completed);
}

#[test]
fn test_remaining_time() {
    let mut timer = DestructTimer::new();
    timer.start_service();

    timer.start_countdown(5000, 0).unwrap();

    let remaining = timer.get_remaining_time(1000).unwrap();
    assert!(remaining <= 4000);
    assert!(remaining >= 3000);
}

#[test]
fn timer_test_duration_formatting() {
    assert_eq!(DestructTimer::format_duration(30_000), "30s");
    assert_eq!(DestructTimer::format_duration(90_000), "1:30");
    assert_eq!(DestructTimer::format_duration(3_661_000), "1:01:01");
}

#[test]
fn test_secure_memory_allocation() {
    let mut block = SecureMemoryBlock::allocate(1024).unwrap();
    assert_eq!(block.size(), 1024);
    assert!(!block.is_locked());

    block.set(0, 42);
    assert_eq!(block.get(0), 42);
}

#[test]
fn test_memory_locking() {
    let mut block = SecureMemoryBlock::allocate(4096).unwrap();

    // The platform capability's answer is handed in; with pinning granted
    // the lock state follows it.
    let lock_result = block.lock(true);
    assert!(lock_result.is_ok());
    assert!(block.is_locked());

    block.unlock(true).unwrap();
    assert!(!block.is_locked());

    // A refused pin downgrades capability and reports the failure.
    assert!(block.lock(false).is_err());
    assert!(!block.is_locked());
}

#[test]
fn test_secure_erase() {
    let mut block = SecureMemoryBlock::allocate(100).unwrap();

    for i in 0..100 {
        block.set(i, (i % 256) as u8);
    }

    assert_eq!(block.get(0), 0);
    assert_eq!(block.get(50), 50);

    block.secure_erase();

    for &byte in block.as_slice() {
        assert_eq!(byte, 0);
    }
}

#[test]
fn test_allocate_zero_refused() {
    assert!(SecureMemoryBlock::allocate(0).is_err());
}

#[test]
fn test_secure_string() {
    let secure_str = SecureString::from_str("sensitive data");
    assert_eq!(secure_str.as_str(), "sensitive data");
    assert_eq!(secure_str.len(), 14);
    assert!(!secure_str.is_empty());

    // The printable form never shows the text itself.
    let display_str = secure_str.display_text();
    assert!(!display_str.contains("sensitive"));
    assert!(display_str.contains("SECURE_STRING"));
    assert_eq!(display_str, "[SECURE_STRING:14bytes]");
}

#[test]
fn test_memory_stats() {
    let stats = MemoryStats { page_size: 4096, supports_locking: false };
    assert!(stats.page_size > 0);
    println!("page size: {} bytes", stats.page_size);
    println!("memory locking supported: {}", stats.supports_locking);
}

#[test]
fn test_secure_zero_memory() {
    SecureMemory::secure_zero_memory();
}

#[test]
fn test_keyboard_monitor_creation() {
    let monitor = KeyboardMonitor::new();
    assert!(!monitor.is_stopped());
}

#[test]
fn test_paste_combination_detection() {
    let mut monitor = KeyboardMonitor::new();

    // Plain V is no paste.
    assert!(monitor.process_key_event(RawKey::VKey, KeyAction::Press, 1).is_none());

    // Ctrl down, V down: a paste.
    assert!(monitor
        .process_key_event(RawKey::ModifierKey(Modifier::Control), KeyAction::Press, 2)
        .is_none());
    let event = monitor.process_key_event(RawKey::VKey, KeyAction::Press, 3);
    match event {
        Some(KeyboardEvent::PasteDetected { timestamp_ms, key_combination }) => {
            assert_eq!(timestamp_ms, 3);
            assert_eq!(key_combination, "Ctrl+V");
        },
        _ => panic!("expected a paste detection"),
    }

    // Ctrl+Alt+V is not the paste combination.
    assert!(monitor
        .process_key_event(RawKey::ModifierKey(Modifier::Alt), KeyAction::Press, 4)
        .is_none());
    assert!(monitor.process_key_event(RawKey::VKey, KeyAction::Press, 5).is_none());

    // While a programmatic paste is under way, events are ignored.
    assert!(monitor
        .process_key_event(RawKey::ModifierKey(Modifier::Alt), KeyAction::Release, 6)
        .is_none());
    monitor.set_paste_in_progress(true);
    assert!(monitor.process_key_event(RawKey::VKey, KeyAction::Press, 7).is_none());
    monitor.set_paste_in_progress(false);
    assert!(monitor.process_key_event(RawKey::VKey, KeyAction::Press, 8).is_some());
}

#[test]
fn test_trigger_paste_detection() {
    let monitor = KeyboardMonitor::new();
    let event = monitor.trigger_paste_detection("Cmd+V", 42);
    match event {
        KeyboardEvent::PasteDetected { timestamp_ms, key_combination } => {
            assert_eq!(timestamp_ms, 42);
            assert_eq!(key_combination, "Cmd+V");
        },
        _ => panic!("expected a paste detection"),
    }
}

#[test]
fn test_parse_interactive_command() {
    assert_eq!(
        parse_interactive_command("start").unwrap(),
        Command::Start { timer: 30, daemon: false }
    );
    assert_eq!(
        parse_interactive_command("start --timer 60 --daemon").unwrap(),
        Command::Start { timer: 60, daemon: true }
    );
    assert_eq!(
        parse_interactive_command("start -t 5").unwrap(),
        Command::Start { timer: 5, daemon: false }
    );
    assert_eq!(parse_interactive_command("nuke").unwrap(), Command::Nuke { force: false });
    assert_eq!(parse_interactive_command("nuke --force").unwrap(), Command::Nuke { force: true });
    assert_eq!(parse_interactive_command("nuke -f").unwrap(), Command::Nuke { force: true });
    assert_eq!(parse_interactive_command("status").unwrap(), Command::Status);
    assert_eq!(parse_interactive_command("stop").unwrap(), Command::Stop);
    assert_eq!(parse_interactive_command("config").unwrap(), Command::Config { reset: false });
    assert_eq!(
        parse_interactive_command("config --reset").unwrap(),
        Command::Config { reset: true }
    );
    assert_eq!(parse_interactive_command("exit").unwrap(), Command::Exit);

    assert_eq!(parse_interactive_command("").unwrap_err(), ParseError::Empty);
    assert_eq!(parse_interactive_command("   ").unwrap_err(), ParseError::Empty);
    assert_eq!(parse_interactive_command("bogus").unwrap_err(), ParseError::UnknownCommand);
    assert_eq!(parse_interactive_command("start --timer").unwrap_err(), ParseError::MissingValue);
    assert_eq!(
        parse_interactive_command("start --timer abc").unwrap_err(),
        ParseError::InvalidNumber
    );
    assert_eq!(
        parse_interactive_command("start --timer 99999999999999999999").unwrap_err(),
        ParseError::InvalidNumber
    );
    assert_eq!(parse_interactive_command("start --bogus").unwrap_err(), ParseError::UnknownArgument);
}
