use clipvanish::clipboard::{
    CheckOutcome, ClearReason, ClipboardMonitor, ClipboardOperation, ContentType,
};
use clipvanish::config::Config;

fn sensitive_config() -> Config {
    let mut config = Config::default();
    config.sensitive_pattern = "(?i)password|secret|token".to_string();
    config.clear_delay_seconds = 1;
    config
}

#[test]
fn test_clipboard_monitor_creation() {
    let config = Config::default();
    let monitor = ClipboardMonitor::new(config, 0);
    assert!(monitor.is_ok());
}

#[test]
fn test_sensitive_content_detection() {
    // The default pattern classifies every non-empty content as sensitive.
    let config = Config::default();
    let monitor = ClipboardMonitor::new(config, 0).unwrap();

    assert!(monitor.is_sensitive_content("password123"));
    assert!(monitor.is_sensitive_content("my secret"));
    assert!(monitor.is_sensitive_content("api_key"));
    assert!(monitor.is_sensitive_content("private data"));
    assert!(monitor.is_sensitive_content("auth token"));
    assert!(monitor.is_sensitive_content("bearer token"));
    assert!(monitor.is_sensitive_content("hello world"));
    assert!(monitor.is_sensitive_content("normal text"));
    assert!(monitor.is_sensitive_content("just some text"));

    assert!(!monitor.is_sensitive_content(""));

    let mut custom_config = Config::default();
    custom_config.sensitive_pattern = "(?i)password|secret|token|api[_-]?key".to_string();
    let custom_monitor = ClipboardMonitor::new(custom_config, 0).unwrap();

    assert!(custom_monitor.is_sensitive_content("password123"));
    assert!(custom_monitor.is_sensitive_content("my secret"));
    assert!(custom_monitor.is_sensitive_content("api_key"));
    assert!(custom_monitor.is_sensitive_content("auth token"));
    assert!(custom_monitor.is_sensitive_content("bearer token"));

    assert!(!custom_monitor.is_sensitive_content("hello world"));
    assert!(!custom_monitor.is_sensitive_content("normal text"));
    assert!(!custom_monitor.is_sensitive_content("just some text"));
    assert!(!custom_monitor.is_sensitive_content(""));
}

#[test]
fn test_content_hash_calculation() {
    let config = Config::default();
    let monitor = ClipboardMonitor::new(config, 0).unwrap();

    let content1 = "Hello, World!";
    let content2 = "Hello, World!";
    let content3 = "Different content";

    let hash1 = monitor.calculate_content_hash(content1);
    let hash2 = monitor.calculate_content_hash(content2);
    let hash3 = monitor.calculate_content_hash(content3);

    assert_eq!(hash1, hash2);
    assert_ne!(hash1, hash3);
}

#[test]
fn test_hash_corpus_distinct() {
    let corpus = [
        "", "a", "b", "ab", "ba", "password", "Password", "hello world", "hello world ",
        "0", "1", "00", "🙂", "secret token",
    ];
    for (i, x) in corpus.iter().enumerate() {
        for (j, y) in corpus.iter().enumerate() {
            let hx = clipvanish::hash::content_hash(x);
            let hy = clipvanish::hash::content_hash(y);
            if i == j {
                assert_eq!(hx, hy);
            } else {
                assert_ne!(hx, hy);
            }
        }
    }
}

#[test]
fn test_clear_clipboard_method() {
    let config = Config::default();
    let mut monitor = ClipboardMonitor::new(config, 0).unwrap();

    monitor.set_clipboard_content("another test content");

    let event = monitor.clear_clipboard(ClearReason::ManualClear, 5);
    match event {
        clipvanish::clipboard::ClipboardEvent::ContentCleared { reason, timestamp_ms } => {
            assert!(matches!(reason, ClearReason::ManualClear));
            assert_eq!(timestamp_ms, 5);
        },
        _ => panic!("expected a cleared event"),
    }
    assert_eq!(monitor.get_state().encrypted_content_length, 0);
}

#[test]
fn test_clear_idempotence() {
    // Clearing always ends with no sealed content, from any prior state.
    let mut monitor = ClipboardMonitor::new(sensitive_config(), 0).unwrap();

    // Fill it first.
    let outcome = monitor
        .check_clipboard_change(Some("password123".to_string()), 10)
        .unwrap();
    let pending = match outcome {
        CheckOutcome::Seal(p) => p,
        _ => panic!("expected a sealing"),
    };
    monitor.commit_seal(pending, 11);
    assert!(monitor.get_state().encrypted_content_length > 0);

    monitor.clear_clipboard(ClearReason::ManualClear, 20);
    assert_eq!(monitor.get_state().encrypted_content_length, 0);

    // Clearing an already-empty monitor leaves it empty.
    monitor.clear_clipboard(ClearReason::ManualClear, 21);
    assert_eq!(monitor.get_state().encrypted_content_length, 0);
}

#[test]
fn test_stale_destruction_noop() {
    // Copy A, schedule its destruction, copy B before the delay elapses:
    // A's ticket must no-op and B's surrogate must survive.
    let mut monitor = ClipboardMonitor::new(sensitive_config(), 0).unwrap();

    let outcome_a = monitor
        .check_clipboard_change(Some("password aaa".to_string()), 100)
        .unwrap();
    let pending_a = match outcome_a {
        CheckOutcome::Seal(p) => p,
        _ => panic!("expected a sealing for A"),
    };
    let (_, ticket_a) = monitor.commit_seal(pending_a, 100);

    let outcome_b = monitor
        .check_clipboard_change(Some("password bbb".to_string()), 200)
        .unwrap();
    let pending_b = match outcome_b {
        CheckOutcome::Seal(p) => p,
        _ => panic!("expected a sealing for B"),
    };
    let surrogate_b = pending_b.surrogate_text().to_string();
    let (_, _ticket_b) = monitor.commit_seal(pending_b, 200);

    // A's delay elapses; the ticket is stale.
    assert!(!monitor.destruction_due(&ticket_a));
    let fired = monitor.finish_destruction(&ticket_a, true, 1200);
    assert!(fired.is_none());

    // B's payload and surrogate are untouched.
    assert!(monitor.get_state().encrypted_content_length > 0);
    assert!(monitor.is_our_encrypted_content(&surrogate_b));
}

#[test]
fn test_end_to_end_scenario() {
    // Copy "password123" under the sensitive pattern: the state shows
    // sealed content and the surrogate is Base64 text longer than sixteen
    // characters; after the delay the destruction empties everything.
    let mut monitor = ClipboardMonitor::new(sensitive_config(), 0).unwrap();
    monitor.start_monitoring(None);

    let outcome = monitor
        .check_clipboard_change(Some("password123".to_string()), 50)
        .unwrap();
    let pending = match outcome {
        CheckOutcome::Seal(p) => p,
        _ => panic!("expected a sealing"),
    };
    let surrogate = pending.surrogate_text().to_string();
    assert!(surrogate.len() > 16);
    // 11 plaintext bytes + 16-byte tag + 12-byte nonce = 39 bytes, 52 Base64
    // characters.
    assert_eq!(surrogate.len(), 52);
    assert!(surrogate
        .chars()
        .all(|c| c.is_ascii_alphanumeric() || c == '+' || c == '/' || c == '='));

    let (event, ticket) = monitor.commit_seal(pending, 51);
    match event {
        clipvanish::clipboard::ClipboardEvent::ContentCopied { length, content_type, .. } => {
            assert_eq!(length, "password123".len());
            assert!(matches!(content_type, ContentType::Text));
        },
        _ => panic!("expected a copied event"),
    }
    assert!(monitor.get_state().encrypted_content_length > 0);
    assert_eq!(monitor.get_state().encrypted_content_length, 39);

    // Polling the surrogate back is not a change.
    let outcome = monitor
        .check_clipboard_change(Some(surrogate.clone()), 60)
        .unwrap();
    assert!(matches!(outcome, CheckOutcome::NoChange));

    // The delay elapses: the ticket is due, the clear succeeds, everything
    // is destroyed exactly once.
    assert!(monitor.destruction_due(&ticket));
    let fired = monitor.finish_destruction(&ticket, true, 1251);
    assert!(fired.is_some());
    assert_eq!(monitor.get_state().encrypted_content_length, 0);

    // Firing the same ticket again is a no-op.
    let fired_again = monitor.finish_destruction(&ticket, true, 1300);
    assert!(fired_again.is_none());
}

#[test]
fn test_non_sensitive_pass_through() {
    let mut monitor = ClipboardMonitor::new(sensitive_config(), 0).unwrap();

    let outcome = monitor
        .check_clipboard_change(Some("hello world".to_string()), 10)
        .unwrap();
    assert!(matches!(outcome, CheckOutcome::NotSensitive));
    assert_eq!(monitor.get_state().encrypted_content_length, 0);
    assert_eq!(monitor.get_state().total_events, 0);
}

#[test]
fn test_surrogate_recognised_after_paste() {
    let mut monitor = ClipboardMonitor::new(sensitive_config(), 0).unwrap();

    let outcome = monitor
        .check_clipboard_change(Some("secret text".to_string()), 10)
        .unwrap();
    let pending = match outcome {
        CheckOutcome::Seal(p) => p,
        _ => panic!("expected a sealing"),
    };
    let surrogate = pending.surrogate_text().to_string();
    monitor.commit_seal(pending, 11);

    // A paste moves the hash to the pasted text; the surrogate still on the
    // clipboard is then recognised as the monitor's own, not re-sealed.
    monitor.handle_paste("secret text", 20);
    let outcome = monitor.check_clipboard_change(Some(surrogate), 30).unwrap();
    assert!(matches!(outcome, CheckOutcome::OurSurrogate));
}

#[test]
fn test_decrypted_content_round_trip() {
    let mut monitor = ClipboardMonitor::new(sensitive_config(), 0).unwrap();

    let outcome = monitor
        .check_clipboard_change(Some("token abc123".to_string()), 10)
        .unwrap();
    let pending = match outcome {
        CheckOutcome::Seal(p) => p,
        _ => panic!("expected a sealing"),
    };
    monitor.commit_seal(pending, 11);

    // The display path decrypts without touching the key.
    let shown = monitor.get_decrypted_content().unwrap();
    assert_eq!(shown.as_deref(), Some("token abc123"));
    let shown_again = monitor.get_decrypted_content().unwrap();
    assert_eq!(shown_again.as_deref(), Some("token abc123"));

    // The paste path decrypts once and rotates the key.
    let mut monitor2 = ClipboardMonitor::new(sensitive_config(), 0).unwrap();
    let outcome = monitor2
        .check_clipboard_change(Some("token xyz".to_string()), 10)
        .unwrap();
    let pending = match outcome {
        CheckOutcome::Seal(p) => p,
        _ => panic!("expected a sealing"),
    };
    monitor2.commit_seal(pending, 11);
    let pasted = monitor2.get_decrypted_content_for_paste().unwrap();
    assert_eq!(pasted.as_deref(), Some("token xyz"));
    // The payload is orphaned under the rotated key.
    assert!(monitor2.get_decrypted_content().is_err());
}

#[test]
fn test_emergency_nuke_wipes_everything() {
    let mut monitor = ClipboardMonitor::new(sensitive_config(), 0).unwrap();

    let outcome = monitor
        .check_clipboard_change(Some("secret one".to_string()), 10)
        .unwrap();
    let pending = match outcome {
        CheckOutcome::Seal(p) => p,
        _ => panic!("expected a sealing"),
    };
    monitor.commit_seal(pending, 11);
    assert_eq!(monitor.get_history().len(), 1);

    let event = monitor.emergency_nuke(99).unwrap();
    assert!(matches!(
        event,
        clipvanish::clipboard::ClipboardEvent::ContentCleared {
            reason: ClearReason::EmergencyNuke,
            ..
        }
    ));
    assert_eq!(monitor.get_state().encrypted_content_length, 0);
    assert_eq!(monitor.get_history().len(), 0);
    assert!(monitor.get_decrypted_content().unwrap().is_none());
}

#[test]
fn test_history_retention() {
    let mut monitor = ClipboardMonitor::new(sensitive_config(), 0).unwrap();

    let outcome = monitor
        .check_clipboard_change(Some("secret early".to_string()), 1000)
        .unwrap();
    let pending = match outcome {
        CheckOutcome::Seal(p) => p,
        _ => panic!("expected a sealing"),
    };
    monitor.commit_seal(pending, 1000);

    let outcome = monitor
        .check_clipboard_change(Some("secret late".to_string()), 25000)
        .unwrap();
    let pending = match outcome {
        CheckOutcome::Seal(p) => p,
        _ => panic!("expected a sealing"),
    };
    monitor.commit_seal(pending, 25000);
    assert_eq!(monitor.get_history().len(), 2);

    // Thirty-one seconds in, only the late entry is younger than the
    // thirty-second window.
    let removed = monitor.clear_expired_history(31001);
    assert_eq!(removed, 1);
    let history = monitor.get_history();
    assert_eq!(history.len(), 1);
    assert_eq!(history[0].content.as_deref(), Some("secret late"));

    // Removing by operation kind drops the copy entry too.
    let removed = monitor.clear_history_by_operation(ClipboardOperation::Copy);
    assert_eq!(removed, 1);
    assert_eq!(monitor.get_history().len(), 0);
}

#[test]
fn test_remove_history_item_first_match() {
    let mut monitor = ClipboardMonitor::new(sensitive_config(), 0).unwrap();
    for (i, text) in ["secret a", "secret b", "secret a"].iter().enumerate() {
        let outcome = monitor
            .check_clipboard_change(Some(text.to_string()), 10 + i as u64)
            .unwrap();
        let pending = match outcome {
            CheckOutcome::Seal(p) => p,
            _ => panic!("expected a sealing"),
        };
        monitor.commit_seal(pending, 10 + i as u64);
    }
    assert_eq!(monitor.get_history().len(), 3);
    monitor.remove_history_item("secret a");
    let history = monitor.get_history();
    assert_eq!(history.len(), 2);
    assert_eq!(history[0].content.as_deref(), Some("secret b"));
    assert_eq!(history[1].content.as_deref(), Some("secret a"));
}
