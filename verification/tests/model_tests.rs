use breez_nostr::context::{next_loop_step, ContextAction, LoopInput, LoopStep, RepliedEvents};
use breez_nostr::error::{Nip47ErrorCode, NostrError};
use breez_nostr::event::EventManager;
use breez_nostr::model::{NostrConfig, DEFAULT_RELAY_URLS};
use breez_nostr::persist::{choose_secret_key, SafeWrite, SafeWriteNext, SecretKeySource};
use breez_nostr::storage::PluginStorageError;

fn config(relays: Option<Vec<&str>>) -> NostrConfig {
    NostrConfig {
        relay_urls: relays.map(|r| r.into_iter().map(String::from).collect()),
        secret_key_hex: None,
        listen_to_events: None,
    }
}

#[test]
fn relays_default_when_unconfigured() {
    let relays = config(None).relays();
    assert_eq!(relays, DEFAULT_RELAY_URLS.iter().map(|s| s.to_string()).collect::<Vec<_>>());
    assert_eq!(relays[0], "wss://relay.getalbypro.com/breez");
    assert_eq!(relays.len(), 4);
}

#[test]
fn relays_configured_are_kept() {
    assert_eq!(config(Some(vec!["wss://a/", "wss://b/"])).relays(), vec!["wss://a/", "wss://b/"]);
    assert!(config(Some(vec![])).relays().is_empty());
}

#[test]
fn listens_unless_switched_off() {
    let mut c = config(None);
    assert!(c.listens_to_events());
    c.listen_to_events = Some(true);
    assert!(c.listens_to_events());
    c.listen_to_events = Some(false);
    assert!(!c.listens_to_events());
}

#[test]
fn event_manager_registers_and_unregisters() {
    let mut m = EventManager::new();
    assert!(m.notify_targets().is_empty());
    let a = m.add();
    assert_eq!(a.len(), 36);
    for (i, c) in a.chars().enumerate() {
        if [8, 13, 18, 23].contains(&i) {
            assert_eq!(c, '-');
        } else {
            assert!(c.is_ascii_digit() || ('a'..='f').contains(&c));
        }
    }
    assert_eq!(a.chars().nth(14), Some('4'));
    assert!(matches!(a.chars().nth(19), Some('8' | '9' | 'a' | 'b')));
    m.add_with_id("b".to_string());
    m.add_with_id("b".to_string());
    let mut targets = m.notify_targets();
    targets.sort();
    let mut expected = vec![a.clone(), "b".to_string()];
    expected.sort();
    assert_eq!(targets, expected);
    m.remove(&a);
    assert_eq!(m.notify_targets(), vec!["b".to_string()]);
    m.remove(&"missing".to_string());
    assert_eq!(m.notify_targets(), vec!["b".to_string()]);
}

#[test]
fn paused_manager_delivers_nothing() {
    let mut m = EventManager::new();
    m.add_with_id("x".to_string());
    m.pause_notifications();
    assert!(m.notify_targets().is_empty());
    m.resume_notifications();
    assert_eq!(m.notify_targets(), vec!["x".to_string()]);
}

#[test]
fn replied_events_are_recognised() {
    let mut replied = RepliedEvents::new();
    assert!(!replied.check_replied_event("e1".to_string()));
    assert!(replied.check_replied_event("e1".to_string()));
    assert!(!replied.check_replied_event("e2".to_string()));
    assert!(replied.check_replied_event("e2".to_string()));
}

#[test]
fn loop_steps() {
    assert_eq!(next_loop_step(LoopInput::RelayEvent), LoopStep::HandleEvent);
    assert_eq!(next_loop_step(LoopInput::EndOfStoredEvents), LoopStep::RenewListener);
    assert_eq!(next_loop_step(LoopInput::OtherNotification), LoopStep::Ignore);
    assert_eq!(next_loop_step(LoopInput::RefreshTick), LoopStep::RefreshConnections);
    assert_eq!(next_loop_step(LoopInput::Action(ContextAction::Resubscribe)), LoopStep::Resubscribe);
    assert_eq!(next_loop_step(LoopInput::Action(ContextAction::Shutdown)), LoopStep::Shutdown);
}

#[test]
fn secret_key_choice() {
    let configured = Some("aa".to_string());
    let restored = Some("bb".to_string());
    assert_eq!(choose_secret_key(&configured, &restored), SecretKeySource::Configured("aa".to_string()));
    assert_eq!(choose_secret_key(&None, &restored), SecretKeySource::Restored("bb".to_string()));
    assert_eq!(choose_secret_key(&None, &None), SecretKeySource::Generate);
}

#[test]
fn safe_write_gives_up_after_three_attempts() {
    let mut w = SafeWrite::new();
    for _ in 0..3 {
        assert!(w.begin_attempt().is_none());
        assert!(matches!(w.after_write(&Err(PluginStorageError::DataTooOld)), SafeWriteNext::Retry));
    }
    match w.begin_attempt() {
        Some(NostrError::Persist { err }) => assert_eq!(err, "Maximum write attempts reached"),
        other => panic!("unexpected {other:?}"),
    }
}

#[test]
fn safe_write_outcomes() {
    let w = SafeWrite::new();
    assert!(w.needs_write(true));
    assert!(!w.needs_write(false));
    assert!(matches!(w.after_write(&Ok(())), SafeWriteNext::Finished));
    match w.after_write(&Err(PluginStorageError::Generic { err: "io".to_string() })) {
        SafeWriteNext::Failed(NostrError::Persist { err }) => {
            assert_eq!(err, "Plugin storage operation failed: io")
        }
        other => panic!("unexpected {other:?}"),
    }
}

#[test]
fn nip47_error_codes() {
    assert_eq!(NostrError::PubkeyNotFound { pubkey: "p".to_string() }.nip47_code(), Nip47ErrorCode::NotFound);
    assert_eq!(NostrError::EventNotFound.nip47_code(), Nip47ErrorCode::NotFound);
    assert_eq!(NostrError::MaxBudgetExceeded.nip47_code(), Nip47ErrorCode::QuotaExceeded);
    assert_eq!(NostrError::InvoiceExpired.nip47_code(), Nip47ErrorCode::PaymentFailed);
    assert_eq!(NostrError::generic("x".to_string()).nip47_code(), Nip47ErrorCode::PaymentFailed);
}

#[test]
fn error_messages() {
    assert_eq!(NostrError::generic("boom".to_string()).message(), "boom");
    assert_eq!(NostrError::persist("p".to_string()).message(), "Persistence error: p");
    assert_eq!(NostrError::MaxBudgetExceeded.message(), "Maximum budget exceeded");
    assert_eq!(
        NostrError::from_storage(&PluginStorageError::DataTooOld),
        NostrError::Persist { err: "Could not write to storage: value has changed since last read.".to_string() }
    );
}
