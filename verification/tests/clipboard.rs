use cosmic_kvm::clipboard::{
    choose_type, choose_type_of, hash_data, read_clipboard, ClipboardManager, ClipboardWatcher,
    WatchAction, WatchEvent, MAX_CLIPBOARD_SIZE,
};
use cosmic_kvm::discovery::{advertisement, local_hostname, SERVICE_TYPE};
use cosmic_kvm::events::ClipboardData;
use cosmic_kvm::text;
use std::hash::{Hash, Hasher};

fn clip(data: &[u8]) -> ClipboardData {
    ClipboardData { mime_type: "text/plain".to_string(), data: data.to_vec() }
}

/// What the standard library makes of the same choice.
fn choice(listing: &str) -> String {
    let first = listing.lines().find(|t| {
        t.starts_with("text/") || t.starts_with("image/") || *t == "UTF8_STRING" || *t == "STRING"
    });
    if listing.lines().any(|t| t == "text/plain") {
        "text/plain".to_string()
    } else {
        first.unwrap_or("text/plain").to_string()
    }
}

#[test]
fn the_type_is_chosen_by_preference() {
    assert_eq!(choose_type_of("text/html\nimage/png\ntext/plain\n"), "text/plain");
    assert_eq!(choose_type_of("TARGETS\nimage/png\ntext/html\n"), "image/png");
    assert_eq!(choose_type_of("TARGETS\nUTF8_STRING\n"), "UTF8_STRING");
    assert_eq!(choose_type_of("TARGETS\nSTRING\nimage/png"), "STRING");
    assert_eq!(choose_type_of("TARGETS\nSTRINGS\n"), "text/plain");
    assert_eq!(choose_type_of(""), "text/plain");
}

#[test]
fn lines_are_split_as_usual() {
    for listing in [
        "",
        "\n",
        "\r\n",
        "\r",
        "image/png\r",
        "image/png\r\n",
        "a\r\r\nimage/png\r\r\n",
        "\n\nimage/png",
        "text/plain\r\nimage/png",
        "image/png\ntext/plain\r",
        "text/pl\u{e4}in\ntext/html",
        "text/\n",
        "xtext/html\n image/png\nimage/",
    ] {
        assert_eq!(choose_type_of(listing), choice(listing), "{:?}", listing);
    }
}

#[test]
fn a_listing_is_read_as_text() {
    assert_eq!(choose_type(true, b"image/png\n"), Some("image/png".to_string()));
    assert_eq!(choose_type(true, b"\xff\nimage/\xffx\n"), Some("image/\u{fffd}x".to_string()));
    assert_eq!(choose_type(true, b""), Some("text/plain".to_string()));
    assert_eq!(choose_type(false, b"image/png\n"), None);
}

#[test]
fn contents_of_a_fair_size_are_shared() {
    let read = |ok: bool, data: Vec<u8>| read_clipboard("image/png".to_string(), ok, data);
    assert_eq!(
        read(true, vec![1, 2]),
        Some(ClipboardData { mime_type: "image/png".to_string(), data: vec![1, 2] })
    );
    assert_eq!(read(false, vec![1, 2]), None);
    assert_eq!(read(true, vec![]), None);
    assert_eq!(MAX_CLIPBOARD_SIZE, 1024 * 1024);
    assert!(read(true, vec![0; 1024 * 1024]).is_some());
    assert_eq!(read(true, vec![0; 1024 * 1024 + 1]), None);
}

#[test]
fn the_hash_is_that_of_the_slice() {
    for data in [&b""[..], b"a", b"hello world", &[0u8; 300]] {
        let mut hasher = std::collections::hash_map::DefaultHasher::new();
        data.hash(&mut hasher);
        assert_eq!(hash_data(data), hasher.finish());
    }
    assert_ne!(hash_data(b"a"), hash_data(b"b"));
}

#[test]
fn setting_the_clipboard_suppresses_one_poll() {
    let mut manager = ClipboardManager::new();
    assert!(!manager.take_suppression());
    assert!(!manager.set_clipboard(&clip(b"")));
    assert!(!manager.take_suppression());
    assert!(manager.set_clipboard(&clip(b"a")));
    manager.finish_set(true);
    assert!(!manager.set_clipboard(&clip(b"")));
    assert!(manager.take_suppression());
    assert!(!manager.take_suppression());
}

#[test]
fn what_was_set_is_recognised_until_it_was_read_or_replaced() {
    let mut manager = ClipboardManager::new();
    assert!(!manager.recognise(&Some(clip(b"a"))));
    // While it is being set, and once after it was set.
    manager.set_clipboard(&clip(b"a"));
    assert!(manager.recognise(&Some(clip(b"a"))));
    assert!(!manager.recognise(&Some(clip(b"b"))));
    manager.finish_set(true);
    assert!(!manager.recognise(&Some(clip(b"b"))));
    assert!(manager.recognise(&Some(clip(b"a"))));
    assert!(!manager.recognise(&Some(clip(b"a"))));
    // A poll that began afterwards and read something else forgets it.
    manager.set_clipboard(&clip(b"a"));
    manager.finish_set(true);
    manager.take_suppression();
    assert!(!manager.recognise(&Some(clip(b"b"))));
    assert!(!manager.recognise(&Some(clip(b"a"))));
    // What could not be set is not expected, and what was set before still is.
    manager.set_clipboard(&clip(b"a"));
    manager.finish_set(true);
    manager.set_clipboard(&clip(b"c"));
    manager.finish_set(false);
    assert!(!manager.recognise(&Some(clip(b"c"))));
    assert!(manager.recognise(&Some(clip(b"a"))));
}

fn poll(watcher: &mut ClipboardWatcher, contents: Option<ClipboardData>) -> WatchAction {
    assert!(matches!(watcher.advance(WatchEvent::Rested), WatchAction::TakeSuppression));
    assert!(matches!(watcher.advance(WatchEvent::Suppressed(false)), WatchAction::Read));
    watcher.advance(WatchEvent::Read(contents, false))
}

#[test]
fn changes_are_shared_once() {
    let mut watcher = ClipboardWatcher::new();
    match poll(&mut watcher, Some(clip(b"one"))) {
        WatchAction::Deliver(data) => assert_eq!(data, clip(b"one")),
        other => panic!("not delivered but {:?}", other),
    }
    assert_eq!(watcher.last_hash, hash_data(b"one"));
    assert!(matches!(watcher.advance(WatchEvent::Delivered), WatchAction::Rest(500)));
    assert!(matches!(poll(&mut watcher, Some(clip(b"one"))), WatchAction::Rest(500)));
    assert!(matches!(poll(&mut watcher, Some(clip(b"two"))), WatchAction::Deliver(_)));
    assert!(matches!(watcher.advance(WatchEvent::Delivered), WatchAction::Rest(500)));
    // An empty clipboard is forgotten, so that the same contents are new again.
    assert!(matches!(poll(&mut watcher, None), WatchAction::Rest(500)));
    assert_eq!(watcher.last_hash, 0);
    assert!(matches!(poll(&mut watcher, Some(clip(b"two"))), WatchAction::Deliver(_)));
    assert!(matches!(watcher.advance(WatchEvent::Closed), WatchAction::Stop));
    assert!(matches!(watcher.advance(WatchEvent::Rested), WatchAction::Stop));
}

#[test]
fn a_suppressed_poll_reads_nothing() {
    let mut watcher = ClipboardWatcher::new();
    assert!(matches!(watcher.advance(WatchEvent::Rested), WatchAction::TakeSuppression));
    assert!(matches!(watcher.advance(WatchEvent::Suppressed(true)), WatchAction::Rest(200)));
    assert!(matches!(watcher.advance(WatchEvent::Rested), WatchAction::Rest(500)));
    assert!(matches!(watcher.advance(WatchEvent::Rested), WatchAction::TakeSuppression));
    assert_eq!(watcher.last_hash, 0);
}

/// Polls once with the suppression of a manager, while the clipboard holds `contents`,
/// and returns what is delivered.
fn poll_with(
    watcher: &mut ClipboardWatcher,
    manager: &mut ClipboardManager,
    contents: &[u8],
) -> Option<ClipboardData> {
    watcher.advance(WatchEvent::Rested);
    match watcher.advance(WatchEvent::Suppressed(manager.take_suppression())) {
        WatchAction::Rest(200) => {
            assert!(matches!(watcher.advance(WatchEvent::Rested), WatchAction::Rest(500)));
            None
        }
        WatchAction::Read => {
            let read = Some(clip(contents));
            let from_outside = manager.recognise(&read);
            match watcher.advance(WatchEvent::Read(read, from_outside)) {
                WatchAction::Deliver(data) => {
                    watcher.advance(WatchEvent::Delivered);
                    Some(data)
                }
                WatchAction::Rest(500) => None,
                other => panic!("unexpected {:?}", other),
            }
        }
        other => panic!("unexpected {:?}", other),
    }
}

#[test]
fn what_was_set_from_outside_is_not_sent_back() {
    let mut manager = ClipboardManager::new();
    let mut watcher = ClipboardWatcher::new();
    assert_eq!(poll_with(&mut watcher, &mut manager, b"old"), Some(clip(b"old")));
    assert!(manager.set_clipboard(&clip(b"set")));
    manager.finish_set(true);
    for _ in 0..5 {
        assert_eq!(poll_with(&mut watcher, &mut manager, b"set"), None);
    }
    assert_eq!(poll_with(&mut watcher, &mut manager, b"old"), Some(clip(b"old")));
    assert_eq!(poll_with(&mut watcher, &mut manager, b"set"), Some(clip(b"set")));
}

#[test]
fn a_set_that_takes_long_is_not_sent_back() {
    let mut manager = ClipboardManager::new();
    let mut watcher = ClipboardWatcher::new();
    assert_eq!(poll_with(&mut watcher, &mut manager, b"old"), Some(clip(b"old")));
    assert!(manager.set_clipboard(&clip(b"set")));
    assert_eq!(poll_with(&mut watcher, &mut manager, b"old"), None);
    assert_eq!(poll_with(&mut watcher, &mut manager, b"new"), Some(clip(b"new")));
    assert_eq!(poll_with(&mut watcher, &mut manager, b"set"), None);
    manager.finish_set(true);
    assert_eq!(poll_with(&mut watcher, &mut manager, b"set"), None);
}

#[test]
fn a_set_during_a_poll_is_not_sent_back() {
    let mut manager = ClipboardManager::new();
    let mut watcher = ClipboardWatcher::new();
    watcher.advance(WatchEvent::Rested);
    let read = watcher.advance(WatchEvent::Suppressed(manager.take_suppression()));
    assert!(matches!(read, WatchAction::Read));
    assert!(manager.set_clipboard(&clip(b"set")));
    manager.finish_set(true);
    // What was read before is shared.
    let contents = Some(clip(b"copied"));
    let from_outside = manager.recognise(&contents);
    let delivery = watcher.advance(WatchEvent::Read(contents, from_outside));
    assert!(matches!(delivery, WatchAction::Deliver(_)));
    watcher.advance(WatchEvent::Delivered);
    for _ in 0..3 {
        assert_eq!(poll_with(&mut watcher, &mut manager, b"set"), None);
    }
}

#[test]
fn a_set_that_fails_changes_nothing() {
    let mut manager = ClipboardManager::new();
    let mut watcher = ClipboardWatcher::new();
    assert_eq!(poll_with(&mut watcher, &mut manager, b"old"), Some(clip(b"old")));
    assert!(manager.set_clipboard(&clip(b"set")));
    manager.finish_set(false);
    for _ in 0..3 {
        assert_eq!(poll_with(&mut watcher, &mut manager, b"old"), None);
    }
    assert_eq!(poll_with(&mut watcher, &mut manager, b"set"), Some(clip(b"set")));
}

#[test]
fn a_change_right_after_a_set_is_shared() {
    let mut manager = ClipboardManager::new();
    let mut watcher = ClipboardWatcher::new();
    assert!(manager.set_clipboard(&clip(b"set")));
    manager.finish_set(true);
    assert_eq!(poll_with(&mut watcher, &mut manager, b"copied"), None);
    assert_eq!(poll_with(&mut watcher, &mut manager, b"copied"), Some(clip(b"copied")));
    assert_eq!(poll_with(&mut watcher, &mut manager, b"copied"), None);
}

#[test]
fn a_failed_read_changes_nothing() {
    let mut watcher = ClipboardWatcher::new();
    poll(&mut watcher, Some(clip(b"one")));
    watcher.advance(WatchEvent::Delivered);
    watcher.advance(WatchEvent::Rested);
    watcher.advance(WatchEvent::Suppressed(false));
    assert!(matches!(watcher.advance(WatchEvent::ReadFailed), WatchAction::Rest(500)));
    assert!(matches!(poll(&mut watcher, Some(clip(b"one"))), WatchAction::Rest(500)));
}

#[test]
fn a_server_is_announced() {
    let info = advertisement("desk", 24900, "desk-id", "host").unwrap();
    assert_eq!(info.get_type(), SERVICE_TYPE);
    assert_eq!(info.get_fullname(), "desk._cosmic-kvm._tcp.local.");
    assert_eq!(info.get_hostname(), "host.local.");
    assert_eq!(info.get_port(), 24900);
    assert_eq!(info.get_property_val_str("device_id"), Some("desk-id"));
    assert_eq!(info.get_properties().len(), 1);
    assert!(info.get_addresses().is_empty());
    assert_eq!(local_hostname("host"), "host.local.");
    let info = advertisement("desk", 1, "desk-id", "host.local").unwrap();
    assert_eq!(info.get_hostname(), "host.local.");
}

#[test]
fn numbers_and_texts() {
    for n in [0u64, 7, 10, 99, 24900, 1_000_000, u64::MAX] {
        assert_eq!(text::decimal(n), n.to_string());
    }
    assert_eq!(text::concat("a\u{e4}", "b"), "a\u{e4}b");
    assert!(text::starts_with("abc", "ab"));
    assert!(text::starts_with("abc", ""));
    assert!(!text::starts_with("ab", "abc"));
    assert!(!text::starts_with("xab", "ab"));
}
