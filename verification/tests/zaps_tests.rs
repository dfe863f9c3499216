use breez_nostr::zaps::{
    check_zap_request, find_tag, zap_receipt, zap_receipt_tags, TrackedZap, TrackedZaps, ZAP_TRACKING_EXPIRY_SEC,
};

const ZAP_REQUEST: &str = "{\"pubkey\":\"32e1827635450ebb3c5a7d12c1f8e7b2b514439ac10a67eef3d9fd9c5c68e245\",\"content\":\"\",\"id\":\"d9cc14d50fcb8c27539aacf776882942c1a11ea4472f8cdec1dea82fab66279d\",\"created_at\":1674164539,\"sig\":\"77127f636577e9029276be060332ea565deaf89ff215a494ccff16ae3f757065e2bc59b2e8c113dd407917a010b3abd36c8d7ad84c0e3ab7dab3a0b0caa9835d\",\"kind\":9734,\"tags\":[[\"e\",\"3624762a1274dd9636e0c552b53086d70bc88c165bc4dc0f9e836a1eaf86c3b8\"],[\"p\",\"32e1827635450ebb3c5a7d12c1f8e7b2b514439ac10a67eef3d9fd9c5c68e245\"],[\"relays\",\"wss://relay.damus.io\",\"wss://nostr-relay.wlvs.space\",\"wss://nostr.fmt.wiz.biz\",\"wss://relay.nostr.bg\",\"wss://nostr.oxtr.dev\",\"wss://nostr.v0l.io\",\"wss://brb.io\",\"wss://nostr.bitcoiner.social\",\"ws://monad.jb55.com:8080\",\"wss://relay.snort.social\"]]}";

fn s(x: &str) -> String {
    x.to_string()
}

fn tag(parts: &[&str]) -> Vec<String> {
    parts.iter().map(|p| p.to_string()).collect()
}

#[test]
fn track_then_get() {
    let mut zaps = TrackedZaps::new();
    assert!(!zaps.contains(&s("inv1")));
    assert!(zaps.track(s("inv1"), s("req1"), 1000));
    assert!(zaps.contains(&s("inv1")));
    assert_eq!(zaps.get_request(&s("inv1")), Some(s("req1")));
    assert_eq!(zaps.get_request(&s("inv2")), None);
    let entries = zaps.entries();
    assert_eq!(entries.len(), 1);
    assert_eq!(entries[0].0, "inv1");
    assert_eq!(entries[0].1.expires_at, 1000 + ZAP_TRACKING_EXPIRY_SEC);
}

#[test]
fn tracking_again_replaces() {
    let mut zaps = TrackedZaps::new();
    zaps.track(s("inv"), s("old"), 10);
    zaps.track(s("inv"), s("new"), 20);
    assert_eq!(zaps.entries().len(), 1);
    assert_eq!(zaps.get_request(&s("inv")), Some(s("new")));
}

#[test]
fn remove_gives_zap_back() {
    let mut zaps = TrackedZaps::new();
    zaps.insert(s("a"), TrackedZap { zap_request: s("ra"), expires_at: 5 });
    zaps.insert(s("b"), TrackedZap { zap_request: s("rb"), expires_at: 6 });
    let removed = zaps.remove(&s("a")).unwrap();
    assert_eq!(removed.zap_request, "ra");
    assert_eq!(removed.expires_at, 5);
    assert!(zaps.remove(&s("a")).is_none());
    assert_eq!(zaps.get_request(&s("b")), Some(s("rb")));
}

#[test]
fn expired_zaps_are_removed() {
    let mut zaps = TrackedZaps::new();
    zaps.insert(s("a"), TrackedZap { zap_request: s("ra"), expires_at: 100 });
    zaps.insert(s("b"), TrackedZap { zap_request: s("rb"), expires_at: 200 });
    zaps.insert(s("c"), TrackedZap { zap_request: s("rc"), expires_at: 300 });
    assert!(!zaps.remove_expired(99));
    assert_eq!(zaps.entries().len(), 3);
    assert!(zaps.remove_expired(200));
    assert!(!zaps.contains(&s("a")));
    assert!(!zaps.contains(&s("b")));
    assert_eq!(zaps.get_request(&s("c")), Some(s("rc")));
}

#[test]
fn receipt_tags_from_request_tags() {
    let request_tags = vec![tag(&["e", "ev"]), tag(&["p", "pk1"]), tag(&["p", "pk2"]), tag(&["relays", "wss://r"])];
    let tags = zap_receipt_tags(&request_tags, &s("requester"), &s("lnbc"), &s("{json}"), &Some(s("pre"))).unwrap();
    assert_eq!(
        tags,
        vec![
            tag(&["p", "pk1"]),
            tag(&["e", "ev"]),
            tag(&["P", "requester"]),
            tag(&["bolt11", "lnbc"]),
            tag(&["description", "{json}"]),
            tag(&["preimage", "pre"]),
        ]
    );
    let with_a = vec![tag(&["a", "coord"]), tag(&["p", "pk"])];
    let tags = zap_receipt_tags(&with_a, &s("r"), &s("b"), &s("d"), &None).unwrap();
    assert_eq!(
        tags,
        vec![tag(&["p", "pk"]), tag(&["a", "coord"]), tag(&["P", "r"]), tag(&["bolt11", "b"]), tag(&["description", "d"])]
    );
}

#[test]
fn no_receipt_without_p_tag() {
    let request_tags = vec![tag(&["e", "ev"]), tag(&["P", "upper"])];
    assert!(zap_receipt_tags(&request_tags, &s("r"), &s("b"), &s("d"), &None).is_none());
}

#[test]
fn find_tag_takes_first() {
    let tags = vec![tag(&["x"]), tag(&["p", "1"]), tag(&["p", "2"])];
    assert_eq!(find_tag(&tags, "p"), Some(tag(&["p", "1"])));
    assert_eq!(find_tag(&tags, "q"), None);
}

#[test]
fn zap_request_is_decoded_and_checked() {
    let encoded = urlencode(ZAP_REQUEST);
    assert_eq!(check_zap_request(&encoded).unwrap(), ZAP_REQUEST);
    assert!(check_zap_request("%7Bnot json%7D").is_err());
    assert!(check_zap_request("%FF").is_err());
}

#[test]
fn receipt_of_stored_zap_request() {
    let receipt = zap_receipt(ZAP_REQUEST, &s("lnbc10u1"), &Some(s("pre")), 1_674_164_600).unwrap();
    assert_eq!(receipt.created_at, 1_674_164_600);
    assert_eq!(receipt.request_id, "d9cc14d50fcb8c27539aacf776882942c1a11ea4472f8cdec1dea82fab66279d");
    assert_eq!(receipt.tags.len(), 6);
    assert_eq!(receipt.tags[0], tag(&["p", "32e1827635450ebb3c5a7d12c1f8e7b2b514439ac10a67eef3d9fd9c5c68e245"]));
    assert_eq!(receipt.tags[1], tag(&["e", "3624762a1274dd9636e0c552b53086d70bc88c165bc4dc0f9e836a1eaf86c3b8"]));
    assert_eq!(receipt.tags[2], tag(&["P", "32e1827635450ebb3c5a7d12c1f8e7b2b514439ac10a67eef3d9fd9c5c68e245"]));
    assert_eq!(receipt.tags[3], tag(&["bolt11", "lnbc10u1"]));
    assert_eq!(receipt.tags[4][0], "description");
    assert!(receipt.tags[4][1].contains("d9cc14d50fcb8c27539aacf776882942c1a11ea4472f8cdec1dea82fab66279d"));
    assert_eq!(receipt.tags[5], tag(&["preimage", "pre"]));
    assert!(zap_receipt("not json", &s("b"), &None, 0).is_none());
}

#[test]
fn take_zap_request_for_receipt() {
    let mut zaps = TrackedZaps::new();
    zaps.track(s("good"), s(ZAP_REQUEST), 0);
    zaps.track(s("bad"), s("not json"), 0);
    assert_eq!(zaps.take_zap_request(&s("good")), (true, Some(s(ZAP_REQUEST))));
    assert!(!zaps.contains(&s("good")));
    assert_eq!(zaps.take_zap_request(&s("bad")), (false, None));
    assert_eq!(zaps.take_zap_request(&s("none")), (false, None));
}

fn urlencode(text: &str) -> String {
    let mut out = String::new();
    for b in text.bytes() {
        if b.is_ascii_alphanumeric() {
            out.push(b as char);
        } else {
            out.push_str(&format!("%{:02X}", b));
        }
    }
    out
}

#[test]
fn tracked_zap_lives_until_its_expiry() {
    let mut zaps = TrackedZaps::new();
    zaps.track(s("inv"), s("req"), 1000);
    assert!(!zaps.remove_expired(1000 + ZAP_TRACKING_EXPIRY_SEC - 1));
    assert!(zaps.contains(&s("inv")));
    assert!(zaps.remove_expired(1000 + ZAP_TRACKING_EXPIRY_SEC));
    assert!(!zaps.contains(&s("inv")));
}
