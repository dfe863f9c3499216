use breez_nostr::error::NostrError;
use breez_nostr::nwc::{apply_budget_change, info_event, PaymentPlan, PeriodicBudget, NwcResponse, WALLET_CONNECT_INFO_KIND};
use breez_nostr::nwc_request::{nwc_request_step, ConnectionTerms, NwcAction, NwcMethod, NwcRequestInput, NwcRequestState};
use breez_nostr::nwc_wire::{
    active_connections, add_connection, connection_index, decrypt_request, encrypt_response, filter_relays, new_connection,
    client_events_from, edit_connection, refresh_connections, refresh_interval, NwcConnection, payment_notification_events, request_event_input, ActiveConnection, BudgetRequest, ConnectionBudget,
};

use nostr_sdk::nips::nip47::{PayInvoiceRequest, Request};
use nostr_sdk::{EventBuilder, JsonUtil, Keys, Kind};

fn terms(name: &str, pubkey: &str, receive_only: bool, budget: Option<PeriodicBudget>) -> ConnectionTerms {
    ConnectionTerms { name: name.to_string(), client_pubkey: pubkey.to_string(), receive_only, budget }
}

fn event_input(pubkey: &str, expiration: Option<u64>, signature_valid: bool, connections: Vec<ConnectionTerms>) -> NwcRequestInput {
    let signature = if signature_valid { Ok(()) } else { Err("invalid signature".to_string()) };
    NwcRequestInput::Event { client_pubkey: pubkey.to_string(), expiration, signature, now: 1000, connections }
}

fn verified(connection: ConnectionTerms) -> NwcRequestState {
    NwcRequestState::Verified { connection }
}

#[test]
fn info_event_has_kind_content_and_encryption_tag() {
    let event = info_event();
    assert_eq!(event.kind, 13194);
    assert_eq!(event.kind, WALLET_CONNECT_INFO_KIND);
    assert_eq!(event.content, "make_invoice pay_invoice list_transactions get_balance get_info");
    assert_eq!(event.tags, vec![vec!["encryption".to_string(), "nip44_v2 nip04".to_string()]]);
}

#[test]
fn unknown_client_key_is_refused() {
    let (state, action) = nwc_request_step(NwcRequestState::Received, event_input("bb", None, true, vec![terms("a", "aa", false, None)]));
    assert_eq!(state, NwcRequestState::Done);
    assert_eq!(action, NwcAction::Fail(NostrError::PubkeyNotFound { pubkey: "bb".to_string() }));
}

#[test]
fn expired_request_is_refused_before_the_signature_check() {
    let (state, action) = nwc_request_step(NwcRequestState::Received, event_input("aa", Some(999), false, vec![terms("a", "aa", false, None)]));
    assert_eq!(state, NwcRequestState::Done);
    assert_eq!(action, NwcAction::Fail(NostrError::EventExpired));
    let (_, action) = nwc_request_step(NwcRequestState::Received, event_input("aa", Some(1000), true, vec![terms("a", "aa", false, None)]));
    assert_eq!(action, NwcAction::Decrypt);
}

#[test]
fn bad_signature_is_refused() {
    let (state, action) = nwc_request_step(NwcRequestState::Received, event_input("aa", None, false, vec![terms("a", "aa", false, None)]));
    assert_eq!(state, NwcRequestState::Done);
    assert_eq!(action, NwcAction::Fail(NostrError::InvalidSignature { err: "invalid signature".to_string() }));
}

#[test]
fn known_client_is_verified_with_its_first_connection() {
    let connections = vec![terms("x", "cc", false, None), terms("a", "aa", true, None), terms("b", "aa", false, None)];
    let (state, action) = nwc_request_step(NwcRequestState::Received, event_input("aa", None, true, connections));
    assert_eq!(state, verified(terms("a", "aa", true, None)));
    assert_eq!(action, NwcAction::Decrypt);
}

#[test]
fn receive_only_connection_answers_only_make_invoice() {
    let receive_only = terms("a", "aa", true, None);
    let (state, action) = nwc_request_step(verified(receive_only.clone()), NwcRequestInput::Decrypted(Ok(NwcMethod::GetBalance)));
    assert_eq!(state, NwcRequestState::Done);
    assert_eq!(action, NwcAction::Reply(Err(NostrError::Generic { err: "Connection is receive-only.".to_string() })));
    let (_, action) = nwc_request_step(verified(receive_only), NwcRequestInput::Decrypted(Ok(NwcMethod::MakeInvoice)));
    assert_eq!(action, NwcAction::CallWallet(NwcMethod::MakeInvoice));
}

#[test]
fn undecryptable_request_is_refused() {
    let err = NostrError::Generic { err: "bad".to_string() };
    let (state, action) = nwc_request_step(verified(terms("a", "aa", false, None)), NwcRequestInput::Decrypted(Err(err.clone())));
    assert_eq!(state, NwcRequestState::Done);
    assert_eq!(action, NwcAction::Fail(err));
}

#[test]
fn unhandled_method_is_answered_with_an_error() {
    let method = NwcMethod::Other { description: "Request { method: PayKeysend }".to_string() };
    let (_, action) = nwc_request_step(verified(terms("a", "aa", false, None)), NwcRequestInput::Decrypted(Ok(method)));
    assert_eq!(
        action,
        NwcAction::Reply(Err(NostrError::Generic { err: "Received unhandled request: Request { method: PayKeysend }".to_string() }))
    );
}

#[test]
fn payment_beyond_the_budget_is_refused() {
    let budget = PeriodicBudget { used_budget_sat: 90, max_budget_sat: 100 };
    let connection = terms("a", "aa", false, Some(budget));
    let (state, action) = nwc_request_step(
        verified(connection.clone()),
        NwcRequestInput::Decrypted(Ok(NwcMethod::PayInvoice { invoice: "lnbc1".to_string(), amount_msat: None })),
    );
    assert_eq!(action, NwcAction::ReadInvoice("lnbc1".to_string()));
    let (state, action) = nwc_request_step(state, NwcRequestInput::InvoiceRead(Some(Some(11_000))));
    assert_eq!(state, NwcRequestState::Done);
    assert_eq!(action, NwcAction::Reply(Err(NostrError::MaxBudgetExceeded)));
}

#[test]
fn invoice_without_amount_is_refused() {
    let state = NwcRequestState::AwaitingInvoice { connection: terms("a", "aa", false, None), invoice: "lnbc1".to_string(), amount_msat: None };
    let (_, action) = nwc_request_step(state, NwcRequestInput::InvoiceRead(Some(None)));
    assert_eq!(action, NwcAction::Reply(Err(NostrError::InvoiceWithoutAmount)));
}

#[test]
fn unreadable_invoice_is_refused() {
    let state = NwcRequestState::AwaitingInvoice { connection: terms("a", "aa", false, None), invoice: "junk".to_string(), amount_msat: None };
    let (_, action) = nwc_request_step(state, NwcRequestInput::InvoiceRead(None));
    assert_eq!(action, NwcAction::Reply(Err(NostrError::Generic { err: "Could not parse pay_invoice invoice: junk".to_string() })));
}

#[test]
fn budget_is_reserved_before_the_wallet_pays_and_recorded_after() {
    let budget = PeriodicBudget { used_budget_sat: 10, max_budget_sat: 100 };
    let connection = terms("a", "aa", false, Some(budget));
    let state = NwcRequestState::AwaitingInvoice { connection: connection.clone(), invoice: "lnbc1".to_string(), amount_msat: Some(20_500) };
    let (state, action) = nwc_request_step(state, NwcRequestInput::InvoiceRead(Some(Some(99_000))));
    assert_eq!(action, NwcAction::ReserveBudget(21));
    let (state, action) = nwc_request_step(state, NwcRequestInput::BudgetUpdated(Ok(())));
    let method = NwcMethod::PayInvoice { invoice: "lnbc1".to_string(), amount_msat: Some(20_500) };
    assert_eq!(action, NwcAction::CallWallet(method));
    let response = NwcResponse::PayInvoice { preimage: "00".to_string(), fees_paid_msat: Some(1000) };
    let (state, action) = nwc_request_step(state, NwcRequestInput::WalletAnswered(Ok(response.clone())));
    assert_eq!(action, NwcAction::RecordPaid);
    let (state, action) = nwc_request_step(state, NwcRequestInput::PaidRecorded(Ok(())));
    assert_eq!(state, NwcRequestState::Done);
    assert_eq!(action, NwcAction::Reply(Ok(response)));
}

#[test]
fn failed_payment_gives_the_reserved_budget_back() {
    let connection = terms("a", "aa", false, Some(PeriodicBudget { used_budget_sat: 10, max_budget_sat: 100 }));
    let method = NwcMethod::PayInvoice { invoice: "lnbc1".to_string(), amount_msat: None };
    let state = NwcRequestState::AwaitingWallet { connection, method, plan: Some(PaymentPlan { amount_sat: 21, reserve_budget: true }) };
    let error = NostrError::Generic { err: "no route".to_string() };
    let (state, action) = nwc_request_step(state, NwcRequestInput::WalletAnswered(Err(error.clone())));
    assert_eq!(action, NwcAction::RefundBudget(-21));
    let (state, action) = nwc_request_step(state, NwcRequestInput::BudgetUpdated(Ok(())));
    assert_eq!(state, NwcRequestState::Done);
    assert_eq!(action, NwcAction::Reply(Err(error)));
}

#[test]
fn failed_budget_update_is_reported() {
    let connection = terms("a", "aa", false, Some(PeriodicBudget { used_budget_sat: 10, max_budget_sat: 100 }));
    let state = NwcRequestState::AwaitingReservation {
        connection: connection.clone(),
        invoice: "lnbc1".to_string(),
        amount_msat: None,
        plan: PaymentPlan { amount_sat: 5, reserve_budget: true },
    };
    let (_, action) = nwc_request_step(state, NwcRequestInput::BudgetUpdated(Err(NostrError::Generic { err: "disk".to_string() })));
    assert_eq!(
        action,
        NwcAction::Reply(Err(NostrError::Generic {
            err: "Cannot pay invoice: could not update periodic budget on connection \"a\": disk".to_string()
        }))
    );
    let state = NwcRequestState::AwaitingRefund { connection, error: NostrError::MaxBudgetExceeded };
    let (_, action) = nwc_request_step(state, NwcRequestInput::BudgetUpdated(Err(NostrError::Generic { err: "disk".to_string() })));
    assert_eq!(
        action,
        NwcAction::Reply(Err(NostrError::Generic {
            err: "Cannot pay invoice: could not update periodic budget on connection \"a\": disk.".to_string()
        }))
    );
}

#[test]
fn payment_without_budget_goes_straight_to_the_wallet() {
    let state = NwcRequestState::AwaitingInvoice { connection: terms("a", "aa", false, None), invoice: "lnbc1".to_string(), amount_msat: None };
    let (state, action) = nwc_request_step(state, NwcRequestInput::InvoiceRead(Some(Some(1_000))));
    assert_eq!(action, NwcAction::CallWallet(NwcMethod::PayInvoice { invoice: "lnbc1".to_string(), amount_msat: None }));
    let error = NostrError::Generic { err: "no route".to_string() };
    let (_, action) = nwc_request_step(state, NwcRequestInput::WalletAnswered(Err(error.clone())));
    assert_eq!(action, NwcAction::Reply(Err(error)));
}

#[test]
fn failed_record_of_a_paid_invoice_is_a_persist_error() {
    let state = NwcRequestState::AwaitingRecord { response: NwcResponse::GetInfo };
    let (_, action) = nwc_request_step(state, NwcRequestInput::PaidRecorded(Err(NostrError::Generic { err: "full".to_string() })));
    assert_eq!(action, NwcAction::Reply(Err(NostrError::Persist { err: "Could not persist paid invoice: full".to_string() })));
}

#[test]
fn step_out_of_order_is_refused() {
    let (state, action) = nwc_request_step(NwcRequestState::Done, NwcRequestInput::PaidRecorded(Ok(())));
    assert_eq!(state, NwcRequestState::Done);
    assert_eq!(action, NwcAction::Fail(NostrError::Generic { err: "Request step out of order".to_string() }));
}

#[test]
fn request_round_trips_through_nip44() {
    let wallet = Keys::generate();
    let client = Keys::generate();
    let json = serde_json::to_string(&Request::pay_invoice(PayInvoiceRequest::new("lnbc1"))).unwrap();
    let payload = nostr_sdk::nips::nip44::encrypt(
        client.secret_key(),
        &wallet.public_key(),
        json.clone(),
        nostr_sdk::nips::nip44::Version::V2,
    )
    .unwrap();
    let (method, text) = decrypt_request(&wallet.secret_key().to_secret_hex(), &client.public_key().to_hex(), &payload).unwrap();
    assert_eq!(method, NwcMethod::PayInvoice { invoice: "lnbc1".to_string(), amount_msat: None });
    assert_eq!(text, json);

    let get_info = serde_json::to_string(&Request::get_info()).unwrap();
    let payload =
        nostr_sdk::nips::nip44::encrypt(client.secret_key(), &wallet.public_key(), get_info, nostr_sdk::nips::nip44::Version::V2)
            .unwrap();
    let (method, _) = decrypt_request(&wallet.secret_key().to_secret_hex(), &client.public_key().to_hex(), &payload).unwrap();
    assert_eq!(method, NwcMethod::GetInfo);

    assert!(matches!(
        decrypt_request(&wallet.secret_key().to_secret_hex(), &client.public_key().to_hex(), "not a payload"),
        Err(NostrError::Generic { .. })
    ));
}

#[test]
fn response_decrypts_for_the_client() {
    let wallet = Keys::generate();
    let client = Keys::generate();
    let payload = encrypt_response(&wallet.secret_key().to_secret_hex(), &client.public_key().to_hex(), "{\"result\":1}").unwrap();
    assert_ne!(payload, "{\"result\":1}");
    let plain = nostr_sdk::nips::nip44::decrypt(client.secret_key(), &wallet.public_key(), &payload).unwrap();
    assert_eq!(plain, "{\"result\":1}");
    assert!(encrypt_response("zz", &client.public_key().to_hex(), "x").is_err());
}

#[test]
fn request_event_is_read_and_checked() {
    let client = Keys::generate();
    let event = EventBuilder::new(Kind::WalletConnectRequest, "payload").sign_with_keys(&client).unwrap();
    let raw = event.as_json();
    let connections = vec![terms("a", &client.public_key().to_hex(), false, None)];
    let (read, input) = request_event_input(&raw, 5, connections.clone()).unwrap();
    assert_eq!(read.id, event.id.to_hex());
    assert_eq!(read.client_pubkey, client.public_key().to_hex());
    assert_eq!(read.content, "payload");
    assert_eq!(read.expiration, None);
    assert_eq!(input, NwcRequestInput::Event {
        client_pubkey: client.public_key().to_hex(),
        expiration: None,
        signature: Ok(()),
        now: 5,
        connections: connections.clone(),
    });
    let tampered = raw.replace("payload", "payloaf");
    let (_, input) = request_event_input(&tampered, 5, connections).unwrap();
    assert!(matches!(input, NwcRequestInput::Event { signature: Err(_), .. }));
    assert_eq!(
        request_event_input("{}", 5, Vec::new()).unwrap_err(),
        NostrError::Generic { err: "Could not read the request event".to_string() }
    );
}

fn relays() -> Vec<String> {
    vec!["wss://relay.example.com".to_string(), "not a url".to_string(), "wss://other.example.org".to_string()]
}

#[test]
fn relays_that_are_not_urls_are_left_out() {
    assert_eq!(filter_relays(&relays()), vec!["wss://relay.example.com".to_string(), "wss://other.example.org".to_string()]);
}

#[test]
fn new_connection_has_the_requested_terms() {
    let wallet = Keys::generate();
    let secret = Keys::generate().secret_key().to_secret_hex();
    let budget = BudgetRequest { max_budget_sat: 5000, renewal_time_mins: None };
    let c = new_connection(&vec!["other".to_string()], &"mine".to_string(), &wallet.public_key().to_hex(), &relays(), &secret, 77, Some(10), None, Some(budget)).unwrap();
    assert!(c.connection_string.starts_with("nostr+walletconnect://"));
    assert!(c.connection_string.contains(&secret));
    assert_eq!(c.created_at, 77);
    assert_eq!(c.expiry_time_sec, Some(600));
    assert!(!c.receive_only);
    assert_eq!(c.paid_amount_sat, 0);
    assert_eq!(
        c.periodic_budget,
        Some(ConnectionBudget {
            budget: PeriodicBudget { used_budget_sat: 0, max_budget_sat: 5000 },
            renewal_time_sec: 2592000,
            updated_at: 77,
        })
    );
    let c = new_connection(&Vec::new(), &"mine".to_string(), &wallet.public_key().to_hex(), &relays(), &secret, 1, None, Some(true), Some(BudgetRequest { max_budget_sat: 1, renewal_time_mins: Some(2) })).unwrap();
    assert_eq!(c.expiry_time_sec, None);
    assert!(c.receive_only);
    assert_eq!(c.periodic_budget.unwrap().renewal_time_sec, 120);
}

#[test]
fn connection_name_in_use_is_refused() {
    let wallet = Keys::generate();
    let secret = Keys::generate().secret_key().to_secret_hex();
    let res = new_connection(&vec!["a".to_string(), "mine".to_string()], &"mine".to_string(), &wallet.public_key().to_hex(), &relays(), &secret, 1, None, None, None);
    assert_eq!(res, Err(NostrError::Generic { err: "A connection with this name already exists".to_string() }));
    let res = add_connection(&vec!["mine".to_string()], &"mine".to_string(), &wallet.public_key().to_hex(), &relays(), 1, None, None, None);
    assert_eq!(res, Err(NostrError::Generic { err: "A connection with this name already exists".to_string() }));
}

#[test]
fn connection_with_a_bad_key_is_refused() {
    let secret = Keys::generate().secret_key().to_secret_hex();
    let res = new_connection(&Vec::new(), &"mine".to_string(), "zz", &relays(), &secret, 1, None, None, None);
    assert_eq!(res, Err(NostrError::Generic { err: "Could not build the connection URI".to_string() }));
}

#[test]
fn added_connections_get_fresh_secrets_and_read_back_as_active() {
    let wallet = Keys::generate();
    let first = add_connection(&Vec::new(), &"one".to_string(), &wallet.public_key().to_hex(), &relays(), 3, None, None, None).unwrap();
    let second = add_connection(&Vec::new(), &"two".to_string(), &wallet.public_key().to_hex(), &relays(), 3, None, None, None).unwrap();
    assert_ne!(first.connection_string, second.connection_string);
    let stored = vec![
        ("one".to_string(), first.connection_string.clone()),
        ("broken".to_string(), "nostr+walletconnect://nothing".to_string()),
        ("two".to_string(), second.connection_string.clone()),
    ];
    let active = active_connections(&stored);
    assert_eq!(active.len(), 2);
    assert_eq!(active[0].name, "one");
    assert_eq!(active[1].name, "two");
    let uri = nostr_sdk::nips::nip47::NostrWalletConnectURI::parse(&first.connection_string).unwrap();
    assert_eq!(active[0].secret, uri.secret.to_secret_hex());
    assert_eq!(active[0].client_pubkey, Keys::new(uri.secret.clone()).public_key().to_hex());
}

#[test]
fn payment_notifications_go_to_every_client_under_both_encryptions() {
    let wallet = Keys::generate();
    let client_a = Keys::generate();
    let client_b = Keys::generate();
    let active = vec![
        ActiveConnection { name: "a".to_string(), client_pubkey: client_a.public_key().to_hex(), secret: client_a.secret_key().to_secret_hex() },
        ActiveConnection { name: "b".to_string(), client_pubkey: client_b.public_key().to_hex(), secret: client_b.secret_key().to_secret_hex() },
    ];
    let events = payment_notification_events(&wallet.secret_key().to_secret_hex(), &active, "{\"notification\":1}");
    assert_eq!(events.len(), 2);
    for (client, client_events) in [&client_a, &client_b].iter().zip(events.iter()) {
        assert_eq!(client_events.len(), 2);
        assert_eq!(client_events[0].kind, 23196);
        assert_eq!(client_events[1].kind, 23197);
        for e in client_events {
            assert_eq!(e.tags, vec![vec!["p".to_string(), client.public_key().to_hex()]]);
        }
        let plain04 = nostr_sdk::nips::nip04::decrypt(client.secret_key(), &wallet.public_key(), client_events[0].content.clone()).unwrap();
        assert_eq!(plain04, "{\"notification\":1}");
        let plain44 = nostr_sdk::nips::nip44::decrypt(client.secret_key(), &wallet.public_key(), &client_events[1].content).unwrap();
        assert_eq!(plain44, "{\"notification\":1}");
    }
    let none = payment_notification_events("zz", &active, "x");
    assert!(none.iter().all(|e| e.is_empty()));
}

#[test]
fn budget_change_reserves_and_refunds_within_range() {
    let budget = PeriodicBudget { used_budget_sat: 10, max_budget_sat: 100 };
    let reserved = apply_budget_change(budget, 21).unwrap();
    assert_eq!(reserved, PeriodicBudget { used_budget_sat: 31, max_budget_sat: 100 });
    assert_eq!(apply_budget_change(reserved, -21), Some(budget));
    assert_eq!(apply_budget_change(budget, -11), None);
    assert_eq!(apply_budget_change(PeriodicBudget { used_budget_sat: u64::MAX, max_budget_sat: 1 }, 1), None);
    assert_eq!(apply_budget_change(PeriodicBudget { used_budget_sat: u64::MAX, max_budget_sat: 1 }, i64::MIN).unwrap().used_budget_sat, u64::MAX - (1u64 << 63));
}

#[test]
fn unknown_connection_name_is_refused() {
    let names = vec!["a".to_string(), "b".to_string()];
    assert_eq!(connection_index(&names, &"b".to_string()), Ok(1));
    assert_eq!(
        connection_index(&names, &"c".to_string()),
        Err(NostrError::Generic { err: "Connection \"c\" does not exist".to_string() })
    );
}

#[test]
fn refunding_a_reservation_restores_the_budget() {
    let budget = PeriodicBudget { used_budget_sat: 7, max_budget_sat: 50 };
    for amount in [0i64, 1, 43, 1000] {
        if let Some(reserved) = apply_budget_change(budget, amount) {
            assert_eq!(apply_budget_change(reserved, -amount), Some(budget));
        }
    }
}

#[test]
fn client_events_hold_each_payload_that_was_made() {
    let pk = "ab".to_string();
    let tag = vec![vec!["p".to_string(), "ab".to_string()]];
    let both = client_events_from(Ok("x04".to_string()), Ok("x44".to_string()), &pk);
    assert_eq!(both.len(), 2);
    assert_eq!((both[0].kind, both[0].content.as_str()), (23196, "x04"));
    assert_eq!((both[1].kind, both[1].content.as_str()), (23197, "x44"));
    assert!(both.iter().all(|e| e.tags == tag));
    let only44 = client_events_from(Err("bad key".to_string()), Ok("x44".to_string()), &pk);
    assert_eq!(only44.len(), 1);
    assert_eq!(only44[0].kind, 23197);
    let only04 = client_events_from(Ok("x04".to_string()), Err("empty".to_string()), &pk);
    assert_eq!(only04.len(), 1);
    assert_eq!(only04[0].kind, 23196);
    assert!(client_events_from(Err("a".to_string()), Err("b".to_string()), &pk).is_empty());
}

#[test]
fn unhandled_method_is_described() {
    let wallet = Keys::generate();
    let client = Keys::generate();
    let json = "{\"method\":\"pay_keysend\",\"params\":{\"amount\":1000,\"pubkey\":\"03aa\"}}";
    let payload = nostr_sdk::nips::nip44::encrypt(client.secret_key(), &wallet.public_key(), json, nostr_sdk::nips::nip44::Version::V2).unwrap();
    match decrypt_request(&wallet.secret_key().to_secret_hex(), &client.public_key().to_hex(), &payload) {
        Ok((NwcMethod::Other { description }, _)) => assert!(description.contains("PayKeysend")),
        other => panic!("unexpected {other:?}"),
    }
}

fn connection(expiry: Option<u64>, budget: Option<ConnectionBudget>) -> NwcConnection {
    NwcConnection {
        connection_string: "nostr+walletconnect://x".to_string(),
        created_at: 100,
        expiry_time_sec: expiry,
        receive_only: false,
        paid_amount_sat: 0,
        periodic_budget: budget,
    }
}

fn budget(used: u64, renewal: u64, updated_at: u64) -> ConnectionBudget {
    ConnectionBudget { budget: PeriodicBudget { used_budget_sat: used, max_budget_sat: 100 }, renewal_time_sec: renewal, updated_at }
}

#[test]
fn refresh_removes_expired_connections_and_renews_budgets() {
    let connections = vec![
        ("expired".to_string(), connection(Some(50), None)),
        ("due".to_string(), connection(None, Some(budget(40, 60, 100)))),
        ("fresh".to_string(), connection(Some(500), Some(budget(40, 600, 100)))),
    ];
    let (kept, deleted, refreshed) = refresh_connections(connections, 160);
    assert_eq!(deleted, vec!["expired".to_string()]);
    assert_eq!(refreshed, vec!["due".to_string()]);
    assert_eq!(kept.len(), 2);
    assert_eq!(kept[0].0, "due");
    assert_eq!(kept[0].1.periodic_budget, Some(budget(0, 60, 160)));
    assert_eq!(kept[1], ("fresh".to_string(), connection(Some(500), Some(budget(40, 600, 100)))));
}

#[test]
fn refresh_interval_is_the_shortest_period_but_at_least_a_minute() {
    let connections = vec![
        ("a".to_string(), connection(Some(3600), None)),
        ("b".to_string(), connection(None, Some(budget(0, 1200, 0)))),
    ];
    assert_eq!(refresh_interval(&connections), Some(1200));
    assert_eq!(refresh_interval(&vec![("c".to_string(), connection(Some(5), None))]), Some(60));
    assert_eq!(refresh_interval(&vec![("d".to_string(), connection(None, None))]), None);
    assert_eq!(refresh_interval(&Vec::new()), None);
}

#[test]
fn edited_connection_takes_the_new_terms_and_keeps_its_usage() {
    let current = connection(Some(50), Some(budget(40, 60, 100)));
    let edited = edit_connection(&current, Some(2), Some(true), Some(BudgetRequest { max_budget_sat: 900, renewal_time_mins: None }), 300);
    assert_eq!(edited.connection_string, current.connection_string);
    assert_eq!(edited.expiry_time_sec, Some(120));
    assert!(edited.receive_only);
    assert_eq!(
        edited.periodic_budget,
        Some(ConnectionBudget { budget: PeriodicBudget { used_budget_sat: 40, max_budget_sat: 900 }, renewal_time_sec: 2592000, updated_at: 100 })
    );
    let edited = edit_connection(&connection(None, None), None, None, Some(BudgetRequest { max_budget_sat: 5, renewal_time_mins: Some(1) }), 300);
    assert_eq!(edited.expiry_time_sec, None);
    assert!(!edited.receive_only);
    assert_eq!(edited.periodic_budget, Some(ConnectionBudget { budget: PeriodicBudget { used_budget_sat: 0, max_budget_sat: 5 }, renewal_time_sec: 60, updated_at: 300 }));
    assert_eq!(edit_connection(&current, None, None, None, 1).periodic_budget, None);
}

#[test]
fn added_connection_has_the_requested_terms() {
    let wallet = Keys::generate();
    let c = add_connection(&Vec::new(), &"n".to_string(), &wallet.public_key().to_hex(), &relays(), 9, Some(3), Some(true), Some(BudgetRequest { max_budget_sat: 7, renewal_time_mins: None })).unwrap();
    assert_eq!(c.created_at, 9);
    assert_eq!(c.expiry_time_sec, Some(180));
    assert!(c.receive_only);
    assert_eq!(c.paid_amount_sat, 0);
    assert_eq!(c.periodic_budget, Some(ConnectionBudget { budget: PeriodicBudget { used_budget_sat: 0, max_budget_sat: 7 }, renewal_time_sec: 2592000, updated_at: 9 }));
}
