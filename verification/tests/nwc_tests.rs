use breez_nostr::error::NostrError;
use breez_nostr::event::{NostrEvent, NostrEventDetails, NwcEventKind};
use breez_nostr::model::{Payment, PaymentState, PaymentType};
use breez_nostr::nwc::{
    budget_change_sat, check_receive_only, find_connection, request_expired, connection_refresh_events, info_event_content, msat_to_sat_ceil,
    notification_event_kind, nwc_event, nwc_event_kind, payment_amount_sat, payment_notice, payment_reactions,
    plan_payment, supported_methods, supported_notifications, NotificationEncryption, NotificationType,
    NwcResponse, PaymentPlan, PaymentReactions, PeriodicBudget, TransactionType, NWC_SUPPORTED_METHODS,
};

#[test]
fn receive_only_connections_only_make_invoices() {
    assert!(check_receive_only(false, false).is_ok());
    assert!(check_receive_only(false, true).is_ok());
    assert!(check_receive_only(true, true).is_ok());
    assert_eq!(
        check_receive_only(true, false),
        Err(NostrError::Generic { err: "Connection is receive-only.".to_string() })
    );
}

#[test]
fn amounts_round_up_to_satoshis() {
    assert_eq!(msat_to_sat_ceil(0), 0);
    assert_eq!(msat_to_sat_ceil(1), 1);
    assert_eq!(msat_to_sat_ceil(1000), 1);
    assert_eq!(msat_to_sat_ceil(1001), 2);
    assert_eq!(payment_amount_sat(Some(1500), Some(9000)), Some(2));
    assert_eq!(payment_amount_sat(None, Some(9000)), Some(9));
    assert_eq!(payment_amount_sat(None, None), None);
}

#[test]
fn payment_plans() {
    assert_eq!(plan_payment(None, None, None), Err(NostrError::InvoiceWithoutAmount));
    assert_eq!(
        plan_payment(Some(5000), None, None),
        Ok(PaymentPlan { amount_sat: 5, reserve_budget: false })
    );
    let budget = PeriodicBudget { used_budget_sat: 90, max_budget_sat: 100 };
    assert_eq!(
        plan_payment(None, Some(10_000), Some(budget)),
        Ok(PaymentPlan { amount_sat: 10, reserve_budget: true })
    );
    assert_eq!(plan_payment(None, Some(10_001), Some(budget)), Err(NostrError::MaxBudgetExceeded));
}

#[test]
fn budget_changes() {
    let plan = PaymentPlan { amount_sat: 21, reserve_budget: true };
    assert_eq!(budget_change_sat(&plan, false), 21);
    assert_eq!(budget_change_sat(&plan, true), -21);
}

#[test]
fn event_kinds_of_outcomes() {
    let paid = Ok(NwcResponse::PayInvoice { preimage: "pre".to_string(), fees_paid_msat: Some(2500) });
    assert_eq!(
        nwc_event_kind(&paid),
        Some(NwcEventKind::PayInvoice {
            success: true,
            preimage: Some("pre".to_string()),
            fees_sat: Some(2),
            error: None
        })
    );
    assert_eq!(nwc_event_kind(&Ok(NwcResponse::MakeInvoice)), Some(NwcEventKind::MakeInvoice));
    assert_eq!(nwc_event_kind(&Ok(NwcResponse::ListTransactions)), Some(NwcEventKind::ListTransactions));
    assert_eq!(nwc_event_kind(&Ok(NwcResponse::GetBalance)), Some(NwcEventKind::ListTransactions));
    assert_eq!(nwc_event_kind(&Ok(NwcResponse::GetInfo)), Some(NwcEventKind::GetInfo));
    assert_eq!(nwc_event_kind(&Ok(NwcResponse::Other)), None);
    assert_eq!(
        nwc_event_kind(&Err(NostrError::MaxBudgetExceeded)),
        Some(NwcEventKind::PayInvoice {
            success: false,
            preimage: None,
            fees_sat: None,
            error: Some("Maximum budget exceeded".to_string())
        })
    );
    assert_eq!(nwc_event_kind(&Err(NostrError::EventExpired)), None);
}

#[test]
fn nwc_event_names_connection_and_request() {
    let event = nwc_event("shop".to_string(), &Ok(NwcResponse::GetInfo), "ev1".to_string());
    assert_eq!(
        event,
        Some(NostrEvent {
            event_id: Some("ev1".to_string()),
            details: NostrEventDetails::Nwc { kind: NwcEventKind::GetInfo, connection_name: Some("shop".to_string()) },
        })
    );
    assert_eq!(nwc_event("shop".to_string(), &Ok(NwcResponse::Other), "ev1".to_string()), None);
}

#[test]
fn refresh_events_list_deleted_then_refreshed() {
    let events = connection_refresh_events(&vec!["a".to_string()], &vec!["b".to_string(), "c".to_string()]);
    let kinds: Vec<(NwcEventKind, Option<String>)> = events
        .into_iter()
        .map(|e| match e.details {
            NostrEventDetails::Nwc { kind, connection_name } => (kind, connection_name),
            _ => panic!("unexpected event"),
        })
        .collect();
    assert_eq!(
        kinds,
        vec![
            (NwcEventKind::ConnectionExpired, Some("a".to_string())),
            (NwcEventKind::ConnectionRefreshed, Some("b".to_string())),
            (NwcEventKind::ConnectionRefreshed, Some("c".to_string())),
        ]
    );
}

#[test]
fn info_content_lists_methods() {
    assert_eq!(info_event_content(), "make_invoice pay_invoice list_transactions get_balance get_info");
    assert_eq!(supported_methods(), NWC_SUPPORTED_METHODS.to_vec());
    assert_eq!(supported_notifications(), vec!["payment_received", "payment_sent"]);
}

fn payment(payment_type: PaymentType, payment_state: PaymentState) -> Payment {
    Payment {
        invoice: "lnbc1".to_string(),
        amount_sat: 21,
        fees_sat: 2,
        timestamp: 1_700_000_000,
        payment_type,
        payment_state,
        payment_hash: Some("hash".to_string()),
        preimage: None,
        description: Some("coffee".to_string()),
        description_hash: None,
    }
}

#[test]
fn payment_notices() {
    let sent = payment_notice(&payment(PaymentType::Outgoing, PaymentState::Complete));
    assert_eq!(sent.notification_type, NotificationType::PaymentSent);
    assert_eq!(sent.transaction_type, TransactionType::Outgoing);
    assert_eq!(sent.amount_msat, 21_000);
    assert_eq!(sent.fees_paid_msat, 2_000);
    assert_eq!(sent.created_at, 1_700_000_000);
    assert_eq!(sent.settled_at, 1_700_000_000);
    assert_eq!(sent.preimage, "");
    assert_eq!(sent.payment_hash, "hash");
    assert_eq!(sent.invoice, "lnbc1");
    assert_eq!(sent.description, Some("coffee".to_string()));
    assert_eq!(sent.description_hash, None);
    let received = payment_notice(&payment(PaymentType::Incoming, PaymentState::Complete));
    assert_eq!(received.notification_type, NotificationType::PaymentReceived);
    assert_eq!(received.transaction_type, TransactionType::Incoming);
}

#[test]
fn notification_kinds() {
    assert_eq!(notification_event_kind(NotificationEncryption::Nip04), 23196);
    assert_eq!(notification_event_kind(NotificationEncryption::Nip44), 23197);
}

#[test]
fn reactions_to_payments() {
    assert_eq!(
        payment_reactions(PaymentState::Complete),
        PaymentReactions { notify_relays: true, send_zap_receipt: false }
    );
    assert_eq!(
        payment_reactions(PaymentState::Pending),
        PaymentReactions { notify_relays: false, send_zap_receipt: true }
    );
    assert_eq!(
        payment_reactions(PaymentState::Failed),
        PaymentReactions { notify_relays: false, send_zap_receipt: false }
    );
}

#[test]
fn expired_requests() {
    assert!(!request_expired(None, 100));
    assert!(request_expired(Some(99), 100));
    assert!(!request_expired(Some(100), 100));
    assert!(!request_expired(Some(101), 100));
}

#[test]
fn connections_are_found_by_client_key() {
    let keys = vec!["k1".to_string(), "k2".to_string()];
    assert_eq!(find_connection(&keys, &"k2".to_string()), Ok(1));
    assert_eq!(
        find_connection(&keys, &"k3".to_string()),
        Err(NostrError::PubkeyNotFound { pubkey: "k3".to_string() })
    );
}
