//! Nostr Wallet Connect (NIP-47): what the wallet service decides about requests, budgets,
//! the events it emits and the payment notifications it sends to relays.
use vstd::prelude::*;
use vstd::string::StringExecFns;

use crate::error::{error_text, NostrError, NostrResult};
use crate::event::{position_of, NostrEvent, NostrEventDetails, NwcEventKind};
use crate::model::{texts, Payment, PaymentState, PaymentType};
use crate::zaps::tag_texts;

verus! {

/// Shortest period, in seconds, between two refreshes of the active connections.
pub const MIN_REFRESH_INTERVAL_SEC: u64 = 60;

/// Period, in seconds, after which a periodic budget renews unless configured otherwise (30 days).
pub const DEFAULT_PERIODIC_BUDGET_TIME_SEC: u32 = 2592000;

/// Period, in seconds, between two rounds of event handling.
pub const DEFAULT_EVENT_HANDLING_INTERVAL_SEC: u64 = 10;

/// The NIP-47 methods that the wallet service answers.
pub const NWC_SUPPORTED_METHODS: [&'static str; 5] = [
    "make_invoice",
    "pay_invoice",
    "list_transactions",
    "get_balance",
    "get_info",
];

/// The NIP-47 notifications that the wallet service sends.
pub const NWC_SUPPORTED_NOTIFICATIONS: [&'static str; 2] = ["payment_received", "payment_sent"];

/// The texts of `NWC_SUPPORTED_METHODS`, in order.
pub open spec fn supported_method_texts() -> Seq<Seq<char>> {
    seq!["make_invoice"@, "pay_invoice"@, "list_transactions"@, "get_balance"@, "get_info"@]
}

/// The texts of `NWC_SUPPORTED_NOTIFICATIONS`, in order.
pub open spec fn supported_notification_texts() -> Seq<Seq<char>> {
    seq!["payment_received"@, "payment_sent"@]
}

/// The texts of a list joined with one space between neighbours.
pub open spec fn space_joined(parts: Seq<Seq<char>>) -> Seq<char>
    decreases parts.len(),
{
    if parts.len() == 0 {
        Seq::empty()
    } else if parts.len() == 1 {
        parts[0]
    } else {
        space_joined(parts.drop_last()) + seq![' '] + parts.last()
    }
}

/// The methods that a `get_info` response lists.
pub fn supported_methods() -> (methods: Vec<String>)
    ensures
        texts(methods@) == supported_method_texts(),
{
    let mut methods: Vec<String> = Vec::new();
    for i in 0..5usize
        invariant
            methods@.len() == i,
            forall|j: int| 0 <= j < i ==> #[trigger] methods@[j]@ == NWC_SUPPORTED_METHODS@[j]@,
    {
        methods.push(String::from_str(NWC_SUPPORTED_METHODS[i]));
    }
    assert(texts(methods@) =~= supported_method_texts());
    methods
}

/// The notifications that a `get_info` response lists.
pub fn supported_notifications() -> (notifications: Vec<String>)
    ensures
        texts(notifications@) == supported_notification_texts(),
{
    let mut notifications: Vec<String> = Vec::new();
    for i in 0..2usize
        invariant
            notifications@.len() == i,
            forall|j: int| 0 <= j < i ==> #[trigger] notifications@[j]@ == NWC_SUPPORTED_NOTIFICATIONS@[j]@,
    {
        notifications.push(String::from_str(NWC_SUPPORTED_NOTIFICATIONS[i]));
    }
    assert(texts(notifications@) =~= supported_notification_texts());
    notifications
}

/// The content of the wallet's info event: the supported methods, separated by spaces.
pub fn info_event_content() -> (content: String)
    ensures
        content@ == space_joined(supported_method_texts()),
{
    proof {
        reveal_strlit(" ");
    }
    let methods = supported_methods();
    let ghost parts = texts(methods@);
    assert(methods@.len() == parts.len());
    let mut content = String::new();
    for i in 0..methods.len()
        invariant
            methods@.len() == 5,
            parts == texts(methods@),
            parts == supported_method_texts(),
            content@ == space_joined(parts.take(i as int)),
    {
        let ghost before = content@;
        if i > 0 {
            content.append(" ");
        }
        content.append(methods[i].as_str());
        proof {
            reveal_strlit(" ");
            let next = parts.take(i + 1);
            assert(next.drop_last() =~= parts.take(i as int));
            assert(next.last() == methods@[i as int]@);
            if i == 0 {
                assert(content@ =~= next[0]);
            } else {
                assert(content@ =~= before + seq![' '] + next.last());
            }
        }
    }
    assert(parts.take(5) =~= parts);
    content
}

/// The event kind of a wallet's info event (NIP-47).
pub const WALLET_CONNECT_INFO_KIND: u16 = 13194;

/// A Nostr event to be signed and sent: its kind, content and tags.
#[derive(Clone, Debug, PartialEq)]
pub struct UnsignedEvent {
    pub kind: u16,
    pub content: String,
    pub tags: Vec<Vec<String>>,
}

/// The wallet's info event: the supported methods as content, and an `encryption` tag naming
/// the encryptions it understands.
pub fn info_event() -> (event: UnsignedEvent)
    ensures
        event.kind == WALLET_CONNECT_INFO_KIND,
        event.content@ == space_joined(supported_method_texts()),
        tag_texts(event.tags@) == seq![seq!["encryption"@, "nip44_v2 nip04"@]],
{
    let mut tag: Vec<String> = Vec::new();
    tag.push(String::from_str("encryption"));
    tag.push(String::from_str("nip44_v2 nip04"));
    let mut tags: Vec<Vec<String>> = Vec::new();
    tags.push(tag);
    proof {
        assert(texts(tags@[0]@) =~= seq!["encryption"@, "nip44_v2 nip04"@]);
        assert(tag_texts(tags@) =~= seq![seq!["encryption"@, "nip44_v2 nip04"@]]);
    }
    UnsignedEvent { kind: WALLET_CONNECT_INFO_KIND, content: info_event_content(), tags }
}

/// A request whose expiration lies before `now` has expired; one without expiration never does.
pub fn request_expired(expiration: Option<u64>, now: u64) -> (expired: bool)
    ensures
        expired == (expiration matches Some(t) && t < now),
{
    match expiration {
        Some(t) => t < now,
        None => false,
    }
}

/// The first active connection whose client key is `client_pubkey`; a request from a key of no
/// active connection is refused.
pub fn find_connection(client_pubkeys: &Vec<String>, client_pubkey: &String) -> (res: NostrResult<usize>)
    ensures
        match res {
            Ok(i) => i < client_pubkeys@.len() && client_pubkeys@[i as int]@ == client_pubkey@
                && forall|j: int| 0 <= j < i ==> client_pubkeys@[j]@ != client_pubkey@,
            Err(e) => (e matches NostrError::PubkeyNotFound { pubkey } && pubkey@ == client_pubkey@)
                && forall|j: int| 0 <= j < client_pubkeys@.len() ==> client_pubkeys@[j]@ != client_pubkey@,
        },
{
    match position_of(client_pubkeys, client_pubkey) {
        Some(i) => Ok(i),
        None => Err(NostrError::PubkeyNotFound { pubkey: client_pubkey.clone() }),
    }
}

/// A connection that may only receive refuses every request but `make_invoice`.
pub fn check_receive_only(receive_only: bool, is_make_invoice: bool) -> (res: NostrResult<()>)
    ensures
        res is Ok <==> !receive_only || is_make_invoice,
        res matches Err(e) ==> e matches NostrError::Generic { err } && err@ == "Connection is receive-only."@,
{
    if receive_only && !is_make_invoice {
        return Err(NostrError::Generic { err: String::from_str("Connection is receive-only.") });
    }
    Ok(())
}

/// Millisatoshis rounded up to whole satoshis.
pub open spec fn sat_ceil(msat: u64) -> int {
    (msat + 999) / 1000
}

/// The amount, in satoshis rounded up, that a `pay_invoice` request pays: the amount in the
/// request, or else the invoice's own amount.
pub open spec fn payment_amount(request_amount_msat: Option<u64>, invoice_amount_msat: Option<u64>) -> Option<int> {
    match request_amount_msat {
        Some(msat) => Some(sat_ceil(msat)),
        None => match invoice_amount_msat {
            Some(msat) => Some(sat_ceil(msat)),
            None => None,
        },
    }
}

/// Millisatoshis rounded up to whole satoshis.
pub fn msat_to_sat_ceil(msat: u64) -> (sat: u64)
    ensures
        sat == sat_ceil(msat),
{
    if msat % 1000 == 0 {
        msat / 1000
    } else {
        msat / 1000 + 1
    }
}

/// The amount of a `pay_invoice` request in satoshis, rounded up.
pub fn payment_amount_sat(request_amount_msat: Option<u64>, invoice_amount_msat: Option<u64>) -> (amount: Option<u64>)
    ensures
        match amount {
            Some(sat) => payment_amount(request_amount_msat, invoice_amount_msat) == Some(sat as int),
            None => payment_amount(request_amount_msat, invoice_amount_msat) is None,
        },
{
    match request_amount_msat {
        Some(msat) => Some(msat_to_sat_ceil(msat)),
        None => match invoice_amount_msat {
            Some(msat) => Some(msat_to_sat_ceil(msat)),
            None => None,
        },
    }
}

/// The spending limit of a connection: how much it has spent in the current period, and how
/// much it may.
#[derive(Clone, Copy, Debug, PartialEq, Eq)]
pub struct PeriodicBudget {
    pub used_budget_sat: u64,
    pub max_budget_sat: u64,
}

/// How a `pay_invoice` request is carried out: the amount paid, and whether it is reserved
/// from the connection's budget before paying.
#[derive(Clone, Copy, Debug, PartialEq, Eq)]
pub struct PaymentPlan {
    pub amount_sat: u64,
    pub reserve_budget: bool,
}

/// Decides a `pay_invoice` request: it needs an amount, and must fit in the connection's
/// budget if it has one; the amount is then reserved from that budget.
pub fn plan_payment(
    request_amount_msat: Option<u64>,
    invoice_amount_msat: Option<u64>,
    budget: Option<PeriodicBudget>,
) -> (res: NostrResult<PaymentPlan>)
    requires
        payment_amount(request_amount_msat, invoice_amount_msat) matches Some(amount)
            ==> (budget matches Some(b) ==> b.used_budget_sat + amount <= u64::MAX),
    ensures
        match payment_amount(request_amount_msat, invoice_amount_msat) {
            None => res == Err::<PaymentPlan, NostrError>(NostrError::InvoiceWithoutAmount),
            Some(amount) => match budget {
                Some(b) => if b.used_budget_sat + amount > b.max_budget_sat {
                    res == Err::<PaymentPlan, NostrError>(NostrError::MaxBudgetExceeded)
                } else {
                    res matches Ok(plan) && plan.amount_sat == amount && plan.reserve_budget
                },
                None => res matches Ok(plan) && plan.amount_sat == amount && !plan.reserve_budget,
            },
        },
{
    let amount_sat = match payment_amount_sat(request_amount_msat, invoice_amount_msat) {
        Some(amount_sat) => amount_sat,
        None => return Err(NostrError::InvoiceWithoutAmount),
    };
    match budget {
        Some(b) => {
            if b.used_budget_sat + amount_sat > b.max_budget_sat {
                return Err(NostrError::MaxBudgetExceeded);
            }
            Ok(PaymentPlan { amount_sat, reserve_budget: true })
        },
        None => Ok(PaymentPlan { amount_sat, reserve_budget: false }),
    }
}

/// The change to a connection's used budget: the amount, taken as a signed number as `as`
/// does, when it is reserved, its negation when a failed payment gives it back.
pub fn budget_change_sat(plan: &PaymentPlan, refund: bool) -> (change: i64)
    requires
        refund ==> plan.amount_sat as i64 != i64::MIN,
    ensures
        change as int == if refund {
            -((plan.amount_sat as i64) as int)
        } else {
            (plan.amount_sat as i64) as int
        },
{
    let amount = plan.amount_sat as i64;
    if refund {
        -amount
    } else {
        amount
    }
}

/// What a NIP-47 request was answered with, as far as the emitted events are concerned.
#[derive(Clone, Debug, PartialEq)]
pub enum NwcResponse {
    PayInvoice { preimage: String, fees_paid_msat: Option<u64> },
    MakeInvoice,
    ListTransactions,
    GetBalance,
    GetInfo,
    Other,
}

/// The budget after its used part changed by `change` satoshis; `None` when the used part would
/// leave the range of `u64`.
pub open spec fn budget_after(budget: PeriodicBudget, change: int) -> Option<PeriodicBudget> {
    let used = budget.used_budget_sat + change;
    if 0 <= used <= u64::MAX {
        Some(PeriodicBudget { used_budget_sat: used as u64, max_budget_sat: budget.max_budget_sat })
    } else {
        None
    }
}

/// The budget after its used part changed by `change` satoshis (a reservation when positive, a
/// refund when negative); `None` when the used part would leave the range of `u64`.
pub fn apply_budget_change(budget: PeriodicBudget, change: i64) -> (res: Option<PeriodicBudget>)
    ensures
        res == budget_after(budget, change as int),
{
    if change >= 0 {
        match budget.used_budget_sat.checked_add(change as u64) {
            Some(used) => Some(PeriodicBudget { used_budget_sat: used, max_budget_sat: budget.max_budget_sat }),
            None => None,
        }
    } else {
        let back: u64 = if change == i64::MIN { 9223372036854775808u64 } else { (-change) as u64 };
        if back <= budget.used_budget_sat {
            Some(PeriodicBudget { used_budget_sat: budget.used_budget_sat - back, max_budget_sat: budget.max_budget_sat })
        } else {
            None
        }
    }
}

/// The errors after which a `pay_invoice` failure is reported to listeners.
pub open spec fn reported_payment_error(e: NostrError) -> bool {
    ||| e is InvoiceExpired
    ||| e is InvoiceWithoutAmount
    ||| e is MaxBudgetExceeded
}

/// The kind of event that the outcome of a request is reported under, if any.
pub fn nwc_event_kind(result: &NostrResult<NwcResponse>) -> (kind: Option<NwcEventKind>)
    ensures
        match *result {
            Ok(NwcResponse::PayInvoice { preimage, fees_paid_msat }) => kind matches Some(
                NwcEventKind::PayInvoice { success, preimage: Some(p), fees_sat, error: None },
            ) && success && p@ == preimage@ && fees_sat == match fees_paid_msat {
                Some(fees) => Some((fees / 1000) as u64),
                None => None,
            },
            Ok(NwcResponse::MakeInvoice) => kind == Some(NwcEventKind::MakeInvoice),
            Ok(NwcResponse::ListTransactions) => kind == Some(NwcEventKind::ListTransactions),
            Ok(NwcResponse::GetBalance) => kind == Some(NwcEventKind::ListTransactions),
            Ok(NwcResponse::GetInfo) => kind == Some(NwcEventKind::GetInfo),
            Ok(NwcResponse::Other) => kind is None,
            Err(e) => if reported_payment_error(e) {
                kind matches Some(NwcEventKind::PayInvoice { success, preimage: None, fees_sat: None, error: Some(text) })
                    && !success && text@ == error_text(e)
            } else {
                kind is None
            },
        },
{
    match result {
        Ok(NwcResponse::PayInvoice { preimage, fees_paid_msat }) => {
            let fees_sat = match fees_paid_msat {
                Some(fees) => Some(*fees / 1000),
                None => None,
            };
            Some(NwcEventKind::PayInvoice { success: true, preimage: Some(preimage.clone()), fees_sat, error: None })
        },
        Err(err) => match err {
            NostrError::InvoiceExpired | NostrError::InvoiceWithoutAmount | NostrError::MaxBudgetExceeded => {
                Some(NwcEventKind::PayInvoice { success: false, preimage: None, fees_sat: None, error: Some(err.message()) })
            },
            _ => None,
        },
        Ok(NwcResponse::MakeInvoice) => Some(NwcEventKind::MakeInvoice),
        Ok(NwcResponse::ListTransactions) => Some(NwcEventKind::ListTransactions),
        Ok(NwcResponse::GetBalance) => Some(NwcEventKind::ListTransactions),
        Ok(NwcResponse::GetInfo) => Some(NwcEventKind::GetInfo),
        Ok(NwcResponse::Other) => None,
    }
}

/// The event that reports the outcome of a request on a connection, if any.
pub fn nwc_event(connection_name: String, result: &NostrResult<NwcResponse>, event_id: String) -> (event: Option<NostrEvent>)
    ensures
        match event {
            Some(e) => {
                &&& e.event_id == Some(event_id)
                &&& e.details matches NostrEventDetails::Nwc { kind, connection_name: name }
                &&& name == Some(connection_name)
                &&& nwc_event_kind_spec(result, kind)
            },
            None => nwc_event_kind_none(result),
        },
{
    match nwc_event_kind(result) {
        Some(kind) => Some(NostrEvent {
            event_id: Some(event_id),
            details: NostrEventDetails::Nwc { kind, connection_name: Some(connection_name) },
        }),
        None => None,
    }
}

/// `kind` is what `nwc_event_kind` gives for `result`.
pub open spec fn nwc_event_kind_spec(result: &NostrResult<NwcResponse>, kind: NwcEventKind) -> bool {
    match *result {
        Ok(NwcResponse::PayInvoice { preimage, fees_paid_msat }) => kind matches NwcEventKind::PayInvoice {
            success, preimage: Some(p), fees_sat, error: None,
        } && success && p@ == preimage@ && fees_sat == match fees_paid_msat {
            Some(fees) => Some((fees / 1000) as u64),
            None => None,
        },
        Ok(NwcResponse::MakeInvoice) => kind == NwcEventKind::MakeInvoice,
        Ok(NwcResponse::ListTransactions) => kind == NwcEventKind::ListTransactions,
        Ok(NwcResponse::GetBalance) => kind == NwcEventKind::ListTransactions,
        Ok(NwcResponse::GetInfo) => kind == NwcEventKind::GetInfo,
        Ok(NwcResponse::Other) => false,
        Err(e) => {
            &&& reported_payment_error(e)
            &&& kind matches NwcEventKind::PayInvoice { success, preimage: None, fees_sat: None, error: Some(text) }
            &&& !success
            &&& text@ == error_text(e)
        },
    }
}

/// No event reports `result`.
pub open spec fn nwc_event_kind_none(result: &NostrResult<NwcResponse>) -> bool {
    match *result {
        Ok(NwcResponse::Other) => true,
        Err(e) => !reported_payment_error(e),
        _ => false,
    }
}

/// The event that reports a change to a named connection.
pub open spec fn is_connection_event(event: NostrEvent, kind: NwcEventKind, name: Seq<char>) -> bool {
    &&& event.event_id is None
    &&& event.details matches NostrEventDetails::Nwc { kind: k, connection_name: Some(n) }
    &&& k == kind
    &&& n@ == name
}

/// The events of a refresh of the connections: one `ConnectionExpired` per deleted
/// connection, then one `ConnectionRefreshed` per refreshed one, each in the given order.
pub fn connection_refresh_events(deleted: &Vec<String>, refreshed: &Vec<String>) -> (events: Vec<NostrEvent>)
    ensures
        events@.len() == deleted@.len() + refreshed@.len(),
        forall|i: int| 0 <= i < deleted@.len()
            ==> is_connection_event(#[trigger] events@[i], NwcEventKind::ConnectionExpired, deleted@[i]@),
        forall|i: int| 0 <= i < refreshed@.len()
            ==> is_connection_event(#[trigger] events@[deleted@.len() + i], NwcEventKind::ConnectionRefreshed, refreshed@[i]@),
{
    let mut events: Vec<NostrEvent> = Vec::new();
    for i in 0..deleted.len()
        invariant
            events@.len() == i,
            forall|j: int| 0 <= j < i
                ==> is_connection_event(#[trigger] events@[j], NwcEventKind::ConnectionExpired, deleted@[j]@),
    {
        events.push(NostrEvent {
            event_id: None,
            details: NostrEventDetails::Nwc { kind: NwcEventKind::ConnectionExpired, connection_name: Some(deleted[i].clone()) },
        });
    }
    let d = deleted.len();
    for i in 0..refreshed.len()
        invariant
            d == deleted@.len(),
            events@.len() == d + i,
            forall|j: int| 0 <= j < d
                ==> is_connection_event(#[trigger] events@[j], NwcEventKind::ConnectionExpired, deleted@[j]@),
            forall|j: int| 0 <= j < i
                ==> is_connection_event(#[trigger] events@[d + j], NwcEventKind::ConnectionRefreshed, refreshed@[j]@),
    {
        events.push(NostrEvent {
            event_id: None,
            details: NostrEventDetails::Nwc { kind: NwcEventKind::ConnectionRefreshed, connection_name: Some(refreshed[i].clone()) },
        });
        proof {
            assert(events@[d + i] == events@.last());
        }
    }
    events
}

/// The direction of a payment in a NIP-47 notification.
#[derive(PartialEq, Eq, Structural, Clone, Copy, Debug)]
pub enum TransactionType {
    Incoming,
    Outgoing,
}

/// The kind of a NIP-47 payment notification.
#[derive(PartialEq, Eq, Structural, Clone, Copy, Debug)]
pub enum NotificationType {
    PaymentReceived,
    PaymentSent,
}

/// The encryption under which a notification event travels; each has its own event kind.
#[derive(PartialEq, Eq, Structural, Clone, Copy, Debug)]
pub enum NotificationEncryption {
    Nip04,
    Nip44,
}

/// The event kind of a notification under the given encryption.
pub fn notification_event_kind(encryption: NotificationEncryption) -> (kind: u16)
    ensures
        kind == match encryption {
            NotificationEncryption::Nip04 => 23196u16,
            NotificationEncryption::Nip44 => 23197u16,
        },
{
    match encryption {
        NotificationEncryption::Nip04 => 23196,
        NotificationEncryption::Nip44 => 23197,
    }
}

/// The content of a NIP-47 payment notification.
#[derive(Clone, Debug, PartialEq)]
pub struct PaymentNotice {
    pub notification_type: NotificationType,
    pub transaction_type: TransactionType,
    pub invoice: String,
    pub description: Option<String>,
    pub description_hash: Option<String>,
    pub amount_msat: u64,
    pub fees_paid_msat: u64,
    pub created_at: u64,
    pub settled_at: u64,
    pub preimage: String,
    pub payment_hash: String,
}

/// The text of an optional string, the empty text when there is none.
pub open spec fn text_or_empty(s: Option<String>) -> Seq<char> {
    match s {
        Some(t) => t@,
        None => Seq::empty(),
    }
}

/// Two optional strings are both absent, or both present with the same text.
pub open spec fn same_text(a: Option<String>, b: Option<String>) -> bool {
    match (a, b) {
        (Some(x), Some(y)) => x@ == y@,
        (None, None) => true,
        _ => false,
    }
}

fn clone_text(s: &Option<String>) -> (c: Option<String>)
    ensures
        same_text(c, *s),
{
    match s {
        Some(t) => Some(t.clone()),
        None => None,
    }
}

fn text_or_default(s: &Option<String>) -> (t: String)
    ensures
        t@ == text_or_empty(*s),
{
    match s {
        Some(t) => t.clone(),
        None => String::new(),
    }
}

/// The notification that tells a connection's client about a completed payment: sent or
/// received by its direction, amounts in millisatoshis, both times the payment's timestamp,
/// missing preimage or hash as empty text.
pub fn payment_notice(payment: &Payment) -> (notice: PaymentNotice)
    requires
        payment.amount_sat * 1000 <= u64::MAX,
        payment.fees_sat * 1000 <= u64::MAX,
    ensures
        notice.notification_type == if payment.payment_type == PaymentType::Outgoing {
            NotificationType::PaymentSent
        } else {
            NotificationType::PaymentReceived
        },
        notice.transaction_type == if payment.payment_type == PaymentType::Outgoing {
            TransactionType::Outgoing
        } else {
            TransactionType::Incoming
        },
        notice.invoice@ == payment.invoice@,
        same_text(notice.description, payment.description),
        same_text(notice.description_hash, payment.description_hash),
        notice.amount_msat == payment.amount_sat * 1000,
        notice.fees_paid_msat == payment.fees_sat * 1000,
        notice.created_at == payment.timestamp,
        notice.settled_at == payment.timestamp,
        notice.preimage@ == text_or_empty(payment.preimage),
        notice.payment_hash@ == text_or_empty(payment.payment_hash),
{
    let outgoing = payment.payment_type == PaymentType::Outgoing;
    PaymentNotice {
        notification_type: if outgoing { NotificationType::PaymentSent } else { NotificationType::PaymentReceived },
        transaction_type: if outgoing { TransactionType::Outgoing } else { TransactionType::Incoming },
        invoice: payment.invoice.clone(),
        description: clone_text(&payment.description),
        description_hash: clone_text(&payment.description_hash),
        amount_msat: payment.amount_sat * 1000,
        fees_paid_msat: payment.fees_sat * 1000,
        created_at: payment.timestamp as u64,
        settled_at: payment.timestamp as u64,
        preimage: text_or_default(&payment.preimage),
        payment_hash: text_or_default(&payment.payment_hash),
    }
}

/// What the plugin does when the wallet reports a payment.
#[derive(Clone, Copy, Debug, PartialEq, Eq)]
pub struct PaymentReactions {
    /// Notify the clients of the active connections through their relays.
    pub notify_relays: bool,
    /// Send the zap receipt of a tracked zap.
    pub send_zap_receipt: bool,
}

/// A completed payment is announced to the connections' clients; a pending one may settle a
/// tracked zap; a failed one does nothing.
pub fn payment_reactions(state: PaymentState) -> (reactions: PaymentReactions)
    ensures
        reactions.notify_relays == (state == PaymentState::Complete),
        reactions.send_zap_receipt == (state == PaymentState::Pending),
{
    PaymentReactions {
        notify_relays: state == PaymentState::Complete,
        send_zap_receipt: state == PaymentState::Pending,
    }
}

} // verus!
