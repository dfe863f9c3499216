//! Nostr Wallet Connect on the wire: NIP-44 encryption of requests and responses, the request's
//! method, connection URIs and relay URLs, and the connections that are active.
use vstd::prelude::*;
use vstd::string::StringExecFns;

use crate::error::{NostrError, NostrResult};
use crate::event::is_lower_hex_digit;
use crate::model::texts;
use crate::nwc::{notification_event_kind, NotificationEncryption, PeriodicBudget, UnsignedEvent, MIN_REFRESH_INTERVAL_SEC};
use crate::nwc_request::{ConnectionTerms, NwcMethod, NwcRequestInput};
use crate::zaps::{is_signed_event_json, tag_texts, verify_event_json};

use nostr_sdk::nips::nip47::{NostrWalletConnectURI, Request, RequestParams};
use nostr_sdk::{Event, Keys, PublicKey, RelayUrl, SecretKey};

verus! {

/// The plaintext that NIP-44 (version 2) decryption recovers from `payload` with the secret key
/// and the public key given in hex; `None` when a key is malformed or the payload does not
/// decrypt to UTF-8.
pub uninterp spec fn nip44_plaintext(secret_hex: Seq<char>, pubkey_hex: Seq<char>, payload: Seq<char>) -> Option<Seq<char>>;

/// `nostr_sdk::nips::nip44::decrypt` with the keys read by `SecretKey::from_hex` and
/// `PublicKey::from_hex`.
#[verifier::external_body]
fn nip44_decrypt(secret_hex: &str, pubkey_hex: &str, payload: &str) -> (res: Result<String, String>)
    ensures
        match res {
            Ok(text) => nip44_plaintext(secret_hex@, pubkey_hex@, payload@) == Some(text@),
            Err(_) => nip44_plaintext(secret_hex@, pubkey_hex@, payload@) is None,
        },
{
    let secret = SecretKey::from_hex(secret_hex).map_err(|e| e.to_string())?;
    let pubkey = PublicKey::from_hex(pubkey_hex).map_err(|e| e.to_string())?;
    nostr_sdk::nips::nip44::decrypt(&secret, &pubkey, payload).map_err(|e| e.to_string())
}

/// Whether NIP-44 (version 2) encryption of `content` succeeds with the secret key and the
/// public key given in hex: the keys read and give a conversation key, and the content is
/// neither empty nor longer than NIP-44 pads. The random nonce plays no part in it.
pub uninterp spec fn nip44_encryptable(secret_hex: Seq<char>, pubkey_hex: Seq<char>, content: Seq<char>) -> bool;

/// `nostr_sdk::nips::nip44::encrypt` (version 2, random nonce) with the keys read from hex.
/// Whether it succeeds depends on the keys and the content alone. The payload is random;
/// whatever comes out decrypts, under the same two keys (the conversation key of NIP-44 is the
/// same from either side), to the content.
#[verifier::external_body]
fn nip44_encrypt(secret_hex: &str, pubkey_hex: &str, content: &str) -> (res: Result<String, String>)
    ensures
        res is Ok <==> nip44_encryptable(secret_hex@, pubkey_hex@, content@),
        res matches Ok(payload) ==> nip44_plaintext(secret_hex@, pubkey_hex@, payload@) == Some(content@),
{
    let secret = SecretKey::from_hex(secret_hex).map_err(|e| e.to_string())?;
    let pubkey = PublicKey::from_hex(pubkey_hex).map_err(|e| e.to_string())?;
    nostr_sdk::nips::nip44::encrypt(&secret, &pubkey, content, nostr_sdk::nips::nip44::Version::V2)
        .map_err(|e| e.to_string())
}

/// The method of a request, as a kind (0 `pay_invoice`, 1 `make_invoice`, 2
/// `list_transactions`, 3 `get_balance`, 4 `get_info`, 5 any other), with the invoice and
/// amount of a `pay_invoice` request, or the description of a request of any other method.
pub open spec fn method_view(method: NwcMethod) -> (u8, Seq<char>, Option<u64>) {
    match method {
        NwcMethod::PayInvoice { invoice, amount_msat } => (0u8, invoice@, amount_msat),
        NwcMethod::MakeInvoice => (1u8, Seq::empty(), None),
        NwcMethod::ListTransactions => (2u8, Seq::empty(), None),
        NwcMethod::GetBalance => (3u8, Seq::empty(), None),
        NwcMethod::GetInfo => (4u8, Seq::empty(), None),
        NwcMethod::Other { description } => (5u8, description@, None),
    }
}

/// The method of the NIP-47 request that a text holds as JSON; `None` when it holds none.
pub uninterp spec fn request_method(json: Seq<char>) -> Option<(u8, Seq<char>, Option<u64>)>;

/// `serde_json::from_str` of a `nostr_sdk::nips::nip47::Request`, its parameters told apart;
/// a request of any other method is described by its `Debug` text.
#[verifier::external_body]
fn read_request_method(json: &str) -> (method: Option<NwcMethod>)
    ensures
        match method {
            Some(m) => request_method(json@) == Some(method_view(m)),
            None => request_method(json@) is None,
        },
{
    let request: Request = serde_json::from_str(json).ok()?;
    let description = format!("{:?}", request);
    Some(match request.params {
        RequestParams::PayInvoice(req) => NwcMethod::PayInvoice { invoice: req.invoice, amount_msat: req.amount },
        RequestParams::MakeInvoice(_) => NwcMethod::MakeInvoice,
        RequestParams::ListTransactions(_) => NwcMethod::ListTransactions,
        RequestParams::GetBalance => NwcMethod::GetBalance,
        RequestParams::GetInfo => NwcMethod::GetInfo,
        _ => NwcMethod::Other { description },
    })
}

/// The method of a request event's content, beside the request's JSON: the content decrypted
/// with the wallet's secret key and the client's public key, then read as a NIP-47 request.
pub fn decrypt_request(our_secret_hex: &str, client_pubkey_hex: &str, content: &str) -> (res: NostrResult<(NwcMethod, String)>)
    ensures
        match nip44_plaintext(our_secret_hex@, client_pubkey_hex@, content@) {
            None => res matches Err(NostrError::Generic { .. }),
            Some(json) => match request_method(json) {
                None => res matches Err(NostrError::Generic { .. }),
                Some(view) => res matches Ok((m, text)) && method_view(m) == view && text@ == json,
            },
        },
{
    let json = match nip44_decrypt(our_secret_hex, client_pubkey_hex, content) {
        Ok(json) => json,
        Err(err) => return Err(NostrError::Generic { err }),
    };
    match read_request_method(json.as_str()) {
        Some(method) => Ok((method, json)),
        None => Err(NostrError::Generic { err: String::from_str("Could not read NIP-47 request") }),
    }
}

/// The encrypted content of a response to a client: it decrypts, with the same two keys, to the
/// response's JSON.
pub fn encrypt_response(our_secret_hex: &str, client_pubkey_hex: &str, response_json: &str) -> (res: NostrResult<String>)
    ensures
        res matches Ok(payload) ==> nip44_plaintext(our_secret_hex@, client_pubkey_hex@, payload@) == Some(response_json@),
        res matches Err(e) ==> e is Generic,
{
    match nip44_encrypt(our_secret_hex, client_pubkey_hex, response_json) {
        Ok(payload) => Ok(payload),
        Err(err) => Err(NostrError::Generic { err }),
    }
}

/// The text is a relay URL.
pub uninterp spec fn is_relay_url(url: Seq<char>) -> bool;

/// `RelayUrl::from_str` succeeds on the text.
#[verifier::external_body]
fn relay_url_valid(url: &str) -> (valid: bool)
    ensures
        valid == is_relay_url(url@),
{
    <RelayUrl as std::str::FromStr>::from_str(url).is_ok()
}

/// The relay URLs among the texts, in order.
pub open spec fn valid_relays(urls: Seq<Seq<char>>) -> Seq<Seq<char>>
    decreases urls.len(),
{
    if urls.len() == 0 {
        Seq::empty()
    } else {
        valid_relays(urls.drop_last()) + if is_relay_url(urls.last()) {
            seq![urls.last()]
        } else {
            Seq::empty()
        }
    }
}

/// The relays that a connection URI names: those of the texts that are relay URLs, in order.
pub fn filter_relays(urls: &Vec<String>) -> (relays: Vec<String>)
    ensures
        texts(relays@) == valid_relays(texts(urls@)),
{
    let mut relays: Vec<String> = Vec::new();
    let n = urls.len();
    for i in 0..n
        invariant
            n == urls@.len(),
            texts(relays@) == valid_relays(texts(urls@).take(i as int)),
    {
        proof {
            let t = texts(urls@).take(i + 1);
            assert(t.drop_last() =~= texts(urls@).take(i as int));
            assert(t.last() == urls@[i as int]@);
        }
        if relay_url_valid(urls[i].as_str()) {
            relays.push(urls[i].clone());
            assert(texts(relays@) =~= valid_relays(texts(urls@).take(i as int)) + seq![urls@[i as int]@]);
        } else {
            assert(texts(relays@) =~= valid_relays(texts(urls@).take(i as int)) + Seq::<Seq<char>>::empty());
        }
    }
    assert(texts(urls@).take(n as int) =~= texts(urls@));
    relays
}

/// The connection URI (`nostr+walletconnect://...`) that `NostrWalletConnectURI::new` makes of
/// the wallet's public key, the relays and the connection's secret, written with `to_string`;
/// `None` when the key, a relay or the secret is malformed.
pub uninterp spec fn nwc_uri(wallet_pubkey_hex: Seq<char>, relays: Seq<Seq<char>>, secret_hex: Seq<char>) -> Option<Seq<char>>;

/// `NostrWalletConnectURI::new(..).to_string()`, with no lightning address, the key and secret
/// read from hex and the relays by `RelayUrl::parse`.
#[verifier::external_body]
fn build_nwc_uri(wallet_pubkey_hex: &str, relays: &Vec<String>, secret_hex: &str) -> (uri: Option<String>)
    ensures
        match uri {
            Some(u) => nwc_uri(wallet_pubkey_hex@, texts(relays@), secret_hex@) == Some(u@),
            None => nwc_uri(wallet_pubkey_hex@, texts(relays@), secret_hex@) is None,
        },
{
    let pubkey = PublicKey::from_hex(wallet_pubkey_hex).ok()?;
    let secret = SecretKey::from_hex(secret_hex).ok()?;
    let mut urls = Vec::new();
    for relay in relays {
        urls.push(RelayUrl::parse(relay).ok()?);
    }
    Some(NostrWalletConnectURI::new(pubkey, urls, secret, None).to_string())
}

/// The client's public key and the secret, both in hex, of a connection URI; `None` when the
/// text is no connection URI.
pub uninterp spec fn nwc_uri_client(uri: Seq<char>) -> Option<(Seq<char>, Seq<char>)>;

/// `NostrWalletConnectURI::from_str`, then the public key of `Keys::new` of its secret.
#[verifier::external_body]
fn parse_nwc_uri(uri: &str) -> (parts: Option<(String, String)>)
    ensures
        match parts {
            Some((pubkey, secret)) => nwc_uri_client(uri@) == Some((pubkey@, secret@)),
            None => nwc_uri_client(uri@) is None,
        },
{
    let parsed = <NostrWalletConnectURI as std::str::FromStr>::from_str(uri).ok()?;
    let keys = Keys::new(parsed.secret.clone());
    Some((keys.public_key().to_hex(), parsed.secret.to_secret_hex()))
}

/// `SecretKey::generate().to_secret_hex()`: a random secret key, as 64 lower-case hex digits.
#[verifier::external_body]
pub(crate) fn random_secret_key_hex() -> (secret: String)
    ensures
        secret@.len() == 64,
        forall|i: int| 0 <= i < 64 ==> is_lower_hex_digit(#[trigger] secret@[i]),
{
    SecretKey::generate().to_secret_hex()
}

/// The budget a new connection asks for: the most it may spend per period, and the period.
#[derive(Clone, Copy, Debug, PartialEq, Eq)]
pub struct BudgetRequest {
    pub max_budget_sat: u64,
    pub renewal_time_mins: Option<u32>,
}

/// A connection's spending limit, as it is stored.
#[derive(Clone, Copy, Debug, PartialEq, Eq)]
pub struct ConnectionBudget {
    pub budget: PeriodicBudget,
    /// The period after which the used budget goes back to zero, in seconds.
    pub renewal_time_sec: u64,
    /// When the current period began, in seconds since the epoch.
    pub updated_at: u64,
}

/// A Nostr Wallet Connect connection, as it is stored.
#[derive(Clone, Debug, PartialEq)]
pub struct NwcConnection {
    pub connection_string: String,
    pub created_at: u64,
    pub expiry_time_sec: Option<u64>,
    pub receive_only: bool,
    pub paid_amount_sat: u64,
    pub periodic_budget: Option<ConnectionBudget>,
}

/// The text that refuses a connection name that is already in use.
pub open spec fn name_in_use_text() -> Seq<char> {
    "A connection with this name already exists"@
}

/// The text that refuses a connection whose key, relays or secret make no URI.
pub open spec fn invalid_uri_text() -> Seq<char> {
    "Could not build the connection URI"@
}

/// What a new connection made with the client secret `secret` is: refused when the key, the
/// relays or the secret make no URI, else a connection with that URI made at `now`, expiring
/// after `expiry_mins` minutes if given, receive-only if asked, having paid nothing, and with a
/// budget of the given maximum per period (30 days unless the period is given), none of it used.
pub open spec fn connection_made(
    res: NostrResult<NwcConnection>,
    wallet_pubkey_hex: Seq<char>,
    relays: Seq<Seq<char>>,
    secret: Seq<char>,
    now: u64,
    expiry_mins: Option<u32>,
    receive_only: Option<bool>,
    budget: Option<BudgetRequest>,
) -> bool {
    match nwc_uri(
        wallet_pubkey_hex,
        valid_relays(relays),
        secret,
    ) {
        None => res matches Err(NostrError::Generic { err }) && err@ == invalid_uri_text(),
        Some(uri) => res matches Ok(c) && c.connection_string@ == uri && c.created_at == now
            && c.expiry_time_sec == match expiry_mins {
                Some(m) => Some((m * 60) as u64),
                None => None::<u64>,
            }
            && c.receive_only == (receive_only == Some(true))
            && c.paid_amount_sat == 0
            && c.periodic_budget == match budget {
                Some(b) => Some(ConnectionBudget {
                    budget: PeriodicBudget { used_budget_sat: 0, max_budget_sat: b.max_budget_sat },
                    renewal_time_sec: match b.renewal_time_mins {
                        Some(m) => (m * 60) as u64,
                        None => 2592000u64,
                    },
                    updated_at: now,
                }),
                None => None::<ConnectionBudget>,
            },
    }
}

/// A new connection named `name` for the wallet's key, reachable through the given relays (those
/// that are relay URLs) with the client secret given, made at `now`: it expires after
/// `expiry_mins` minutes if given, is receive-only if asked, has paid nothing, and has a budget
/// of the given maximum per period (30 days unless the period is given), none of it used. A
/// name already in use is refused.
pub fn new_connection(
    existing_names: &Vec<String>,
    name: &String,
    wallet_pubkey_hex: &str,
    relays: &Vec<String>,
    client_secret_hex: &str,
    now: u64,
    expiry_mins: Option<u32>,
    receive_only: Option<bool>,
    budget: Option<BudgetRequest>,
) -> (res: NostrResult<NwcConnection>)
    ensures
        (exists|i: int| 0 <= i < existing_names@.len() && existing_names@[i]@ == name@) ==> (res matches Err(
            NostrError::Generic { err },
        ) && err@ == name_in_use_text()),
        (forall|i: int| 0 <= i < existing_names@.len() ==> existing_names@[i]@ != name@) ==> connection_made(
            res,
            wallet_pubkey_hex@,
            texts(relays@),
            client_secret_hex@,
            now,
            expiry_mins,
            receive_only,
            budget,
        ),
{
    let n = existing_names.len();
    for i in 0..n
        invariant
            n == existing_names@.len(),
            forall|j: int| 0 <= j < i ==> existing_names@[j]@ != name@,
    {
        if existing_names[i] == *name {
            return Err(NostrError::Generic { err: String::from_str("A connection with this name already exists") });
        }
    }
    let usable = filter_relays(relays);
    let uri = match build_nwc_uri(wallet_pubkey_hex, &usable, client_secret_hex) {
        Some(uri) => uri,
        None => return Err(NostrError::Generic { err: String::from_str("Could not build the connection URI") }),
    };
    let expiry_time_sec = match expiry_mins {
        Some(m) => Some(m as u64 * 60),
        None => None,
    };
    let periodic_budget = match budget {
        Some(b) => Some(ConnectionBudget {
            budget: PeriodicBudget { used_budget_sat: 0, max_budget_sat: b.max_budget_sat },
            renewal_time_sec: match b.renewal_time_mins {
                Some(m) => m as u64 * 60,
                None => 2592000,
            },
            updated_at: now,
        }),
        None => None,
    };
    let receive_only = match receive_only {
        Some(r) => r,
        None => false,
    };
    Ok(NwcConnection { connection_string: uri, created_at: now, expiry_time_sec, receive_only, paid_amount_sat: 0, periodic_budget })
}

/// A connection that requests may come through: its name, its client's public key and its secret.
#[derive(Clone, Debug, PartialEq)]
pub struct ActiveConnection {
    pub name: String,
    pub client_pubkey: String,
    pub secret: String,
}

/// The active connections of the stored ones (each a name and a connection URI): those whose
/// URI reads, in order, with their client key and secret.
pub open spec fn active_views(stored: Seq<(Seq<char>, Seq<char>)>) -> Seq<(Seq<char>, Seq<char>, Seq<char>)>
    decreases stored.len(),
{
    if stored.len() == 0 {
        Seq::empty()
    } else {
        active_views(stored.drop_last()) + match nwc_uri_client(stored.last().1) {
            Some((pubkey, secret)) => seq![(stored.last().0, pubkey, secret)],
            None => Seq::empty(),
        }
    }
}

/// The texts of stored connections.
pub open spec fn stored_views(stored: Seq<(String, String)>) -> Seq<(Seq<char>, Seq<char>)> {
    stored.map_values(|e: (String, String)| (e.0@, e.1@))
}

/// The texts of active connections.
pub open spec fn active_connection_views(active: Seq<ActiveConnection>) -> Seq<(Seq<char>, Seq<char>, Seq<char>)> {
    active.map_values(|c: ActiveConnection| (c.name@, c.client_pubkey@, c.secret@))
}

/// The active connections among the stored ones; a connection whose URI does not read is left out.
pub fn active_connections(stored: &Vec<(String, String)>) -> (active: Vec<ActiveConnection>)
    ensures
        active_connection_views(active@) == active_views(stored_views(stored@)),
{
    let mut active: Vec<ActiveConnection> = Vec::new();
    let n = stored.len();
    for i in 0..n
        invariant
            n == stored@.len(),
            active_connection_views(active@) == active_views(stored_views(stored@).take(i as int)),
    {
        proof {
            let t = stored_views(stored@).take(i + 1);
            assert(t.drop_last() =~= stored_views(stored@).take(i as int));
            assert(t.last() == (stored@[i as int].0@, stored@[i as int].1@));
        }
        let ghost before = active_connection_views(active@);
        match parse_nwc_uri(stored[i].1.as_str()) {
            Some((client_pubkey, secret)) => {
                active.push(ActiveConnection { name: stored[i].0.clone(), client_pubkey, secret });
                assert(active_connection_views(active@) =~= before + seq![
                    (stored@[i as int].0@, active@.last().client_pubkey@, active@.last().secret@),
                ]);
            },
            None => {
                assert(active_connection_views(active@) =~= before + Seq::<(Seq<char>, Seq<char>, Seq<char>)>::empty());
            },
        }
    }
    assert(stored_views(stored@).take(n as int) =~= stored_views(stored@));
    active
}


/// The plaintext that NIP-04 decryption recovers from `payload` with the secret key and the
/// public key given in hex; `None` when a key is malformed or the payload does not decrypt.
pub uninterp spec fn nip04_plaintext(secret_hex: Seq<char>, pubkey_hex: Seq<char>, payload: Seq<char>) -> Option<Seq<char>>;

/// Whether NIP-04 encryption succeeds with the secret key and the public key given in hex: the
/// keys read and give a shared key (the content and the random IV play no part in it).
pub uninterp spec fn nip04_encryptable(secret_hex: Seq<char>, pubkey_hex: Seq<char>) -> bool;

/// `nostr_sdk::nips::nip04::encrypt` (random IV) with the keys read from hex. Whether it
/// succeeds depends on the keys alone. The payload is random; whatever comes out decrypts,
/// under the same two keys, to the content.
#[verifier::external_body]
fn nip04_encrypt(secret_hex: &str, pubkey_hex: &str, content: &str) -> (res: Result<String, String>)
    ensures
        res is Ok <==> nip04_encryptable(secret_hex@, pubkey_hex@),
        res matches Ok(payload) ==> nip04_plaintext(secret_hex@, pubkey_hex@, payload@) == Some(content@),
{
    let secret = SecretKey::from_hex(secret_hex).map_err(|e| e.to_string())?;
    let pubkey = PublicKey::from_hex(pubkey_hex).map_err(|e| e.to_string())?;
    nostr_sdk::nips::nip04::encrypt(&secret, &pubkey, content).map_err(|e| e.to_string())
}

/// The id, the author's public key, the content and the expiration (if it has one) of the Nostr
/// event that a text holds as JSON, keys and id in hex; `None` when it holds none.
pub uninterp spec fn request_event_parts(json: Seq<char>) -> Option<(Seq<char>, Seq<char>, Seq<char>, Option<u64>)>;

/// A request event, as far as its handling reads it.
#[derive(Clone, Debug, PartialEq)]
pub struct RequestEvent {
    pub id: String,
    pub client_pubkey: String,
    pub content: String,
    pub expiration: Option<u64>,
}

/// `serde_json::from_str` of a `nostr_sdk::Event`, with its id and author by `to_hex`, its
/// content, and the timestamp of its expiration tag by `Tags::expiration`.
#[verifier::external_body]
fn read_request_event(json: &str) -> (event: Option<RequestEvent>)
    ensures
        match event {
            Some(e) => request_event_parts(json@) == Some((e.id@, e.client_pubkey@, e.content@, e.expiration)),
            None => request_event_parts(json@) is None,
        },
{
    let event: Event = serde_json::from_str(json).ok()?;
    Some(RequestEvent {
        id: event.id.to_hex(),
        client_pubkey: event.pubkey.to_hex(),
        content: event.content.clone(),
        expiration: event.tags.expiration().map(|t| t.as_u64()),
    })
}

/// The text that refuses a request event that is no event.
pub open spec fn unreadable_event_text() -> Seq<char> {
    "Could not read the request event"@
}

/// The first step's input for a request event given as JSON: its author, its expiration,
/// the outcome of checking its id and signature, the time now and the active connections; beside it
/// the event as read. A text that holds no event is refused.
pub fn request_event_input(raw_event: &str, now: u64, connections: Vec<ConnectionTerms>) -> (res: NostrResult<(RequestEvent, NwcRequestInput)>)
    ensures
        match request_event_parts(raw_event@) {
            None => res matches Err(NostrError::Generic { err }) && err@ == unreadable_event_text(),
            Some((id, pubkey, content, expiration)) => res matches Ok((event, input))
                && event.id@ == id && event.client_pubkey@ == pubkey && event.content@ == content
                && event.expiration == expiration
                && (input matches NwcRequestInput::Event { client_pubkey, expiration: e, signature, now: n, connections: c }
                && client_pubkey@ == pubkey && e == expiration && (signature is Ok <==> is_signed_event_json(raw_event@))
                && n == now && c == connections),
        },
{
    let event = match read_request_event(raw_event) {
        Some(event) => event,
        None => return Err(NostrError::Generic { err: String::from_str("Could not read the request event") }),
    };
    let signature = verify_event_json(raw_event);
    let input = NwcRequestInput::Event {
        client_pubkey: event.client_pubkey.clone(),
        expiration: event.expiration,
        signature,
        now,
        connections,
    };
    Ok((event, input))
}

/// The text of a connection's secret of a new connection: 64 lower-case hex digits.
pub open spec fn is_secret_hex(secret: Seq<char>) -> bool {
    secret.len() == 64 && forall|i: int| 0 <= i < 64 ==> is_lower_hex_digit(#[trigger] secret[i])
}

/// A new connection as `new_connection` makes it, with a fresh random secret for its client.
pub fn add_connection(
    existing_names: &Vec<String>,
    name: &String,
    wallet_pubkey_hex: &str,
    relays: &Vec<String>,
    now: u64,
    expiry_mins: Option<u32>,
    receive_only: Option<bool>,
    budget: Option<BudgetRequest>,
) -> (res: NostrResult<NwcConnection>)
    ensures
        (exists|i: int| 0 <= i < existing_names@.len() && existing_names@[i]@ == name@) ==> (res matches Err(
            NostrError::Generic { err },
        ) && err@ == name_in_use_text()),
        (forall|i: int| 0 <= i < existing_names@.len() ==> existing_names@[i]@ != name@) ==> exists|secret: Seq<char>|
            is_secret_hex(secret) && #[trigger] connection_made(
                res,
                wallet_pubkey_hex@,
                texts(relays@),
                secret,
                now,
                expiry_mins,
                receive_only,
                budget,
            ),
{
    let secret = random_secret_key_hex();
    let res = new_connection(existing_names, name, wallet_pubkey_hex, relays, secret.as_str(), now, expiry_mins, receive_only, budget);
    proof {
        assert(is_secret_hex(secret@));
    }
    res
}

/// The texts of unsigned events: kind, content and tags.
pub open spec fn event_views(events: Seq<UnsignedEvent>) -> Seq<(u16, Seq<char>, Seq<Seq<Seq<char>>>)> {
    events.map_values(|e: UnsignedEvent| (e.kind, e.content@, tag_texts(e.tags@)))
}

/// The `p` tag that addresses a client.
pub open spec fn client_tag(pubkey: Seq<char>) -> Seq<Seq<Seq<char>>> {
    seq![seq!["p"@, pubkey]]
}

/// The text of a successful outcome, `None` for a failure.
pub open spec fn ok_text(r: Result<String, String>) -> Option<Seq<char>> {
    match r {
        Ok(t) => Some(t@),
        Err(_) => None,
    }
}

/// The events for one client made of the two encrypted payloads, where they exist: the NIP-04
/// one (kind 23196) first, then the NIP-44 one (kind 23197), each addressed to the client.
pub open spec fn client_events_view(nip04: Option<Seq<char>>, nip44: Option<Seq<char>>, pubkey: Seq<char>) -> Seq<(u16, Seq<char>, Seq<Seq<Seq<char>>>)> {
    (match nip04 {
        Some(payload) => seq![(23196u16, payload, client_tag(pubkey))],
        None => Seq::empty(),
    }) + (match nip44 {
        Some(payload) => seq![(23197u16, payload, client_tag(pubkey))],
        None => Seq::empty(),
    })
}

/// The notification events for one client: the NIP-04 event exactly when NIP-04 encryption
/// succeeds, then the NIP-44 event exactly when NIP-44 encryption succeeds, each one's payload
/// decrypting to the notification.
pub open spec fn client_notifications(our_secret_hex: Seq<char>, pubkey: Seq<char>, content: Seq<char>, events: Seq<(u16, Seq<char>, Seq<Seq<Seq<char>>>)>) -> bool {
    exists|nip04: Option<Seq<char>>, nip44: Option<Seq<char>>| {
        &&& #[trigger] client_events_view(nip04, nip44, pubkey) == events
        &&& (nip04 is Some <==> nip04_encryptable(our_secret_hex, pubkey))
        &&& (nip44 is Some <==> nip44_encryptable(our_secret_hex, pubkey, content))
        &&& (nip04 matches Some(p) ==> nip04_plaintext(our_secret_hex, pubkey, p) == Some(content))
        &&& (nip44 matches Some(p) ==> nip44_plaintext(our_secret_hex, pubkey, p) == Some(content))
    }
}

fn client_event(kind: u16, payload: String, pubkey: &String) -> (event: UnsignedEvent)
    ensures
        event.kind == kind,
        event.content@ == payload@,
        tag_texts(event.tags@) == client_tag(pubkey@),
{
    let mut tag: Vec<String> = Vec::new();
    tag.push(String::from_str("p"));
    tag.push(pubkey.clone());
    let mut tags: Vec<Vec<String>> = Vec::new();
    tags.push(tag);
    proof {
        reveal_strlit("p");
        assert(texts(tags@[0]@) =~= seq!["p"@, pubkey@]);
        assert(tag_texts(tags@) =~= client_tag(pubkey@));
    }
    UnsignedEvent { kind, content: payload, tags }
}

/// The events that address one client, made of the outcomes of its two encryptions: the
/// NIP-04 event when that encryption gave a payload, then the NIP-44 event when that one did.
pub fn client_events_from(nip04: Result<String, String>, nip44: Result<String, String>, client_pubkey: &String) -> (events: Vec<UnsignedEvent>)
    ensures
        event_views(events@) == client_events_view(ok_text(nip04), ok_text(nip44), client_pubkey@),
{
    let mut events: Vec<UnsignedEvent> = Vec::new();
    match nip04 {
        Ok(payload) => events.push(client_event(notification_event_kind(NotificationEncryption::Nip04), payload, client_pubkey)),
        Err(_) => {},
    }
    let ghost first = events@;
    match nip44 {
        Ok(payload) => events.push(client_event(notification_event_kind(NotificationEncryption::Nip44), payload, client_pubkey)),
        Err(_) => {},
    }
    proof {
        let v = event_views(events@);
        let expected = client_events_view(ok_text(nip04), ok_text(nip44), client_pubkey@);
        assert(v.len() == events@.len());
        assert forall|k: int| 0 <= k < v.len() implies #[trigger] v[k] == expected[k] by {
            assert(v[k] == (events@[k].kind, events@[k].content@, tag_texts(events@[k].tags@)));
        }
        assert(v =~= expected);
    }
    events
}

/// The events that notify one client of a payment: under NIP-04, then under NIP-44, each one
/// present exactly when its encryption succeeds.
pub fn client_notification_events(our_secret_hex: &str, client_pubkey: &String, content: &str) -> (events: Vec<UnsignedEvent>)
    ensures
        client_notifications(our_secret_hex@, client_pubkey@, content@, event_views(events@)),
{
    let nip04 = nip04_encrypt(our_secret_hex, client_pubkey.as_str(), content);
    let nip44 = nip44_encrypt(our_secret_hex, client_pubkey.as_str(), content);
    let ghost p04 = ok_text(nip04);
    let ghost p44 = ok_text(nip44);
    let events = client_events_from(nip04, nip44, client_pubkey);
    assert(client_events_view(p04, p44, client_pubkey@) == event_views(events@));
    events
}

/// The events that notify the clients of the active connections of a completed payment, the
/// notification given as JSON: for each connection in order, its client's events.
pub fn payment_notification_events(our_secret_hex: &str, active: &Vec<ActiveConnection>, content: &str) -> (events: Vec<Vec<UnsignedEvent>>)
    ensures
        events@.len() == active@.len(),
        forall|i: int| 0 <= i < active@.len() ==> client_notifications(
            our_secret_hex@,
            #[trigger] active@[i].client_pubkey@,
            content@,
            event_views(events@[i]@),
        ),
{
    let mut events: Vec<Vec<UnsignedEvent>> = Vec::new();
    for i in 0..active.len()
        invariant
            events@.len() == i,
            forall|j: int| 0 <= j < i ==> client_notifications(
                our_secret_hex@,
                #[trigger] active@[j].client_pubkey@,
                content@,
                event_views(events@[j]@),
            ),
    {
        let client = client_notification_events(our_secret_hex, &active[i].client_pubkey, content);
        events.push(client);
    }
    events
}

/// The text that refuses a connection name that is not in use.
pub open spec fn unknown_connection_text(name: Seq<char>) -> Seq<char> {
    "Connection \""@ + name + "\" does not exist"@
}

/// Where the connection of this name stands among the existing ones; a name not in use is
/// refused (a connection that is removed or charged must exist).
pub fn connection_index(existing_names: &Vec<String>, name: &String) -> (res: NostrResult<usize>)
    ensures
        match res {
            Ok(i) => i < existing_names@.len() && existing_names@[i as int]@ == name@,
            Err(e) => {
                &&& forall|i: int| 0 <= i < existing_names@.len() ==> existing_names@[i]@ != name@
                &&& e matches NostrError::Generic { err } && err@ == unknown_connection_text(name@)
            },
        },
{
    let n = existing_names.len();
    for i in 0..n
        invariant
            n == existing_names@.len(),
            forall|j: int| 0 <= j < i ==> existing_names@[j]@ != name@,
    {
        if existing_names[i] == *name {
            return Ok(i);
        }
    }
    let err = String::from_str("Connection \"").concat(name.as_str()).concat("\" does not exist");
    assert(err@ =~= unknown_connection_text(name@));
    Err(NostrError::Generic { err })
}


/// A connection has expired at `now`: it has an expiry, and that much time has passed since it
/// was made.
pub open spec fn connection_expired(c: NwcConnection, now: u64) -> bool {
    c.expiry_time_sec matches Some(e) && c.created_at + e <= now
}

/// A connection's budget period is over at `now`: it has a budget, and a whole period has
/// passed since the period began.
pub open spec fn budget_period_over(c: NwcConnection, now: u64) -> bool {
    c.periodic_budget matches Some(b) && b.updated_at + b.renewal_time_sec <= now
}

/// A connection after a refresh at `now`: a budget whose period is over starts a new period at
/// `now` with nothing used; anything else is left as it was.
pub open spec fn renewed(c: NwcConnection, now: u64) -> NwcConnection {
    match c.periodic_budget {
        Some(b) => if budget_period_over(c, now) {
            NwcConnection {
                periodic_budget: Some(ConnectionBudget {
                    budget: PeriodicBudget { used_budget_sat: 0, max_budget_sat: b.budget.max_budget_sat },
                    renewal_time_sec: b.renewal_time_sec,
                    updated_at: now,
                }),
                ..c
            }
        } else {
            c
        },
        None => c,
    }
}

/// What a refresh at `now` makes of the connections, in order: the ones kept (renewed), the
/// names of the expired ones, and the names of the kept ones whose budget was renewed.
pub open spec fn refresh_view(cs: Seq<(String, NwcConnection)>, now: u64) -> (Seq<(String, NwcConnection)>, Seq<Seq<char>>, Seq<Seq<char>>)
    decreases cs.len(),
{
    if cs.len() == 0 {
        (Seq::empty(), Seq::empty(), Seq::empty())
    } else {
        let (kept, deleted, refreshed) = refresh_view(cs.drop_last(), now);
        let (name, c) = cs.last();
        if connection_expired(c, now) {
            (kept, deleted.push(name@), refreshed)
        } else if budget_period_over(c, now) {
            (kept.push((name, renewed(c, now))), deleted, refreshed.push(name@))
        } else {
            (kept.push((name, c)), deleted, refreshed)
        }
    }
}

fn renew(c: NwcConnection, now: u64) -> (r: NwcConnection)
    ensures
        r == renewed(c, now),
{
    match c.periodic_budget {
        Some(b) => {
            if b.updated_at as u128 + b.renewal_time_sec as u128 <= now as u128 {
                NwcConnection {
                    periodic_budget: Some(ConnectionBudget {
                        budget: PeriodicBudget { used_budget_sat: 0, max_budget_sat: b.budget.max_budget_sat },
                        renewal_time_sec: b.renewal_time_sec,
                        updated_at: now,
                    }),
                    ..c
                }
            } else {
                c
            }
        },
        None => c,
    }
}

/// Refreshes the connections at `now`: the expired ones are removed, and the budgets whose
/// period is over start afresh. Gives the connections kept, the names of the removed ones and
/// the names of the renewed ones, each in the given order.
pub fn refresh_connections(connections: Vec<(String, NwcConnection)>, now: u64) -> (out: (Vec<(String, NwcConnection)>, Vec<String>, Vec<String>))
    ensures
        out.0@ == refresh_view(connections@, now).0,
        texts(out.1@) == refresh_view(connections@, now).1,
        texts(out.2@) == refresh_view(connections@, now).2,
{
    let ghost all = connections@;
    let mut rest = connections;
    let mut kept: Vec<(String, NwcConnection)> = Vec::new();
    let mut deleted: Vec<String> = Vec::new();
    let mut refreshed: Vec<String> = Vec::new();
    while rest.len() > 0
        invariant
            all == all.take(all.len() - rest@.len()) + rest@,
            rest@.len() <= all.len(),
            kept@ == refresh_view(all.take(all.len() - rest@.len()), now).0,
            texts(deleted@) == refresh_view(all.take(all.len() - rest@.len()), now).1,
            texts(refreshed@) == refresh_view(all.take(all.len() - rest@.len()), now).2,
        decreases rest@.len(),
    {
        let ghost done = all.len() - rest@.len();
        let ghost before = rest@;
        let (name, c) = rest.remove(0);
        proof {
            assert(all[done] == (all.take(done) + before)[done]);
            assert(all[done] == (name, c));
            assert(all == all.take(done + 1) + rest@) by {
                assert(rest@ =~= before.subrange(1, before.len() as int));
                assert(all =~= all.take(done + 1) + rest@);
            }
            let t = all.take(done + 1);
            assert(t.drop_last() =~= all.take(done));
            assert(t.last() == all[done]);
        }
        let ghost prev_deleted = deleted@;
        let ghost prev_refreshed = refreshed@;
        let expired = match c.expiry_time_sec {
            Some(e) => c.created_at as u128 + e as u128 <= now as u128,
            None => false,
        };
        let due = match c.periodic_budget {
            Some(b) => b.updated_at as u128 + b.renewal_time_sec as u128 <= now as u128,
            None => false,
        };
        if expired {
            deleted.push(name);
            assert(texts(deleted@) =~= texts(prev_deleted).push(deleted@.last()@));
        } else if due {
            refreshed.push(name.clone());
            assert(texts(refreshed@) =~= texts(prev_refreshed).push(refreshed@.last()@));
            kept.push((name, renew(c, now)));
        } else {
            kept.push((name, c));
        }
    }
    assert(all.take(all.len() as int) =~= all);
    (kept, deleted, refreshed)
}


/// The smaller of two optional periods; a missing one does not count.
pub open spec fn min_period(a: Option<u64>, b: Option<u64>) -> Option<u64> {
    match (a, b) {
        (Some(x), Some(y)) => Some(if x <= y { x } else { y }),
        (Some(x), None) => Some(x),
        (None, y) => y,
    }
}

/// The periods of a connection: its expiry time and its budget's renewal period, where it has
/// them.
pub open spec fn connection_period(c: NwcConnection) -> Option<u64> {
    min_period(
        c.expiry_time_sec,
        match c.periodic_budget {
            Some(b) => Some(b.renewal_time_sec),
            None => None,
        },
    )
}

/// The shortest period among the connections; `None` when none has one.
pub open spec fn shortest_period(cs: Seq<(String, NwcConnection)>) -> Option<u64>
    decreases cs.len(),
{
    if cs.len() == 0 {
        None
    } else {
        min_period(shortest_period(cs.drop_last()), connection_period(cs.last().1))
    }
}

fn min_opt(a: Option<u64>, b: Option<u64>) -> (m: Option<u64>)
    ensures
        m == min_period(a, b),
{
    match (a, b) {
        (Some(x), Some(y)) => Some(if x <= y { x } else { y }),
        (Some(x), None) => Some(x),
        (None, y) => y,
    }
}

/// How often the connections are refreshed: every shortest period among their expiry times
/// and budget periods, but no more often than every `MIN_REFRESH_INTERVAL_SEC` seconds; never
/// when none has such a period.
pub fn refresh_interval(connections: &Vec<(String, NwcConnection)>) -> (interval: Option<u64>)
    ensures
        interval == match shortest_period(connections@) {
            Some(p) => Some(if p < MIN_REFRESH_INTERVAL_SEC { MIN_REFRESH_INTERVAL_SEC } else { p }),
            None => None::<u64>,
        },
{
    let mut shortest: Option<u64> = None;
    for i in 0..connections.len()
        invariant
            shortest == shortest_period(connections@.take(i as int)),
    {
        proof {
            let t = connections@.take(i + 1);
            assert(t.drop_last() =~= connections@.take(i as int));
        }
        let c = &connections[i].1;
        let budget_period = match c.periodic_budget {
            Some(b) => Some(b.renewal_time_sec),
            None => None,
        };
        shortest = min_opt(shortest, min_opt(c.expiry_time_sec, budget_period));
    }
    assert(connections@.take(connections.len() as int) =~= connections@);
    match shortest {
        Some(p) => Some(if p < MIN_REFRESH_INTERVAL_SEC { MIN_REFRESH_INTERVAL_SEC } else { p }),
        None => None,
    }
}


/// A connection's budget after an edit asks for `budget`: none when none is asked; otherwise
/// the maximum and period asked for (30 days unless the period is given), keeping what the
/// current period has used and when it began, or starting a period at `now` with nothing used
/// when the connection had no budget.
pub open spec fn edited_budget(current: Option<ConnectionBudget>, budget: Option<BudgetRequest>, now: u64) -> Option<ConnectionBudget> {
    match budget {
        None => None,
        Some(b) => Some(ConnectionBudget {
            budget: PeriodicBudget {
                used_budget_sat: match current {
                    Some(c) => c.budget.used_budget_sat,
                    None => 0,
                },
                max_budget_sat: b.max_budget_sat,
            },
            renewal_time_sec: match b.renewal_time_mins {
                Some(m) => (m * 60) as u64,
                None => 2592000u64,
            },
            updated_at: match current {
                Some(c) => c.updated_at,
                None => now,
            },
        }),
    }
}

/// A connection edited to expire after `expiry_mins` minutes (never when not given), to have
/// the budget asked for, and to be receive-only as asked (unchanged when not asked); its URI,
/// creation time and paid amount stay.
pub fn edit_connection(
    current: &NwcConnection,
    expiry_mins: Option<u32>,
    receive_only: Option<bool>,
    budget: Option<BudgetRequest>,
    now: u64,
) -> (edited: NwcConnection)
    ensures
        edited.connection_string@ == current.connection_string@,
        edited.created_at == current.created_at,
        edited.paid_amount_sat == current.paid_amount_sat,
        edited.expiry_time_sec == match expiry_mins {
            Some(m) => Some((m * 60) as u64),
            None => None::<u64>,
        },
        edited.receive_only == match receive_only {
            Some(r) => r,
            None => current.receive_only,
        },
        edited.periodic_budget == edited_budget(current.periodic_budget, budget, now),
{
    let periodic_budget = match budget {
        None => None,
        Some(b) => Some(ConnectionBudget {
            budget: PeriodicBudget {
                used_budget_sat: match current.periodic_budget {
                    Some(c) => c.budget.used_budget_sat,
                    None => 0,
                },
                max_budget_sat: b.max_budget_sat,
            },
            renewal_time_sec: match b.renewal_time_mins {
                Some(m) => m as u64 * 60,
                None => 2592000,
            },
            updated_at: match current.periodic_budget {
                Some(c) => c.updated_at,
                None => now,
            },
        }),
    };
    NwcConnection {
        connection_string: current.connection_string.clone(),
        created_at: current.created_at,
        expiry_time_sec: match expiry_mins {
            Some(m) => Some(m as u64 * 60),
            None => None,
        },
        receive_only: match receive_only {
            Some(r) => r,
            None => current.receive_only,
        },
        paid_amount_sat: current.paid_amount_sat,
        periodic_budget,
    }
}

} // verus!
