//! The plugin's configuration and the payment data that the wallet hands it.
use vstd::prelude::*;
use vstd::string::StringExecFns;

verus! {

/// The relays that a wallet connects to when its configuration names none.
pub const DEFAULT_RELAY_URLS: [&'static str; 4] = [
    "wss://relay.getalbypro.com/breez",
    "wss://nos.lol/",
    "wss://nostr.land/",
    "wss://nostr.wine/",
];

/// The texts of `DEFAULT_RELAY_URLS`, in order.
pub open spec fn default_relay_urls() -> Seq<Seq<char>> {
    seq![
        "wss://relay.getalbypro.com/breez"@,
        "wss://nos.lol/"@,
        "wss://nostr.land/"@,
        "wss://nostr.wine/"@,
    ]
}

/// The texts of a list of strings.
pub open spec fn texts(list: Seq<String>) -> Seq<Seq<char>> {
    list.map_values(|s: String| s@)
}

/// How the plugin is set up.
#[derive(Clone)]
pub struct NostrConfig {
    /// A list of default relay urls to add per connection
    pub relay_urls: Option<Vec<String>>,
    /// Custom Nostr secret key (hex-encoded) for the wallet node
    pub secret_key_hex: Option<String>,
    /// Whether or not to start the notification listener event loop. True by default.
    /// Recommended to set to `Some(false)` if you only need event handling
    pub listen_to_events: Option<bool>,
}

impl NostrConfig {
    /// The relays to connect to: the configured ones, or `DEFAULT_RELAY_URLS` when none are
    /// configured.
    pub fn relays(&self) -> (relays: Vec<String>)
        ensures
            texts(relays@) == match self.relay_urls {
                Some(urls) => texts(urls@),
                None => default_relay_urls(),
            },
    {
        match &self.relay_urls {
            Some(urls) => {
                let mut relays: Vec<String> = Vec::new();
                for i in 0..urls.len()
                    invariant
                        relays@.len() == i,
                        forall|j: int| 0 <= j < i ==> #[trigger] relays@[j]@ == urls@[j]@,
                {
                    relays.push(urls[i].clone());
                }
                assert(texts(relays@) =~= texts(urls@));
                relays
            },
            None => {
                let mut relays: Vec<String> = Vec::new();
                for i in 0..4usize
                    invariant
                        relays@.len() == i,
                        forall|j: int| 0 <= j < i ==> #[trigger] relays@[j]@ == DEFAULT_RELAY_URLS@[j]@,
                {
                    relays.push(String::from_str(DEFAULT_RELAY_URLS[i]));
                }
                assert(texts(relays@) =~= default_relay_urls());
                relays
            },
        }
    }

    /// Whether the notification listener event loop runs: unless it is configured off.
    pub fn listens_to_events(&self) -> (listens: bool)
        ensures
            listens == !(self.listen_to_events == Some(false)),
    {
        match self.listen_to_events {
            Some(listen) => listen,
            None => true,
        }
    }
}

/// What the plugin reports about itself while it runs.
#[derive(Debug, Default)]
pub struct NostrManagerInfo {
    pub wallet_pubkey: String,
    pub connected_relays: Vec<String>,
}

/// Which way a payment goes.
#[derive(PartialEq, Eq, Structural, Clone, Copy, Debug)]
pub enum PaymentType {
    Incoming,
    Outgoing,
}

/// How far a payment has come.
#[derive(PartialEq, Eq, Structural, Clone, Copy, Debug)]
pub enum PaymentState {
    Pending,
    Failed,
    Complete,
}

/// A payment, as the wallet reports it.
pub struct Payment {
    pub invoice: String,
    pub amount_sat: u64,
    pub fees_sat: u64,
    pub timestamp: u32,
    pub payment_type: PaymentType,
    pub payment_state: PaymentState,
    pub payment_hash: Option<String>,
    pub preimage: Option<String>,
    pub description: Option<String>,
    pub description_hash: Option<String>,
}

/// A parsed BOLT11 invoice.
pub struct LightningInvoice {
    pub bolt11: String,
    pub payment_hash: String,
    pub description: Option<String>,
    pub amount_msat: Option<u64>,
}

} // verus!
