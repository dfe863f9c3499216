//! The events the plugin emits to its listeners, and who receives them.
use vstd::prelude::*;

verus! {

/// What a Nostr Wallet Connect request did.
#[derive(Clone, Debug, PartialEq)]
pub enum NwcEventKind {
    PayInvoice {
        success: bool,
        preimage: Option<String>,
        fees_sat: Option<u64>,
        error: Option<String>,
    },
    MakeInvoice,
    ListTransactions,
    GetBalance,
    GetInfo,
    ConnectionExpired,
    ConnectionRefreshed,
}

/// What happened.
#[derive(Clone, Debug, PartialEq)]
pub enum NostrEventDetails {
    Connected,
    Disconnected,
    Nwc { kind: NwcEventKind, connection_name: Option<String> },
    ZapReceived { invoice: String },
}

/// The event emitted when a Nostr operation has been handled
#[derive(Clone, Debug, PartialEq)]
pub struct NostrEvent {
    pub event_id: Option<String>,
    pub details: NostrEventDetails,
}

/// The texts of a list of strings hold no text twice.
pub open spec fn distinct_texts(list: Seq<String>) -> bool {
    forall|i: int, j: int| 0 <= i < j < list.len() ==> list[i]@ != list[j]@
}

/// The set of the texts of a list of strings.
pub open spec fn text_set(list: Seq<String>) -> Set<Seq<char>> {
    Set::new(|t: Seq<char>| exists|i: int| 0 <= i < list.len() && list[i]@ == t)
}

/// The first position of a list whose text is `key`, if any.
pub fn position_of(list: &Vec<String>, key: &String) -> (pos: Option<usize>)
    ensures
        match pos {
            Some(i) => i < list@.len() && list@[i as int]@ == key@
                && forall|j: int| 0 <= j < i ==> list@[j]@ != key@,
            None => forall|j: int| 0 <= j < list@.len() ==> list@[j]@ != key@,
        },
{
    for i in 0..list.len()
        invariant
            forall|j: int| 0 <= j < i ==> list@[j]@ != key@,
    {
        if list[i] == *key {
            return Some(i);
        }
    }
    None
}

/// A lower-case hex digit.
pub open spec fn is_lower_hex_digit(c: char) -> bool {
    ('0' <= c && c <= '9') || ('a' <= c && c <= 'f')
}

/// The hyphenated lower-case text of a version-4 UUID: 32 hex digits in groups of 8, 4, 4, 4
/// and 12 separated by `-`, the version digit `4`, and a variant digit among `8`, `9`, `a`, `b`.
pub open spec fn is_uuid_v4_text(t: Seq<char>) -> bool {
    &&& t.len() == 36
    &&& forall|i: int| 0 <= i < 36 ==> (if i == 8 || i == 13 || i == 18 || i == 23 {
        t[i] == '-'
    } else {
        is_lower_hex_digit(t[i])
    })
    &&& t[14] == '4'
    &&& (t[19] == '8' || t[19] == '9' || t[19] == 'a' || t[19] == 'b')
}

/// `uuid::Uuid::new_v4` written with `to_string`: a random version-4 UUID (`new_v4` sets the
/// version bits to 4 and the variant bits to `10`) in its hyphenated lower-case form, which
/// `Display` writes through `LowerHex` of the hyphenated form. Which one comes out is left open.
#[verifier::external_body]
fn new_listener_id() -> (id: String)
    ensures
        is_uuid_v4_text(id@),
{
    uuid::Uuid::new_v4().to_string()
}

/// Who listens to the plugin's events, and whether events are delivered at all.
pub struct EventManager {
    listener_ids: Vec<String>,
    is_paused: bool,
}

impl EventManager {
    #[verifier::type_invariant]
    spec fn well_formed(self) -> bool {
        distinct_texts(self.listener_ids@)
    }

    /// The ids of the registered listeners.
    pub closed spec fn listeners(self) -> Set<Seq<char>> {
        text_set(self.listener_ids@)
    }

    /// Whether event delivery is paused.
    pub closed spec fn paused(self) -> bool {
        self.is_paused
    }

    /// No listeners, and delivery running.
    pub fn new() -> (manager: Self)
        ensures
            manager.listeners() == Set::<Seq<char>>::empty(),
            !manager.paused(),
    {
        let manager = EventManager { listener_ids: Vec::new(), is_paused: false };
        assert(manager.listeners() =~= Set::<Seq<char>>::empty());
        manager
    }

    /// Registers a listener under the id given, replacing any listener of that id.
    pub fn add_with_id(&mut self, id: String)
        ensures
            final(self).listeners() == old(self).listeners().insert(id@),
            final(self).paused() == old(self).paused(),
    {
        proof {
            use_type_invariant(&*self);
        }
        let ghost before = self.listener_ids@;
        match position_of(&self.listener_ids, &id) {
            Some(_) => {
                assert(text_set(before) =~= text_set(before).insert(id@));
            },
            None => {
                let mut ids: Vec<String> = Vec::new();
                std::mem::swap(&mut ids, &mut self.listener_ids);
                ids.push(id);
                let ghost after = ids@;
                assert forall|t: Seq<char>| text_set(after).contains(t) <==> text_set(before).insert(id@).contains(t) by {
                    if text_set(before).contains(t) {
                        let i = choose|i: int| 0 <= i < before.len() && before[i]@ == t;
                        assert(after[i]@ == t);
                    }
                    if t == id@ {
                        assert(after[before.len() as int]@ == t);
                    }
                }
                assert(text_set(after) =~= text_set(before).insert(id@));
                self.listener_ids = ids;
            },
        }
    }

    /// Registers a listener under a fresh random id, which it returns.
    pub fn add(&mut self) -> (id: String)
        ensures
            final(self).listeners() == old(self).listeners().insert(id@),
            final(self).paused() == old(self).paused(),
            is_uuid_v4_text(id@),
    {
        let id = new_listener_id();
        self.add_with_id(id.clone());
        id
    }

    /// Unregisters the listener of the id given, if there is one.
    pub fn remove(&mut self, id: &String)
        ensures
            final(self).listeners() == old(self).listeners().remove(id@),
            final(self).paused() == old(self).paused(),
    {
        proof {
            use_type_invariant(&*self);
        }
        let ghost before = self.listener_ids@;
        match position_of(&self.listener_ids, id) {
            Some(i) => {
                let mut ids: Vec<String> = Vec::new();
                std::mem::swap(&mut ids, &mut self.listener_ids);
                ids.remove(i);
                let ghost after = ids@;
                assert forall|t: Seq<char>| text_set(after).contains(t) <==> text_set(before).remove(id@).contains(t) by {
                    if text_set(after).contains(t) {
                        let k = choose|k: int| 0 <= k < after.len() && after[k]@ == t;
                        if k < i {
                            assert(before[k]@ == t);
                        } else {
                            assert(before[k + 1]@ == t);
                        }
                    }
                    if text_set(before).remove(id@).contains(t) {
                        let k = choose|k: int| 0 <= k < before.len() && before[k]@ == t;
                        if k < i {
                            assert(after[k]@ == t);
                        } else {
                            assert(after[k - 1]@ == t);
                        }
                    }
                }
                assert(text_set(after) =~= text_set(before).remove(id@));
                self.listener_ids = ids;
            },
            None => {
                assert(text_set(before) =~= text_set(before).remove(id@));
            },
        }
    }

    /// The ids of the listeners that an event emitted now reaches: all of them, or none while
    /// delivery is paused.
    pub fn notify_targets(&self) -> (targets: Vec<String>)
        ensures
            distinct_texts(targets@),
            text_set(targets@) == if self.paused() {
                Set::<Seq<char>>::empty()
            } else {
                self.listeners()
            },
    {
        proof {
            use_type_invariant(self);
        }
        if self.is_paused {
            let targets: Vec<String> = Vec::new();
            assert(text_set(targets@) =~= Set::<Seq<char>>::empty());
            targets
        } else {
            let mut targets: Vec<String> = Vec::new();
            for i in 0..self.listener_ids.len()
                invariant
                    targets@.len() == i,
                    forall|j: int| 0 <= j < i ==> #[trigger] targets@[j]@ == self.listener_ids@[j]@,
            {
                targets.push(self.listener_ids[i].clone());
            }
            assert(text_set(targets@) =~= text_set(self.listener_ids@)) by {
                assert forall|t: Seq<char>| text_set(self.listener_ids@).contains(t) implies text_set(targets@).contains(t) by {
                    let k = choose|k: int| 0 <= k < self.listener_ids@.len() && self.listener_ids@[k]@ == t;
                    assert(targets@[k]@ == t);
                }
            }
            targets
        }
    }

    /// Stops delivering events.
    pub fn pause_notifications(&mut self)
        ensures
            final(self).paused(),
            final(self).listeners() == old(self).listeners(),
    {
        proof {
            use_type_invariant(&*self);
        }
        self.is_paused = true;
    }

    /// Delivers events again.
    pub fn resume_notifications(&mut self)
        ensures
            !final(self).paused(),
            final(self).listeners() == old(self).listeners(),
    {
        proof {
            use_type_invariant(&*self);
        }
        self.is_paused = false;
    }
}

} // verus!
