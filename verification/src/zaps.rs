//! Zap receipts (NIP-57): the zaps that the plugin tracks until their invoice is paid, and the
//! tags of the receipt it then publishes.
use vstd::prelude::*;
use vstd::string::StringExecFns;

use vstd::utf8::*;

use crate::error::{NostrError, NostrResult};
use crate::hex_codec::hex_value;
use crate::model::texts;

verus! {

/// How long, in seconds, a zap stays tracked (one hour).
pub const ZAP_TRACKING_EXPIRY_SEC: u32 = 3600;

/// The storage key under which the tracked zaps are kept.
pub const KEY_TRACKED_ZAPS: &'static str = "nostr_zaps";

/// A zap request waiting for its invoice to be paid.
#[derive(Debug)]
pub struct TrackedZap {
    /// The JSON-encoded zap request event.
    pub zap_request: String,
    /// When the tracking ends, in seconds since the epoch.
    pub expires_at: u32,
}

impl TrackedZap {
    /// The zap request's text and the expiry.
    pub open spec fn view(self) -> (Seq<char>, u32) {
        (self.zap_request@, self.expires_at)
    }

    /// A copy of this tracked zap.
    pub fn duplicate(&self) -> (copy: TrackedZap)
        ensures
            copy.view() == self.view(),
    {
        TrackedZap { zap_request: self.zap_request.clone(), expires_at: self.expires_at }
    }
}

/// No invoice occurs twice among the entries.
pub open spec fn distinct_invoices(entries: Seq<(String, TrackedZap)>) -> bool {
    forall|i: int, j: int| 0 <= i < j < entries.len() ==> entries[i].0@ != entries[j].0@
}

/// Some entry is tracked under `invoice`.
pub open spec fn has_invoice(entries: Seq<(String, TrackedZap)>, invoice: Seq<char>) -> bool {
    exists|i: int| 0 <= i < entries.len() && entries[i].0@ == invoice
}

/// The position of the entry tracked under `invoice`.
pub open spec fn invoice_index(entries: Seq<(String, TrackedZap)>, invoice: Seq<char>) -> int {
    choose|i: int| 0 <= i < entries.len() && entries[i].0@ == invoice
}

/// The tracked zaps of a list of entries, by invoice.
pub open spec fn zap_map(entries: Seq<(String, TrackedZap)>) -> Map<Seq<char>, (Seq<char>, u32)> {
    Map::new(
        |invoice: Seq<char>| has_invoice(entries, invoice),
        |invoice: Seq<char>| entries[invoice_index(entries, invoice)].1.view(),
    )
}

/// In a list of distinct invoices, the map holds each entry's zap under its invoice.
pub proof fn lemma_zap_map_entry(entries: Seq<(String, TrackedZap)>, i: int)
    requires
        distinct_invoices(entries),
        0 <= i < entries.len(),
    ensures
        zap_map(entries).contains_key(entries[i].0@),
        zap_map(entries)[entries[i].0@] == entries[i].1.view(),
{
    let k = entries[i].0@;
    assert(has_invoice(entries, k));
    let j = invoice_index(entries, k);
    if j != i {
        if j < i {
            assert(entries[j].0@ != entries[i].0@);
        } else {
            assert(entries[i].0@ != entries[j].0@);
        }
    }
}

/// The zaps that the plugin tracks, each under the invoice that pays it.
pub struct TrackedZaps {
    entries: Vec<(String, TrackedZap)>,
}

impl TrackedZaps {
    #[verifier::type_invariant]
    spec fn well_formed(self) -> bool {
        distinct_invoices(self.entries@)
    }

    /// The tracked zaps, by invoice: the zap request's text and the expiry.
    pub closed spec fn view(self) -> Map<Seq<char>, (Seq<char>, u32)> {
        zap_map(self.entries@)
    }

    /// No zap is tracked.
    pub fn new() -> (zaps: Self)
        ensures
            zaps.view() == Map::<Seq<char>, (Seq<char>, u32)>::empty(),
    {
        let zaps = TrackedZaps { entries: Vec::new() };
        assert(zaps.view() =~= Map::<Seq<char>, (Seq<char>, u32)>::empty());
        zaps
    }

    fn position(&self, invoice: &String) -> (pos: Option<usize>)
        ensures
            match pos {
                Some(i) => i < self.entries@.len() && self.entries@[i as int].0@ == invoice@,
                None => !has_invoice(self.entries@, invoice@),
            },
    {
        for i in 0..self.entries.len()
            invariant
                forall|j: int| 0 <= j < i ==> self.entries@[j].0@ != invoice@,
        {
            if self.entries[i].0 == *invoice {
                return Some(i);
            }
        }
        None
    }

    /// Whether a zap is tracked under `invoice`.
    pub fn contains(&self, invoice: &String) -> (found: bool)
        ensures
            found == self.view().contains_key(invoice@),
    {
        self.position(invoice).is_some()
    }

    /// Tracks `zap` under `invoice`, in place of any zap tracked under it before.
    pub fn insert(&mut self, invoice: String, zap: TrackedZap)
        ensures
            final(self).view() == old(self).view().insert(invoice@, zap.view()),
    {
        proof {
            use_type_invariant(&*self);
        }
        let ghost before = self.entries@;
        let ghost key = invoice@;
        let ghost value = zap.view();
        let mut entries: Vec<(String, TrackedZap)> = Vec::new();
        std::mem::swap(&mut entries, &mut self.entries);
        let pos = position_in(&entries, &invoice);
        match pos {
            Some(i) => {
                entries.set(i, (invoice, zap));
            },
            None => {
                entries.push((invoice, zap));
            },
        }
        proof {
            let after = entries@;
            assert(distinct_invoices(after)) by {
                assert forall|i: int, j: int| 0 <= i < j < after.len() implies after[i].0@ != after[j].0@ by {
                    match pos {
                        Some(p) => {
                            if i == p as int {
                                assert(before[j].0@ != before[p as int].0@);
                            } else if j == p as int {
                                assert(before[i].0@ != before[p as int].0@);
                            }
                        },
                        None => {
                            if j == before.len() as int {
                                assert(after[i].0@ == before[i].0@);
                            }
                        },
                    }
                }
            }
            assert forall|k: Seq<char>| #[trigger] zap_map(after).contains_key(k) <==> zap_map(before).insert(key, value).contains_key(k) by {
                if has_invoice(after, k) {
                    let i = choose|i: int| 0 <= i < after.len() && after[i].0@ == k;
                    if k != key {
                        assert(before[i].0@ == k);
                    }
                }
                if has_invoice(before, k) {
                    let i = choose|i: int| 0 <= i < before.len() && before[i].0@ == k;
                    if k != key {
                        assert(after[i].0@ == k);
                    }
                }
                if k == key {
                    match pos {
                        Some(p) => assert(after[p as int].0@ == k),
                        None => assert(after[before.len() as int].0@ == k),
                    }
                }
            }
            assert forall|k: Seq<char>| #[trigger] zap_map(after).contains_key(k)
            implies zap_map(after)[k] == zap_map(before).insert(key, value)[k] by {
                let i = choose|i: int| 0 <= i < after.len() && after[i].0@ == k;
                lemma_zap_map_entry(after, i);
                if k != key {
                    lemma_zap_map_entry(before, i);
                }
            }
            assert(zap_map(after) =~= zap_map(before).insert(key, value));
        }
        self.entries = entries;
    }

    /// The zap request tracked under `invoice`, if any.
    pub fn get_request(&self, invoice: &String) -> (request: Option<String>)
        ensures
            match request {
                Some(r) => self.view().contains_key(invoice@) && self.view()[invoice@].0 == r@,
                None => !self.view().contains_key(invoice@),
            },
    {
        proof {
            use_type_invariant(self);
        }
        match self.position(invoice) {
            Some(i) => {
                proof {
                    lemma_zap_map_entry(self.entries@, i as int);
                }
                Some(self.entries[i].1.zap_request.clone())
            },
            None => None,
        }
    }

    /// Stops tracking the zap under `invoice`, and gives it back if there was one.
    pub fn remove(&mut self, invoice: &String) -> (removed: Option<TrackedZap>)
        ensures
            final(self).view() == old(self).view().remove(invoice@),
            match removed {
                Some(zap) => old(self).view().contains_key(invoice@) && old(self).view()[invoice@] == zap.view(),
                None => !old(self).view().contains_key(invoice@),
            },
    {
        proof {
            use_type_invariant(&*self);
        }
        let ghost before = self.entries@;
        let ghost key = invoice@;
        let mut entries: Vec<(String, TrackedZap)> = Vec::new();
        std::mem::swap(&mut entries, &mut self.entries);
        match position_in(&entries, invoice) {
            Some(p) => {
                proof {
                    lemma_zap_map_entry(before, p as int);
                }
                let (_, zap) = entries.remove(p);
                proof {
                    let after = entries@;
                    assert(distinct_invoices(after)) by {
                        assert forall|i: int, j: int| 0 <= i < j < after.len() implies after[i].0@ != after[j].0@ by {
                            if i < p {
                                if j < p {
                                } else {
                                    assert(after[j] == before[j + 1]);
                                }
                            } else {
                                assert(after[i] == before[i + 1]);
                                assert(after[j] == before[j + 1]);
                            }
                        }
                    }
                    assert forall|k: Seq<char>| #[trigger] zap_map(after).contains_key(k) <==> zap_map(before).remove(key).contains_key(k) by {
                        if has_invoice(after, k) {
                            let i = choose|i: int| 0 <= i < after.len() && after[i].0@ == k;
                            if i < p {
                                assert(before[i].0@ == k);
                                assert(before[i].0@ != before[p as int].0@);
                            } else {
                                assert(before[i + 1].0@ == k);
                                assert(before[p as int].0@ != before[i + 1].0@);
                            }
                        }
                        if has_invoice(before, k) && k != key {
                            let i = choose|i: int| 0 <= i < before.len() && before[i].0@ == k;
                            if i < p {
                                assert(after[i].0@ == k);
                            } else {
                                assert(i != p);
                                assert(after[i - 1].0@ == k);
                            }
                        }
                    }
                    assert forall|k: Seq<char>| #[trigger] zap_map(after).contains_key(k)
                    implies zap_map(after)[k] == zap_map(before).remove(key)[k] by {
                        let i = choose|i: int| 0 <= i < after.len() && after[i].0@ == k;
                        lemma_zap_map_entry(after, i);
                        if i < p {
                            lemma_zap_map_entry(before, i);
                        } else {
                            lemma_zap_map_entry(before, i + 1);
                        }
                    }
                    assert(zap_map(after) =~= zap_map(before).remove(key));
                }
                self.entries = entries;
                Some(zap)
            },
            None => {
                assert(zap_map(before) =~= zap_map(before).remove(key));
                self.entries = entries;
                None
            },
        }
    }

    /// Stops tracking every zap whose tracking has ended at `now`; says whether there was any.
    pub fn remove_expired(&mut self, now: u32) -> (changed: bool)
        ensures
            final(self).view() == old(self).view().restrict(
                old(self).view().dom().filter(|invoice: Seq<char>| old(self).view()[invoice].1 > now),
            ),
            changed == exists|invoice: Seq<char>|
                #[trigger] old(self).view().contains_key(invoice) && old(self).view()[invoice].1 <= now,
    {
        proof {
            use_type_invariant(&*self);
        }
        let ghost before = self.entries@;
        let ghost old_map = zap_map(before);
        let mut entries: Vec<(String, TrackedZap)> = Vec::new();
        std::mem::swap(&mut entries, &mut self.entries);
        let mut kept: Vec<(String, TrackedZap)> = Vec::new();
        let ghost mut origin: Seq<int> = Seq::empty();
        let mut changed = false;
        let n = entries.len();
        for i in 0..n
            invariant
                n == entries@.len(),
                entries@ == before,
                distinct_invoices(before),
                origin.len() == kept@.len(),
                forall|j: int| 0 <= j < origin.len() ==> 0 <= #[trigger] origin[j] < i,
                forall|j: int, l: int| 0 <= j < l < origin.len() ==> origin[j] < origin[l],
                forall|j: int| #![trigger kept@[j]] 0 <= j < kept@.len() ==> kept@[j].0@ == before[origin[j]].0@
                    && kept@[j].1.view() == before[origin[j]].1.view() && before[origin[j]].1.expires_at > now,
                forall|l: int| 0 <= l < i && before[l].1.expires_at > now
                    ==> exists|j: int| 0 <= j < origin.len() && origin[j] == l,
                changed == exists|l: int| 0 <= l < i && before[l].1.expires_at <= now,
        {
            let entry = &entries[i];
            if now >= entry.1.expires_at {
                changed = true;
            } else {
                kept.push((entry.0.clone(), entry.1.duplicate()));
                proof {
                    let old_origin = origin;
                    origin = origin.push(i as int);
                    assert forall|l: int| 0 <= l < i + 1 && before[l].1.expires_at > now
                    implies exists|j: int| 0 <= j < origin.len() && origin[j] == l by {
                        if l == i {
                            assert(origin[origin.len() - 1] == l);
                        } else {
                            let j = choose|j: int| 0 <= j < old_origin.len() && old_origin[j] == l;
                            assert(origin[j] == l);
                        }
                    }
                }
            }
        }
        proof {
            let after = kept@;
            assert(distinct_invoices(after)) by {
                assert forall|i: int, j: int| 0 <= i < j < after.len() implies after[i].0@ != after[j].0@ by {
                    assert(origin[i] < origin[j]);
                }
            }
            let target = old_map.restrict(old_map.dom().filter(|invoice: Seq<char>| old_map[invoice].1 > now));
            assert forall|k: Seq<char>| #[trigger] zap_map(after).contains_key(k) <==> target.contains_key(k) by {
                if has_invoice(after, k) {
                    let j = choose|j: int| 0 <= j < after.len() && after[j].0@ == k;
                    lemma_zap_map_entry(before, origin[j]);
                    assert(old_map.dom().filter(|invoice: Seq<char>| old_map[invoice].1 > now).contains(k));
                }
                if target.contains_key(k) {
                    assert(has_invoice(before, k));
                    let l = choose|l: int| 0 <= l < before.len() && before[l].0@ == k;
                    lemma_zap_map_entry(before, l);
                    let j = choose|j: int| 0 <= j < origin.len() && origin[j] == l;
                    assert(after[j].0@ == k);
                }
            }
            assert forall|k: Seq<char>| #[trigger] zap_map(after).contains_key(k)
            implies zap_map(after)[k] == target[k] by {
                let j = choose|j: int| 0 <= j < after.len() && after[j].0@ == k;
                lemma_zap_map_entry(after, j);
                lemma_zap_map_entry(before, origin[j]);
            }
            assert(zap_map(after) =~= target);
            if changed {
                let l = choose|l: int| 0 <= l < n && before[l].1.expires_at <= now;
                lemma_zap_map_entry(before, l);
                assert(old_map.contains_key(before[l].0@) && old_map[before[l].0@].1 <= now);
                assert(exists|invoice: Seq<char>| #[trigger] old_map.contains_key(invoice) && old_map[invoice].1 <= now);
            } else {
                assert forall|k: Seq<char>| #[trigger] old_map.contains_key(k) implies !(old_map[k].1 <= now) by {
                    let l = choose|l: int| 0 <= l < before.len() && before[l].0@ == k;
                    lemma_zap_map_entry(before, l);
                }
            }
        }
        self.entries = kept;
        assert(old(self).view() == old_map);
        assert(changed == exists|invoice: Seq<char>| #[trigger] old_map.contains_key(invoice) && old_map[invoice].1 <= now);
        changed
    }

    /// Starts tracking the zap request `zap_request` for `invoice` at time `now`: it stays
    /// tracked for `ZAP_TRACKING_EXPIRY_SEC` seconds. Says that the zaps changed.
    pub fn track(&mut self, invoice: String, zap_request: String, now: u32) -> (changed: bool)
        requires
            now + ZAP_TRACKING_EXPIRY_SEC <= u32::MAX,
        ensures
            final(self).view() == old(self).view().insert(invoice@, (zap_request@, (now + ZAP_TRACKING_EXPIRY_SEC) as u32)),
            changed,
    {
        self.insert(invoice, TrackedZap { zap_request, expires_at: now + ZAP_TRACKING_EXPIRY_SEC });
        true
    }

    /// Every tracked zap, with the invoice it is tracked under.
    pub fn entries(&self) -> (entries: Vec<(String, TrackedZap)>)
        ensures
            distinct_invoices(entries@),
            zap_map(entries@) == self.view(),
    {
        proof {
            use_type_invariant(self);
        }
        let mut copy: Vec<(String, TrackedZap)> = Vec::new();
        let n = self.entries.len();
        for i in 0..n
            invariant
                n == self.entries@.len(),
                copy@.len() == i,
                forall|j: int| #![trigger copy@[j]] 0 <= j < i ==> copy@[j].0@ == self.entries@[j].0@
                    && copy@[j].1.view() == self.entries@[j].1.view(),
        {
            copy.push((self.entries[i].0.clone(), self.entries[i].1.duplicate()));
        }
        proof {
            let src = self.entries@;
            let dst = copy@;
            assert forall|k: Seq<char>| #[trigger] zap_map(dst).contains_key(k) <==> zap_map(src).contains_key(k) by {
                if has_invoice(dst, k) {
                    let j = choose|j: int| 0 <= j < dst.len() && dst[j].0@ == k;
                    assert(src[j].0@ == k);
                }
                if has_invoice(src, k) {
                    let j = choose|j: int| 0 <= j < src.len() && src[j].0@ == k;
                    assert(dst[j].0@ == k);
                }
            }
            assert forall|k: Seq<char>| #[trigger] zap_map(dst).contains_key(k)
            implies zap_map(dst)[k] == zap_map(src)[k] by {
                let j = choose|j: int| 0 <= j < dst.len() && dst[j].0@ == k;
                lemma_zap_map_entry(dst, j);
                lemma_zap_map_entry(src, j);
            }
            assert(zap_map(dst) =~= zap_map(src));
        }
        copy
    }
}

fn position_in(entries: &Vec<(String, TrackedZap)>, invoice: &String) -> (pos: Option<usize>)
    ensures
        match pos {
            Some(i) => i < entries@.len() && entries@[i as int].0@ == invoice@,
            None => !has_invoice(entries@, invoice@),
        },
{
    for i in 0..entries.len()
        invariant
            forall|j: int| 0 <= j < i ==> entries@[j].0@ != invoice@,
    {
        if entries[i].0 == *invoice {
            return Some(i);
        }
    }
    None
}

/// The texts of a list of tags, each tag a list of strings whose first is its name.
pub open spec fn tag_texts(tags: Seq<Vec<String>>) -> Seq<Seq<Seq<char>>> {
    tags.map_values(|tag: Vec<String>| texts(tag@))
}

/// A tag is named `name`.
pub open spec fn is_named(tag: Seq<Seq<char>>, name: Seq<char>) -> bool {
    tag.len() > 0 && tag[0] == name
}

/// The first tag named `name`, if any.
pub open spec fn first_tag(tags: Seq<Seq<Seq<char>>>, name: Seq<char>) -> Option<Seq<Seq<char>>>
    decreases tags.len(),
{
    if tags.len() == 0 {
        None
    } else if is_named(tags[0], name) {
        Some(tags[0])
    } else {
        first_tag(tags.drop_first(), name)
    }
}

/// The first tag named `name` is the one at `i` when no tag before it has that name; there is
/// none when no tag up to `i` has it and `i` is the end.
pub proof fn lemma_first_tag(tags: Seq<Seq<Seq<char>>>, name: Seq<char>, i: int)
    requires
        0 <= i <= tags.len(),
        forall|j: int| 0 <= j < i ==> !is_named(#[trigger] tags[j], name),
    ensures
        i < tags.len() && is_named(tags[i], name) ==> first_tag(tags, name) == Some(tags[i]),
        i == tags.len() ==> first_tag(tags, name) is None,
    decreases i,
{
    if i > 0 {
        let rest = tags.drop_first();
        assert forall|j: int| 0 <= j < i - 1 implies !is_named(#[trigger] rest[j], name) by {
            assert(rest[j] == tags[j + 1]);
        }
        lemma_first_tag(rest, name, i - 1);
        assert(!is_named(tags[0], name));
    }
}

/// The text of an optional string.
pub open spec fn optional_text(s: Option<String>) -> Option<Seq<char>> {
    match s {
        Some(t) => Some(t@),
        None => None,
    }
}

/// The tags listed for an optional tag: it alone, or none.
pub open spec fn optional_tag(tag: Option<Seq<Seq<char>>>) -> Seq<Seq<Seq<char>>> {
    match tag {
        Some(t) => seq![t],
        None => Seq::empty(),
    }
}

/// The tags of the receipt of a zap request (NIP-57, appendix E): its first `p` tag, its first
/// `a` and `e` tags if it has them, an upper-case `P` tag with the requester's public key, the
/// paid invoice, the zap request as description, and the preimage if there is one. A zap
/// request without a `p` tag gets no receipt.
pub open spec fn zap_receipt_tag_texts(
    request_tags: Seq<Seq<Seq<char>>>,
    request_pubkey: Seq<char>,
    bolt11: Seq<char>,
    request_json: Seq<char>,
    preimage: Option<Seq<char>>,
) -> Option<Seq<Seq<Seq<char>>>> {
    match first_tag(request_tags, "p"@) {
        None => None,
        Some(p) => Some(
            seq![p] + optional_tag(first_tag(request_tags, "a"@)) + optional_tag(first_tag(request_tags, "e"@))
                + seq![seq!["P"@, request_pubkey], seq!["bolt11"@, bolt11], seq!["description"@, request_json]]
                + match preimage {
                    Some(x) => seq![seq!["preimage"@, x]],
                    None => Seq::empty(),
                },
        ),
    }
}

fn copy_texts(list: &Vec<String>) -> (copy: Vec<String>)
    ensures
        texts(copy@) == texts(list@),
{
    let mut copy: Vec<String> = Vec::new();
    let n = list.len();
    for i in 0..n
        invariant
            n == list@.len(),
            copy@.len() == i,
            forall|j: int| #![trigger copy@[j]] 0 <= j < i ==> copy@[j]@ == list@[j]@,
    {
        copy.push(list[i].clone());
    }
    assert(texts(copy@) =~= texts(list@));
    copy
}

/// The first tag named `name`, copied, if any.
pub fn find_tag(tags: &Vec<Vec<String>>, name: &str) -> (found: Option<Vec<String>>)
    ensures
        match found {
            Some(tag) => first_tag(tag_texts(tags@), name@) == Some(texts(tag@)),
            None => first_tag(tag_texts(tags@), name@) is None,
        },
{
    let ghost all = tag_texts(tags@);
    let wanted = String::from_str(name);
    let n = tags.len();
    for i in 0..n
        invariant
            n == tags@.len(),
            all == tag_texts(tags@),
            wanted@ == name@,
            forall|j: int| 0 <= j < i ==> !is_named(#[trigger] all[j], name@),
    {
        let tag = &tags[i];
        if tag.len() > 0 && tag[0] == wanted {
            proof {
                assert(all[i as int] == texts(tag@));
                lemma_first_tag(all, name@, i as int);
            }
            return Some(copy_texts(tag));
        }
        proof {
            assert(all[i as int] == texts(tag@));
        }
    }
    proof {
        lemma_first_tag(all, name@, n as int);
    }
    None
}

fn pair_tag(name: &str, value: &String) -> (tag: Vec<String>)
    ensures
        texts(tag@) == seq![name@, value@],
{
    let mut tag: Vec<String> = Vec::new();
    tag.push(String::from_str(name));
    tag.push(value.clone());
    assert(texts(tag@) =~= seq![name@, value@]);
    tag
}

/// The tags of the receipt of a zap request with the given tags and requester, paid by the
/// invoice `bolt11`; `None` when the request has no `p` tag.
pub fn zap_receipt_tags(
    request_tags: &Vec<Vec<String>>,
    request_pubkey: &String,
    bolt11: &String,
    request_json: &String,
    preimage: &Option<String>,
) -> (tags: Option<Vec<Vec<String>>>)
    ensures
        match tags {
            Some(t) => zap_receipt_tag_texts(
                tag_texts(request_tags@),
                request_pubkey@,
                bolt11@,
                request_json@,
                optional_text(*preimage),
            ) == Some(tag_texts(t@)),
            None => zap_receipt_tag_texts(
                tag_texts(request_tags@),
                request_pubkey@,
                bolt11@,
                request_json@,
                optional_text(*preimage),
            ) is None,
        },
{
    let p_tag = match find_tag(request_tags, "p") {
        Some(tag) => tag,
        None => return None,
    };
    let ghost all = tag_texts(request_tags@);
    let mut receipt: Vec<Vec<String>> = Vec::new();
    receipt.push(p_tag);
    let ghost mut expected: Seq<Seq<Seq<char>>> = seq![first_tag(all, "p"@)->Some_0];
    assert(tag_texts(receipt@) =~= expected);
    match find_tag(request_tags, "a") {
        Some(tag) => receipt.push(tag),
        None => {},
    }
    proof {
        expected = expected + optional_tag(first_tag(all, "a"@));
    }
    assert(tag_texts(receipt@) =~= expected);
    match find_tag(request_tags, "e") {
        Some(tag) => receipt.push(tag),
        None => {},
    }
    proof {
        expected = expected + optional_tag(first_tag(all, "e"@));
    }
    assert(tag_texts(receipt@) =~= expected);
    receipt.push(pair_tag("P", request_pubkey));
    receipt.push(pair_tag("bolt11", bolt11));
    receipt.push(pair_tag("description", request_json));
    proof {
        expected = expected + seq![seq!["P"@, request_pubkey@], seq!["bolt11"@, bolt11@], seq!["description"@, request_json@]];
    }
    assert(tag_texts(receipt@) =~= expected);
    match preimage {
        Some(x) => receipt.push(pair_tag("preimage", x)),
        None => {},
    }
    proof {
        expected = expected + match optional_text(*preimage) {
            Some(x) => seq![seq!["preimage"@, x]],
            None => Seq::<Seq<Seq<char>>>::empty(),
        };
    }
    assert(tag_texts(receipt@) =~= expected);
    Some(receipt)
}

/// The bytes that percent-encoded bytes stand for: each `%` followed by two hex digits becomes
/// the byte they spell; every other byte, a `+` or a `%` without two hex digits among them,
/// stands for itself.
pub open spec fn percent_decoded(bytes: Seq<u8>) -> Seq<u8>
    decreases bytes.len(),
{
    if bytes.len() == 0 {
        Seq::empty()
    } else if bytes[0] == 37 && bytes.len() >= 3 && hex_value(bytes[1] as char) is Some
        && hex_value(bytes[2] as char) is Some {
        seq![(hex_value(bytes[1] as char)->Some_0 * 16 + hex_value(bytes[2] as char)->Some_0) as u8]
            + percent_decoded(bytes.subrange(3, bytes.len() as int))
    } else {
        seq![bytes[0]] + percent_decoded(bytes.drop_first())
    }
}

/// The text is the JSON of a Nostr event whose id and signature check out.
pub uninterp spec fn is_signed_event_json(json: Seq<char>) -> bool;

/// `urlencoding::decode`: the percent-decoded bytes of the text's UTF-8, read back as UTF-8;
/// fails exactly when they are no well-formed UTF-8.
#[verifier::external_body]
fn url_decode(text: &str) -> (res: Result<String, std::string::FromUtf8Error>)
    ensures
        res is Ok <==> valid_utf8(percent_decoded(encode_utf8(text@))),
        res matches Ok(decoded) ==> decoded@ == decode_utf8(percent_decoded(encode_utf8(text@))),
{
    match urlencoding::decode(text) {
        Ok(decoded) => Ok(decoded.into_owned()),
        Err(err) => Err(err),
    }
}

/// `nostr_sdk::Event::verify` of the event that `serde_json::from_str` reads from the text:
/// succeeds exactly when the text is a signed event whose id and signature check out.
#[verifier::external_body]
pub(crate) fn verify_event_json(json: &str) -> (res: Result<(), String>)
    ensures
        res is Ok <==> is_signed_event_json(json@),
{
    let event: nostr_sdk::Event = match serde_json::from_str(json) {
        Ok(event) => event,
        Err(err) => return Err(err.to_string()),
    };
    match event.verify() {
        Ok(()) => Ok(()),
        Err(err) => Err(err.to_string()),
    }
}

/// The zap request that a zap is tracked with: the URL- and JSON-encoded request, decoded,
/// once its signature checks out.
pub fn check_zap_request(encoded: &str) -> (res: NostrResult<String>)
    ensures
        res is Ok <==> valid_utf8(percent_decoded(encode_utf8(encoded@)))
            && is_signed_event_json(decode_utf8(percent_decoded(encode_utf8(encoded@)))),
        res matches Ok(json) ==> json@ == decode_utf8(percent_decoded(encode_utf8(encoded@))),
        res matches Err(e) ==> e is Generic,
{
    let json = match url_decode(encoded) {
        Ok(json) => json,
        Err(err) => return Err(NostrError::Generic { err: err.to_string() }),
    };
    match verify_event_json(json.as_str()) {
        Ok(()) => Ok(json),
        Err(err) => Err(NostrError::Generic { err }),
    }
}

/// What a zap receipt is made of from its zap request event.
pub struct ZapRequestParts {
    /// The request's tags.
    pub tags: Vec<Vec<String>>,
    /// The requester's public key, in hex.
    pub pubkey: String,
    /// The request's id, in hex.
    pub id: String,
    /// The request, written back as JSON.
    pub json: String,
}

/// The tags, public key, id and re-encoded JSON of the Nostr event that a text holds as JSON;
/// `None` when it holds none.
pub uninterp spec fn zap_request_parts(json: Seq<char>) -> Option<(Seq<Seq<Seq<char>>>, Seq<char>, Seq<char>, Seq<char>)>;

/// `serde_json::from_str` of a `nostr_sdk::Event`, then `serde_json::to_string` of it: the
/// event's tags (each as its list of strings), its public key and id in hex, and its JSON.
#[verifier::external_body]
fn read_zap_request(json: &str) -> (parts: Option<ZapRequestParts>)
    ensures
        match parts {
            Some(p) => zap_request_parts(json@) == Some((tag_texts(p.tags@), p.pubkey@, p.id@, p.json@)),
            None => zap_request_parts(json@) is None,
        },
{
    let event: nostr_sdk::Event = match serde_json::from_str(json) {
        Ok(event) => event,
        Err(_) => return None,
    };
    let encoded = match serde_json::to_string(&event) {
        Ok(encoded) => encoded,
        Err(_) => return None,
    };
    let tags = event.tags.iter().map(|tag| tag.as_slice().to_vec()).collect();
    Some(ZapRequestParts { tags, pubkey: event.pubkey.to_hex(), id: event.id.to_hex(), json: encoded })
}

/// A zap receipt: its tags, its creation time, and the id of the zap request it answers.
pub struct ZapReceipt {
    pub tags: Vec<Vec<String>>,
    /// The creation time of the receipt: the paid invoice's timestamp, in seconds.
    pub created_at: u64,
    pub request_id: String,
}

/// The receipt of the zap request held as JSON, paid by the invoice `bolt11` made at
/// `invoice_timestamp` with the given preimage; `None` when the text holds no event, or the
/// event has no `p` tag.
pub fn zap_receipt(
    request_json: &str,
    bolt11: &String,
    preimage: &Option<String>,
    invoice_timestamp: u64,
) -> (receipt: Option<ZapReceipt>)
    ensures
        match zap_request_parts(request_json@) {
            None => receipt is None,
            Some((tags, pubkey, id, json)) => match zap_receipt_tag_texts(tags, pubkey, bolt11@, json, optional_text(*preimage)) {
                None => receipt is None,
                Some(expected) => receipt matches Some(r) && tag_texts(r.tags@) == expected && r.request_id@ == id
                    && r.created_at == invoice_timestamp,
            },
        },
{
    let parts = match read_zap_request(request_json) {
        Some(parts) => parts,
        None => return None,
    };
    match zap_receipt_tags(&parts.tags, &parts.pubkey, bolt11, &parts.json, preimage) {
        Some(tags) => Some(ZapReceipt { tags, created_at: invoice_timestamp, request_id: parts.id }),
        None => None,
    }
}

impl TrackedZaps {
    /// Stops tracking the zap under `invoice` to send its receipt: gives back its zap request
    /// when that holds an event, and says whether the zaps are to be written back, which is
    /// exactly then.
    pub fn take_zap_request(&mut self, invoice: &String) -> (res: (bool, Option<String>))
        ensures
            final(self).view() == old(self).view().remove(invoice@),
            match res.1 {
                Some(json) => old(self).view().contains_key(invoice@) && old(self).view()[invoice@].0 == json@
                    && zap_request_parts(json@) is Some,
                None => !old(self).view().contains_key(invoice@)
                    || zap_request_parts(old(self).view()[invoice@].0) is None,
            },
            res.0 == res.1 is Some,
    {
        match self.remove(invoice) {
            Some(zap) => match read_zap_request(zap.zap_request.as_str()) {
                Some(_) => (true, Some(zap.zap_request)),
                None => (false, None),
            },
            None => (false, None),
        }
    }
}

} // verus!
