//! Properties that hold across the plugin's operations.
use vstd::prelude::*;

use crate::error::NostrResult;
use crate::event::NwcEventKind;
use crate::nwc::{budget_after, nwc_event_kind_spec, sat_ceil, NwcResponse, PeriodicBudget};
use crate::nwc_wire::{
    connection_made, edited_budget, is_relay_url, nwc_uri, refresh_view, valid_relays, BudgetRequest, ConnectionBudget,
    NwcConnection,
};
use crate::zaps::{first_tag, zap_receipt_tag_texts};
use crate::persist::chosen_key;
use crate::zaps::ZAP_TRACKING_EXPIRY_SEC;

verus! {

/// Two different keys of one plugin go under two different backend keys.
pub proof fn lemma_scoped_keys_distinct(plugin_id: Seq<char>, key1: Seq<char>, key2: Seq<char>)
    requires
        key1 != key2,
    ensures
        plugin_id + seq!['-'] + key1 != plugin_id + seq!['-'] + key2,
{
    let prefix = plugin_id + seq!['-'];
    if prefix + key1 == prefix + key2 {
        assert(key1 =~= (prefix + key1).subrange(prefix.len() as int, (prefix + key1).len() as int));
        assert(key2 =~= (prefix + key2).subrange(prefix.len() as int, (prefix + key2).len() as int));
    }
}

/// A satoshi amount rounded up from millisatoshis covers them, by less than one satoshi.
pub proof fn lemma_sat_ceil_covers(msat: u64)
    ensures
        sat_ceil(msat) * 1000 >= msat,
        sat_ceil(msat) * 1000 < msat + 1000,
{
    let m = msat as int;
    assert((m + 999) / 1000 * 1000 >= m && (m + 999) / 1000 * 1000 < m + 1000) by (nonlinear_arith)
        requires
            m >= 0,
    {
        let q = (m + 999) / 1000;
        let r = (m + 999) % 1000;
        assert(m + 999 == q * 1000 + r);
    }
}

/// A zap just tracked can be found under its invoice, with its zap request.
pub proof fn lemma_tracked_zap_found(
    zaps: Map<Seq<char>, (Seq<char>, u32)>,
    invoice: Seq<char>,
    zap_request: Seq<char>,
    now: u32,
)
    requires
        now + ZAP_TRACKING_EXPIRY_SEC <= u32::MAX,
    ensures
        ({
            let with_zap = zaps.insert(invoice, (zap_request, (now + ZAP_TRACKING_EXPIRY_SEC) as u32));
            &&& with_zap.contains_key(invoice)
            &&& with_zap[invoice].0 == zap_request
            &&& with_zap[invoice].1 > now
        }),
{
}

/// Removing the expired zaps keeps exactly the zaps whose expiry lies after `now`, unchanged.
pub proof fn lemma_expired_zaps_removed(zaps: Map<Seq<char>, (Seq<char>, u32)>, now: u32, invoice: Seq<char>)
    ensures
        ({
            let kept = zaps.restrict(zaps.dom().filter(|k: Seq<char>| zaps[k].1 > now));
            &&& kept.contains_key(invoice) <==> (zaps.contains_key(invoice) && zaps[invoice].1 > now)
            &&& kept.contains_key(invoice) ==> kept[invoice] == zaps[invoice]
        }),
{
}

/// A zap tracked at `now` survives removal of the zaps expired at any time before its expiry,
/// and is removed at its expiry.
pub proof fn lemma_tracked_zap_lifetime(
    zaps: Map<Seq<char>, (Seq<char>, u32)>,
    invoice: Seq<char>,
    zap_request: Seq<char>,
    now: u32,
    later: u32,
)
    requires
        now + ZAP_TRACKING_EXPIRY_SEC <= u32::MAX,
    ensures
        ({
            let with_zap = zaps.insert(invoice, (zap_request, (now + ZAP_TRACKING_EXPIRY_SEC) as u32));
            let kept = with_zap.restrict(with_zap.dom().filter(|k: Seq<char>| with_zap[k].1 > later));
            kept.contains_key(invoice) <==> later < now + ZAP_TRACKING_EXPIRY_SEC
        }),
{
}

/// A second start with the same configuration and the storage as the first start left it uses
/// the same secret key: the configured or stored key when there was one, else the key that the
/// first start generated and stored.
pub proof fn lemma_secret_key_stable(
    configured: Option<Seq<char>>,
    restored: Option<Seq<char>>,
    generated: Seq<char>,
)
    ensures
        ({
            let first = match chosen_key(configured, restored) {
                Some(key) => key,
                None => generated,
            };
            let stored_after = match chosen_key(configured, restored) {
                Some(_) => restored,
                None => Some(generated),
            };
            chosen_key(configured, stored_after) == Some(first)
        }),
{
}


/// Giving back to a budget what was reserved from it restores the budget.
pub proof fn lemma_budget_refund_restores(budget: PeriodicBudget, amount: int, reserved: PeriodicBudget)
    requires
        budget_after(budget, amount) == Some(reserved),
    ensures
        budget_after(reserved, -amount) == Some(budget),
{
}


/// A refresh leaves a connection whose budget period is still running (the period began less
/// than one renewal time before `now`) and which has not expired exactly as it was, and every
/// connection it reports as renewed had a budget whose whole period had passed by `now`.
pub proof fn lemma_refresh_keeps_running_budgets(cs: Seq<(String, NwcConnection)>, now: u64)
    ensures
        forall|i: int|
            0 <= i < cs.len() && !(cs[i].1.expiry_time_sec matches Some(e) && cs[i].1.created_at + e <= now) && (
            cs[i].1.periodic_budget matches Some(b) && b.updated_at + b.renewal_time_sec > now)
                ==> #[trigger] refresh_view(cs, now).0.contains(cs[i]),
        forall|k: int| #![trigger refresh_view(cs, now).2[k]]
            0 <= k < refresh_view(cs, now).2.len() ==> exists|j: int| #![trigger cs[j]]
                0 <= j < cs.len() && cs[j].0@ == refresh_view(cs, now).2[k] && (
                cs[j].1.periodic_budget matches Some(b) && b.updated_at + b.renewal_time_sec <= now),
    decreases cs.len(),
{
    if cs.len() > 0 {
        let front = cs.drop_last();
        lemma_refresh_keeps_running_budgets(front, now);
        let (kept, deleted, refreshed) = refresh_view(front, now);
        let n = cs.len() - 1;
        assert forall|i: int|
            0 <= i < cs.len() && !(cs[i].1.expiry_time_sec matches Some(e) && cs[i].1.created_at + e <= now) && (
            cs[i].1.periodic_budget matches Some(b) && b.updated_at + b.renewal_time_sec > now)
            implies #[trigger] refresh_view(cs, now).0.contains(cs[i]) by {
            let out = refresh_view(cs, now).0;
            if i < n {
                assert(front[i] == cs[i]);
                assert(kept.contains(front[i]));
                let w = choose|w: int| 0 <= w < kept.len() && kept[w] == front[i];
                assert(out[w] == cs[i]);
            } else {
                assert(out[out.len() - 1] == cs[i]);
            }
        }
        assert forall|k: int| #![trigger refresh_view(cs, now).2[k]] 0 <= k < refresh_view(cs, now).2.len() implies exists|j: int| #![trigger cs[j]]
            0 <= j < cs.len() && cs[j].0@ == refresh_view(cs, now).2[k] && (
            cs[j].1.periodic_budget matches Some(b) && b.updated_at + b.renewal_time_sec <= now) by {
            let out = refresh_view(cs, now).2;
            if k < refreshed.len() {
                assert(out[k] == refreshed[k]);
                let j = choose|j: int| #![trigger front[j]]
                    0 <= j < front.len() && front[j].0@ == refreshed[k] && (
                    front[j].1.periodic_budget matches Some(b) && b.updated_at + b.renewal_time_sec <= now);
                assert(cs[j] == front[j]);
            } else {
                assert(cs[n].0@ == out[k]);
            }
        }
    }
}

/// The URI of a new connection names the given relays that are relay URLs, none left out: it is
/// the one made of all of them, and those are exactly the given texts that are relay URLs.
pub proof fn lemma_new_connection_names_every_relay(
    res: NostrResult<NwcConnection>,
    wallet_pubkey_hex: Seq<char>,
    relays: Seq<Seq<char>>,
    secret: Seq<char>,
    now: u64,
    expiry_mins: Option<u32>,
    receive_only: Option<bool>,
    budget: Option<BudgetRequest>,
)
    requires
        connection_made(res, wallet_pubkey_hex, relays, secret, now, expiry_mins, receive_only, budget),
    ensures
        res matches Ok(c) ==> nwc_uri(wallet_pubkey_hex, valid_relays(relays), secret) == Some(c.connection_string@),
        forall|i: int| 0 <= i < relays.len() && is_relay_url(relays[i]) ==> #[trigger] valid_relays(relays).contains(relays[i]),
        forall|k: int| 0 <= k < valid_relays(relays).len() ==> is_relay_url(#[trigger] valid_relays(relays)[k])
            && relays.contains(valid_relays(relays)[k]),
{
    lemma_valid_relays_members(relays);
}

/// The relay URLs kept of a list of texts are the texts that are relay URLs.
pub proof fn lemma_valid_relays_members(relays: Seq<Seq<char>>)
    ensures
        forall|i: int| 0 <= i < relays.len() && is_relay_url(relays[i]) ==> #[trigger] valid_relays(relays).contains(relays[i]),
        forall|k: int| 0 <= k < valid_relays(relays).len() ==> is_relay_url(#[trigger] valid_relays(relays)[k])
            && relays.contains(valid_relays(relays)[k]),
    decreases relays.len(),
{
    if relays.len() > 0 {
        let front = relays.drop_last();
        lemma_valid_relays_members(front);
        let v = valid_relays(relays);
        let vf = valid_relays(front);
        assert forall|i: int| 0 <= i < relays.len() && is_relay_url(relays[i]) implies #[trigger] v.contains(relays[i]) by {
            if i < relays.len() - 1 {
                assert(front[i] == relays[i]);
                assert(vf.contains(front[i]));
                let w = choose|w: int| 0 <= w < vf.len() && vf[w] == front[i];
                assert(v[w] == relays[i]);
            } else {
                assert(v[v.len() - 1] == relays[i]);
            }
        }
        assert forall|k: int| 0 <= k < v.len() implies is_relay_url(#[trigger] v[k]) && relays.contains(v[k]) by {
            if k < vf.len() {
                assert(v[k] == vf[k]);
                let j = choose|j: int| 0 <= j < front.len() && front[j] == vf[k];
                assert(relays[j] == front[j]);
            } else {
                assert(v[k] == relays[relays.len() - 1]);
            }
        }
    }
}

/// The receipt of a zap request that has a `p` tag carries the request's first `a` tag and its
/// first `e` tag, each whenever the request has one, whatever other tags it has.
pub proof fn lemma_receipt_keeps_a_and_e_tags(
    request_tags: Seq<Seq<Seq<char>>>,
    request_pubkey: Seq<char>,
    bolt11: Seq<char>,
    request_json: Seq<char>,
    preimage: Option<Seq<char>>,
)
    requires
        first_tag(request_tags, "p"@) is Some,
    ensures
        zap_receipt_tag_texts(request_tags, request_pubkey, bolt11, request_json, preimage) matches Some(receipt) && (
        first_tag(request_tags, "a"@) matches Some(a) ==> receipt.contains(a)) && (
        first_tag(request_tags, "e"@) matches Some(e) ==> receipt.contains(e)) && (
        first_tag(request_tags, "p"@) == Some(receipt[0])) && receipt.contains(seq!["P"@, request_pubkey])
            && receipt.contains(seq!["bolt11"@, bolt11]) && receipt.contains(seq!["description"@, request_json]) && (
        preimage matches Some(x) ==> receipt.contains(seq!["preimage"@, x])),
{
    let receipt = zap_receipt_tag_texts(request_tags, request_pubkey, bolt11, request_json, preimage).unwrap();
    let has_a: int = if first_tag(request_tags, "a"@) is Some { 1 } else { 0 };
    if let Some(a) = first_tag(request_tags, "a"@) {
        assert(receipt[1] == a);
    }
    let has_e: int = if first_tag(request_tags, "e"@) is Some { 1 } else { 0 };
    if let Some(e) = first_tag(request_tags, "e"@) {
        assert(receipt[1 + has_a] == e);
    }
    let base = 1 + has_a + has_e;
    assert(receipt[base] == seq!["P"@, request_pubkey]);
    assert(receipt[base + 1] == seq!["bolt11"@, bolt11]);
    assert(receipt[base + 2] == seq!["description"@, request_json]);
    if let Some(x) = preimage {
        assert(receipt[base + 3] == seq!["preimage"@, x]);
    }
}

/// A paid invoice is reported with its routing fees in whole satoshis: the millisatoshis paid,
/// rounded down to a multiple of a thousand.
pub proof fn lemma_paid_invoice_fees_in_satoshis(result: NostrResult<NwcResponse>, kind: NwcEventKind)
    requires
        nwc_event_kind_spec(&result, kind),
        result matches Ok(NwcResponse::PayInvoice { fees_paid_msat: Some(_), .. }),
    ensures
        result matches Ok(NwcResponse::PayInvoice { fees_paid_msat: Some(msat), .. }) && kind matches NwcEventKind::PayInvoice {
            fees_sat: Some(sat), ..
        } && sat * 1000 <= msat < sat * 1000 + 1000,
{
}

/// An edit that asks for a budget gives the connection the maximum asked for and a renewal
/// period of the minutes asked for (30 days when none is asked), whatever budget it had; an edit
/// that asks for none leaves it without one.
pub proof fn lemma_edit_sets_requested_budget(current: Option<ConnectionBudget>, budget: Option<BudgetRequest>, now: u64)
    ensures
        budget is None ==> edited_budget(current, budget, now) is None,
        budget matches Some(b) ==> edited_budget(current, budget, now) matches Some(e) && e.budget.max_budget_sat
            == b.max_budget_sat && e.renewal_time_sec == match b.renewal_time_mins {
            Some(m) => m * 60,
            None => 30 * 24 * 60 * 60int,
        },
{
}


/// A refresh removes every expired connection (one whose expiry time has passed since it was
/// made) and keeps no expired one; a connection that has not expired and whose budget period is
/// over is kept, with a new period beginning at `now` and nothing of it used.
pub proof fn lemma_refresh_removes_expired_and_renews(cs: Seq<(String, NwcConnection)>, now: u64)
    ensures
        forall|k: int| 0 <= k < refresh_view(cs, now).0.len() ==> !(#[trigger] refresh_view(cs, now).0[k].1.expiry_time_sec matches Some(e)
            && refresh_view(cs, now).0[k].1.created_at + e <= now),
        forall|i: int|
            0 <= i < cs.len() && (cs[i].1.expiry_time_sec matches Some(e) && cs[i].1.created_at + e <= now)
                ==> #[trigger] refresh_view(cs, now).1.contains(cs[i].0@),
        forall|i: int|
            0 <= i < cs.len() && !(cs[i].1.expiry_time_sec matches Some(e) && cs[i].1.created_at + e <= now) && (
            cs[i].1.periodic_budget matches Some(b) && b.updated_at + b.renewal_time_sec <= now)
                ==> exists|k: int| #![trigger refresh_view(cs, now).0[k]] 0 <= k < refresh_view(cs, now).0.len()
                    && refresh_view(cs, now).0[k].0 == #[trigger] cs[i].0
                    && refresh_view(cs, now).0[k].1.connection_string == cs[i].1.connection_string
                    && refresh_view(cs, now).0[k].1.periodic_budget == Some(ConnectionBudget {
                        budget: PeriodicBudget {
                            used_budget_sat: 0,
                            max_budget_sat: cs[i].1.periodic_budget.unwrap().budget.max_budget_sat,
                        },
                        renewal_time_sec: cs[i].1.periodic_budget.unwrap().renewal_time_sec,
                        updated_at: now,
                    }),
    decreases cs.len(),
{
    if cs.len() > 0 {
        let front = cs.drop_last();
        lemma_refresh_removes_expired_and_renews(front, now);
        let (kept, deleted, refreshed) = refresh_view(front, now);
        let n = cs.len() - 1;
        let out = refresh_view(cs, now);
        assert forall|k: int| 0 <= k < out.0.len() implies !(#[trigger] out.0[k].1.expiry_time_sec matches Some(e)
            && out.0[k].1.created_at + e <= now) by {
            if k < kept.len() {
                assert(out.0[k] == kept[k]);
            }
        }
        assert forall|i: int|
            0 <= i < cs.len() && (cs[i].1.expiry_time_sec matches Some(e) && cs[i].1.created_at + e <= now)
            implies #[trigger] out.1.contains(cs[i].0@) by {
            if i < n {
                assert(front[i] == cs[i]);
                assert(deleted.contains(front[i].0@));
                let w = choose|w: int| 0 <= w < deleted.len() && deleted[w] == front[i].0@;
                assert(out.1[w] == cs[i].0@);
            } else {
                assert(out.1[out.1.len() - 1] == cs[i].0@);
            }
        }
        assert forall|i: int|
            0 <= i < cs.len() && !(cs[i].1.expiry_time_sec matches Some(e) && cs[i].1.created_at + e <= now) && (
            cs[i].1.periodic_budget matches Some(b) && b.updated_at + b.renewal_time_sec <= now)
            implies exists|k: int| #![trigger out.0[k]] 0 <= k < out.0.len()
                && out.0[k].0 == #[trigger] cs[i].0
                && out.0[k].1.connection_string == cs[i].1.connection_string
                && out.0[k].1.periodic_budget == Some(ConnectionBudget {
                    budget: PeriodicBudget {
                        used_budget_sat: 0,
                        max_budget_sat: cs[i].1.periodic_budget.unwrap().budget.max_budget_sat,
                    },
                    renewal_time_sec: cs[i].1.periodic_budget.unwrap().renewal_time_sec,
                    updated_at: now,
                }) by {
            if i < n {
                assert(front[i] == cs[i]);
                let k = choose|k: int| #![trigger kept[k]] 0 <= k < kept.len()
                    && kept[k].0 == front[i].0
                    && kept[k].1.connection_string == front[i].1.connection_string
                    && kept[k].1.periodic_budget == Some(ConnectionBudget {
                        budget: PeriodicBudget {
                            used_budget_sat: 0,
                            max_budget_sat: front[i].1.periodic_budget.unwrap().budget.max_budget_sat,
                        },
                        renewal_time_sec: front[i].1.periodic_budget.unwrap().renewal_time_sec,
                        updated_at: now,
                    });
                assert(out.0[k] == kept[k]);
            } else {
                assert(out.0[out.0.len() - 1].0 == cs[i].0);
            }
        }
    }
}

/// A new connection made with a given secret, when made, was made at `now`, expires after the
/// minutes asked for (never when none are given), is receive-only only when asked, has paid
/// nothing, and has the budget asked for with nothing used, beginning at `now`, over the minutes
/// asked for or 30 days.
pub proof fn lemma_new_connection_terms(
    res: NostrResult<NwcConnection>,
    wallet_pubkey_hex: Seq<char>,
    relays: Seq<Seq<char>>,
    secret: Seq<char>,
    now: u64,
    expiry_mins: Option<u32>,
    receive_only: Option<bool>,
    budget: Option<BudgetRequest>,
)
    requires
        connection_made(res, wallet_pubkey_hex, relays, secret, now, expiry_mins, receive_only, budget),
    ensures
        res matches Ok(c) ==> {
            &&& c.created_at == now
            &&& c.paid_amount_sat == 0
            &&& c.receive_only <==> receive_only == Some(true)
            &&& (expiry_mins is None <==> c.expiry_time_sec is None)
            &&& (expiry_mins matches Some(m) ==> c.expiry_time_sec matches Some(t) && t == m * 60)
            &&& (budget is None <==> c.periodic_budget is None)
            &&& (budget matches Some(b) ==> c.periodic_budget matches Some(p) && p.budget.used_budget_sat == 0
                && p.budget.max_budget_sat == b.max_budget_sat && p.updated_at == now
                && p.renewal_time_sec == match b.renewal_time_mins {
                    Some(m) => m * 60,
                    None => 30 * 24 * 60 * 60int,
                })
        },
{
}

} // verus!
