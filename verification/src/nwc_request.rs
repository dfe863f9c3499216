//! Handling one Nostr Wallet Connect request, step by step: the client is looked up and the
//! request checked, then decrypted, decided, paid through the wallet with the connection's
//! budget reserved beforehand, and answered. Each step says what to do next; the caller does it
//! (a lookup in storage, a call to the wallet, a decryption) and hands back what came of it.
use vstd::prelude::*;
use vstd::string::StringExecFns;

use crate::error::{error_text, NostrError};
use crate::nwc::{
    budget_change_sat, find_connection, payment_amount, plan_payment, request_expired, NwcResponse,
    PaymentPlan, PeriodicBudget,
};

verus! {

/// What a connection allows, as the request handling needs it.
#[derive(Clone, Debug, PartialEq)]
pub struct ConnectionTerms {
    /// The connection's name.
    pub name: String,
    /// The public key, in hex, that the connection's client signs with.
    pub client_pubkey: String,
    /// Whether the connection may only receive.
    pub receive_only: bool,
    /// The connection's spending limit, if it has one.
    pub budget: Option<PeriodicBudget>,
}

/// The method of a decrypted request.
#[derive(Clone, Debug, PartialEq)]
pub enum NwcMethod {
    PayInvoice { invoice: String, amount_msat: Option<u64> },
    MakeInvoice,
    ListTransactions,
    GetBalance,
    GetInfo,
    /// Any other method; the request, described.
    Other { description: String },
}

/// How far a request has come.
#[derive(Clone, Debug, PartialEq)]
pub enum NwcRequestState {
    /// The request event has arrived.
    Received,
    /// The client is known and the event checks out; its content is being decrypted.
    Verified { connection: ConnectionTerms },
    /// A `pay_invoice` request waits for its invoice to be read.
    AwaitingInvoice { connection: ConnectionTerms, invoice: String, amount_msat: Option<u64> },
    /// The payment's amount is being reserved from the connection's budget.
    AwaitingReservation { connection: ConnectionTerms, invoice: String, amount_msat: Option<u64>, plan: PaymentPlan },
    /// The wallet is carrying out the request.
    AwaitingWallet { connection: ConnectionTerms, method: NwcMethod, plan: Option<PaymentPlan> },
    /// A failed payment's amount is being given back to the budget.
    AwaitingRefund { connection: ConnectionTerms, error: NostrError },
    /// The paid invoice is being recorded.
    AwaitingRecord { response: NwcResponse },
    /// The request is answered or refused.
    Done,
}

/// What came of the last step's action.
#[derive(Debug, PartialEq)]
pub enum NwcRequestInput {
    /// The request event: its client key, expiration, the outcome of checking its id and
    /// signature, the time now, and the active connections.
    Event {
        client_pubkey: String,
        expiration: Option<u64>,
        signature: Result<(), String>,
        now: u64,
        connections: Vec<ConnectionTerms>,
    },
    /// The decrypted and parsed request, or why there is none.
    Decrypted(Result<NwcMethod, NostrError>),
    /// The invoice to pay, read: its amount, or `None` when it could not be read.
    InvoiceRead(Option<Option<u64>>),
    /// The outcome of changing the connection's used budget.
    BudgetUpdated(Result<(), NostrError>),
    /// The wallet's answer.
    WalletAnswered(Result<NwcResponse, NostrError>),
    /// The outcome of recording the paid invoice.
    PaidRecorded(Result<(), NostrError>),
}

/// What to do next.
#[derive(Debug, PartialEq)]
pub enum NwcAction {
    /// Decrypt and parse the request's content.
    Decrypt,
    /// Read the invoice to pay.
    ReadInvoice(String),
    /// Add this many satoshis to the connection's used budget.
    ReserveBudget(i64),
    /// Call the wallet for the method.
    CallWallet(NwcMethod),
    /// Add this (negative) many satoshis to the connection's used budget.
    RefundBudget(i64),
    /// Record the invoice as paid on the connection.
    RecordPaid,
    /// Answer the client with this outcome, and report it to listeners.
    Reply(Result<NwcResponse, NostrError>),
    /// Refuse the request without an answer.
    Fail(NostrError),
}

/// The error that answers a payment whose budget could not be changed.
pub open spec fn budget_error_text(name: Seq<char>, err: Seq<char>, refund: bool) -> Seq<char> {
    "Cannot pay invoice: could not update periodic budget on connection \""@ + name + "\": "@ + err
        + if refund { "."@ } else { Seq::empty() }
}

/// The error text of an out-of-order step.
pub open spec fn out_of_order_text() -> Seq<char> {
    "Request step out of order"@
}

fn budget_error(name: &String, err: &NostrError, refund: bool) -> (e: NostrError)
    ensures
        e matches NostrError::Generic { err: text } && text@ == budget_error_text(name@, error_text(*err), refund),
{
    let text = String::from_str("Cannot pay invoice: could not update periodic budget on connection \"")
        .concat(name.as_str())
        .concat("\": ")
        .concat(err.message().as_str());
    let text = if refund { text.concat(".") } else { text };
    assert(text@ =~= budget_error_text(name@, error_text(*err), refund));
    NostrError::Generic { err: text }
}

fn out_of_order() -> (e: NostrError)
    ensures
        e matches NostrError::Generic { err: text } && text@ == out_of_order_text(),
{
    NostrError::Generic { err: String::from_str("Request step out of order") }
}

/// The next step of handling a request.
pub fn nwc_request_step(state: NwcRequestState, input: NwcRequestInput) -> (out: (NwcRequestState, NwcAction))
    requires
        input matches NwcRequestInput::InvoiceRead(Some(invoice_amount)) ==> (state matches NwcRequestState::AwaitingInvoice {
            connection, amount_msat, ..
        } ==> (payment_amount(amount_msat, invoice_amount) matches Some(a) ==> (connection.budget matches Some(b)
            ==> b.used_budget_sat + a <= u64::MAX))),
    ensures
        match (state, input) {
            (NwcRequestState::Received, NwcRequestInput::Event { client_pubkey, expiration, signature, now, connections }) => {
                if forall|i: int| 0 <= i < connections@.len() ==> connections@[i].client_pubkey@ != client_pubkey@ {
                    out.1 matches NwcAction::Fail(NostrError::PubkeyNotFound { pubkey }) && pubkey@ == client_pubkey@
                        && out.0 == NwcRequestState::Done
                } else if request_expired_spec(expiration, now) {
                    out == (NwcRequestState::Done, NwcAction::Fail(NostrError::EventExpired))
                } else if signature is Err {
                    out.1 matches NwcAction::Fail(NostrError::InvalidSignature { err })
                        && signature == Err::<(), String>(err) && out.0 == NwcRequestState::Done
                } else {
                    out.0 matches NwcRequestState::Verified { connection } && out.1 == NwcAction::Decrypt
                        && (exists|i: int| 0 <= i < connections@.len() && connections@[i] == connection
                            && forall|j: int| 0 <= j < i ==> connections@[j].client_pubkey@ != client_pubkey@)
                        && connection.client_pubkey@ == client_pubkey@
                }
            },
            (NwcRequestState::Verified { connection }, NwcRequestInput::Decrypted(decrypted)) => match decrypted {
                Err(e) => out == (NwcRequestState::Done, NwcAction::Fail(e)),
                Ok(method) => if connection.receive_only && !(method is MakeInvoice) {
                    out.1 matches NwcAction::Reply(Err(NostrError::Generic { err }))
                        && err@ == "Connection is receive-only."@ && out.0 == NwcRequestState::Done
                } else {
                    match method {
                        NwcMethod::PayInvoice { invoice, amount_msat } => out == (
                            NwcRequestState::AwaitingInvoice { connection, invoice, amount_msat },
                            NwcAction::ReadInvoice(invoice),
                        ),
                        NwcMethod::Other { description } => out.1 matches NwcAction::Reply(Err(NostrError::Generic { err }))
                            && err@ == "Received unhandled request: "@ + description@ && out.0 == NwcRequestState::Done,
                        _ => out == (
                            NwcRequestState::AwaitingWallet { connection, method, plan: None },
                            NwcAction::CallWallet(method),
                        ),
                    }
                },
            },
            (NwcRequestState::AwaitingInvoice { connection, invoice, amount_msat }, NwcRequestInput::InvoiceRead(read)) => match read {
                None => out.1 matches NwcAction::Reply(Err(NostrError::Generic { err }))
                    && err@ == "Could not parse pay_invoice invoice: "@ + invoice@ && out.0 == NwcRequestState::Done,
                Some(invoice_amount) => match payment_amount(amount_msat, invoice_amount) {
                    None => out == (NwcRequestState::Done, NwcAction::Reply(Err(NostrError::InvoiceWithoutAmount))),
                    Some(a) => match connection.budget {
                        Some(b) => if b.used_budget_sat + a > b.max_budget_sat {
                            out == (NwcRequestState::Done, NwcAction::Reply(Err(NostrError::MaxBudgetExceeded)))
                        } else {
                            out.0 matches NwcRequestState::AwaitingReservation { connection: c, invoice: i, amount_msat: m, plan }
                                && c == connection && i == invoice && m == amount_msat && plan.amount_sat == a && plan.reserve_budget
                                && out.1 == NwcAction::ReserveBudget(a as i64)
                        },
                        None => out.0 matches NwcRequestState::AwaitingWallet { connection: c, method, plan: Some(plan) }
                            && c == connection && plan.amount_sat == a && !plan.reserve_budget
                            && method == (NwcMethod::PayInvoice { invoice, amount_msat })
                            && out.1 == NwcAction::CallWallet(method),
                    },
                },
            },
            (NwcRequestState::AwaitingReservation { connection, invoice, amount_msat, plan }, NwcRequestInput::BudgetUpdated(updated)) => match updated {
                Err(e) => out.1 matches NwcAction::Reply(Err(NostrError::Generic { err }))
                    && err@ == budget_error_text(connection.name@, error_text(e), false) && out.0 == NwcRequestState::Done,
                Ok(_) => out.0 matches NwcRequestState::AwaitingWallet { connection: c, method, plan: Some(p) }
                    && c == connection && p == plan && method == (NwcMethod::PayInvoice { invoice, amount_msat })
                    && out.1 == NwcAction::CallWallet(method),
            },
            (NwcRequestState::AwaitingWallet { connection, method, plan }, NwcRequestInput::WalletAnswered(answer)) => match answer {
                Ok(response) => if method is PayInvoice {
                    out == (NwcRequestState::AwaitingRecord { response }, NwcAction::RecordPaid)
                } else {
                    out == (NwcRequestState::Done, NwcAction::Reply(Ok(response)))
                },
                Err(e) => match plan {
                    Some(p) => if p.reserve_budget && (p.amount_sat as i64) != i64::MIN {
                        out.1 matches NwcAction::RefundBudget(change) && change as int == -((p.amount_sat as i64) as int)
                            && out.0 == (NwcRequestState::AwaitingRefund { connection, error: e })
                    } else {
                        out == (NwcRequestState::Done, NwcAction::Reply(Err(e)))
                    },
                    None => out == (NwcRequestState::Done, NwcAction::Reply(Err(e))),
                },
            },
            (NwcRequestState::AwaitingRefund { connection, error }, NwcRequestInput::BudgetUpdated(updated)) => match updated {
                Ok(_) => out == (NwcRequestState::Done, NwcAction::Reply(Err(error))),
                Err(e) => out.1 matches NwcAction::Reply(Err(NostrError::Generic { err }))
                    && err@ == budget_error_text(connection.name@, error_text(e), true) && out.0 == NwcRequestState::Done,
            },
            (NwcRequestState::AwaitingRecord { response }, NwcRequestInput::PaidRecorded(recorded)) => match recorded {
                Ok(_) => out == (NwcRequestState::Done, NwcAction::Reply(Ok(response))),
                Err(e) => out.1 matches NwcAction::Reply(Err(NostrError::Persist { err }))
                    && err@ == "Could not persist paid invoice: "@ + error_text(e) && out.0 == NwcRequestState::Done,
            },
            _ => out.1 matches NwcAction::Fail(NostrError::Generic { err })
                && err@ == out_of_order_text() && out.0 == NwcRequestState::Done,
        },
{
    match (state, input) {
        (NwcRequestState::Received, NwcRequestInput::Event { client_pubkey, expiration, signature, now, connections }) => {
            let mut pubkeys: Vec<String> = Vec::new();
            let n = connections.len();
            for i in 0..n
                invariant
                    n == connections@.len(),
                    pubkeys@.len() == i,
                    forall|j: int| #![trigger pubkeys@[j]] 0 <= j < i ==> pubkeys@[j]@ == connections@[j].client_pubkey@,
            {
                pubkeys.push(connections[i].client_pubkey.clone());
            }
            let index = match find_connection(&pubkeys, &client_pubkey) {
                Ok(index) => index,
                Err(e) => {
                    proof {
                        assert forall|i: int| 0 <= i < connections@.len() implies connections@[i].client_pubkey@ != client_pubkey@ by {
                            assert(pubkeys@[i]@ == connections@[i].client_pubkey@);
                        }
                    }
                    return (NwcRequestState::Done, NwcAction::Fail(e));
                },
            };
            proof {
                assert(pubkeys@[index as int]@ == connections@[index as int].client_pubkey@);
                assert(connections@[index as int].client_pubkey@ == client_pubkey@);
                assert forall|j: int| 0 <= j < index implies connections@[j].client_pubkey@ != client_pubkey@ by {
                    assert(pubkeys@[j]@ == connections@[j].client_pubkey@);
                }
                assert(!(forall|i: int| 0 <= i < connections@.len() ==> connections@[i].client_pubkey@ != client_pubkey@));
            }
            if request_expired(expiration, now) {
                return (NwcRequestState::Done, NwcAction::Fail(NostrError::EventExpired));
            }
            match signature {
                Err(err) => return (NwcRequestState::Done, NwcAction::Fail(NostrError::InvalidSignature { err })),
                Ok(()) => {},
            }
            let connection = connections[index].clone_terms();
            (NwcRequestState::Verified { connection }, NwcAction::Decrypt)
        },
        (NwcRequestState::Verified { connection }, NwcRequestInput::Decrypted(decrypted)) => match decrypted {
            Err(e) => (NwcRequestState::Done, NwcAction::Fail(e)),
            Ok(method) => {
                let is_make_invoice = match method {
                    NwcMethod::MakeInvoice => true,
                    _ => false,
                };
                if connection.receive_only && !is_make_invoice {
                    return (
                        NwcRequestState::Done,
                        NwcAction::Reply(Err(NostrError::Generic { err: String::from_str("Connection is receive-only.") })),
                    );
                }
                match method {
                    NwcMethod::PayInvoice { invoice, amount_msat } => {
                        let action = NwcAction::ReadInvoice(invoice.clone());
                        (NwcRequestState::AwaitingInvoice { connection, invoice, amount_msat }, action)
                    },
                    NwcMethod::Other { description } => (
                        NwcRequestState::Done,
                        NwcAction::Reply(Err(NostrError::Generic {
                            err: String::from_str("Received unhandled request: ").concat(description.as_str()),
                        })),
                    ),
                    _ => {
                        let action = NwcAction::CallWallet(method.clone_method());
                        (NwcRequestState::AwaitingWallet { connection, method, plan: None }, action)
                    },
                }
            },
        },
        (NwcRequestState::AwaitingInvoice { connection, invoice, amount_msat }, NwcRequestInput::InvoiceRead(read)) => match read {
            None => (
                NwcRequestState::Done,
                NwcAction::Reply(Err(NostrError::Generic {
                    err: String::from_str("Could not parse pay_invoice invoice: ").concat(invoice.as_str()),
                })),
            ),
            Some(invoice_amount) => match plan_payment(amount_msat, invoice_amount, connection.budget) {
                Err(e) => (NwcRequestState::Done, NwcAction::Reply(Err(e))),
                Ok(plan) => {
                    if plan.reserve_budget {
                        let change = budget_change_sat(&plan, false);
                        (NwcRequestState::AwaitingReservation { connection, invoice, amount_msat, plan }, NwcAction::ReserveBudget(change))
                    } else {
                        let method = NwcMethod::PayInvoice { invoice, amount_msat };
                        let action = NwcAction::CallWallet(method.clone_method());
                        (NwcRequestState::AwaitingWallet { connection, method, plan: Some(plan) }, action)
                    }
                },
            },
        },
        (NwcRequestState::AwaitingReservation { connection, invoice, amount_msat, plan }, NwcRequestInput::BudgetUpdated(updated)) => match updated {
            Err(e) => {
                let error = budget_error(&connection.name, &e, false);
                (NwcRequestState::Done, NwcAction::Reply(Err(error)))
            },
            Ok(_) => {
                let method = NwcMethod::PayInvoice { invoice, amount_msat };
                let action = NwcAction::CallWallet(method.clone_method());
                (NwcRequestState::AwaitingWallet { connection, method, plan: Some(plan) }, action)
            },
        },
        (NwcRequestState::AwaitingWallet { connection, method, plan }, NwcRequestInput::WalletAnswered(answer)) => match answer {
            Ok(response) => match method {
                NwcMethod::PayInvoice { .. } => (NwcRequestState::AwaitingRecord { response }, NwcAction::RecordPaid),
                _ => (NwcRequestState::Done, NwcAction::Reply(Ok(response))),
            },
            Err(e) => match plan {
                Some(p) => {
                    if p.reserve_budget && (p.amount_sat as i64) != i64::MIN {
                        let change = budget_change_sat(&p, true);
                        (NwcRequestState::AwaitingRefund { connection, error: e }, NwcAction::RefundBudget(change))
                    } else {
                        (NwcRequestState::Done, NwcAction::Reply(Err(e)))
                    }
                },
                None => (NwcRequestState::Done, NwcAction::Reply(Err(e))),
            },
        },
        (NwcRequestState::AwaitingRefund { connection, error }, NwcRequestInput::BudgetUpdated(updated)) => match updated {
            Ok(_) => (NwcRequestState::Done, NwcAction::Reply(Err(error))),
            Err(e) => {
                let err = budget_error(&connection.name, &e, true);
                (NwcRequestState::Done, NwcAction::Reply(Err(err)))
            },
        },
        (NwcRequestState::AwaitingRecord { response }, NwcRequestInput::PaidRecorded(recorded)) => match recorded {
            Ok(_) => (NwcRequestState::Done, NwcAction::Reply(Ok(response))),
            Err(e) => (
                NwcRequestState::Done,
                NwcAction::Reply(Err(NostrError::Persist {
                    err: String::from_str("Could not persist paid invoice: ").concat(e.message().as_str()),
                })),
            ),
        },
        _ => (NwcRequestState::Done, NwcAction::Fail(out_of_order())),
    }
}

/// Whether a request with this expiration has expired at `now`.
pub open spec fn request_expired_spec(expiration: Option<u64>, now: u64) -> bool {
    expiration matches Some(t) && t < now
}

impl ConnectionTerms {
    /// A copy of these terms.
    pub fn clone_terms(&self) -> (copy: Self)
        ensures
            copy == *self,
    {
        ConnectionTerms {
            name: self.name.clone(),
            client_pubkey: self.client_pubkey.clone(),
            receive_only: self.receive_only,
            budget: self.budget,
        }
    }
}

impl NwcMethod {
    /// A copy of this method.
    pub fn clone_method(&self) -> (copy: Self)
        ensures
            copy == *self,
    {
        match self {
            NwcMethod::PayInvoice { invoice, amount_msat } => NwcMethod::PayInvoice { invoice: invoice.clone(), amount_msat: *amount_msat },
            NwcMethod::MakeInvoice => NwcMethod::MakeInvoice,
            NwcMethod::ListTransactions => NwcMethod::ListTransactions,
            NwcMethod::GetBalance => NwcMethod::GetBalance,
            NwcMethod::GetInfo => NwcMethod::GetInfo,
            NwcMethod::Other { description } => NwcMethod::Other { description: description.clone() },
        }
    }
}

} // verus!
