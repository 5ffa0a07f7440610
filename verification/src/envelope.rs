//! Envelope building.
//!
//! A validated payload is wrapped into the outer envelope a chain node
//! expects: a smart-query wrapper for the query grammar, an execute
//! wrapper (with optional funds) for the execute grammar. The exact
//! JSON text of each envelope is pinned down by the spec templates
//! here; the serialization itself goes through trusted wrappers around
//! the chain library's types.

use cosmwasm_std::{Binary, Coin, CosmosMsg, Empty, QueryRequest, Uint256, WasmMsg, WasmQuery};

use crate::json_text::{json_quote, json_quote_str};
use crate::numeric::{dec_str_of, parse_u128_dec, u128_parse_ok, u128_parse_val};
use vstd::prelude::*;
use vstd::string::*;

verus! {

/// The base64 rendering (standard alphabet, with padding) of a byte
/// string, as the chain library's binary type serializes it: identical
/// bytes always render identically, and the rendering holds no
/// character that JSON string escaping would replace.
pub uninterp spec fn b64_of(b: Seq<u8>) -> Seq<char>;

/// A native payment: an amount of a native denomination, attached to
/// an execute envelope as its single funds entry.
pub struct Payment {
    pub denom: String,
    pub amount: u128,
}

/// Why building an envelope failed.
#[derive(Debug)]
pub enum BuildError {
    /// The raw payload does not parse as the target grammar; holds the
    /// parser's description of the failure.
    PayloadParse(String),
    /// A constructed envelope could not be serialized back to text;
    /// holds the fixed user-visible diagnostic.
    EnvelopeSerialization(String),
    /// A payment amount was supplied but is not a valid decimal
    /// amount; holds the fixed user-visible diagnostic.
    PaymentParse(String),
}

impl BuildError {
    pub open spec fn text(&self) -> Seq<char> {
        match self {
            BuildError::PayloadParse(m) => m@,
            BuildError::EnvelopeSerialization(m) => m@,
            BuildError::PaymentParse(m) => m@,
        }
    }

    /// The user-visible diagnostic text of this error.
    pub fn message(&self) -> (r: &str)
        ensures
            r@ == self.text(),
    {
        match self {
            BuildError::PayloadParse(m) => m.as_str(),
            BuildError::EnvelopeSerialization(m) => m.as_str(),
            BuildError::PaymentParse(m) => m.as_str(),
        }
    }
}

/// The JSON text of one funds entry, as the chain library's coin type
/// serializes: the denomination, then the amount as a decimal string.
pub open spec fn coin_json(p: Payment) -> Seq<char> {
    "{\"denom\":"@ + json_quote(p.denom@) + ",\"amount\":\""@ + dec_str_of(
        p.amount as nat,
    ) + "\"}"@
}

/// The JSON text of the funds list: empty, or exactly one entry.
pub open spec fn funds_json(f: Option<Payment>) -> Seq<char> {
    match f {
        Option::None => "[]"@,
        Option::Some(p) => "["@ + coin_json(p) + "]"@,
    }
}

/// The JSON text of the outer query envelope: a smart-contract query
/// wrapper holding the contract address and the base64 of the
/// canonically encoded payload.
pub open spec fn query_envelope_json(addr: Seq<char>, b64: Seq<char>) -> Seq<char> {
    "{\"wasm\":{\"smart\":{\"contract_addr\":"@ + json_quote(addr) + ",\"msg\":\""@ + b64
        + "\"}}}"@
}

/// The JSON text of the outer execute envelope: an execute wrapper
/// holding the contract address, the base64 of the canonically encoded
/// payload, and the funds list.
pub open spec fn execute_envelope_json(addr: Seq<char>, b64: Seq<char>, f: Option<Payment>) -> Seq<
    char,
> {
    "{\"wasm\":{\"execute\":{\"contract_addr\":"@ + json_quote(addr) + ",\"msg\":\""@ + b64
        + "\",\"funds\":"@ + funds_json(f) + "}}}"@
}

/// Relies on serde_json::to_string applied to cosmwasm_std's
/// QueryRequest: the smart query envelope serializes compactly as
/// {"wasm":{"smart":{"contract_addr":<addr>,"msg":<base64>}}}, the
/// address escaped as compact JSON escapes strings and the payload in
/// standard base64 with padding; for this shape (strings and bytes
/// only) serialization cannot fail.
#[verifier::external_body]
pub(crate) fn serialize_query_envelope(contract_addr: &str, msg: &Vec<u8>) -> (r: Result<
    String,
    String,
>)
    ensures
        r is Ok,
        r matches Ok(t) ==> t@ == query_envelope_json(contract_addr@, b64_of(msg@)),
{
    let req = QueryRequest::<Empty>::Wasm(WasmQuery::Smart {
        contract_addr: contract_addr.to_string(),
        msg: Binary::from(msg.clone()),
    });
    match serde_json::to_string(&req) {
        Ok(t) => Ok(t),
        Err(e) => Err(e.to_string()),
    }
}

/// Relies on serde_json::to_string applied to cosmwasm_std's
/// CosmosMsg: the execute envelope serializes compactly as
/// {"wasm":{"execute":{"contract_addr":<addr>,"msg":<base64>,
/// "funds":<coins>}}}, each coin as {"denom":<denom>,"amount":<decimal
/// string>}; for this shape serialization cannot fail.
#[verifier::external_body]
pub(crate) fn serialize_execute_envelope(
    contract_addr: &str,
    msg: &Vec<u8>,
    funds: &Option<Payment>,
) -> (r: Result<String, String>)
    ensures
        r is Ok,
        r matches Ok(t) ==> t@ == execute_envelope_json(contract_addr@, b64_of(msg@), *funds),
{
    let coins: Vec<Coin> = match funds {
        Some(p) => vec![Coin { denom: p.denom.clone(), amount: Uint256::from(p.amount) }],
        None => vec![],
    };
    let env = CosmosMsg::<Empty>::Wasm(WasmMsg::Execute {
        contract_addr: contract_addr.to_string(),
        msg: Binary::from(msg.clone()),
        funds: coins,
    });
    match serde_json::to_string(&env) {
        Ok(t) => Ok(t),
        Err(e) => Err(e.to_string()),
    }
}

/// Resolves the optional payment pair into the funds to attach: both
/// fields present with a valid decimal amount give one funds entry; a
/// partial pair (either field absent) is treated as no payment; an
/// amount that is supplied but does not parse is a hard error.
pub fn resolve_funds(payment: Option<String>, payment_denom: Option<String>) -> (r: Result<
    Option<Payment>,
    BuildError,
>)
    ensures
        payment is None || payment_denom is None ==> (r matches Ok(f) && f is None),
        payment matches Some(a) ==> payment_denom matches Some(d) ==> u128_parse_ok(a@) ==> (r
            matches Ok(f) && f matches Some(p) && p.denom@ == d@ && p.amount as nat
            == u128_parse_val(a@)),
        payment matches Some(a) ==> payment_denom is Some ==> !u128_parse_ok(a@) ==> (r matches Err(
            e,
        ) && e matches BuildError::PaymentParse(m) && m@ == "Invalid payment amount"@),
{
    match (payment, payment_denom) {
        (Some(a), Some(d)) => {
            match parse_u128_dec(a.as_str()) {
                Some(v) => Ok(Some(Payment { denom: d, amount: v })),
                None => Err(
                    BuildError::PaymentParse(String::from_str("Invalid payment amount")),
                ),
            }
        },
        _ => Ok(None),
    }
}

/// A validated query payload next to the serialized envelope built
/// from it: the caller can show both the intent and the wire form.
pub struct ValidatedQuery {
    pub query_msg: String,
    pub query_request: String,
}

/// The JSON text of a ValidatedQuery result document.
pub open spec fn validated_query_json(m: Seq<char>, q: Seq<char>) -> Seq<char> {
    "{\"query_msg\":"@ + json_quote(m) + ",\"query_request\":"@ + json_quote(q) + "}"@
}

impl ValidatedQuery {
    /// Renders this result as compact JSON text.
    pub fn to_json_text(&self) -> (r: String)
        ensures
            r@ == validated_query_json(self.query_msg@, self.query_request@),
    {
        let mut out = String::from_str("{\"query_msg\":");
        let q1 = json_quote_str(self.query_msg.as_str());
        out.append(q1.as_str());
        out.append(",\"query_request\":");
        let q2 = json_quote_str(self.query_request.as_str());
        out.append(q2.as_str());
        out.append("}");
        proof {
            assert(out@ =~= validated_query_json(self.query_msg@, self.query_request@));
        }
        out
    }
}

/// A validated execute payload next to the serialized envelope built
/// from it.
pub struct ValidatedExecute {
    pub execute_msg: String,
    pub cosmos_msg: String,
}

/// The JSON text of a ValidatedExecute result document.
pub open spec fn validated_execute_json(m: Seq<char>, c: Seq<char>) -> Seq<char> {
    "{\"execute_msg\":"@ + json_quote(m) + ",\"cosmos_msg\":"@ + json_quote(c) + "}"@
}

impl ValidatedExecute {
    /// Renders this result as compact JSON text.
    pub fn to_json_text(&self) -> (r: String)
        ensures
            r@ == validated_execute_json(self.execute_msg@, self.cosmos_msg@),
    {
        let mut out = String::from_str("{\"execute_msg\":");
        let q1 = json_quote_str(self.execute_msg.as_str());
        out.append(q1.as_str());
        out.append(",\"cosmos_msg\":");
        let q2 = json_quote_str(self.cosmos_msg.as_str());
        out.append(q2.as_str());
        out.append("}");
        proof {
            assert(out@ =~= validated_execute_json(self.execute_msg@, self.cosmos_msg@));
        }
        out
    }
}

} // verus!
