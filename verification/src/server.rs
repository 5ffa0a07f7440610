//! The contract tool server.
//!
//! `CwMcp` holds the fixed deployment registry and offers the named
//! operations the tool layer exposes: listing deployments, listing the
//! grammars' structural schemas, and building query and execute
//! envelopes from raw JSON payloads.

use crate::codec::{
    execute_accepts, execute_canon, execute_reject_text, execute_schema_text,
    parse_and_encode_execute, parse_and_encode_query, query_accepts, query_canon,
    query_reject_text, query_schema_text, schema_text_of,
};
use crate::envelope::{
    b64_of, execute_envelope_json, query_envelope_json, resolve_funds, serialize_execute_envelope,
    serialize_query_envelope, BuildError, Payment, ValidatedExecute, ValidatedQuery,
};
use crate::json_text::{json_quote, json_quote_str};
use crate::numeric::{u128_parse_ok, u128_parse_val};
use vstd::prelude::*;
use vstd::string::*;

verus! {

/// How the surrounding process talks to its caller; the choice is made
/// at startup, outside this core.
#[derive(Clone, Copy, Debug, PartialEq, Eq, Structural)]
pub enum ServerTransport {
    Stdio,
    Sse,
    StreamableHttp,
}

/// A supported network.
#[derive(Clone, Copy, Debug, PartialEq, Eq, Structural)]
pub enum Network {
    Mainnet,
    Testnet,
}

/// A known deployment of the contract: network, chain identifier and
/// contract address.
#[derive(Clone, Debug)]
pub struct CwContract {
    pub network: Network,
    pub chain_id: String,
    pub contract_address: String,
}

/// The tool server: a fixed registry of one deployment per supported
/// network, constructed once and never mutated.
pub struct CwMcp {
    pub contracts: Vec<CwContract>,
}

/// The JSON rendering of a network name.
pub open spec fn network_json(n: Network) -> Seq<char> {
    match n {
        Network::Mainnet => "\"Mainnet\""@,
        Network::Testnet => "\"Testnet\""@,
    }
}

/// The JSON rendering of one deployment entry.
pub open spec fn contract_json(c: CwContract) -> Seq<char> {
    "{\"network\":"@ + network_json(c.network) + ",\"chain_id\":"@ + json_quote(c.chain_id@)
        + ",\"contract_address\":"@ + json_quote(c.contract_address@) + "}"@
}

/// The JSON rendering of the two-entry deployment registry.
pub open spec fn registry_json(contracts: Seq<CwContract>) -> Seq<char>
    recommends
        contracts.len() == 2,
{
    "["@ + contract_json(contracts[0]) + ","@ + contract_json(contracts[1]) + "]"@
}

impl CwMcp {
    /// The registry invariant: exactly one deployment per supported
    /// network, with the fixed chain identifiers and contract
    /// addresses of the known deployments.
    pub open spec fn wf(&self) -> bool {
        &&& self.contracts@.len() == 2
        &&& self.contracts@[0].network == Network::Mainnet
        &&& self.contracts@[0].chain_id@ == "archway-1"@
        &&& self.contracts@[0].contract_address@
            == "archway1msc3fa4e2mh73y760qmjd3wfkzr98nl26f36xgt2xnhuw6ay3scs42zeue"@
        &&& self.contracts@[1].network == Network::Testnet
        &&& self.contracts@[1].chain_id@ == "constantine-3"@
        &&& self.contracts@[1].contract_address@
            == "archway1dz6h2smr432gvzruklk3lps7ak2ca7cngdge4vym93wehkkypwpqgwr2q2"@
    }

    /// Builds the registry with its two fixed deployments.
    pub fn new() -> (r: Self)
        ensures
            r.wf(),
    {
        let contracts: Vec<CwContract> = vec![
            CwContract {
                network: Network::Mainnet,
                chain_id: String::from_str("archway-1"),
                contract_address: String::from_str(
                    "archway1msc3fa4e2mh73y760qmjd3wfkzr98nl26f36xgt2xnhuw6ay3scs42zeue",
                ),
            },
            CwContract {
                network: Network::Testnet,
                chain_id: String::from_str("constantine-3"),
                contract_address: String::from_str(
                    "archway1dz6h2smr432gvzruklk3lps7ak2ca7cngdge4vym93wehkkypwpqgwr2q2",
                ),
            },
        ];
        CwMcp { contracts }
    }

    /// Lists the deployed contracts as a JSON array: always exactly
    /// the two registry entries, rendered in order.
    pub fn list_contract_deployments(&self) -> (r: String)
        requires
            self.wf(),
        ensures
            r@ == registry_json(self.contracts@),
    {
        let mut out = String::from_str("[");
        let r0 = render_contract(&self.contracts[0]);
        out.append(r0.as_str());
        out.append(",");
        let r1 = render_contract(&self.contracts[1]);
        out.append(r1.as_str());
        out.append("]");
        proof {
            assert(out@ =~= registry_json(self.contracts@));
        }
        out
    }

    /// Lists the query grammar's entry points: always the structural
    /// JSON Schema document of the query grammar, a fixed function of
    /// the static grammar definition. A serialization failure would
    /// degrade to the empty string, but the schema document always
    /// serializes.
    pub fn list_query_entry_points(&self) -> (r: String)
        ensures
            r@ == schema_text_of(true),
    {
        match query_schema_text() {
            Ok(t) => t,
            Err(_) => String::new(),
        }
    }

    /// Lists the execute grammar's entry points: always the structural
    /// JSON Schema document of the execute grammar, as above.
    pub fn list_tx_entry_points(&self) -> (r: String)
        ensures
            r@ == schema_text_of(false),
    {
        match execute_schema_text() {
            Ok(t) => t,
            Err(_) => String::new(),
        }
    }

    /// Validates a raw query payload against the query grammar and
    /// wraps it into the outer query envelope: succeeds exactly on
    /// payloads the grammar accepts, and then returns the original
    /// payload next to the serialized envelope holding the given
    /// address and the canonical encoding of the payload.
    pub fn build_query_msg(&self, contract_addr: String, query_msg: String) -> (r: Result<
        ValidatedQuery,
        BuildError,
    >)
        ensures
            r is Ok <==> query_accepts(query_msg@),
            r matches Ok(v) ==> v.query_msg@ == query_msg@ && v.query_request@
                == query_envelope_json(contract_addr@, b64_of(query_canon(query_msg@))),
            r matches Err(e) ==> (e matches BuildError::PayloadParse(m) && m@ == query_reject_text(
                query_msg@,
            )),
    {
        match parse_and_encode_query(query_msg.as_str()) {
            Err(m) => Err(BuildError::PayloadParse(m)),
            Ok(encoded) => match serialize_query_envelope(contract_addr.as_str(), &encoded) {
                Err(_) => Err(
                    BuildError::EnvelopeSerialization(
                        String::from_str("Error wrapping QueryMsg as QueryRequest"),
                    ),
                ),
                Ok(text) => Ok(ValidatedQuery { query_msg, query_request: text }),
            },
        }
    }

    /// Validates a raw execute payload against the execute grammar and
    /// wraps it into the outer execute envelope. The optional payment
    /// pair is resolved first: a partial pair means no funds, a
    /// supplied but invalid amount is a hard error, and a valid pair
    /// becomes the envelope's single funds entry. With the funds
    /// resolved, success is decided exactly by whether the grammar
    /// accepts the payload.
    pub fn build_execute_msg(
        &self,
        contract_addr: String,
        execute_msg: String,
        payment: Option<String>,
        payment_denom: Option<String>,
    ) -> (r: Result<ValidatedExecute, BuildError>)
        ensures
            payment matches Some(a) ==> payment_denom is Some ==> !u128_parse_ok(a@) ==> (r
                matches Err(e) && e is PaymentParse),
            r matches Err(e) ==> e is PaymentParse ==> (payment matches Some(a) && payment_denom
                is Some && !u128_parse_ok(a@)),
            payment is None || payment_denom is None ==> (r is Ok <==> execute_accepts(
                execute_msg@,
            )),
            payment matches Some(a) ==> payment_denom is Some ==> u128_parse_ok(a@) ==> (r is Ok
                <==> execute_accepts(execute_msg@)),
            r matches Err(e) ==> e is PayloadParse || e is PaymentParse,
            r matches Err(e) ==> e is PayloadParse ==> !execute_accepts(execute_msg@),
            r matches Err(e) ==> e matches BuildError::PayloadParse(m) ==> m@
                == execute_reject_text(execute_msg@),
            r matches Err(e) ==> e matches BuildError::PaymentParse(m) ==> m@
                == "Invalid payment amount"@,
            r matches Ok(v) ==> execute_accepts(execute_msg@) && v.execute_msg@ == execute_msg@,
            r matches Ok(v) ==> payment is None || payment_denom is None ==> v.cosmos_msg@
                == execute_envelope_json(
                contract_addr@,
                b64_of(execute_canon(execute_msg@)),
                None::<Payment>,
            ),
            r matches Ok(v) ==> payment matches Some(a) ==> payment_denom matches Some(d) ==> (
            exists|p: Payment|
                #![auto]
                p.denom@ == d@ && p.amount as nat == u128_parse_val(a@) && v.cosmos_msg@
                    == execute_envelope_json(
                    contract_addr@,
                    b64_of(execute_canon(execute_msg@)),
                    Some(p),
                )),
    {
        let funds = match resolve_funds(payment, payment_denom) {
            Err(e) => {
                return Err(e);
            },
            Ok(f) => f,
        };
        match parse_and_encode_execute(execute_msg.as_str()) {
            Err(m) => Err(BuildError::PayloadParse(m)),
            Ok(encoded) => match serialize_execute_envelope(
                contract_addr.as_str(),
                &encoded,
                &funds,
            ) {
                Err(_) => Err(
                    BuildError::EnvelopeSerialization(
                        String::from_str("Error wrapping ExecuteMsg as CosmosMsg"),
                    ),
                ),
                Ok(text) => Ok(ValidatedExecute { execute_msg, cosmos_msg: text }),
            },
        }
    }
}

impl Default for CwMcp {
    /// The default server is the fixed registry.
    fn default() -> (r: Self)
        ensures
            r.wf(),
    {
        CwMcp::new()
    }
}

/// Renders one deployment entry as compact JSON text.
fn render_contract(c: &CwContract) -> (r: String)
    ensures
        r@ == contract_json(*c),
{
    let mut out = String::from_str("{\"network\":");
    match c.network {
        Network::Mainnet => out.append("\"Mainnet\""),
        Network::Testnet => out.append("\"Testnet\""),
    }
    out.append(",\"chain_id\":");
    let q1 = json_quote_str(c.chain_id.as_str());
    out.append(q1.as_str());
    out.append(",\"contract_address\":");
    let q2 = json_quote_str(c.contract_address.as_str());
    out.append(q2.as_str());
    out.append("}");
    proof {
        assert(out@ =~= contract_json(*c));
    }
    out
}

/// The registry law: the listing always covers exactly the two
/// supported networks, in order, each with a non-empty chain
/// identifier and a non-empty contract address.
pub proof fn lemma_registry_shape(m: &CwMcp)
    requires
        m.wf(),
    ensures
        m.contracts@.len() == 2,
        m.contracts@[0].network == Network::Mainnet,
        m.contracts@[1].network == Network::Testnet,
        forall|i: int|
            0 <= i < 2 ==> (#[trigger] m.contracts@[i]).chain_id@.len() > 0
                && m.contracts@[i].contract_address@.len() > 0,
{
    reveal_strlit("archway-1");
    reveal_strlit("constantine-3");
    reveal_strlit("archway1msc3fa4e2mh73y760qmjd3wfkzr98nl26f36xgt2xnhuw6ay3scs42zeue");
    reveal_strlit("archway1dz6h2smr432gvzruklk3lps7ak2ca7cngdge4vym93wehkkypwpqgwr2q2");
}

} // verus!
