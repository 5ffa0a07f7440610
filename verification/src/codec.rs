//! Grammar validation and canonical encoding.
//!
//! The contract's two message grammars (the read-only query grammar
//! and the state-mutating execute grammar) are externally defined
//! tagged unions; whether a JSON payload is a well-formed instance of a
//! grammar, and what its canonical binary encoding is, are decided by
//! the grammar's own parser and encoder. Both are deterministic
//! functions of the payload text, named here by uninterpreted spec
//! functions; the trusted wrappers below tie those names to the
//! outside calls.

use vstd::prelude::*;

verus! {

/// Whether the text parses as an instance of the query grammar.
pub uninterp spec fn query_accepts(s: Seq<char>) -> bool;

/// The canonical binary encoding of the query payload held in the
/// text: identical texts always encode to identical bytes.
pub uninterp spec fn query_canon(s: Seq<char>) -> Seq<u8>;

/// The parser's description of why the query grammar rejects the
/// text: a deterministic function of the text alone.
pub uninterp spec fn query_reject_text(s: Seq<char>) -> Seq<char>;

/// Whether the text parses as an instance of the execute grammar.
pub uninterp spec fn execute_accepts(s: Seq<char>) -> bool;

/// The canonical binary encoding of the execute payload held in the
/// text: identical texts always encode to identical bytes.
pub uninterp spec fn execute_canon(s: Seq<char>) -> Seq<u8>;

/// The parser's description of why the execute grammar rejects the
/// text: a deterministic function of the text alone.
pub uninterp spec fn execute_reject_text(s: Seq<char>) -> Seq<char>;

/// The structural JSON Schema document of a grammar (the query grammar
/// for `true`, the execute grammar for `false`): a fixed function of
/// the static grammar definition, identical on every call.
pub uninterp spec fn schema_text_of(is_query: bool) -> Seq<char>;

/// Relies on serde_json::from_str for the contract's QueryMsg grammar
/// and on cosmwasm_std::to_json_binary for the canonical encoding:
/// both are deterministic in the payload text alone, and encoding a
/// successfully parsed message cannot fail (the message variants hold
/// only strings, integers and byte blobs, with no fallible
/// serialization and no non-string map keys), so the call returns Ok
/// exactly when the text parses. The parse error's description
/// (serde_json::Error's Display) is likewise a function of the text
/// alone.
#[verifier::external_body]
pub(crate) fn parse_and_encode_query(s: &str) -> (r: Result<Vec<u8>, String>)
    ensures
        r is Ok <==> query_accepts(s@),
        r matches Ok(b) ==> b@ == query_canon(s@),
        r matches Err(m) ==> m@ == query_reject_text(s@),
{
    match serde_json::from_str::<cw20_wrap::msg::QueryMsg>(s) {
        Ok(m) => match cosmwasm_std::to_json_binary(&m) {
            Ok(b) => Ok(b.to_vec()),
            Err(e) => Err(e.to_string()),
        },
        Err(e) => Err(e.to_string()),
    }
}

/// Relies on serde_json::from_str for the contract's ExecuteMsg
/// grammar and on cosmwasm_std::to_json_binary, exactly as the query
/// counterpart above.
#[verifier::external_body]
pub(crate) fn parse_and_encode_execute(s: &str) -> (r: Result<Vec<u8>, String>)
    ensures
        r is Ok <==> execute_accepts(s@),
        r matches Ok(b) ==> b@ == execute_canon(s@),
        r matches Err(m) ==> m@ == execute_reject_text(s@),
{
    match serde_json::from_str::<cw20_wrap::msg::ExecuteMsg>(s) {
        Ok(m) => match cosmwasm_std::to_json_binary(&m) {
            Ok(b) => Ok(b.to_vec()),
            Err(e) => Err(e.to_string()),
        },
        Err(e) => Err(e.to_string()),
    }
}

/// Relies on schemars' SchemaGenerator and serde_json::to_string: the
/// structural JSON Schema document of the query grammar is a pure
/// function of the static grammar definition, identical on every
/// call; and since the schema value holds only string-keyed maps and
/// derived, infallible Serialize impls, serialization cannot fail.
#[verifier::external_body]
pub(crate) fn query_schema_text() -> (r: Result<String, String>)
    ensures
        r is Ok,
        r matches Ok(t) ==> t@ == schema_text_of(true),
{
    let schema = schemars::gen::SchemaGenerator::default()
        .into_root_schema_for::<cw20_wrap::msg::QueryMsg>();
    match serde_json::to_string(&schema) {
        Ok(t) => Ok(t),
        Err(e) => Err(e.to_string()),
    }
}

/// Relies on schemars' SchemaGenerator and serde_json::to_string: the
/// structural JSON Schema document of the execute grammar, exactly as
/// the query counterpart above.
#[verifier::external_body]
pub(crate) fn execute_schema_text() -> (r: Result<String, String>)
    ensures
        r is Ok,
        r matches Ok(t) ==> t@ == schema_text_of(false),
{
    let schema = schemars::gen::SchemaGenerator::default()
        .into_root_schema_for::<cw20_wrap::msg::ExecuteMsg>();
    match serde_json::to_string(&schema) {
        Ok(t) => Ok(t),
        Err(e) => Err(e.to_string()),
    }
}

} // verus!
