use cw_mcp::envelope::{BuildError, ValidatedQuery};
use cw_mcp::server::{CwMcp, ServerTransport};

const MAINNET_ADDR: &str = "archway1msc3fa4e2mh73y760qmjd3wfkzr98nl26f36xgt2xnhuw6ay3scs42zeue";
const TESTNET_ADDR: &str = "archway1dz6h2smr432gvzruklk3lps7ak2ca7cngdge4vym93wehkkypwpqgwr2q2";

#[test]
fn registry_has_two_wellformed_entries() {
    let m = CwMcp::new();
    let listed = m.list_contract_deployments();
    let v: serde_json::Value = serde_json::from_str(&listed).unwrap();
    let entries = v.as_array().unwrap();
    assert_eq!(entries.len(), 2);
    assert_eq!(entries[0]["network"], "Mainnet");
    assert_eq!(entries[1]["network"], "Testnet");
    for e in entries {
        assert!(!e["chain_id"].as_str().unwrap().is_empty());
        assert!(!e["contract_address"].as_str().unwrap().is_empty());
    }
    assert_eq!(entries[0]["chain_id"], "archway-1");
    assert_eq!(entries[1]["chain_id"], "constantine-3");
    assert_eq!(entries[0]["contract_address"], MAINNET_ADDR);
    assert_eq!(entries[1]["contract_address"], TESTNET_ADDR);
}

#[test]
fn registry_text_is_exact() {
    let m = CwMcp::new();
    let listed = m.list_contract_deployments();
    let expected = format!(
        "[{{\"network\":\"Mainnet\",\"chain_id\":\"archway-1\",\"contract_address\":\"{}\"}},\
         {{\"network\":\"Testnet\",\"chain_id\":\"constantine-3\",\"contract_address\":\"{}\"}}]",
        MAINNET_ADDR, TESTNET_ADDR
    );
    assert_eq!(listed, expected);
}

#[test]
fn default_is_the_fixed_registry() {
    let d = CwMcp::default();
    let n = CwMcp::new();
    assert_eq!(d.list_contract_deployments(), n.list_contract_deployments());
}

#[test]
fn schemas_are_valid_json_and_stable() {
    let m = CwMcp::new();
    let q1 = m.list_query_entry_points();
    let q2 = m.list_query_entry_points();
    let t1 = m.list_tx_entry_points();
    let t2 = m.list_tx_entry_points();
    assert!(serde_json::from_str::<serde_json::Value>(&q1).is_ok());
    assert!(serde_json::from_str::<serde_json::Value>(&t1).is_ok());
    assert_eq!(q1, q2);
    assert_eq!(t1, t2);
    assert!(q1.contains("balance"));
    assert!(t1.contains("transfer"));
}

#[test]
fn query_envelope_holds_addr_and_canonical_msg() {
    let m = CwMcp::new();
    let payload = "{\"balance\":{\"address\":\"archway1viewer\"}}";
    let r = m
        .build_query_msg(MAINNET_ADDR.to_string(), payload.to_string())
        .unwrap();
    assert_eq!(r.query_msg, payload);
    let v: serde_json::Value = serde_json::from_str(&r.query_request).unwrap();
    let smart = &v["wasm"]["smart"];
    assert_eq!(smart["contract_addr"], MAINNET_ADDR);
    let parsed: cw20_wrap::msg::QueryMsg = serde_json::from_str(payload).unwrap();
    let canonical = cosmwasm_std::to_json_binary(&parsed).unwrap();
    assert_eq!(smart["msg"], canonical.to_base64());
    // the whole envelope text agrees with the chain library's own serialization
    let req: cosmwasm_std::QueryRequest<cosmwasm_std::Empty> =
        cosmwasm_std::QueryRequest::Wasm(cosmwasm_std::WasmQuery::Smart {
            contract_addr: MAINNET_ADDR.to_string(),
            msg: canonical,
        });
    assert_eq!(r.query_request, serde_json::to_string(&req).unwrap());
}

#[test]
fn query_payload_is_canonicalized_not_copied() {
    let m = CwMcp::new();
    let spaced = "{ \"balance\" : { \"address\" : \"archway1viewer\" } }";
    let r = m
        .build_query_msg(MAINNET_ADDR.to_string(), spaced.to_string())
        .unwrap();
    let v: serde_json::Value = serde_json::from_str(&r.query_request).unwrap();
    let b64 = v["wasm"]["smart"]["msg"].as_str().unwrap();
    let bytes = cosmwasm_std::Binary::from_base64(b64).unwrap();
    assert_eq!(
        bytes.as_slice(),
        "{\"balance\":{\"address\":\"archway1viewer\"}}".as_bytes()
    );
}

#[test]
fn malformed_json_gives_error_result() {
    let m = CwMcp::new();
    let r = m.build_query_msg(MAINNET_ADDR.to_string(), "{not json".to_string());
    match r {
        Err(BuildError::PayloadParse(msg)) => assert!(!msg.is_empty()),
        _ => panic!("expected a payload parse error"),
    }
    let r = m.build_execute_msg(
        MAINNET_ADDR.to_string(),
        "{not json".to_string(),
        None,
        None,
    );
    match r {
        Err(BuildError::PayloadParse(msg)) => assert!(!msg.is_empty()),
        _ => panic!("expected a payload parse error"),
    }
}

#[test]
fn rejected_payloads_give_identical_output_on_every_call() {
    let m = CwMcp::new();
    let first = m.build_query_msg(MAINNET_ADDR.to_string(), "{not json".to_string());
    let second = m.build_query_msg(MAINNET_ADDR.to_string(), "{not json".to_string());
    match (first, second) {
        (Err(BuildError::PayloadParse(a)), Err(BuildError::PayloadParse(b))) => assert_eq!(a, b),
        _ => panic!("expected two identical payload parse errors"),
    }
    let first = m.build_execute_msg(
        MAINNET_ADDR.to_string(),
        "{\"no_such_action\":{}}".to_string(),
        None,
        None,
    );
    let second = m.build_execute_msg(
        MAINNET_ADDR.to_string(),
        "{\"no_such_action\":{}}".to_string(),
        None,
        None,
    );
    match (first, second) {
        (Err(BuildError::PayloadParse(a)), Err(BuildError::PayloadParse(b))) => assert_eq!(a, b),
        _ => panic!("expected two identical payload parse errors"),
    }
}

#[test]
fn unknown_variant_gives_error_result() {
    let m = CwMcp::new();
    let r = m.build_query_msg(
        MAINNET_ADDR.to_string(),
        "{\"no_such_query\":{}}".to_string(),
    );
    assert!(r.is_err());
}

#[test]
fn execute_without_payment_has_empty_funds() {
    let m = CwMcp::new();
    let payload = "{\"deposit\":{}}";
    let r = m
        .build_execute_msg(MAINNET_ADDR.to_string(), payload.to_string(), None, None)
        .unwrap();
    assert_eq!(r.execute_msg, payload);
    let v: serde_json::Value = serde_json::from_str(&r.cosmos_msg).unwrap();
    let funds = v["wasm"]["execute"]["funds"].as_array().unwrap();
    assert!(funds.is_empty());
    // the whole envelope text agrees with the chain library's own serialization
    let parsed: cw20_wrap::msg::ExecuteMsg = serde_json::from_str(payload).unwrap();
    let env: cosmwasm_std::CosmosMsg = cosmwasm_std::CosmosMsg::Wasm(cosmwasm_std::WasmMsg::Execute {
        contract_addr: MAINNET_ADDR.to_string(),
        msg: cosmwasm_std::to_json_binary(&parsed).unwrap(),
        funds: vec![],
    });
    assert_eq!(r.cosmos_msg, serde_json::to_string(&env).unwrap());
}

#[test]
fn execute_with_payment_has_one_funds_entry() {
    let m = CwMcp::new();
    let payload = "{\"withdraw\":{\"amount\":\"250\"}}";
    let r = m
        .build_execute_msg(
            MAINNET_ADDR.to_string(),
            payload.to_string(),
            Some("100".to_string()),
            Some("uarch".to_string()),
        )
        .unwrap();
    let v: serde_json::Value = serde_json::from_str(&r.cosmos_msg).unwrap();
    let funds = v["wasm"]["execute"]["funds"].as_array().unwrap();
    assert_eq!(funds.len(), 1);
    assert_eq!(funds[0]["amount"], "100");
    assert_eq!(funds[0]["denom"], "uarch");
}

#[test]
fn partial_payment_pair_means_no_funds() {
    let m = CwMcp::new();
    let payload = "{\"deposit\":{}}";
    let r = m
        .build_execute_msg(
            MAINNET_ADDR.to_string(),
            payload.to_string(),
            Some("100".to_string()),
            None,
        )
        .unwrap();
    let v: serde_json::Value = serde_json::from_str(&r.cosmos_msg).unwrap();
    assert!(v["wasm"]["execute"]["funds"].as_array().unwrap().is_empty());
    let r = m
        .build_execute_msg(
            MAINNET_ADDR.to_string(),
            payload.to_string(),
            None,
            Some("uarch".to_string()),
        )
        .unwrap();
    let v: serde_json::Value = serde_json::from_str(&r.cosmos_msg).unwrap();
    assert!(v["wasm"]["execute"]["funds"].as_array().unwrap().is_empty());
}

#[test]
fn unparsable_payment_amount_is_a_hard_error() {
    let m = CwMcp::new();
    let r = m.build_execute_msg(
        MAINNET_ADDR.to_string(),
        "{\"deposit\":{}}".to_string(),
        Some("not-a-number".to_string()),
        Some("uarch".to_string()),
    );
    match r {
        Err(BuildError::PaymentParse(msg)) => assert_eq!(msg, "Invalid payment amount"),
        _ => panic!("expected a payment parse error"),
    }
}

#[test]
fn result_documents_escape_like_json() {
    let m = CwMcp::new();
    let payload = "{\"balance\":{\"address\":\"archway1viewer\"}}";
    let r = m
        .build_query_msg(TESTNET_ADDR.to_string(), payload.to_string())
        .unwrap();
    let text = r.to_json_text();
    let expected = format!(
        "{{\"query_msg\":{},\"query_request\":{}}}",
        serde_json::to_string(&r.query_msg).unwrap(),
        serde_json::to_string(&r.query_request).unwrap()
    );
    assert_eq!(text, expected);
    let v: serde_json::Value = serde_json::from_str(&text).unwrap();
    assert_eq!(v["query_msg"], payload);
}

#[test]
fn result_documents_escape_control_characters() {
    let vq = ValidatedQuery {
        query_msg: "a\"b\\c\nd\te\u{1}f\u{1f}g".to_string(),
        query_request: "plain".to_string(),
    };
    let text = vq.to_json_text();
    let expected = format!(
        "{{\"query_msg\":{},\"query_request\":{}}}",
        serde_json::to_string(&vq.query_msg).unwrap(),
        serde_json::to_string(&vq.query_request).unwrap()
    );
    assert_eq!(text, expected);
}

#[test]
fn execute_document_field_order_is_kept() {
    let m = CwMcp::new();
    let r = m
        .build_execute_msg(
            TESTNET_ADDR.to_string(),
            "{\"deposit\":{}}".to_string(),
            None,
            None,
        )
        .unwrap();
    let text = r.to_json_text();
    let expected = format!(
        "{{\"execute_msg\":{},\"cosmos_msg\":{}}}",
        serde_json::to_string(&r.execute_msg).unwrap(),
        serde_json::to_string(&r.cosmos_msg).unwrap()
    );
    assert_eq!(text, expected);
}

#[test]
fn transport_choices_are_distinct() {
    let choices = [
        ServerTransport::Stdio,
        ServerTransport::Sse,
        ServerTransport::StreamableHttp,
    ];
    for (i, a) in choices.iter().enumerate() {
        for (j, b) in choices.iter().enumerate() {
            assert_eq!(*a == *b, i == j);
        }
    }
}

#[test]
fn error_messages_are_exposed() {
    let e = BuildError::PaymentParse("Invalid payment amount".to_string());
    assert_eq!(e.message(), "Invalid payment amount");
    let e = BuildError::EnvelopeSerialization("Error wrapping QueryMsg as QueryRequest".to_string());
    assert_eq!(e.message(), "Error wrapping QueryMsg as QueryRequest");
}
