use engine_relay::canonical::CANONICAL_ID;
use engine_relay::text::Fragment;
use engine_relay::types::{
    clone_configurations, clone_optional, clone_strings, clone_withdrawals,
    exchangeTransitionConfigurationV1,
    fcu_pair, forkchoiceUpdatedV1Response, forkchoiceUpdatedV1ResponseResult, forkchoiceUpdatedV2,
    newPayloadV1Response, newPayloadV2, payloadStatusV1, ExecutionPayloadV2, ExecutionStatus,
    ForkchoiceStateV1, PayloadAttributesV2, TransitionConfigurationV1, WithdrawalV1,
};
use engine_relay::wire::{lay_out_configurations, lay_out_withdrawals};

fn hash(byte: &str) -> String {
    format!("0x{}", byte.repeat(32))
}

fn state(byte: &str) -> ForkchoiceStateV1 {
    ForkchoiceStateV1 {
        headBlockHash: hash(byte),
        safeBlockHash: hash(byte),
        finalizedBlockHash: hash(byte),
    }
}

fn withdrawal(n: u8) -> WithdrawalV1 {
    WithdrawalV1 {
        index: format!("0x{:x}", n),
        validatorIndex: format!("0x{:x}", 100 + n as u32),
        address: format!("0x{}", "cd".repeat(20)),
        amount: format!("0x{:x}", 1000 * n as u32),
    }
}

fn attributes(withdrawals: Option<Vec<WithdrawalV1>>) -> PayloadAttributesV2 {
    PayloadAttributesV2 {
        timestamp: String::from("0x64"),
        prevRandao: hash("11"),
        suggestedFeeRecipient: format!("0x{}", "22".repeat(20)),
        withdrawals,
    }
}

fn request(id: u64, byte: &str, attrs: Option<PayloadAttributesV2>) -> forkchoiceUpdatedV2 {
    forkchoiceUpdatedV2 {
        jsonrpc: String::from("2.0"),
        id,
        method: String::from("engine_forkchoiceUpdatedV2"),
        params: (state(byte), attrs),
    }
}

fn status(status: ExecutionStatus, latest: Option<String>) -> payloadStatusV1 {
    payloadStatusV1 { status, latestValidHash: latest, ValidationError: None }
}

fn response(id: u64, st: ExecutionStatus, byte: &str) -> forkchoiceUpdatedV1Response {
    forkchoiceUpdatedV1Response {
        jsonrpc: String::from("2.0"),
        id,
        result: forkchoiceUpdatedV1ResponseResult {
            payloadStatus: status(st, Some(hash(byte))),
            payloadId: None,
        },
        error: None,
    }
}

fn state_json(byte: &str) -> String {
    format!(
        "{{\"headBlockHash\":\"{h}\",\"safeBlockHash\":\"{h}\",\"finalizedBlockHash\":\"{h}\"}}",
        h = hash(byte)
    )
}

#[test]
fn request_to_db_forces_id_and_strips_attributes() {
    let req = request(42, "aa", Some(attributes(Some(vec![withdrawal(1)]))));
    let expected = format!(
        "{{\"jsonrpc\":\"2.0\",\"id\":0,\"method\":\"engine_forkchoiceUpdatedV2\",\"params\":[{},null]}}",
        state_json("aa")
    );
    assert_eq!(req.to_db(), Ok(expected));
}

#[test]
fn request_to_db_leaves_the_request_as_it_was() {
    let req = request(42, "aa", Some(attributes(None)));
    let before = req.clone();
    let _ = req.to_db();
    assert_eq!(req, before);
    assert_eq!(req.id, 42);
    assert!(req.params.1.is_some());
}

#[test]
fn requests_differing_in_id_and_attributes_persist_alike() {
    let a = request(1, "aa", None);
    let b = request(977, "aa", Some(attributes(Some(vec![withdrawal(1), withdrawal(2)]))));
    let c = request(u64::MAX, "aa", Some(attributes(None)));
    assert_eq!(a.to_db(), b.to_db());
    assert_eq!(a.to_db(), c.to_db());
    assert_eq!(a.canonical(), b.canonical());
}

#[test]
fn requests_differing_in_state_persist_differently() {
    let a = request(1, "aa", None);
    let b = request(1, "bb", None);
    assert_ne!(a.to_db(), b.to_db());
    let mut c = request(1, "aa", None);
    c.method = String::from("engine_forkchoiceUpdatedV1");
    assert_ne!(a.to_db(), c.to_db());
}

#[test]
fn canonical_request_is_its_own_canonical_form() {
    let req = request(42, "aa", Some(attributes(Some(vec![withdrawal(3)]))));
    let once = req.canonical();
    let twice = once.canonical();
    assert_eq!(once, twice);
    assert_eq!(once.id, CANONICAL_ID);
    assert_eq!(once.params.1, None);
    assert_eq!(once.params.0, req.params.0);
    assert_eq!(once.jsonrpc, req.jsonrpc);
    assert_eq!(once.method, req.method);
    assert_eq!(once.to_db(), req.to_db());
    assert_eq!(once.to_json(), req.to_db());
}

#[test]
fn request_to_json_keeps_id_and_attributes() {
    let req = request(42, "aa", Some(attributes(Some(vec![withdrawal(1), withdrawal(2)]))));
    let w = |n: u8| {
        format!(
            "{{\"index\":\"0x{:x}\",\"validatorIndex\":\"0x{:x}\",\"address\":\"0x{}\",\"amount\":\"0x{:x}\"}}",
            n,
            100 + n as u32,
            "cd".repeat(20),
            1000 * n as u32
        )
    };
    let expected = format!(
        "{{\"jsonrpc\":\"2.0\",\"id\":42,\"method\":\"engine_forkchoiceUpdatedV2\",\"params\":[{},{{\"timestamp\":\"0x64\",\"prevRandao\":\"{}\",\"suggestedFeeRecipient\":\"0x{}\",\"withdrawals\":[{},{}]}}]}}",
        state_json("aa"),
        hash("11"),
        "22".repeat(20),
        w(1),
        w(2)
    );
    assert_eq!(req.to_json(), Ok(expected));
}

#[test]
fn request_to_json_without_withdrawals_writes_null() {
    let req = request(5, "aa", Some(attributes(None)));
    let text = req.to_json().unwrap();
    assert!(text.ends_with("\"withdrawals\":null}]}"));
    let empty = request(5, "aa", Some(attributes(Some(Vec::new()))));
    let text = empty.to_json().unwrap();
    assert!(text.ends_with("\"withdrawals\":[]}]}"));
}

#[test]
fn request_with_id_changes_only_the_id() {
    let req = request(42, "aa", Some(attributes(None)));
    let other = req.with_id(7);
    assert_eq!(other.id, 7);
    assert_eq!(other.params, req.params);
    assert_eq!(other.method, req.method);
    assert_eq!(other.jsonrpc, req.jsonrpc);
    assert_eq!(other.with_id(42), req);
}

#[test]
fn request_text_reads_back_with_serde_json() {
    let req = request(42, "aa", Some(attributes(Some(vec![withdrawal(1)]))));
    let live: serde_json::Value = serde_json::from_str(&req.to_json().unwrap()).unwrap();
    assert_eq!(live["jsonrpc"].as_str(), Some("2.0"));
    assert_eq!(live["id"].as_u64(), Some(42));
    assert_eq!(live["method"].as_str(), Some("engine_forkchoiceUpdatedV2"));
    assert_eq!(live["params"][0]["headBlockHash"].as_str(), Some(hash("aa").as_str()));
    assert_eq!(live["params"][1]["timestamp"].as_str(), Some("0x64"));
    assert_eq!(live["params"][1]["withdrawals"][0]["index"].as_str(), Some("0x1"));
    assert_eq!(live["params"].as_array().map(|a| a.len()), Some(2));
    let stored: serde_json::Value = serde_json::from_str(&req.to_db().unwrap()).unwrap();
    assert_eq!(stored["id"].as_u64(), Some(0));
    assert!(stored["params"][1].is_null());
    assert_eq!(stored["params"][0], live["params"][0]);
}

#[test]
fn string_values_are_escaped_in_messages() {
    let mut req = request(1, "aa", None);
    req.method = String::from("odd\"name\\");
    let text = req.to_db().unwrap();
    assert!(text.contains("\"method\":\"odd\\\"name\\\\\""));
    let back: serde_json::Value = serde_json::from_str(&text).unwrap();
    assert_eq!(back["method"].as_str(), Some("odd\"name\\"));
}

#[test]
fn forkchoice_response_to_db_forces_id() {
    let resp = response(42, ExecutionStatus::VALID, "aa");
    let expected = format!(
        "{{\"jsonrpc\":\"2.0\",\"id\":0,\"result\":{{\"payloadStatus\":{{\"status\":\"VALID\",\"latestValidHash\":\"{}\",\"ValidationError\":null}},\"payloadId\":null}},\"error\":null}}",
        hash("aa")
    );
    assert_eq!(resp.to_db(), Ok(expected));
    assert_eq!(resp.id, 42);
}

#[test]
fn forkchoice_response_set_id_attaches_the_id() {
    let mut resp = response(0, ExecutionStatus::INVALID, "bb");
    resp.result.payloadStatus.ValidationError = Some(String::from("bad block"));
    resp.result.payloadId = Some(String::from("0x0000000000000001"));
    resp.error = Some(String::from("none"));
    let expected = format!(
        "{{\"jsonrpc\":\"2.0\",\"id\":18446744073709551615,\"result\":{{\"payloadStatus\":{{\"status\":\"INVALID\",\"latestValidHash\":\"{}\",\"ValidationError\":\"bad block\"}},\"payloadId\":\"0x0000000000000001\"}},\"error\":\"none\"}}",
        hash("bb")
    );
    assert_eq!(resp.set_id(u64::MAX), Ok(expected));
    assert_eq!(resp.id, 0);
}

#[test]
fn forkchoice_response_renderings_agree() {
    let resp = response(42, ExecutionStatus::SYNCING, "aa");
    assert_eq!(resp.set_id(0), resp.to_db());
    assert_eq!(resp.set_id(42), resp.to_json());
    assert_eq!(resp.with_id(9).to_json(), resp.set_id(9));
    assert_eq!(resp.with_id(9).to_db(), resp.to_db());
    assert_eq!(resp.with_id(0).with_id(0), resp.with_id(0));
    assert_ne!(resp.set_id(1), resp.set_id(2));
}

#[test]
fn every_status_has_its_wire_name() {
    assert_eq!(ExecutionStatus::VALID.name(), "VALID");
    assert_eq!(ExecutionStatus::INVALID.name(), "INVALID");
    assert_eq!(ExecutionStatus::SYNCING.name(), "SYNCING");
    assert_eq!(ExecutionStatus::ACCEPTED.name(), "ACCEPTED");
    assert_eq!(ExecutionStatus::INVALID_BLOCK_HASH.name(), "INVALID_BLOCK_HASH");
    let resp = response(1, ExecutionStatus::INVALID_BLOCK_HASH, "aa");
    assert!(resp.to_db().unwrap().contains("\"status\":\"INVALID_BLOCK_HASH\""));
}

#[test]
fn new_payload_response_to_db_and_set_id() {
    let resp = newPayloadV1Response {
        jsonrpc: String::from("2.0"),
        id: 17,
        result: status(ExecutionStatus::ACCEPTED, None),
        error: None,
    };
    let body = "\"result\":{\"status\":\"ACCEPTED\",\"latestValidHash\":null,\"ValidationError\":null},\"error\":null}";
    assert_eq!(resp.to_db(), Ok(format!("{{\"jsonrpc\":\"2.0\",\"id\":0,{}", body)));
    assert_eq!(resp.set_id(5), Ok(format!("{{\"jsonrpc\":\"2.0\",\"id\":5,{}", body)));
    assert_eq!(resp.to_json(), Ok(format!("{{\"jsonrpc\":\"2.0\",\"id\":17,{}", body)));
    assert_eq!(resp.with_id(0).to_db(), resp.to_db());
    assert_eq!(resp.id, 17);
}

fn configuration(n: u8) -> TransitionConfigurationV1 {
    TransitionConfigurationV1::new(format!("0x{:x}", 0xc70d8u32 + n as u32), hash("00"), format!("0x{:x}", n))
}

#[test]
fn transition_configuration_keeps_its_fields() {
    let c = configuration(3);
    assert_eq!(c.terminal_total_difficulty(), "0xc70db");
    assert_eq!(c.terminal_block_hash(), hash("00"));
    assert_eq!(c.terminal_block_number(), "0x3");
    assert_eq!(c.clone(), c);
}

#[test]
fn exchange_request_to_db_and_set_id() {
    let msg = exchangeTransitionConfigurationV1 {
        jsonrpc: String::from("2.0"),
        id: 3,
        method: Some(String::from("engine_exchangeTransitionConfigurationV1")),
        params: Some(vec![configuration(0), configuration(1)]),
        result: None,
    };
    let c = |n: u8| {
        format!(
            "{{\"terminalTotalDifficulty\":\"0x{:x}\",\"terminalBlockHash\":\"{}\",\"terminalBlockNumber\":\"0x{:x}\"}}",
            0xc70d8u32 + n as u32,
            hash("00"),
            n
        )
    };
    let tail = format!(
        "\"method\":\"engine_exchangeTransitionConfigurationV1\",\"params\":[{},{}],\"result\":null}}",
        c(0),
        c(1)
    );
    assert_eq!(msg.to_db(), Ok(format!("{{\"jsonrpc\":\"2.0\",\"id\":0,{}", tail)));
    assert_eq!(msg.set_id(88), Ok(format!("{{\"jsonrpc\":\"2.0\",\"id\":88,{}", tail)));
    assert_eq!(msg.to_json(), Ok(format!("{{\"jsonrpc\":\"2.0\",\"id\":3,{}", tail)));
}

#[test]
fn exchange_response_to_db() {
    let msg = exchangeTransitionConfigurationV1 {
        jsonrpc: String::from("2.0"),
        id: 3,
        method: None,
        params: None,
        result: Some(configuration(2)),
    };
    let expected = format!(
        "{{\"jsonrpc\":\"2.0\",\"id\":0,\"method\":null,\"params\":null,\"result\":{{\"terminalTotalDifficulty\":\"0xc70da\",\"terminalBlockHash\":\"{}\",\"terminalBlockNumber\":\"0x2\"}}}}",
        hash("00")
    );
    assert_eq!(msg.to_db(), Ok(expected));
    assert_eq!(msg.with_id(0).to_db(), msg.to_db());
    assert_eq!(msg.with_id(4).id, 4);
    assert_eq!(msg.with_id(4).result, msg.result);
}

#[test]
fn lists_are_laid_out_with_commas_between_items() {
    let mut out: Vec<Fragment> = Vec::new();
    lay_out_withdrawals(&Vec::new(), &mut out);
    assert_eq!(out, vec![Fragment::Raw(String::from("[")), Fragment::Raw(String::from("]"))]);

    let mut out: Vec<Fragment> = Vec::new();
    lay_out_configurations(&vec![configuration(0), configuration(1), configuration(2)], &mut out);
    let commas = out.iter().filter(|f| **f == Fragment::Raw(String::from(","))).count();
    assert_eq!(commas, 2);
    assert_eq!(out.first(), Some(&Fragment::Raw(String::from("["))));
    assert_eq!(out.last(), Some(&Fragment::Raw(String::from("]"))));
    assert_eq!(out.len(), 2 + 3 * 7 + 2);
}

#[test]
fn lay_out_appends_to_what_is_there() {
    let mut out = vec![Fragment::Raw(String::from("x"))];
    state("aa").lay_out(&mut out);
    assert_eq!(out.len(), 8);
    assert_eq!(out[0], Fragment::Raw(String::from("x")));
    assert_eq!(out[1], Fragment::Raw(String::from("{\"headBlockHash\":")));
    assert_eq!(out[2], Fragment::Text(hash("aa")));
    assert_eq!(out[7], Fragment::Raw(String::from("}")));
}

#[test]
fn copies_are_equal_to_what_was_copied() {
    let req = request(42, "aa", Some(attributes(Some(vec![withdrawal(1), withdrawal(2)]))));
    assert_eq!(req.clone(), req);
    let resp = response(42, ExecutionStatus::VALID, "aa");
    assert_eq!(resp.clone(), resp);
    let pair = fcu_pair { req: req.clone(), resp: resp.clone() };
    assert_eq!(pair.clone(), pair);
    let ws = vec![withdrawal(1), withdrawal(2), withdrawal(3)];
    assert_eq!(clone_withdrawals(&ws), ws);
    let cs = vec![configuration(1), configuration(2)];
    assert_eq!(clone_configurations(&cs), cs);
    assert_eq!(clone_optional(&Some(String::from("a"))), Some(String::from("a")));
    assert_eq!(clone_optional(&None), None);
    let ts = vec![String::from("0x03"), String::from("0x01"), String::from("0x02")];
    assert_eq!(clone_strings(&ts), ts);
    assert_eq!(clone_strings(&Vec::new()), Vec::<String>::new());
}

#[test]
fn payload_keeps_the_order_of_its_transactions() {
    let payload = ExecutionPayloadV2 {
        parentHash: hash("01"),
        feeRecipient: format!("0x{}", "02".repeat(20)),
        stateRoot: hash("03"),
        receiptsRoot: hash("04"),
        logsBloom: format!("0x{}", "00".repeat(256)),
        prevRandao: hash("05"),
        blockNumber: String::from("0x1"),
        gasLimit: String::from("0x1c9c380"),
        gasUsed: String::from("0x0"),
        timestamp: String::from("0x64"),
        extraData: String::from("0x"),
        baseFeePerGas: String::from("0x7"),
        blockHash: hash("06"),
        transactions: vec![String::from("0x03"), String::from("0x01"), String::from("0x02")],
        withdrawals: Some(vec![withdrawal(1)]),
    };
    let call = newPayloadV2 {
        jsonrpc: String::from("2.0"),
        id: 1,
        method: String::from("engine_newPayloadV2"),
        params: vec![payload.clone()],
    };
    let copy = call.clone();
    assert_eq!(copy, call);
    assert_eq!(copy.params[0].transactions, vec!["0x03", "0x01", "0x02"]);
}

#[test]
fn pair_record_holds_both_canonical_texts() {
    let req = request(42, "aa", Some(attributes(None)));
    let resp = response(42, ExecutionStatus::VALID, "aa");
    let pair = fcu_pair { req: req.clone(), resp: resp.clone() };
    assert_eq!(pair.record(), Ok((req.to_db().unwrap(), resp.to_db().unwrap())));
}
