use ark_indexer::error::Failure;
use ark_indexer::events::BlockEvents;
use ark_indexer::starknet::client::{
    call_contract_request, call_contract_response, events_from, fetch_block_request,
    fetch_block_response, get_latest_block_request, get_latest_block_response, height_from,
};

fn parsed(text: &str) -> serde_json::Value {
    serde_json::from_str(text).unwrap()
}

#[test]
fn latest_block_request_names_the_method() {
    let payload = get_latest_block_request();
    assert_eq!(
        payload,
        "{\"id\":1,\"jsonrpc\":\"2.0\",\"method\":\"starknet_blockNumber\",\"params\":{}}"
    );
    let doc = parsed(&payload);
    assert_eq!(doc.get("jsonrpc").and_then(|v| v.as_str()), Some("2.0"));
    assert_eq!(doc.get("id").and_then(|v| v.as_u64()), Some(1));
    assert_eq!(doc.get("method").and_then(|v| v.as_str()), Some("starknet_blockNumber"));
    assert_eq!(doc.get("params").and_then(|v| v.as_object()).map(|m| m.len()), Some(0));
}

#[test]
fn fetch_block_request_filters_one_block() {
    let payload = fetch_block_request(50);
    assert_eq!(
        payload,
        "{\"id\":1,\"jsonrpc\":\"2.0\",\"method\":\"starknet_getEvents\",\"params\":{\"filter\":{\"chunk_size\":1000,\"from_block\":{\"block_number\":50},\"to_block\":{\"block_number\":50}}}}"
    );
    let doc = parsed(&payload);
    let filter = doc.get("params").and_then(|p| p.get("filter")).unwrap();
    assert_eq!(filter.get("from_block").and_then(|b| b.get("block_number")).and_then(|n| n.as_u64()), Some(50));
    assert_eq!(filter.get("to_block").and_then(|b| b.get("block_number")).and_then(|n| n.as_u64()), Some(50));
    assert_eq!(filter.get("chunk_size").and_then(|n| n.as_u64()), Some(1000));
    assert_eq!(doc.get("method").and_then(|v| v.as_str()), Some("starknet_getEvents"));
}

#[test]
fn fetch_block_request_takes_the_largest_height() {
    let payload = fetch_block_request(u64::MAX);
    let doc = parsed(&payload);
    let filter = doc.get("params").and_then(|p| p.get("filter")).unwrap();
    assert_eq!(
        filter.get("from_block").and_then(|b| b.get("block_number")).and_then(|n| n.as_u64()),
        Some(u64::MAX)
    );
}

#[test]
fn call_contract_request_quotes_its_strings() {
    let calldata = vec!["0x1", "0x2"];
    let payload = call_contract_request("0xabc", 7, "0xdef", &calldata);
    assert_eq!(
        payload,
        "{\"id\":1,\"jsonrpc\":\"2.0\",\"method\":\"starknet_call\",\"params\":{\"block_id\":{\"block_number\":7},\"request\":{\"calldata\":[\"0x1\",\"0x2\"],\"contract_address\":\"0xabc\",\"entry_point_selector\":\"0xdef\",\"signature\":[]}}}"
    );
}

#[test]
fn call_contract_request_without_calldata() {
    let calldata: Vec<&str> = Vec::new();
    let payload = call_contract_request("0xabc", 0, "0xdef", &calldata);
    let doc = parsed(&payload);
    let request = doc.get("params").and_then(|p| p.get("request")).unwrap();
    assert_eq!(request.get("calldata").and_then(|c| c.as_array()).map(|a| a.len()), Some(0));
    assert_eq!(request.get("signature").and_then(|c| c.as_array()).map(|a| a.len()), Some(0));
    assert_eq!(
        doc.get("params").and_then(|p| p.get("block_id")).and_then(|b| b.get("block_number")).and_then(|n| n.as_u64()),
        Some(0)
    );
}

#[test]
fn call_contract_request_escapes_what_json_reserves() {
    let calldata = vec!["a\"b", "line\nbreak"];
    let payload = call_contract_request("back\\slash", 1, "tab\there", &calldata);
    let doc = parsed(&payload);
    let request = doc.get("params").and_then(|p| p.get("request")).unwrap();
    assert_eq!(request.get("contract_address").and_then(|v| v.as_str()), Some("back\\slash"));
    assert_eq!(request.get("entry_point_selector").and_then(|v| v.as_str()), Some("tab\there"));
    let items = request.get("calldata").and_then(|c| c.as_array()).unwrap();
    assert_eq!(items.len(), 2);
    assert_eq!(items[0].as_str(), Some("a\"b"));
    assert_eq!(items[1].as_str(), Some("line\nbreak"));
}

#[test]
fn latest_block_is_read_from_result() {
    let body = b"{\"jsonrpc\":\"2.0\",\"id\":1,\"result\":12345}";
    assert_eq!(get_latest_block_response(body), Ok(12345));
    assert_eq!(get_latest_block_response(b"{\"result\":0}"), Ok(0));
    assert_eq!(
        get_latest_block_response(b"{\"result\":18446744073709551615}"),
        Ok(u64::MAX)
    );
}

#[test]
fn latest_block_without_a_height_is_a_protocol_failure() {
    assert_eq!(get_latest_block_response(b""), Err(Failure::Protocol));
    assert_eq!(get_latest_block_response(b"not json"), Err(Failure::Protocol));
    assert_eq!(get_latest_block_response(b"{\"result\":1} trailing"), Err(Failure::Protocol));
    assert_eq!(get_latest_block_response(b"{\"id\":1}"), Err(Failure::Protocol));
    assert_eq!(get_latest_block_response(b"[1,2]"), Err(Failure::Protocol));
    assert_eq!(get_latest_block_response(b"{\"result\":\"12\"}"), Err(Failure::Protocol));
    assert_eq!(get_latest_block_response(b"{\"result\":-1}"), Err(Failure::Protocol));
    assert_eq!(get_latest_block_response(b"{\"result\":1.5}"), Err(Failure::Protocol));
    assert_eq!(get_latest_block_response(b"{\"result\":null}"), Err(Failure::Protocol));
    assert_eq!(
        get_latest_block_response(b"{\"result\":18446744073709551616}"),
        Err(Failure::Protocol)
    );
    assert_eq!(
        get_latest_block_response(b"{\"error\":{\"code\":-32601,\"message\":\"no\"}}"),
        Err(Failure::Protocol)
    );
    assert_eq!(get_latest_block_response(&[0xff, 0xfe]), Err(Failure::Protocol));
}

#[test]
fn a_bare_number_is_no_reply() {
    assert_eq!(get_latest_block_response(b"7"), Err(Failure::Protocol));
    assert_eq!(get_latest_block_response(b"{\"result\":{\"result\":7}}"), Err(Failure::Protocol));
    assert_eq!(fetch_block_response(b"[]"), Err(Failure::Protocol));
    assert_eq!(fetch_block_response(b"{\"result\":{\"events\":[7]}}").map(|e| e.records), Ok(vec!["7".to_string()]));
}

#[test]
fn block_events_come_in_the_nodes_order() {
    let body = b"{\"id\":1,\"result\":{\"events\":[{\"keys\":[\"0x1\"],\"data\":[]},{\"n\":2},\"third\"],\"continuation_token\":\"7\"}}";
    let events = fetch_block_response(body).unwrap();
    assert_eq!(
        events.records,
        vec![
            "{\"data\":[],\"keys\":[\"0x1\"]}".to_string(),
            "{\"n\":2}".to_string(),
            "\"third\"".to_string(),
        ]
    );
    assert_eq!(events.len(), 3);
}

#[test]
fn block_without_events_is_no_failure() {
    let events = fetch_block_response(b"{\"result\":{\"events\":[]}}").unwrap();
    assert!(events.is_empty());
    assert_eq!(events, BlockEvents::empty());
}

#[test]
fn block_reply_without_an_event_list_is_a_protocol_failure() {
    assert_eq!(fetch_block_response(b""), Err(Failure::Protocol));
    assert_eq!(fetch_block_response(b"{"), Err(Failure::Protocol));
    assert_eq!(fetch_block_response(b"{\"id\":1}"), Err(Failure::Protocol));
    assert_eq!(fetch_block_response(b"{\"result\":{}}"), Err(Failure::Protocol));
    assert_eq!(fetch_block_response(b"{\"result\":[]}"), Err(Failure::Protocol));
    assert_eq!(fetch_block_response(b"{\"result\":{\"events\":{}}}"), Err(Failure::Protocol));
    assert_eq!(fetch_block_response(b"{\"result\":{\"events\":null}}"), Err(Failure::Protocol));
    assert_eq!(fetch_block_response(b"{\"events\":[]}"), Err(Failure::Protocol));
}

#[test]
fn call_result_is_handed_on_as_text() {
    assert_eq!(
        call_contract_response(b"{\"result\": [\"0x1\", \"0x2\"]}"),
        Ok("[\"0x1\",\"0x2\"]".to_string())
    );
    assert_eq!(call_contract_response(b"{\"result\":null}"), Ok("null".to_string()));
    assert_eq!(call_contract_response(b"{\"result\":\"0x0\"}"), Ok("\"0x0\"".to_string()));
}

#[test]
fn call_reply_without_result_is_a_protocol_failure() {
    assert_eq!(call_contract_response(b"{\"id\":1}"), Err(Failure::Protocol));
    assert_eq!(call_contract_response(b"<html>"), Err(Failure::Protocol));
    assert_eq!(call_contract_response(b"\"result\""), Err(Failure::Protocol));
}

#[test]
fn height_from_keeps_a_number_and_rejects_none() {
    assert_eq!(height_from(Some(9)), Ok(9));
    assert_eq!(height_from(None), Err(Failure::Protocol));
}

#[test]
fn events_from_writes_each_item_as_text() {
    let items = vec![parsed("{ \"b\" : 1, \"a\" : [ ] }"), parsed("3")];
    let events = events_from(Some(&items)).unwrap();
    assert_eq!(events.records, vec!["{\"a\":[],\"b\":1}".to_string(), "3".to_string()]);
    assert_eq!(events_from(None), Err(Failure::Protocol));
    let none: Vec<serde_json::Value> = Vec::new();
    assert_eq!(events_from(Some(&none)), Ok(BlockEvents::empty()));
}
