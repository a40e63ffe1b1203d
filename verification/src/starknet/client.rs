//! The three JSON-RPC exchanges with the node, without the transport.
//!
//! For each exchange one function writes the body of the request and one
//! reads the body of the reply. Sending the one and receiving the other is
//! the caller's part; a transport that fails reports
//! [`Failure::Transport`] itself. Nothing here retries.

use crate::decimal::{decimal, push_decimal};
use crate::error::Failure;
use crate::events::{array_text, push_array, texts, BlockEvents};
use crate::json::{
    as_array, as_u64, json_document, json_elements, json_member, json_string, json_text, json_u64,
    member, parse, string_value, to_text,
};
use vstd::prelude::*;
use vstd::string::StringExecFns;

verus! {

/// The request for the height of the newest block.
pub const LATEST_BLOCK_REQUEST: &'static str =
    "{\"id\":1,\"jsonrpc\":\"2.0\",\"method\":\"starknet_blockNumber\",\"params\":{}}";

/// The request for a block's events, up to the first block number.
pub const EVENTS_REQUEST_HEAD: &'static str =
    "{\"id\":1,\"jsonrpc\":\"2.0\",\"method\":\"starknet_getEvents\",\"params\":{\"filter\":{\"chunk_size\":1000,\"from_block\":{\"block_number\":";

/// The request for a block's events, between the two block numbers.
pub const EVENTS_REQUEST_MIDDLE: &'static str = "},\"to_block\":{\"block_number\":";

/// The request for a block's events, after the second block number.
pub const EVENTS_REQUEST_TAIL: &'static str = "}}}}";

/// The request for a contract call, up to the block number.
pub const CALL_REQUEST_HEAD: &'static str =
    "{\"id\":1,\"jsonrpc\":\"2.0\",\"method\":\"starknet_call\",\"params\":{\"block_id\":{\"block_number\":";

/// The request for a contract call, between the block number and the call data.
pub const CALL_REQUEST_CALLDATA: &'static str = "},\"request\":{\"calldata\":";

/// The request for a contract call, between the call data and the address.
pub const CALL_REQUEST_ADDRESS: &'static str = ",\"contract_address\":";

/// The request for a contract call, between the address and the selector.
pub const CALL_REQUEST_SELECTOR: &'static str = ",\"entry_point_selector\":";

/// The request for a contract call, after the selector.
pub const CALL_REQUEST_TAIL: &'static str = ",\"signature\":[]}}}";

/// A string as JSON writes it: between quotes and escaped.
pub open spec fn quoted(text: Seq<char>) -> Seq<char> {
    json_text(json_string(text))
}

/// Each string as JSON writes it.
pub open spec fn all_quoted(texts: Seq<Seq<char>>) -> Seq<Seq<char>> {
    Seq::new(texts.len(), |i: int| quoted(texts[i]))
}

/// The body of the request for the events of block `block_number`: the
/// filter runs from this block to this block.
pub open spec fn fetch_block_payload(block_number: nat) -> Seq<char> {
    EVENTS_REQUEST_HEAD@ + decimal(block_number) + EVENTS_REQUEST_MIDDLE@ + decimal(block_number)
        + EVENTS_REQUEST_TAIL@
}

/// The body of the request that calls `selector` of the contract at
/// `contract_address` with `calldata`, as of block `block_id`.
pub open spec fn call_contract_payload(
    contract_address: Seq<char>,
    block_id: nat,
    selector: Seq<char>,
    calldata: Seq<Seq<char>>,
) -> Seq<char> {
    CALL_REQUEST_HEAD@ + decimal(block_id) + CALL_REQUEST_CALLDATA@ + array_text(
        all_quoted(calldata),
    ) + CALL_REQUEST_ADDRESS@ + quoted(contract_address) + CALL_REQUEST_SELECTOR@ + quoted(selector)
        + CALL_REQUEST_TAIL@
}

/// What a reply holds under `result`, if it is a JSON document that has such
/// a member.
pub open spec fn reply_result(body: Seq<u8>) -> Option<serde_json::Value> {
    match json_document(body) {
        Some(doc) => json_member(doc, "result"@),
        None => None,
    }
}

/// A height, where the reply held one.
pub open spec fn height_of(number: Option<u64>) -> Result<u64, Failure> {
    match number {
        Some(height) => Ok(height),
        None => Err(Failure::Protocol),
    }
}

/// What a reply to the latest-height request says.
pub open spec fn latest_block_of(body: Seq<u8>) -> Result<u64, Failure> {
    match reply_result(body) {
        Some(result) => height_of(json_u64(result)),
        None => Err(Failure::Protocol),
    }
}

/// The texts of the documents in `items`, in order.
pub open spec fn records_of(items: Seq<serde_json::Value>) -> Seq<Seq<char>> {
    Seq::new(items.len(), |i: int| json_text(items[i]))
}

/// The event records, where the reply held a list of them.
pub open spec fn events_of(list: Option<Seq<serde_json::Value>>) -> Result<Seq<Seq<char>>, Failure> {
    match list {
        Some(items) => Ok(records_of(items)),
        None => Err(Failure::Protocol),
    }
}

/// What a reply to the request for a block's events says.
pub open spec fn block_events_of(body: Seq<u8>) -> Result<Seq<Seq<char>>, Failure> {
    match reply_result(body) {
        Some(result) => match json_member(result, "events"@) {
            Some(events) => events_of(json_elements(events)),
            None => Err(Failure::Protocol),
        },
        None => Err(Failure::Protocol),
    }
}

/// What a reply to a contract call says.
pub open spec fn call_result_of(body: Seq<u8>) -> Result<Seq<char>, Failure> {
    match reply_result(body) {
        Some(result) => Ok(json_text(result)),
        None => Err(Failure::Protocol),
    }
}

/// `text` as a JSON string.
fn quote(text: &str) -> (written: String)
    ensures
        written@ == quoted(text@),
{
    let document = string_value(text);
    to_text(&document)
}

/// Each of `items` as a JSON string.
fn quote_all(items: &Vec<&str>) -> (written: Vec<String>)
    ensures
        texts(written@) == all_quoted(Seq::new(items@.len(), |i: int| items@[i]@)),
{
    let mut written: Vec<String> = Vec::new();
    let mut i: usize = 0;
    while i < items.len()
        invariant
            i <= items.len(),
            written@.len() == i,
            forall|k: int| 0 <= k < i ==> written@[k]@ == quoted(items@[k]@),
        decreases items.len() - i,
    {
        written.push(quote(items[i]));
        i = i + 1;
    }
    assert(texts(written@) =~= all_quoted(Seq::new(items@.len(), |i: int| items@[i]@)));
    written
}

/// The body of the request for the height of the newest block.
pub fn get_latest_block_request() -> (payload: String)
    ensures
        payload@ == LATEST_BLOCK_REQUEST@,
{
    LATEST_BLOCK_REQUEST.to_owned()
}

/// The body of the request for the events of block `block_number`.
pub fn fetch_block_request(block_number: u64) -> (payload: String)
    ensures
        payload@ == fetch_block_payload(block_number as nat),
{
    let mut payload = String::new();
    payload.append(EVENTS_REQUEST_HEAD);
    push_decimal(&mut payload, block_number);
    payload.append(EVENTS_REQUEST_MIDDLE);
    push_decimal(&mut payload, block_number);
    payload.append(EVENTS_REQUEST_TAIL);
    payload
}

/// The body of the request for a read-only contract call.
pub fn call_contract_request(
    contract_address: &str,
    block_id: u64,
    selector: &str,
    calldata: &Vec<&str>,
) -> (payload: String)
    ensures
        payload@ == call_contract_payload(
            contract_address@,
            block_id as nat,
            selector@,
            Seq::new(calldata@.len(), |i: int| calldata@[i]@),
        ),
{
    let mut payload = String::new();
    payload.append(CALL_REQUEST_HEAD);
    push_decimal(&mut payload, block_id);
    payload.append(CALL_REQUEST_CALLDATA);
    push_array(&mut payload, &quote_all(calldata));
    payload.append(CALL_REQUEST_ADDRESS);
    payload.append(quote(contract_address).as_str());
    payload.append(CALL_REQUEST_SELECTOR);
    payload.append(quote(selector).as_str());
    payload.append(CALL_REQUEST_TAIL);
    payload
}

/// A height from what the reply held as a number: a reply without one is not
/// a reply to this request.
pub fn height_from(number: Option<u64>) -> (r: Result<u64, Failure>)
    ensures
        r == height_of(number),
{
    match number {
        Some(height) => Ok(height),
        None => Err(Failure::Protocol),
    }
}

/// The event records from the list the reply held, each as its JSON text.
/// A list without elements is a block without events, not a failure.
pub fn events_from(list: Option<&Vec<serde_json::Value>>) -> (r: Result<BlockEvents, Failure>)
    ensures
        match r {
            Ok(events) => list matches Some(items) && events@ == records_of(items@),
            Err(failure) => list is None && failure == Failure::Protocol,
        },
{
    match list {
        Some(items) => {
            let mut records: Vec<String> = Vec::new();
            let mut i: usize = 0;
            while i < items.len()
                invariant
                    i <= items.len(),
                    records@.len() == i,
                    forall|k: int| 0 <= k < i ==> records@[k]@ == json_text(items@[k]),
                decreases items.len() - i,
            {
                records.push(to_text(&items[i]));
                i = i + 1;
            }
            Ok(BlockEvents { records })
        },
        None => Err(Failure::Protocol),
    }
}

/// Reads the reply to the latest-height request: the height under `result`.
/// Anything else, a body that is no JSON document, one without `result`, or a
/// `result` that is no unsigned 64-bit integer, is a protocol failure.
pub fn get_latest_block_response(body: &[u8]) -> (r: Result<u64, Failure>)
    ensures
        r == latest_block_of(body@),
{
    match parse(body) {
        Ok(document) => match member(&document, "result") {
            Some(result) => height_from(as_u64(result)),
            None => Err(Failure::Protocol),
        },
        Err(_) => Err(Failure::Protocol),
    }
}

/// Reads the reply to the request for a block's events: the records of the
/// list `events` under `result`, in the node's order. An empty list is a
/// block without events. Anything else is a protocol failure.
pub fn fetch_block_response(body: &[u8]) -> (r: Result<BlockEvents, Failure>)
    ensures
        match r {
            Ok(events) => block_events_of(body@) == Ok::<Seq<Seq<char>>, Failure>(events@),
            Err(failure) => block_events_of(body@) == Err::<Seq<Seq<char>>, Failure>(failure),
        },
{
    match parse(body) {
        Ok(document) => match member(&document, "result") {
            Some(result) => match member(result, "events") {
                Some(events) => events_from(as_array(events)),
                None => Err(Failure::Protocol),
            },
            None => Err(Failure::Protocol),
        },
        Err(_) => Err(Failure::Protocol),
    }
}

/// Reads the reply to a contract call: the JSON text of what stands under
/// `result`. A body that is no JSON document or has no `result` is a
/// protocol failure.
pub fn call_contract_response(body: &[u8]) -> (r: Result<String, Failure>)
    ensures
        match r {
            Ok(text) => call_result_of(body@) == Ok::<Seq<char>, Failure>(text@),
            Err(failure) => call_result_of(body@) == Err::<Seq<char>, Failure>(failure),
        },
{
    match parse(body) {
        Ok(document) => match member(&document, "result") {
            Some(result) => Ok(to_text(result)),
            None => Err(Failure::Protocol),
        },
        Err(_) => Err(Failure::Protocol),
    }
}

} // verus!
