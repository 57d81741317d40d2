//! The HTTP transport's decisions: posted requests are dispatched with the
//! request headers as transport metadata; any other posted message is
//! broadcast to the event-stream clients.

use vstd::prelude::*;
use crate::error::FastMCPError;
use crate::mcp::types::{JsonRpcMessage, JsonRpcRequest};
use crate::util::string_map::StringMap;
use crate::util::text::owned;

verus! {

/// The map of header pairs; a later pair with the same name wins.
pub open spec fn headers_map(pairs: Seq<(String, String)>) -> Map<Seq<char>, Seq<char>>
    decreases pairs.len(),
{
    if pairs.len() == 0 {
        Map::empty()
    } else {
        headers_map(pairs.drop_last()).insert(pairs.last().0@, pairs.last().1@)
    }
}

/// What the transport does with a posted message.
pub enum MessageAction {
    /// Hand the request to the handler and answer with its outcome.
    Dispatch(JsonRpcRequest),
    /// Send the message to every event-stream client.
    Broadcast(JsonRpcMessage),
}

/// The header pairs as transport metadata.
pub fn metadata_from_headers(headers: Vec<(String, String)>) -> (r: StringMap)
    ensures
        r@ == headers_map(headers@),
{
    let mut m = StringMap::new();
    let mut i: usize = 0;
    assert(headers@.take(0) =~= Seq::<(String, String)>::empty());
    while i < headers.len()
        invariant
            i <= headers@.len(),
            m@ == headers_map(headers@.take(i as int)),
        decreases headers@.len() - i,
    {
        let k = headers[i].0.clone();
        let v = headers[i].1.clone();
        m.insert(k, v);
        proof {
            let q = headers@.take(i + 1);
            assert(q.drop_last() =~= headers@.take(i as int));
            assert(q.last() == headers@[i as int]);
        }
        i = i + 1;
    }
    assert(headers@.take(headers@.len() as int) =~= headers@);
    m
}

/// The action for a posted message: a request is dispatched carrying the
/// headers it came with; anything else is broadcast as it is.
pub fn on_message(message: JsonRpcMessage, headers: Vec<(String, String)>) -> (r: MessageAction)
    ensures
        match message {
            JsonRpcMessage::Request(req) => r matches MessageAction::Dispatch(d) && d.jsonrpc
                == req.jsonrpc && d.id == req.id && d.method == req.method && d.params
                == req.params && (d.transport_metadata matches Some(m) && m@ == headers_map(
                headers@,
            )),
            _ => r == MessageAction::Broadcast(message),
        },
{
    match message {
        JsonRpcMessage::Request(req) => {
            let metadata = metadata_from_headers(headers);
            MessageAction::Dispatch(JsonRpcRequest { transport_metadata: Some(metadata), ..req })
        },
        other => MessageAction::Broadcast(other),
    }
}

/// The message of the error reply to a request whose handler failed.
pub fn internal_error_message(e: &FastMCPError) -> (r: String)
    ensures
        r@ == "Internal error: "@ + e.text(),
{
    let mut m = owned("Internal error: ");
    m.append(e.message().as_str());
    m
}

} // verus!
