//! What a connection needs that is no input or output: the endpoints, and the
//! commands it sends.

use crate::api::subscribe::{depth_topic, depth_topic_of, Levels, SUBSCRIBE_METHOD};
use crate::codec::{encode, encoded};
use crate::types::{Request, RequestModel};
use vstd::prelude::*;
use vstd::string::*;

verus! {

/// The base of the general streaming endpoint.
pub const DEFAULT_WS_BASE_URL: &'static str = "wss://stream.binance.com:9443";

/// The base of the endpoint that serves market data only.
pub const DEFAULT_MARKET_DATA_WS_BASE_URL: &'static str = "wss://data-stream.binance.vision";

/// The address of the raw streams of an endpoint: its base, then `/ws`.
pub fn stream_url(base: &str) -> (r: String)
    ensures
        r@ == base@ + "/ws"@,
{
    let mut url = String::from_str(base);
    url.append("/ws");
    url
}

/// Calls `rand::random` for a `u64`. Nothing is stated of the number.
#[verifier::external_body]
fn random_id() -> u64 {
    rand::random()
}

impl Request {
    /// A command with the id given.
    pub fn new(method: &str, params: Vec<String>, id: u64) -> (r: Request)
        ensures
            r.method@ == method@,
            r.params == params,
            r.id == id,
    {
        Request { method: String::from_str(method), params, id }
    }

    /// A command with an id drawn at random, on its own for each call.
    pub fn call(method: &str, params: Vec<String>) -> (r: Request)
        ensures
            r.method@ == method@,
            r.params == params,
    {
        Request::new(method, params, random_id())
    }
}

/// The command that subscribes to the depth stream of a symbol.
pub fn subscribe_depth_request(symbol: &str, levels: Levels) -> (r: Request)
    ensures
        r@.method == SUBSCRIBE_METHOD@,
        r@.params == seq![depth_topic_of(symbol@, levels)],
{
    let mut params: Vec<String> = Vec::new();
    params.push(depth_topic(symbol, levels));
    let r = Request::call(SUBSCRIBE_METHOD, params);
    assert(r@.params =~= seq![depth_topic_of(symbol@, levels)]);
    r
}

/// The text frame that subscribes to the depth stream of a symbol.
pub fn subscribe_depth_frame(symbol: &str, levels: Levels) -> (r: String)
    ensures
        exists|id: u64|
            r@ == #[trigger] encoded(
                RequestModel {
                    method: SUBSCRIBE_METHOD@,
                    params: seq![depth_topic_of(symbol@, levels)],
                    id,
                },
            ),
{
    let request = subscribe_depth_request(symbol, levels);
    let frame = encode(&request);
    assert(request@ == RequestModel {
        method: SUBSCRIBE_METHOD@,
        params: seq![depth_topic_of(symbol@, levels)],
        id: request.id,
    });
    frame
}

} // verus!
