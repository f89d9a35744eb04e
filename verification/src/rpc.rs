//! The JSON-RPC `getBalance` exchange for one address: the exact request
//! body sent, and the balance or failure that a reply body denotes.

use vstd::prelude::*;

verus! {

/// The fixed mainnet RPC endpoint that every request goes to.
pub fn rpc_url() -> (r: &'static str)
    ensures
        r@ == "https://api.mainnet-beta.solana.com"@,
{
    "https://api.mainnet-beta.solana.com"
}

/// What `json_quote` returns: the JSON string literal that encodes `s`,
/// quotes and escapes included — a function of `s` alone.
pub uninterp spec fn json_quoted_of(s: Seq<char>) -> Seq<char>;

/// Relies on serde_json::to_string on a `&str`: the result is the JSON
/// string literal for the text and depends on the text alone. Serializing a
/// `&str` cannot fail.
#[verifier::external_body]
fn json_quote(s: &str) -> (r: String)
    ensures
        r@ == json_quoted_of(s@),
{
    serde_json::to_string(s).expect("serializing a str cannot fail")
}

/// The JSON-RPC `getBalance` request body for one address: protocol version
/// `"2.0"`, id `1`, method `"getBalance"`, and the address as the single
/// parameter.
pub open spec fn request_body_of(address: Seq<char>) -> Seq<char> {
    "{\"jsonrpc\":\"2.0\",\"id\":1,\"method\":\"getBalance\",\"params\":["@ + json_quoted_of(
        address,
    ) + "]}"@
}

/// Builds the request body for one address.
pub fn balance_request_body(address: &str) -> (r: String)
    ensures
        r@ == request_body_of(address@),
{
    let mut r = String::from_str(
        "{\"jsonrpc\":\"2.0\",\"id\":1,\"method\":\"getBalance\",\"params\":[",
    );
    let quoted = json_quote(address);
    r.append(quoted.as_str());
    r.append("]}");
    proof {
        assert(r@ =~= request_body_of(address@));
    }
    r
}

/// What `json_nested_u64` returns: the digest of a JSON document at
/// `outer`.`inner`, a function of the document text and the two keys alone.
pub uninterp spec fn json_nested_u64_of(
    body: Seq<char>,
    outer: Seq<char>,
    inner: Seq<char>,
) -> Result<Option<Option<u64>>, Seq<char>>;

/// Relies on serde_json's `from_str::<Value>`, `Value::is_object`,
/// `Value::get` with a string index, `Value::is_null` and `Value::as_u64`.
/// `Err` carries serde_json's own message for a body that is not valid JSON.
/// For a valid body: `Ok(Some(Some(n)))` when the top level is an object
/// whose `outer` field holds an object whose `inner` field is an integer
/// fitting in a `u64`; `Ok(Some(None))` when the top level is an object with
/// `outer` absent or null; `Ok(None)` for every other shape. All of it is a
/// function of `body`, `outer` and `inner` alone.
#[verifier::external_body]
fn json_nested_u64(body: &str, outer: &str, inner: &str) -> (r: Result<
    Option<Option<u64>>,
    String,
>)
    ensures
        (match r {
            Err(e) => json_nested_u64_of(body@, outer@, inner@) == Err::<
                Option<Option<u64>>,
                Seq<char>,
            >(e@),
            Ok(d) => json_nested_u64_of(body@, outer@, inner@) == Ok::<
                Option<Option<u64>>,
                Seq<char>,
            >(d),
        }),
{
    let v: serde_json::Value = match serde_json::from_str(body) {
        Ok(v) => v,
        Err(e) => return Err(e.to_string()),
    };
    if !v.is_object() {
        return Ok(None);
    }
    let Some(field) = v.get(outer) else { return Ok(Some(None)) };
    if field.is_null() {
        return Ok(Some(None));
    }
    let Some(n) = field.get(inner) else { return Ok(None) };
    Ok(n.as_u64().map(Some))
}

/// A failure to obtain one address's balance. Every variant is terminal for
/// that address alone and is reported, never retried.
#[derive(Debug)]
pub enum FetchError {
    /// The HTTP exchange could not complete; holds the transport's message.
    Network(String),
    /// The reply body was not valid JSON of the expected shape; holds a
    /// message saying why.
    Decode(String),
    /// The reply parsed but carried no `result`: the node's way of
    /// signalling a logical failure.
    Rpc,
}

/// The message of an `Rpc` failure.
pub open spec fn rpc_failure_message() -> Seq<char> {
    "Failed to get balance"@
}

/// The message of a `Decode` failure over a reply that is valid JSON but not
/// of the expected shape.
pub open spec fn shape_message() -> Seq<char> {
    "unexpected response shape"@
}

impl FetchError {
    /// The description that the failure line carries.
    pub open spec fn spec_description(&self) -> Seq<char> {
        match self {
            FetchError::Network(m) => m@,
            FetchError::Decode(m) => m@,
            FetchError::Rpc => rpc_failure_message(),
        }
    }

    /// The description that the failure line carries.
    pub fn description(&self) -> (r: &str)
        ensures
            r@ == self.spec_description(),
    {
        match self {
            FetchError::Network(m) => m.as_str(),
            FetchError::Decode(m) => m.as_str(),
            FetchError::Rpc => "Failed to get balance",
        }
    }
}

/// The balance or failure description that one reply body denotes: the
/// `result.value` integer when the reply carries one, the fixed `Rpc`
/// message when the reply parses but `result` is absent or null, and a
/// decode message otherwise.
pub open spec fn spec_reply_result(body: Seq<char>) -> Result<u64, Seq<char>> {
    match json_nested_u64_of(body, "result"@, "value"@) {
        Err(t) => Err(t),
        Ok(None) => Err(shape_message()),
        Ok(Some(None)) => Err(rpc_failure_message()),
        Ok(Some(Some(n))) => Ok(n),
    }
}

/// Interprets one reply body: the balance when the reply carries
/// `result.value`, `Rpc` when it parses but `result` is absent or null,
/// `Decode` otherwise.
pub fn interpret_reply(body: &str) -> (r: Result<u64, FetchError>)
    ensures
        (match json_nested_u64_of(body@, "result"@, "value"@) {
            Ok(Some(Some(n))) => r == Ok::<u64, FetchError>(n),
            Ok(Some(None)) => r matches Err(e) && e is Rpc,
            Ok(None) => r matches Err(e) && e matches FetchError::Decode(m) && m@
                == shape_message(),
            Err(t) => r matches Err(e) && e matches FetchError::Decode(m) && m@ == t,
        }),
        r matches Ok(n) ==> spec_reply_result(body@) == Ok::<u64, Seq<char>>(n),
        r matches Err(e) ==> spec_reply_result(body@) matches Err(d) && d == e.spec_description(),
{
    match json_nested_u64(body, "result", "value") {
        Ok(Some(Some(n))) => Ok(n),
        Ok(Some(None)) => Err(FetchError::Rpc),
        Ok(None) => Err(FetchError::Decode(String::from_str("unexpected response shape"))),
        Err(t) => Err(FetchError::Decode(t)),
    }
}

} // verus!
