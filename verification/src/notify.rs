//! The peer-notification path: the signed token and the JSON-RPC request
//! that follow every successful transition, and the reading of the peer's
//! reply.
//!
//! Notification is best-effort and fire-and-forget: the process shell sends
//! the request built here on a detached task, logs a failure, and never
//! retries nor rolls the local posture back.  The local firewall state is
//! authoritative and already committed by the time the request leaves.

use vstd::prelude::*;

use crate::mode::Mode;
use crate::text::dec_str;
use crate::text::u16_to_string;

verus! {

/// The compact signed token `jsonwebtoken::encode` produces for the signing
/// secret and an `{"iat": <seconds>}` claims object under the default
/// (HS256) header.  It is a deterministic function of the two.
pub uninterp spec fn jwt_hs256_token(secret: Seq<u8>, iat: i64) -> Seq<char>;

/// Relies on `jsonwebtoken::encode`: with the default header and an HMAC
/// secret it signs the serialized `{"iat": <seconds>}` claims, a
/// deterministic function of the secret bytes and the timestamp alone.  It
/// always succeeds here: the only error paths are a key/algorithm-family
/// mismatch, impossible for an HMAC key under the default HS256 header, and
/// serialization of the fixed one-key claims object, which cannot fail.
#[verifier::external_body]
fn jwt_encode(secret: &Vec<u8>, iat: i64) -> (r: Option<String>)
    ensures
        r is Some,
        r matches Some(t) ==> t@ == jwt_hs256_token(secret@, iat),
{
    let mut claims = std::collections::BTreeMap::new();
    claims.insert("iat", iat);
    let key = jsonwebtoken::EncodingKey::from_secret(secret.as_slice());
    jsonwebtoken::encode(&jsonwebtoken::Header::default(), &claims, &key).ok()
}

/// Mints the short-lived signed token for one outbound call, fresh on every
/// call, with the issue instant as its only claim.  Minting never fails for
/// an HMAC secret, so the result is always `Ok`; the `Result` shape is kept
/// for the caller that folds the clock's own failure into the same path.
pub fn make_jwt_token(secret: &Vec<u8>, iat: i64) -> (r: Result<String, String>)
    ensures
        r matches Ok(t) && t@ == jwt_hs256_token(secret@, iat),
{
    let t = jwt_encode(secret, iat);
    Ok(t.unwrap())
}

/// The peer method a posture maps to: entering the open posture stops the
/// data feed, entering the isolated posture starts it.
pub open spec fn rpc_method_spec(m: Mode) -> Seq<char> {
    match m {
        Mode::InternetOnly => "maintenance_stopAPIFeed"@,
        Mode::ToolNodeOnly => "maintenance_startAPIFeed"@,
    }
}

/// The method name sent to the peer when the node enters `m`.
pub fn rpc_method_for(m: Mode) -> (r: &'static str)
    ensures
        r@ == rpc_method_spec(m),
{
    match m {
        Mode::InternetOnly => "maintenance_stopAPIFeed",
        Mode::ToolNodeOnly => "maintenance_startAPIFeed",
    }
}

/// The JSON-RPC 2.0 request document for a method with empty parameters.
pub open spec fn rpc_body_spec(method: Seq<char>) -> Seq<char> {
    "{\"jsonrpc\":\"2.0\",\"method\":\""@ + method + "\",\"params\":[],\"id\":1}"@
}

/// One ready-to-send notification: the request document and the credential
/// header value that authenticates it.
pub struct RpcRequest {
    /// The JSON-RPC request body.
    pub body: String,
    /// The `Authorization` header value, `Bearer ` followed by the token.
    pub bearer: String,
}

/// Builds the authenticated notification that entering `target` owes the
/// peer.  A token is owed on every input, so the request is always produced.
pub fn build_notification(target: Mode, secret: &Vec<u8>, iat: i64) -> (r: Result<
    RpcRequest,
    String,
>)
    ensures
        r matches Ok(req) && req.body@ == rpc_body_spec(rpc_method_spec(target)) && req.bearer@
            == "Bearer "@ + jwt_hs256_token(secret@, iat),
{
    let minted = make_jwt_token(secret, iat);
    let token = minted.unwrap();
    let mut body = String::from_str("{\"jsonrpc\":\"2.0\",\"method\":\"");
    body.append(rpc_method_for(target));
    body.append("\",\"params\":[],\"id\":1}");
    let mut bearer = String::from_str("Bearer ");
    bearer.append(token.as_str());
    Ok(RpcRequest { body, bearer })
}

/// The diagnostic recorded when the peer answers with a non-success status.
pub open spec fn rpc_error_spec(method: Seq<char>, status: int, body: Seq<char>) -> Seq<char> {
    "RPC "@ + method + " returned "@ + dec_str(status) + ": "@ + body
}

/// Reads the peer's answer to a notification: success exactly on a 2xx
/// status, and otherwise the diagnostic naming the method, the status and
/// whatever the peer wrote back.
pub fn rpc_outcome(method: &str, status: u16, body: &str) -> (r: Result<(), String>)
    ensures
        r is Ok <==> 200 <= status < 300,
        r matches Err(m) ==> m@ == rpc_error_spec(method@, status as int, body@),
{
    if 200 <= status && status < 300 {
        Ok(())
    } else {
        let mut m = String::from_str("RPC ");
        m.append(method);
        m.append(" returned ");
        let st = u16_to_string(status);
        m.append(st.as_str());
        m.append(": ");
        m.append(body);
        Err(m)
    }
}

} // verus!
