use vstd::prelude::*;

verus! {

/// The JSON string literal for a text, as `serde_json` writes it.
pub uninterp spec fn json_string(s: Seq<char>) -> Seq<char>;

/// The compact form `serde_json` writes a JSON text back in, if the text parses.
pub uninterp spec fn json_normal_form(text: Seq<char>) -> Option<Seq<char>>;

/// Whether a text parses as JSON.
pub uninterp spec fn json_parses(text: Seq<char>) -> bool;

/// The content of a JSON text that is a string, if it is one.
pub uninterp spec fn json_string_value(text: Seq<char>) -> Option<Seq<char>>;

/// The fields that NIP-46 handling reads from a relay message.
pub uninterp spec fn relay_message_fields(data: Seq<char>) -> Option<RelayMessageView>;

/// The fields that NIP-46 handling reads from a decrypted response.
pub uninterp spec fn rpc_response_fields(text: Seq<char>) -> Option<RpcResponseView>;

/// What a relay sent, as far as NIP-46 handling reads it: element 0 as a
/// string, and the `kind`, `pubkey` and `content` of element 2.
#[derive(Clone, Debug)]
pub struct RelayMessage {
    pub tag: Option<String>,
    pub kind: Option<u64>,
    pub author: Option<String>,
    pub content: Option<String>,
}

/// The value of a [`RelayMessage`].
pub struct RelayMessageView {
    pub tag: Option<Seq<char>>,
    pub kind: Option<u64>,
    pub author: Option<Seq<char>>,
    pub content: Option<Seq<char>>,
}

/// The text of an optional string.
pub open spec fn opt_view(o: Option<String>) -> Option<Seq<char>> {
    match o {
        Some(s) => Some(s@),
        None => None,
    }
}

impl View for RelayMessage {
    type V = RelayMessageView;

    open spec fn view(&self) -> RelayMessageView {
        RelayMessageView {
            tag: opt_view(self.tag),
            kind: self.kind,
            author: opt_view(self.author),
            content: opt_view(self.content),
        }
    }
}

/// A decrypted NIP-46 response, as far as it is read: the `id` and `error`
/// members where they are strings, and the `result` member as JSON text
/// (`null` where it is missing).
#[derive(Clone, Debug)]
pub struct RpcResponse {
    pub id: Option<String>,
    pub error: Option<String>,
    pub result: String,
}

/// The value of an [`RpcResponse`].
pub struct RpcResponseView {
    pub id: Option<Seq<char>>,
    pub error: Option<Seq<char>>,
    pub result: Seq<char>,
}

impl View for RpcResponse {
    type V = RpcResponseView;

    open spec fn view(&self) -> RpcResponseView {
        RpcResponseView { id: opt_view(self.id), error: opt_view(self.error), result: self.result@ }
    }
}

/// `serde_json::to_string` of a text: its JSON string literal. Writing a
/// string into a `Vec` cannot fail.
#[verifier::external_body]
pub(crate) fn json_quote(s: &str) -> (r: String)
    ensures
        r@ == json_string(s@),
{
    match serde_json::to_string(s) {
        Ok(t) => t,
        Err(_) => String::new(),
    }
}

/// `serde_json::from_str::<serde_json::Value>` followed by `to_string`: the
/// text in `serde_json`'s compact form, where it parses (the same parse as
/// [`read_json_string`]'s).
#[verifier::external_body]
pub(crate) fn normalize_json(s: &str) -> (r: Result<String, serde_json::Error>)
    ensures
        r is Ok <==> json_normal_form(s@) is Some,
        r is Ok <==> json_parses(s@),
        r matches Ok(t) ==> json_normal_form(s@) == Some(t@),
{
    match serde_json::from_str::<serde_json::Value>(s) {
        Ok(v) => Ok(v.to_string()),
        Err(e) => Err(e),
    }
}

/// `serde_json::from_str::<serde_json::Value>` followed by `as_str`.
#[verifier::external_body]
pub(crate) fn read_json_string(s: &str) -> (r: Result<Option<String>, serde_json::Error>)
    ensures
        r is Ok <==> json_parses(s@),
        r matches Ok(o) ==> opt_view(o) == json_string_value(s@),
{
    match serde_json::from_str::<serde_json::Value>(s) {
        Ok(v) => Ok(v.as_str().map(str::to_string)),
        Err(e) => Err(e),
    }
}

/// `serde_json::from_str::<serde_json::Value>` of a relay message, and the
/// members that NIP-46 handling reads; `None` where it does not parse.
#[verifier::external_body]
pub(crate) fn read_relay_message(data: &str) -> (r: Option<RelayMessage>)
    ensures
        match relay_message_fields(data@) {
            Some(m) => r matches Some(x) && x@ == m,
            None => r is None,
        },
{
    match serde_json::from_str::<serde_json::Value>(data) {
        Ok(msg) => Some(RelayMessage {
            tag: msg[0].as_str().map(str::to_string),
            kind: msg[2]["kind"].as_u64(),
            author: msg[2]["pubkey"].as_str().map(str::to_string),
            content: msg[2]["content"].as_str().map(str::to_string),
        }),
        Err(_) => None,
    }
}

/// `serde_json::from_str::<serde_json::Value>` of a decrypted NIP-46 response,
/// and the members that are read; `None` where it does not parse.
#[verifier::external_body]
pub(crate) fn read_rpc_response(text: &str) -> (r: Option<RpcResponse>)
    ensures
        match rpc_response_fields(text@) {
            Some(m) => r matches Some(x) && x@ == m,
            None => r is None,
        },
{
    match serde_json::from_str::<serde_json::Value>(text) {
        Ok(resp) => Some(RpcResponse {
            id: resp["id"].as_str().map(str::to_string),
            error: resp["error"].as_str().map(str::to_string),
            result: resp["result"].to_string(),
        }),
        Err(_) => None,
    }
}

} // verus!
