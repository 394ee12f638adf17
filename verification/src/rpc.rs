//! Solana JSON-RPC requests: the airdrop arguments, the configuration object
//! and the request body.
use vstd::prelude::*;

use crate::bytes::copy_str;
use crate::json::{json_text, Json, JsonValue};

verus! {

/// Number of lamports in one SOL.
pub const LAMPORTS_PER_SOL: u64 = 1_000_000_000;

/// An amount of lamports.
#[derive(Debug, PartialEq, Eq, PartialOrd, Ord, Clone, Copy)]
pub struct Lamports(u64);

impl View for Lamports {
    type V = u64;

    closed spec fn view(&self) -> u64 {
        self.0
    }
}

impl Lamports {
    /// One SOL.
    pub fn new() -> (l: Self)
        ensures
            l@ == LAMPORTS_PER_SOL,
    {
        Self::default()
    }

    /// `sol` SOL in lamports.
    pub fn from_sol(sol: u32) -> (l: Self)
        ensures
            l@ == sol * LAMPORTS_PER_SOL,
    {
        assert(sol * LAMPORTS_PER_SOL <= u64::MAX) by (nonlinear_arith)
            requires
                sol <= u32::MAX,
        ;
        Lamports(sol as u64 * LAMPORTS_PER_SOL)
    }

    /// The number of lamports.
    pub fn as_ref(&self) -> (amount: &u64)
        ensures
            *amount == self@,
    {
        &self.0
    }
}

impl Default for Lamports {
    /// One SOL.
    fn default() -> (l: Self)
        ensures
            l@ == LAMPORTS_PER_SOL,
    {
        Lamports(LAMPORTS_PER_SOL)
    }
}

/// The arguments of a `requestAirdrop` call.
pub struct RpcRequestAirdrop {
    pub lamports: Lamports,
    pub address: String,
}

impl RpcRequestAirdrop {
    /// The positional arguments: the address, then the amount.
    pub fn to_json(&self) -> (args: Vec<JsonValue>)
        ensures
            args@.len() == 2,
            args@[0]@ == Json::Str(self.address@),
            args@[1]@ == Json::Number(self.lamports@),
    {
        let mut args: Vec<JsonValue> = Vec::new();
        args.push(JsonValue::String(self.address.clone()));
        args.push(JsonValue::Number(*self.lamports.as_ref()));
        args
    }
}

/// The configuration object of a call.
pub struct ConfigObject {
    pub commitment: String,
    pub encoding: String,
    pub skip_preflight: bool,
}

/// The JSON of a configuration object: its commitment and encoding.
pub open spec fn config_json(commitment: Seq<char>, encoding: Seq<char>) -> Json {
    Json::Object(seq![("commitment"@, Json::Str(commitment)), ("encoding"@, Json::Str(encoding))])
}

impl ConfigObject {
    /// The default configuration: `confirmed` commitment, `base64` encoding,
    /// preflight checks on.
    pub fn new() -> (c: Self)
        ensures
            c.commitment@ == "confirmed"@,
            c.encoding@ == "base64"@,
            !c.skip_preflight,
    {
        Self::default()
    }

    /// The same configuration with `finalized` commitment.
    pub fn set_finalized(self) -> (c: Self)
        ensures
            c.commitment@ == "finalized"@,
            c.encoding == self.encoding,
            c.skip_preflight == self.skip_preflight,
    {
        ConfigObject { commitment: copy_str("finalized"), ..self }
    }

    /// The same configuration with `processed` commitment.
    pub fn set_processed(self) -> (c: Self)
        ensures
            c.commitment@ == "processed"@,
            c.encoding == self.encoding,
            c.skip_preflight == self.skip_preflight,
    {
        ConfigObject { commitment: copy_str("processed"), ..self }
    }

    /// The same configuration with another encoding.
    pub fn set_encoding(self, encoding: &str) -> (c: Self)
        ensures
            c.encoding@ == encoding@,
            c.commitment == self.commitment,
            c.skip_preflight == self.skip_preflight,
    {
        ConfigObject { encoding: copy_str(encoding), ..self }
    }

    /// The JSON object sent with a call: commitment and encoding.
    pub fn build_json(&self) -> (j: JsonValue)
        ensures
            j@ == config_json(self.commitment@, self.encoding@),
    {
        let mut members: Vec<(String, JsonValue)> = Vec::new();
        members.push((copy_str("commitment"), JsonValue::String(self.commitment.clone())));
        members.push((copy_str("encoding"), JsonValue::String(self.encoding.clone())));
        let j = JsonValue::Object(members);
        proof {
            reveal_with_fuel(crate::json::json_view, 2);
        }
        assert(j@->Object_0 =~= config_json(self.commitment@, self.encoding@)->Object_0);
        j
    }
}

impl Default for ConfigObject {
    /// `confirmed` commitment, `base64` encoding, preflight checks on.
    fn default() -> (c: Self)
        ensures
            c.commitment@ == "confirmed"@,
            c.encoding@ == "base64"@,
            !c.skip_preflight,
    {
        ConfigObject { commitment: copy_str("confirmed"), encoding: copy_str("base64"), skip_preflight: false }
    }
}

/// The response to a call.
pub struct RpcResponse<T> {
    pub jsonrpc: String,
    pub id: u8,
    pub result: T,
}

/// A result with the slot it was read at.
pub struct RpcResultWithContext<T> {
    pub context: RpcResponseContext,
    pub value: T,
}

/// The slot and node version of a result.
pub struct RpcResponseContext {
    pub slot: u64,
    pub api_version: Option<String>,
}

/// A JSON-RPC call: endpoint, method and positional parameters.
pub struct RpcRequest {
    uri: String,
    method: String,
    params: Option<JsonValue>,
}

/// The mathematical value of an `RpcRequest`.
pub struct RpcRequestView {
    pub uri: Seq<char>,
    pub method: Seq<char>,
    pub params: Option<Json>,
}

impl View for RpcRequest {
    type V = RpcRequestView;

    closed spec fn view(&self) -> RpcRequestView {
        RpcRequestView {
            uri: self.uri@,
            method: self.method@,
            params: match self.params {
                Some(p) => Some(p@),
                None => None,
            },
        }
    }
}

/// The JSON body of a call: version 2.0, id 1, the method, and the parameters
/// when there are any.
pub open spec fn request_json(r: RpcRequestView) -> Json {
    let head = seq![("jsonrpc"@, Json::Str("2.0"@)), ("id"@, Json::Number(1)), ("method"@, Json::Str(r.method))];
    match r.params {
        Some(p) => Json::Object(head.push(("params"@, p))),
        None => Json::Object(head),
    }
}

/// The JSON of the default configuration object.
pub open spec fn default_config_json() -> Json {
    config_json("confirmed"@, "base64"@)
}

impl RpcRequest {
    /// A `getVersion` call to the local validator.
    pub fn new() -> (r: Self)
        ensures
            r@.uri == "http://localhost:8899"@,
            r@.method == "getVersion"@,
            r@.params is None,
    {
        Self::default()
    }

    /// The same call with another method.
    pub fn set_method(self, method: &str) -> (r: Self)
        ensures
            r@ == (RpcRequestView { method: method@, ..self@ }),
    {
        RpcRequest { method: copy_str(method), ..self }
    }

    /// The same call to the public test network.
    pub fn set_testnet(self) -> (r: Self)
        ensures
            r@ == (RpcRequestView { uri: "https://api.testnet.solana.com"@, ..self@ }),
    {
        RpcRequest { uri: copy_str("https://api.testnet.solana.com"), ..self }
    }

    /// The same call to another endpoint.
    pub fn set_uri(self, uri: &str) -> (r: Self)
        ensures
            r@ == (RpcRequestView { uri: uri@, ..self@ }),
    {
        RpcRequest { uri: copy_str(uri), ..self }
    }

    /// Parameters: one positional argument, then the default configuration.
    pub fn set_position_arg_with_defaults(self, position_args: JsonValue) -> (r: Self)
        ensures
            r@ == (RpcRequestView { params: Some(Json::Array(seq![position_args@, default_config_json()])), ..self@ }),
    {
        let config_object = ConfigObject::default().build_json();
        self.set_position_arg_with_config_object(position_args, config_object)
    }

    /// Parameters: one positional argument, then a configuration object.
    pub fn set_position_arg_with_config_object(self, position_args: JsonValue, config_object: JsonValue) -> (r: Self)
        ensures
            r@ == (RpcRequestView { params: Some(Json::Array(seq![position_args@, config_object@])), ..self@ }),
    {
        let mut items: Vec<JsonValue> = Vec::new();
        items.push(position_args);
        items.push(config_object);
        let params = JsonValue::Array(items);
        assert(params@->Array_0 =~= seq![position_args@, config_object@]);
        RpcRequest { params: Some(params), ..self }
    }

    /// Parameters: the positional arguments, then the default configuration.
    pub fn set_position_args_with_defaults(self, position_args: Vec<JsonValue>) -> (r: Self)
        ensures
            r@ == (RpcRequestView {
                params: Some(Json::Array(JsonValue::Array(position_args)@->Array_0.push(default_config_json()))),
                ..self@
            }),
    {
        let config_object = ConfigObject::default().build_json();
        self.set_position_args_with_config_object(position_args, config_object)
    }

    /// Parameters: the positional arguments, then a configuration object.
    pub fn set_position_args_with_config_object(self, position_args: Vec<JsonValue>, config_object: JsonValue) -> (r: Self)
        ensures
            r@ == (RpcRequestView {
                params: Some(Json::Array(JsonValue::Array(position_args)@->Array_0.push(config_object@))),
                ..self@
            }),
    {
        let ghost before = JsonValue::Array(position_args)@->Array_0;
        let mut items = position_args;
        items.push(config_object);
        let params = JsonValue::Array(items);
        assert(params@->Array_0 =~= before.push(config_object@));
        RpcRequest { params: Some(params), ..self }
    }

    /// Parameters: only a configuration object.
    pub fn set_config_object(self, config_object: JsonValue) -> (r: Self)
        ensures
            r@ == (RpcRequestView { params: Some(Json::Array(seq![config_object@])), ..self@ }),
    {
        let mut items: Vec<JsonValue> = Vec::new();
        items.push(config_object);
        let params = JsonValue::Array(items);
        assert(params@->Array_0 =~= seq![config_object@]);
        RpcRequest { params: Some(params), ..self }
    }

    /// The endpoint that the call goes to.
    pub fn uri(&self) -> (uri: &str)
        ensures
            uri@ == self@.uri,
    {
        self.uri.as_str()
    }

    /// The JSON body of the call as compact text.
    pub fn build(self) -> (body: String)
        ensures
            body@ == json_text(request_json(self@)),
    {
        let ghost v = self@;
        let mut members: Vec<(String, JsonValue)> = Vec::new();
        members.push((copy_str("jsonrpc"), JsonValue::String(copy_str("2.0"))));
        members.push((copy_str("id"), JsonValue::Number(1)));
        members.push((copy_str("method"), JsonValue::String(self.method)));
        if let Some(params) = self.params {
            members.push((copy_str("params"), params));
        }
        let body = JsonValue::Object(members);
        proof {
            reveal_with_fuel(crate::json::json_view, 2);
        }
        assert(body@->Object_0 =~= request_json(v)->Object_0);
        body.dump()
    }
}

impl Default for RpcRequest {
    /// A `getVersion` call to the local validator.
    fn default() -> (r: Self)
        ensures
            r@.uri == "http://localhost:8899"@,
            r@.method == "getVersion"@,
            r@.params is None,
    {
        RpcRequest { uri: copy_str("http://localhost:8899"), method: copy_str("getVersion"), params: None }
    }
}

} // verus!
