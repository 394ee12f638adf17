use routines::blockhash::{deserialize_blockhash, BlockHash, MSG_NOT_32_BYTES};
use routines::json::JsonValue;
use routines::rpc::{ConfigObject, Lamports, RpcRequest, RpcRequestAirdrop, LAMPORTS_PER_SOL};

fn jzon_config(commitment: &str, encoding: &str) -> jzon::JsonValue {
    let mut o = jzon::JsonValue::new_object();
    o.insert("commitment", commitment).unwrap();
    o.insert("encoding", encoding).unwrap();
    o
}

#[test]
fn lamports_amounts() {
    assert_eq!(*Lamports::new().as_ref(), LAMPORTS_PER_SOL);
    assert_eq!(*Lamports::from_sol(0).as_ref(), 0);
    assert_eq!(*Lamports::from_sol(3).as_ref(), 3_000_000_000);
    assert_eq!(*Lamports::from_sol(u32::MAX).as_ref(), u32::MAX as u64 * 1_000_000_000);
    assert_eq!(Lamports::default(), Lamports::from_sol(1));
    assert!(Lamports::from_sol(1) < Lamports::from_sol(2));
}

#[test]
fn airdrop_arguments() {
    let airdrop = RpcRequestAirdrop { lamports: Lamports::from_sol(2), address: "Addr1".into() };
    let args = airdrop.to_json();
    assert_eq!(args.len(), 2);
    assert_eq!(JsonValue::Array(args).dump(), r#"["Addr1",2000000000]"#);
}

#[test]
fn config_objects() {
    let c = ConfigObject::new();
    assert_eq!((c.commitment.as_str(), c.encoding.as_str(), c.skip_preflight), ("confirmed", "base64", false));
    assert_eq!(c.build_json().dump(), r#"{"commitment":"confirmed","encoding":"base64"}"#);
    let f = ConfigObject::new().set_finalized().set_encoding("jsonParsed");
    assert_eq!(f.build_json().dump(), jzon_config("finalized", "jsonParsed").dump());
    let p = ConfigObject::default().set_processed();
    assert_eq!(p.commitment, "processed");
    assert_eq!(p.encoding, "base64");
}

#[test]
fn request_bodies() {
    assert_eq!(RpcRequest::new().build(), r#"{"jsonrpc":"2.0","id":1,"method":"getVersion"}"#);
    let request = RpcRequest::new()
        .set_method("getBalance")
        .set_position_arg_with_defaults(JsonValue::String("Addr1".into()));
    assert_eq!(request.uri(), "http://localhost:8899");
    assert_eq!(
        request.build(),
        r#"{"jsonrpc":"2.0","id":1,"method":"getBalance","params":["Addr1",{"commitment":"confirmed","encoding":"base64"}]}"#
    );
    let airdrop = RpcRequestAirdrop { lamports: Lamports::new(), address: "Payer".into() };
    let request = RpcRequest::new()
        .set_testnet()
        .set_method("requestAirdrop")
        .set_position_args_with_config_object(airdrop.to_json(), ConfigObject::new().set_finalized().build_json());
    assert_eq!(request.uri(), "https://api.testnet.solana.com");
    let mut expected = jzon::JsonValue::new_object();
    expected.insert("jsonrpc", "2.0").unwrap();
    expected.insert("id", 1).unwrap();
    expected.insert("method", "requestAirdrop").unwrap();
    let mut params = jzon::JsonValue::new_array();
    params.push("Payer").unwrap();
    params.push(1_000_000_000u64).unwrap();
    params.push(jzon_config("finalized", "base64")).unwrap();
    expected.insert("params", params).unwrap();
    assert_eq!(request.build(), expected.dump());
    let request = RpcRequest::default()
        .set_uri("http://example.org")
        .set_method("getLatestBlockhash")
        .set_config_object(ConfigObject::new().set_processed().build_json());
    assert_eq!(request.uri(), "http://example.org");
    assert_eq!(
        request.build(),
        r#"{"jsonrpc":"2.0","id":1,"method":"getLatestBlockhash","params":[{"commitment":"processed","encoding":"base64"}]}"#
    );
    let request = RpcRequest::new().set_position_args_with_defaults(vec![JsonValue::Number(5), JsonValue::Bool(true)]);
    assert_eq!(
        request.build(),
        r#"{"jsonrpc":"2.0","id":1,"method":"getVersion","params":[5,true,{"commitment":"confirmed","encoding":"base64"}]}"#
    );
    let request = RpcRequest::new().set_position_arg_with_config_object(JsonValue::Null, JsonValue::Array(vec![]));
    assert_eq!(request.build(), r#"{"jsonrpc":"2.0","id":1,"method":"getVersion","params":[null,[]]}"#);
}

#[test]
fn json_text_escapes_strings() {
    let v = JsonValue::Object(vec![
        ("a\"b".to_string(), JsonValue::String("line\nbreak\\".into())),
        ("n".to_string(), JsonValue::Number(u64::MAX)),
        ("f".to_string(), JsonValue::Bool(false)),
        ("o".to_string(), JsonValue::Object(vec![])),
    ]);
    assert_eq!(v.dump(), r#"{"a\"b":"line\nbreak\\","n":18446744073709551615,"f":false,"o":{}}"#);
    assert_eq!(JsonValue::Number(0).dump(), "0");
    assert_eq!(JsonValue::Number(10).dump(), "10");
}

#[test]
fn blockhash_from_base58() {
    let mut bytes = [0u8; 32];
    for (i, b) in bytes.iter_mut().enumerate() {
        *b = (i * 7 + 1) as u8;
    }
    let text = bs58::encode(bytes).into_string();
    assert_eq!(deserialize_blockhash(&text), Ok(bytes));
    assert_eq!(deserialize_blockhash(&bs58::encode([1u8; 31]).into_string()), Err(MSG_NOT_32_BYTES.to_string()));
    let err = deserialize_blockhash("0OIl").unwrap_err();
    assert_eq!(err, bs58::decode("0OIl").into_vec().unwrap_err().to_string());
    let hash = BlockHash::from(bytes);
    assert_eq!(hash.as_ref(), &bytes[..]);
    assert_eq!(hash.last_valid_block_height, None);
    assert_eq!(hash.to_base58_string(), text);
}

#[test]
fn blockhash_from_str_keeps_zeros() {
    let text = bs58::encode([9u8; 32]).into_string();
    let parsed = BlockHash::from_str(&text).ok().unwrap();
    assert_eq!(parsed.blockhash, [0u8; 32]);
    assert!(BlockHash::from_str("0").is_err());
    assert!(BlockHash::from_str(&bs58::encode([9u8; 40]).into_string()).is_err());
    let zero = BlockHash::default();
    assert_eq!(zero.blockhash, [0u8; 32]);
    assert_eq!(zero.to_base58_string(), "11111111111111111111111111111111");
}

#[test]
fn strings_are_escaped_as_jzon_does() {
    let text = "q\"b\\s\u{8}\t\n\u{b}\u{c}\r\u{1f}\u{7f}é";
    let dumped = JsonValue::String(text.to_string()).dump();
    assert_eq!(dumped, "\"q\\\"b\\\\s\\b\\t\\n\\u000b\\f\\r\\u001f\u{7f}é\"");
    assert_eq!(dumped, jzon::stringify(text));
    let body = RpcRequest::new().set_method("a\"b").build();
    assert_eq!(body, r#"{"jsonrpc":"2.0","id":1,"method":"a\"b"}"#);
}
