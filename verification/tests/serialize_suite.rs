use bc_hostcall::args::Args;
use bc_hostcall::args::ArgsBuilder;
use bc_hostcall::errors::RpcError;
use bc_hostcall::serialize::SerializeCtx;

#[test]
fn should_serialize() {
    let ctx = SerializeCtx::new();
    let value = "hello world";
    let serialized = ctx.serialize_str(value).unwrap();
    let bytes: &[u8] = serialized.as_slice();
    let ans: [u8; 13] = [34, 104, 101, 108, 108, 111, 32, 119, 111, 114, 108, 100, 34];
    assert_eq!(bytes, ans);
}

#[test]
fn should_deserialize() {
    let ctx = SerializeCtx::new();
    let bytes: [u8; 13] = [34, 104, 101, 108, 108, 111, 32, 119, 111, 114, 108, 100, 34];
    let s: String = ctx.deserialize_str(&bytes).unwrap();
    let ans = "hello world";
    assert_eq!(s, ans);
}

#[test]
fn test_arg_serialize_deserialize() {
    let ctx = SerializeCtx::new();
    let arg1 = "hello world".to_string();
    let arg2 = 123i32;
    let mut builder = ArgsBuilder::new(&ctx);
    builder.push_str(&arg1);
    builder.push_i32(arg2);
    let bytes = builder.build().unwrap();
    let args = Args::from_bytes(&bytes).unwrap();
    let actual = args.get_str(&ctx, 0).unwrap();
    assert_eq!(arg1, actual);
    let actual = args.get_i32(&ctx, 1).unwrap();
    assert_eq!(arg2, actual);
}

#[test]
fn string_with_quotes_and_backslashes_round_trips() {
    let ctx = SerializeCtx::new();
    let value = "a\"b\\c";
    let bytes = ctx.serialize_str(value).unwrap();
    assert_eq!(bytes, vec![34, 97, 92, 34, 98, 92, 92, 99, 34]);
    assert_eq!(ctx.deserialize_str(&bytes).unwrap(), value);
}

#[test]
fn empty_string_round_trips() {
    let ctx = SerializeCtx::new();
    let bytes = ctx.serialize_str("").unwrap();
    assert_eq!(bytes, vec![34, 34]);
    assert_eq!(ctx.deserialize_str(&bytes).unwrap(), "");
}

#[test]
fn non_ascii_string_round_trips() {
    let ctx = SerializeCtx::new();
    let value = "grüße 你好";
    let bytes = ctx.serialize_str(value).unwrap();
    assert_eq!(ctx.deserialize_str(&bytes).unwrap(), value);
}

#[test]
fn deserialize_str_rejects_bad_input() {
    let ctx = SerializeCtx::new();
    // no quotes at all
    assert!(matches!(
        ctx.deserialize_str(b"plain"),
        Err(RpcError::SerializationFailed)
    ));
    // unterminated quote
    assert!(matches!(
        ctx.deserialize_str(&[34, 104, 105]),
        Err(RpcError::SerializationFailed)
    ));
    // trailing bytes after the closing quote
    assert!(matches!(
        ctx.deserialize_str(&[34, 104, 34, 104]),
        Err(RpcError::SerializationFailed)
    ));
    // invalid UTF-8 inside the quotes
    assert!(matches!(
        ctx.deserialize_str(&[34, 255, 34]),
        Err(RpcError::SerializationFailed)
    ));
}

#[test]
fn i32_round_trips() {
    let ctx = SerializeCtx::new();
    let cases: [i32; 7] = [0, 1, -1, 123, -123, i32::MAX, i32::MIN];
    for v in cases.iter() {
        let bytes = ctx.serialize_i32(*v).unwrap();
        assert_eq!(ctx.deserialize_i32(&bytes).unwrap(), *v);
    }
    assert_eq!(ctx.serialize_i32(-123).unwrap(), b"-123".to_vec());
    assert_eq!(ctx.serialize_i32(2147483647).unwrap(), b"2147483647".to_vec());
}

#[test]
fn deserialize_i32_rejects_bad_input() {
    let ctx = SerializeCtx::new();
    assert!(matches!(
        ctx.deserialize_i32(b""),
        Err(RpcError::SerializationFailed)
    ));
    assert!(matches!(
        ctx.deserialize_i32(b"12x"),
        Err(RpcError::SerializationFailed)
    ));
    // one past i32::MAX
    assert!(matches!(
        ctx.deserialize_i32(b"2147483648"),
        Err(RpcError::SerializationFailed)
    ));
    // one past i32::MIN
    assert!(matches!(
        ctx.deserialize_i32(b"-2147483649"),
        Err(RpcError::SerializationFailed)
    ));
}

#[test]
fn args_index_past_end_is_an_error() {
    let ctx = SerializeCtx::new();
    let mut builder = ArgsBuilder::new(&ctx);
    builder.push_str("only");
    let bytes = builder.build().unwrap();
    let args = Args::from_bytes(&bytes).unwrap();
    assert_eq!(args.len(), 1);
    assert!(matches!(
        args.get_str(&ctx, 1),
        Err(RpcError::SerializationFailed)
    ));
}

#[test]
fn empty_args_round_trip() {
    let ctx = SerializeCtx::new();
    let builder = ArgsBuilder::new(&ctx);
    let bytes = builder.build().unwrap();
    let args = Args::from_bytes(&bytes).unwrap();
    assert_eq!(args.len(), 0);
    assert!(matches!(
        args.get_str(&ctx, 0),
        Err(RpcError::SerializationFailed)
    ));
}

#[test]
fn args_from_garbage_is_an_error() {
    assert!(matches!(
        Args::from_bytes(&[1, 2, 3]),
        Err(RpcError::SerializationFailed)
    ));
}

#[test]
fn packed_args_follow_the_documented_layout() {
    let ctx = SerializeCtx::new();
    let mut builder = ArgsBuilder::new(&ctx);
    builder.push_str("A");
    let bytes = builder.build().unwrap();
    let expected: Vec<u8> = vec![
        1, 0, 0, 0, 0, 0, 0, 0, // one buffer
        3, 0, 0, 0, 0, 0, 0, 0, 34, 65, 34, // its length, then the quoted value
    ];
    assert_eq!(bytes, expected);
}
