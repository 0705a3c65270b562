use nanoframe::codec::{parse_text, render_json};
use nanoframe::json::Json;
use nanoframe::num::{token_to_i32, token_to_i64, token_to_u32};
use nanoframe::rpc::{decode_line, render_response, LineOutcome, RpcId, RpcResponse};

fn parse_ok(s: &str) -> Json {
    match parse_text(s) {
        Some(j) => j,
        None => panic!("expected {s} to parse"),
    }
}

fn round_trip(s: &str) -> String {
    render_json(&parse_ok(s))
}

#[test]
fn parses_and_renders_a_compact_document() {
    let src = r#"{"a":1,"b":[true,null,"x"],"c":{"d":false}}"#;
    assert_eq!(round_trip(src), src);
}

#[test]
fn parses_surrounding_and_inner_blanks() {
    let src = "  { \"a\" : [ 1 , 2 ] , \"b\" : \t{ } }  \r";
    assert_eq!(round_trip(src), r#"{"a":[1,2],"b":{}}"#);
}

#[test]
fn rejects_malformed_documents() {
    for bad in [
        "{", "}", "[1,", "[1,]", "{\"a\":}", "{\"a\" 1}", "tru", "nulll", "01", "1.", "1e",
        "-", "\"unterminated", "1 2", "{\"a\":1}extra", "", "   ", "[1]]",
        "{\"a\":1,}",
    ] {
        assert!(parse_text(bad).is_none(), "expected {bad:?} to be rejected");
    }
}

#[test]
fn decodes_simple_escapes() {
    let j = parse_ok(r#""a\n\t\"\\\/b""#);
    match &j {
        Json::Str(s) => assert_eq!(s, "a\n\t\"\\/b"),
        _ => panic!("expected a string"),
    }
}

#[test]
fn decodes_unicode_escapes_and_surrogate_pairs() {
    match parse_ok("\"\\u0041\\u00e9\"") {
        Json::Str(s) => assert_eq!(s, "A\u{e9}"),
        _ => panic!("expected a string"),
    }
    match parse_ok("\"\\uD83D\\uDE00\"") {
        Json::Str(s) => assert_eq!(s, "\u{1F600}"),
        _ => panic!("expected a string"),
    }
    assert!(parse_text(r#""\uD83D""#).is_none(), "lone leading surrogate");
    assert!(parse_text(r#""\uDE00""#).is_none(), "lone trailing surrogate");
    assert!(parse_text(r#""\uZZZZ""#).is_none(), "bad hex digits");
}

#[test]
fn rejects_raw_control_characters_in_strings() {
    assert!(parse_text("\"a\u{0001}b\"").is_none());
    assert!(parse_text("\"a\nb\"").is_none());
}

#[test]
fn renders_string_escapes_exactly() {
    let j = Json::Str("a\"b\\c\n\r\t\u{8}\u{c}\u{1}d".to_string());
    assert_eq!(render_json(&j), "\"a\\\"b\\\\c\\n\\r\\t\\b\\f\\u0001d\"");
}

#[test]
fn keeps_number_tokens_verbatim() {
    let src = r#"[-12.5e3,0,10,1E+2,-0.001]"#;
    assert_eq!(round_trip(src), src);
    assert!(parse_text("[01]").is_none(), "leading zero");
    assert!(parse_text("[+1]").is_none(), "leading plus");
    assert!(parse_text("[.5]").is_none(), "bare fraction");
}

#[test]
fn reads_integer_tokens_with_exact_bounds() {
    assert_eq!(token_to_i64("42"), 42);
    assert_eq!(token_to_i64("-42"), -42);
    assert_eq!(token_to_i64("9223372036854775807"), i64::MAX);
    assert_eq!(token_to_i64("-9223372036854775808"), i64::MIN);
    assert_eq!(token_to_i64("9223372036854775808"), 0);
    assert_eq!(token_to_i64("1e3"), 0);
    assert_eq!(token_to_i64("1.0"), 0);
    assert_eq!(token_to_u32("0"), Some(0));
    assert_eq!(token_to_u32("4294967295"), Some(u32::MAX));
    assert_eq!(token_to_u32("4294967296"), None);
    assert_eq!(token_to_u32("-1"), None);
    assert_eq!(token_to_u32("12.5"), None);
    assert_eq!(token_to_i32("-2147483648"), Some(i32::MIN));
    assert_eq!(token_to_i32("2147483647"), Some(i32::MAX));
    assert_eq!(token_to_i32("2147483648"), None);
    assert_eq!(token_to_i32("-2147483649"), None);
}

#[test]
fn blank_lines_are_skipped() {
    assert!(matches!(decode_line(""), LineOutcome::Blank));
    assert!(matches!(decode_line("   \t  "), LineOutcome::Blank));
    // anything a trim would drop counts as blank, not just the JSON blanks
    assert!(matches!(decode_line("\u{b}\u{c}"), LineOutcome::Blank));
    assert!(matches!(decode_line("\u{a0}\u{2003}"), LineOutcome::Blank));
}

#[test]
fn malformed_line_reports_parse_error_and_reading_goes_on() {
    let out = decode_line("{oops");
    match out {
        LineOutcome::Malformed(RpcResponse::Error { id, error }) => {
            assert!(matches!(id, RpcId::Null));
            assert_eq!(error.code, -32700);
        },
        _ => panic!("expected a parse-error report"),
    }
    let next = decode_line(r#"{"jsonrpc":"2.0","id":1,"method":"ping"}"#);
    match next {
        LineOutcome::Req(req) => assert_eq!(req.method, "ping"),
        _ => panic!("a valid line after a bad one must still decode"),
    }
}

#[test]
fn envelope_is_strict() {
    let bad = [
        r#"{"jsonrpc":"2.0","id":1,"method":"ping","extra":1}"#,
        r#"{"jsonrpc":"2.0","id":1}"#,
        r#"{"jsonrpc":2.0,"id":1,"method":"ping"}"#,
        r#"{"id":1,"method":"ping"}"#,
        r#"{"jsonrpc":"2.0","jsonrpc":"2.0","id":1,"method":"ping"}"#,
        r#"{"jsonrpc":"2.0","id":1,"method":7}"#,
        r#"[1,2,3]"#,
    ];
    for line in bad {
        match decode_line(line) {
            LineOutcome::Malformed(RpcResponse::Error { id, error }) => {
                assert!(matches!(id, RpcId::Null), "{line}");
                assert_eq!(error.code, -32700, "{line}");
            },
            _ => panic!("expected {line} to be rejected"),
        }
    }
    match decode_line(r#"{"jsonrpc":"2.0","method":"ping"}"#) {
        LineOutcome::Req(req) => {
            assert!(req.id.is_none());
            assert!(matches!(req.params, Json::Null));
        },
        _ => panic!("id and params are optional"),
    }
}

#[test]
fn correlation_ids_follow_the_value() {
    match RpcId::from_value(Json::Num("5".to_string())) {
        RpcId::Num(v) => assert_eq!(v, 5),
        _ => panic!("numeric id"),
    }
    match RpcId::from_value(Json::Num("5.5".to_string())) {
        RpcId::Num(v) => assert_eq!(v, 0),
        _ => panic!("non-integer id collapses to zero"),
    }
    match RpcId::from_value(Json::Str("abc".to_string())) {
        RpcId::Text(s) => assert_eq!(s, "abc"),
        _ => panic!("string id"),
    }
    assert!(matches!(RpcId::from_value(Json::Bool(true)), RpcId::Null));
    assert!(matches!(RpcId::from_value(Json::Null), RpcId::Null));
}

#[test]
fn renders_each_response_shape_exactly() {
    let ok = RpcResponse::result(RpcId::Num(1), Json::Bool(true));
    assert_eq!(render_response(ok), r#"{"jsonrpc":"2.0","id":1,"result":true}"#);
    let err = RpcResponse::error(RpcId::Null, -32700, "Parse error: x".to_string());
    assert_eq!(
        render_response(err),
        r#"{"jsonrpc":"2.0","id":null,"error":{"code":-32700,"message":"Parse error: x"}}"#,
    );
    let err2 = RpcResponse::error(RpcId::Text("k".to_string()), -32601, "Method not found".to_string());
    assert_eq!(
        render_response(err2),
        r#"{"jsonrpc":"2.0","id":"k","error":{"code":-32601,"message":"Method not found"}}"#,
    );
    let note = RpcResponse::notify("webview.ipc", Json::Null);
    assert_eq!(render_response(note), r#"{"jsonrpc":"2.0","method":"webview.ipc","params":null}"#);
}
