use nanoframe::reply::{
    bool_result, bounds_response, clipboard_read_result, clipboard_text_response,
    clipboard_write_result, dialog_paths_response, eval_result, icon_result, ipc_notification,
    op_failure, path_response, position_response, position_unavailable, screenshot_failure,
    shell_open_result,
};
use nanoframe::rpc::{render_response, RpcId};
use nanoframe::shot::screenshot_response;

#[test]
fn query_replies_echo_what_the_platform_read() {
    assert_eq!(
        render_response(bool_result(RpcId::Num(1), false)),
        r#"{"jsonrpc":"2.0","id":1,"result":false}"#,
    );
    assert_eq!(
        render_response(position_response(RpcId::Num(2), -10, 25)),
        r#"{"jsonrpc":"2.0","id":2,"result":{"x":-10,"y":25}}"#,
    );
    assert_eq!(
        render_response(bounds_response(RpcId::Num(3), Some((5, -6)), 800, 600)),
        r#"{"jsonrpc":"2.0","id":3,"result":{"x":5,"y":-6,"width":800,"height":600}}"#,
    );
    assert_eq!(
        render_response(bounds_response(RpcId::Num(4), None, 800, 600)),
        r#"{"jsonrpc":"2.0","id":4,"result":{"x":null,"y":null,"width":800,"height":600}}"#,
    );
}

#[test]
fn position_failure_carries_its_own_code() {
    assert_eq!(
        render_response(position_unavailable(RpcId::Num(5))),
        r#"{"jsonrpc":"2.0","id":5,"error":{"code":-32004,"message":"Position unavailable"}}"#,
    );
}

#[test]
fn script_and_icon_failures_carry_their_codes() {
    assert_eq!(
        render_response(eval_result(RpcId::Num(1), Ok(()))),
        r#"{"jsonrpc":"2.0","id":1,"result":true}"#,
    );
    assert_eq!(
        render_response(eval_result(RpcId::Num(2), Err("boom".to_string()))),
        r#"{"jsonrpc":"2.0","id":2,"error":{"code":-32002,"message":"boom"}}"#,
    );
    assert_eq!(
        render_response(icon_result(RpcId::Num(3), Err("bad icon".to_string()))),
        r#"{"jsonrpc":"2.0","id":3,"error":{"code":-32003,"message":"bad icon"}}"#,
    );
    assert_eq!(
        render_response(op_failure(RpcId::Num(4), -32099, "no handler".to_string())),
        r#"{"jsonrpc":"2.0","id":4,"error":{"code":-32099,"message":"no handler"}}"#,
    );
}

#[test]
fn system_integration_failures_carry_their_codes() {
    assert_eq!(
        render_response(shell_open_result(RpcId::Num(1), Err("no opener".to_string()))),
        r#"{"jsonrpc":"2.0","id":1,"error":{"code":-33001,"message":"no opener"}}"#,
    );
    assert_eq!(
        render_response(shell_open_result(RpcId::Num(2), Ok(()))),
        r#"{"jsonrpc":"2.0","id":2,"result":true}"#,
    );
    assert_eq!(
        render_response(clipboard_write_result(RpcId::Num(3), Err("no display".to_string()))),
        r#"{"jsonrpc":"2.0","id":3,"error":{"code":-33002,"message":"no display"}}"#,
    );
    assert_eq!(
        render_response(clipboard_read_result(RpcId::Num(4), Ok("hello".to_string()))),
        r#"{"jsonrpc":"2.0","id":4,"result":{"text":"hello"}}"#,
    );
    assert_eq!(
        render_response(clipboard_read_result(RpcId::Num(5), Err("empty".to_string()))),
        r#"{"jsonrpc":"2.0","id":5,"error":{"code":-33003,"message":"empty"}}"#,
    );
    assert_eq!(
        render_response(screenshot_failure(RpcId::Num(6), "No screen".to_string())),
        r#"{"jsonrpc":"2.0","id":6,"error":{"code":-33010,"message":"No screen"}}"#,
    );
}

#[test]
fn dialog_and_path_replies_carry_the_chosen_values() {
    assert_eq!(
        render_response(dialog_paths_response(
            RpcId::Num(1),
            vec!["/a/b".to_string(), "/c".to_string()],
        )),
        r#"{"jsonrpc":"2.0","id":1,"result":{"paths":["/a/b","/c"]}}"#,
    );
    assert_eq!(
        render_response(dialog_paths_response(RpcId::Num(2), Vec::new())),
        r#"{"jsonrpc":"2.0","id":2,"result":{"paths":[]}}"#,
    );
    assert_eq!(
        render_response(path_response(RpcId::Num(3), Some("/home/u".to_string()))),
        r#"{"jsonrpc":"2.0","id":3,"result":{"path":"/home/u"}}"#,
    );
    assert_eq!(
        render_response(path_response(RpcId::Num(4), None)),
        r#"{"jsonrpc":"2.0","id":4,"result":{"path":null}}"#,
    );
    assert_eq!(
        render_response(clipboard_text_response(RpcId::Num(5), "copied".to_string())),
        r#"{"jsonrpc":"2.0","id":5,"result":{"text":"copied"}}"#,
    );
}

#[test]
fn screenshot_reply_holds_base64_png_of_the_pixels() {
    let rgba = vec![0u8, 0, 0, 255];
    let text = render_response(screenshot_response(RpcId::Num(9), 1, 1, rgba));
    // a PNG stream always opens with the fixed signature, whose base64 text
    // starts this way
    let prefix = r#"{"jsonrpc":"2.0","id":9,"result":{"base64Png":"iVBORw0KGgo"#;
    assert!(text.starts_with(prefix), "{text}");
}

#[test]
fn screenshot_with_a_wrong_buffer_fails_once_with_its_code() {
    let text = render_response(screenshot_response(RpcId::Num(9), 2, 2, vec![0u8; 3]));
    assert!(text.contains(r#""code":-33010"#), "{text}");
}

#[test]
fn webview_ipc_notification_forwards_json_messages() {
    let note = ipc_notification("w-1", r#"{"k":[1,2]}"#);
    assert_eq!(
        render_response(note),
        r#"{"jsonrpc":"2.0","method":"webview.ipc","params":{"windowId":"w-1","payload":{"k":[1,2]}}}"#,
    );
}

#[test]
fn webview_ipc_notification_wraps_non_json_messages_raw() {
    let note = ipc_notification("w-1", "plain words");
    assert_eq!(
        render_response(note),
        r#"{"jsonrpc":"2.0","method":"webview.ipc","params":{"windowId":"w-1","payload":{"raw":"plain words"}}}"#,
    );
}
