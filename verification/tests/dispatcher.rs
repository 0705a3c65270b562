use nanoframe::dispatch::{center_position, handle_request, Action, Core, Flow, PathKind, Step};
use nanoframe::json::Json;
use nanoframe::reply::{finish_create, handle_close_requested, size_response};
use nanoframe::rpc::{decode_line, render_response, LineOutcome, RpcId, RpcRequest, RpcResponse};

fn request(line: &str) -> RpcRequest {
    match decode_line(line) {
        LineOutcome::Req(r) => r,
        _ => panic!("expected {line} to decode"),
    }
}

fn reply_text(step: Step) -> String {
    match step.reply {
        Some(r) => render_response(r),
        None => panic!("expected a reply"),
    }
}

/// Create a window and carry the native build through; the fresh id.
fn create_window(core: &mut Core, id_no: u32) -> String {
    let line = format!(
        r#"{{"jsonrpc":"2.0","id":{id_no},"method":"createWindow","params":{{"width":400,"height":300}}}}"#,
    );
    let step = handle_request(core, request(&line));
    assert!(step.reply.is_none());
    assert!(matches!(step.action, Some(Action::CreateWindow { .. })));
    let resp = match finish_create(core) {
        Some(r) => r,
        None => panic!("a creation was pending"),
    };
    match &resp {
        RpcResponse::Result { result: Json::Obj(fields), .. } => match &fields[0].1 {
            Json::Str(s) => s.clone(),
            _ => panic!("windowId must be a string"),
        },
        _ => panic!("createWindow must succeed"),
    }
}

#[test]
fn only_catalog_methods_are_served() {
    let mut core = Core::new();
    let step = handle_request(&mut core, request(r#"{"jsonrpc":"2.0","id":1,"method":"ping"}"#));
    assert_eq!(
        reply_text(step),
        r#"{"jsonrpc":"2.0","id":1,"error":{"code":-32601,"message":"Method not found"}}"#,
    );
}

#[test]
fn unknown_method_is_rejected_with_its_id() {
    let mut core = Core::new();
    let step = handle_request(
        &mut core,
        request(r#"{"jsonrpc":"2.0","id":7,"method":"window.unknownVerb"}"#),
    );
    assert_eq!(
        reply_text(step),
        r#"{"jsonrpc":"2.0","id":7,"error":{"code":-32601,"message":"Method not found"}}"#,
    );
}

#[test]
fn undecodable_parameters_give_invalid_params() {
    let mut core = Core::new();
    let id = create_window(&mut core, 1);
    let line = format!(
        r#"{{"jsonrpc":"2.0","id":2,"method":"window.setSize","params":{{"windowId":"{id}","width":"wide","height":300}}}}"#,
    );
    let step = handle_request(&mut core, request(&line));
    match step.reply {
        Some(RpcResponse::Error { error, .. }) => {
            assert_eq!(error.code, -32602);
            assert_eq!(error.message, "invalid parameters for window.setSize");
        },
        _ => panic!("expected invalid params"),
    }
    assert!(step.action.is_none());
}

#[test]
fn set_bounds_applies_position_and_size_only_in_pairs() {
    let mut core = Core::new();
    let id = create_window(&mut core, 1);
    let line = format!(
        r#"{{"jsonrpc":"2.0","id":2,"method":"window.setBounds","params":{{"windowId":"{id}","x":10,"width":300,"height":200}}}}"#,
    );
    let step = handle_request(&mut core, request(&line));
    match step.action {
        Some(Action::SetBounds { position, size, .. }) => {
            assert_eq!(position, None, "a lone coordinate is ignored");
            assert_eq!(size, Some((300, 200)));
        },
        _ => panic!("expected a bounds action"),
    }
    let line2 = format!(
        r#"{{"jsonrpc":"2.0","id":3,"method":"window.setBounds","params":{{"windowId":"{id}"}}}}"#,
    );
    let step2 = handle_request(&mut core, request(&line2));
    assert_eq!(reply_text(step2), r#"{"jsonrpc":"2.0","id":3,"result":true}"#);
}

#[test]
fn any_operation_on_an_absent_window_reports_not_found() {
    let methods = [
        "window.show",
        "window.hide",
        "window.close",
        "window.getSize",
        "window.maximize",
        "window.isVisible",
        "window.screenshot",
        "webview.openDevtools",
    ];
    for method in methods {
        let mut core = Core::new();
        let line = format!(
            r#"{{"jsonrpc":"2.0","id":4,"method":"{method}","params":{{"windowId":"nobody"}}}}"#,
        );
        let step = handle_request(&mut core, request(&line));
        assert_eq!(
            reply_text(step),
            r#"{"jsonrpc":"2.0","id":4,"error":{"code":-32001,"message":"Window not found"}}"#,
            "{method}",
        );
    }
}

#[test]
fn created_window_ids_are_never_repeated() {
    let mut core = Core::new();
    let mut ids: Vec<String> = Vec::new();
    for k in 0..8u32 {
        ids.push(create_window(&mut core, k));
    }
    for i in 0..ids.len() {
        assert!(ids[i].len() > 37);
        assert_eq!(ids[i].as_bytes()[36], b'-');
        for j in 0..i {
            assert_ne!(ids[i], ids[j]);
        }
    }
}

#[test]
fn closing_a_non_last_window_keeps_the_process_running() {
    let mut core = Core::new();
    let a = create_window(&mut core, 1);
    let _b = create_window(&mut core, 2);
    let line = format!(
        r#"{{"jsonrpc":"2.0","id":3,"method":"window.close","params":{{"windowId":"{a}"}}}}"#,
    );
    let step = handle_request(&mut core, request(&line));
    assert!(matches!(core.flow, Flow::Poll));
    assert!(matches!(step.action, Some(Action::Destroy { .. })));
    let note = render_response(step.notice.expect("exactly one closed notification"));
    assert_eq!(
        note,
        format!(r#"{{"jsonrpc":"2.0","method":"window.closed","params":{{"windowId":"{a}"}}}}"#),
    );
}

#[test]
fn closing_the_last_window_winds_the_process_down() {
    let mut core = Core::new();
    let a = create_window(&mut core, 1);
    let line = format!(
        r#"{{"jsonrpc":"2.0","id":2,"method":"window.close","params":{{"windowId":"{a}"}}}}"#,
    );
    let step = handle_request(&mut core, request(&line));
    assert_eq!(reply_text(step), r#"{"jsonrpc":"2.0","id":2,"result":true}"#);
    assert!(matches!(core.flow, Flow::Exit));
}

#[test]
fn native_close_request_notifies_and_exits_on_the_last_window() {
    let mut core = Core::new();
    let a = create_window(&mut core, 1);
    assert!(handle_close_requested(&mut core, "stranger").is_none());
    assert!(matches!(core.flow, Flow::Poll));
    let note = handle_close_requested(&mut core, &a).expect("one notification");
    assert_eq!(
        render_response(note),
        format!(r#"{{"jsonrpc":"2.0","method":"window.closed","params":{{"windowId":"{a}"}}}}"#),
    );
    assert!(matches!(core.flow, Flow::Exit));
    assert!(handle_close_requested(&mut core, &a).is_none());
}

#[test]
fn set_size_then_get_size_round_trips() {
    let mut core = Core::new();
    let id = create_window(&mut core, 1);
    let set = format!(
        r#"{{"jsonrpc":"2.0","id":2,"method":"window.setSize","params":{{"windowId":"{id}","width":640,"height":480}}}}"#,
    );
    let step = handle_request(&mut core, request(&set));
    let (w, h) = match step.action {
        Some(Action::SetSize { width, height, .. }) => (width, height),
        _ => panic!("expected a size action"),
    };
    assert_eq!((w, h), (640, 480));
    let get = format!(
        r#"{{"jsonrpc":"2.0","id":3,"method":"window.getSize","params":{{"windowId":"{id}"}}}}"#,
    );
    let step2 = handle_request(&mut core, request(&get));
    let rid = match step2.action {
        Some(Action::GetSize { rpc_id, .. }) => rpc_id,
        _ => panic!("expected a size query"),
    };
    // the platform applied the set size unclamped and reports it back
    assert_eq!(
        render_response(size_response(rid, w, h)),
        r#"{"jsonrpc":"2.0","id":3,"result":{"width":640,"height":480}}"#,
    );
}

#[test]
fn create_show_close_scenario() {
    let mut core = Core::new();
    let step1 = handle_request(
        &mut core,
        request(
            r#"{"jsonrpc":"2.0","id":1,"method":"createWindow","params":{"width":400,"height":300,"show":false}}"#,
        ),
    );
    let cfg = match step1.action {
        Some(Action::CreateWindow { cfg }) => cfg,
        _ => panic!("expected a creation"),
    };
    assert_eq!(cfg.width, Some(400));
    assert_eq!(cfg.height, Some(300));
    assert_eq!(cfg.show, Some(false));
    assert!(!nanoframe::params::initial_visibility(&cfg), "show:false suppresses visibility");
    assert!(!nanoframe::params::wants_centering(&cfg));
    let resp1 = finish_create(&mut core).expect("creation pending");
    let id = match &resp1 {
        RpcResponse::Result { result: Json::Obj(fields), .. } => match &fields[0].1 {
            Json::Str(s) => s.clone(),
            _ => panic!(),
        },
        _ => panic!(),
    };
    assert_eq!(
        render_response(resp1),
        format!(r#"{{"jsonrpc":"2.0","id":1,"result":{{"windowId":"{id}"}}}}"#),
    );
    let step2 = handle_request(
        &mut core,
        request(&format!(
            r#"{{"jsonrpc":"2.0","id":2,"method":"window.show","params":{{"windowId":"{id}"}}}}"#,
        )),
    );
    assert!(matches!(step2.action, Some(Action::Show { .. })));
    assert_eq!(reply_text(step2), r#"{"jsonrpc":"2.0","id":2,"result":true}"#);
    let step3 = handle_request(
        &mut core,
        request(&format!(
            r#"{{"jsonrpc":"2.0","id":3,"method":"window.close","params":{{"windowId":"{id}"}}}}"#,
        )),
    );
    assert_eq!(
        render_response(step3.reply.expect("terminal reply")),
        r#"{"jsonrpc":"2.0","id":3,"result":true}"#,
    );
    assert_eq!(
        render_response(step3.notice.expect("closed notification")),
        format!(r#"{{"jsonrpc":"2.0","method":"window.closed","params":{{"windowId":"{id}"}}}}"#),
    );
    assert!(matches!(core.flow, Flow::Exit));
}

#[test]
fn post_message_frames_the_payload_as_a_script() {
    let mut core = Core::new();
    let id = create_window(&mut core, 1);
    let line = format!(
        r#"{{"jsonrpc":"2.0","id":2,"method":"webview.postMessage","params":{{"windowId":"{id}","payload":{{"a":1}}}}}}"#,
    );
    let step = handle_request(&mut core, request(&line));
    match step.action {
        Some(Action::Eval { code, .. }) => assert_eq!(
            code,
            r#"window.dispatchEvent(new MessageEvent('message', { data: {"a":1} }));"#,
        ),
        _ => panic!("expected a framed script"),
    }
}

#[test]
fn get_path_answers_null_for_an_unknown_name() {
    let mut core = Core::new();
    let step = handle_request(
        &mut core,
        request(r#"{"jsonrpc":"2.0","id":5,"method":"app.getPath","params":{"name":"bogus"}}"#),
    );
    assert_eq!(reply_text(step), r#"{"jsonrpc":"2.0","id":5,"result":{"path":null}}"#);
    let step2 = handle_request(
        &mut core,
        request(r#"{"jsonrpc":"2.0","id":6,"method":"app.getPath","params":{"name":"home"}}"#),
    );
    match step2.action {
        Some(Action::ResolvePath { kind, app_name, .. }) => {
            assert!(matches!(kind, PathKind::Home));
            assert_eq!(app_name, "nanoframe-app");
        },
        _ => panic!("expected a path resolution"),
    }
}

#[test]
fn dialog_filter_entries_must_be_objects() {
    let mut core = Core::new();
    let line = r#"{"jsonrpc":"2.0","id":9,"method":"dialog.open","params":{"filters":[7]}}"#;
    let step = handle_request(&mut core, request(line));
    match step.reply {
        Some(RpcResponse::Error { error, .. }) => assert_eq!(error.code, -32602),
        _ => panic!("expected invalid params"),
    }
}

#[test]
fn dialog_filters_keep_only_those_with_extensions() {
    let mut core = Core::new();
    let line = r#"{"jsonrpc":"2.0","id":8,"method":"dialog.open","params":{"multiple":true,"filters":[{"name":"Images","extensions":["png","jpg"]},{"name":"NoExt"},{"extensions":["txt"]}]}}"#;
    let step = handle_request(&mut core, request(line));
    match step.action {
        Some(Action::DialogOpen { multiple, directory, filters, .. }) => {
            assert!(multiple);
            assert!(!directory);
            assert_eq!(filters.len(), 2);
            assert_eq!(filters[0].0, "Images");
            assert_eq!(filters[0].1, vec!["png".to_string(), "jpg".to_string()]);
            assert_eq!(filters[1].0, "");
            assert_eq!(filters[1].1, vec!["txt".to_string()]);
        },
        _ => panic!("expected a dialog action"),
    }
}

#[test]
fn centering_splits_the_free_space() {
    assert_eq!(center_position(0, 0, 1920, 1080, 800, 600), (560, 240));
    assert_eq!(center_position(-100, 50, 1000, 1000, 400, 400), (200, 350));
    // a window larger than the monitor is pushed up and left of the origin
    assert_eq!(center_position(0, 0, 800, 600, 1000, 601), (-100, 0));
}

#[test]
fn clipboard_and_shell_requests_become_actions() {
    let mut core = Core::new();
    let s1 = handle_request(
        &mut core,
        request(
            r#"{"jsonrpc":"2.0","id":1,"method":"shell.openExternal","params":{"target":"https://example.test"}}"#,
        ),
    );
    assert!(matches!(s1.action, Some(Action::ShellOpen { .. })));
    let s2 = handle_request(
        &mut core,
        request(
            r#"{"jsonrpc":"2.0","id":2,"method":"clipboard.writeText","params":{"text":"hi"}}"#,
        ),
    );
    match s2.action {
        Some(Action::ClipboardWrite { text, .. }) => assert_eq!(text, "hi"),
        _ => panic!("expected a clipboard write"),
    }
    let s3 = handle_request(
        &mut core,
        request(r#"{"jsonrpc":"2.0","id":3,"method":"clipboard.readText"}"#),
    );
    assert!(matches!(s3.action, Some(Action::ClipboardRead { .. })));
}
