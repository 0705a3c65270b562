//! Completions: the replies built once the native side reports back, and
//! the close-request path of the event bridge.
use vstd::prelude::*;
use crate::codec::{parse_text, spec_parse_text};
use crate::dispatch::{Core, Flow, PendingCreate};
use crate::json::{jview, jview_fields, jview_seq, lemma_jview_fields, lemma_jview_seq, Json,
    JsonM};
use crate::num::{dec_digits, dec_int, push_dec_i64, push_dec_u64};
use crate::registry::lemma_live_issued;
use crate::rpc::{RpcId, RpcResponse};
use crate::text::chars_to_string;
use vstd::string::StringExecFns;

verus! {

/// A number value for an unsigned count.
fn num_json_u32(n: u32) -> (j: Json)
    ensures
        jview(j) == JsonM::Num(dec_digits(n as nat)),
{
    let mut out: Vec<char> = Vec::new();
    push_dec_u64(n as u64, &mut out);
    Json::Num(chars_to_string(&out))
}

/// A number value for a signed coordinate.
fn num_json_i32(n: i32) -> (j: Json)
    ensures
        jview(j) == JsonM::Num(dec_int(n as int)),
{
    let mut out: Vec<char> = Vec::new();
    push_dec_i64(n as i64, &mut out);
    Json::Num(chars_to_string(&out))
}

/// An object of one field.
fn obj1(k: &str, v: Json) -> (j: Json)
    ensures
        jview(j) == JsonM::Obj(seq![(k@, jview(v))]),
{
    let ghost vv = jview(v);
    let mut fields: Vec<(String, Json)> = Vec::new();
    fields.push((String::from_str(k), v));
    let j = Json::Obj(fields);
    proof {
        lemma_jview_fields(j->Obj_0@);
        assert(jview_fields(j->Obj_0@) =~= seq![(k@, vv)]);
    }
    j
}

/// An object of two fields.
fn obj2(k1: &str, v1: Json, k2: &str, v2: Json) -> (j: Json)
    ensures
        jview(j) == JsonM::Obj(seq![(k1@, jview(v1)), (k2@, jview(v2))]),
{
    let ghost vv1 = jview(v1);
    let ghost vv2 = jview(v2);
    let mut fields: Vec<(String, Json)> = Vec::new();
    fields.push((String::from_str(k1), v1));
    fields.push((String::from_str(k2), v2));
    let j = Json::Obj(fields);
    proof {
        lemma_jview_fields(j->Obj_0@);
        assert(jview_fields(j->Obj_0@) =~= seq![(k1@, vv1), (k2@, vv2)]);
    }
    j
}

/// An object holding one string field.
pub fn str_field_obj(k: &str, v: String) -> (j: Json)
    ensures
        jview(j) == JsonM::Obj(seq![(k@, JsonM::Str(v@))]),
{
    obj1(k, Json::Str(v))
}

/// The reply owed for the creation in the pending slot: the new id is
/// recorded and returned. Nothing happens when no creation is pending.
pub fn finish_create(core: &mut Core) -> (r: Option<RpcResponse>)
    requires
        old(core).wf(),
    ensures
        final(core).wf(),
        old(core).pending is None ==> *final(core) == *old(core) && r is None,
        old(core).pending matches Some(pc) ==> {
            &&& r matches Some(RpcResponse::Result { id, result }) && id == pc.rpc_id && jview(
                result,
            ) == JsonM::Obj(seq![("windowId"@, JsonM::Str(pc.id@))])
            &&& final(core).registry.has(pc.id@)
            &&& forall|x: Seq<char>|
                x != pc.id@ ==> (final(core).registry.has(x) <==> old(core).registry.has(x))
            &&& final(core).registry.spec_len() == old(core).registry.spec_len() + 1
            &&& final(core).registry.issued_ids() == old(core).registry.issued_ids()
            &&& final(core).pending is None
            &&& final(core).flow == old(core).flow
        },
{
    let pc = match core.pending.take() {
        None => {
            return None;
        },
        Some(pc) => pc,
    };
    let PendingCreate { rpc_id, id } = pc;
    let shown = id.clone();
    core.registry.insert(id);
    proof {
        lemma_live_issued(core.registry);
    }
    Some(RpcResponse::result(rpc_id, obj1("windowId", Json::Str(shown))))
}

/// The reply owed when the creation in the pending slot failed natively:
/// the pending id is abandoned, nothing is recorded.
pub fn fail_create(core: &mut Core, message: String) -> (r: Option<RpcResponse>)
    requires
        old(core).wf(),
    ensures
        final(core).wf(),
        old(core).pending is None ==> *final(core) == *old(core) && r is None,
        old(core).pending matches Some(pc) ==> {
            &&& r matches Some(RpcResponse::Error { id, error }) && id == pc.rpc_id
                && error.code as int == -32000 && error.message@ == message@
            &&& final(core).registry == old(core).registry
            &&& final(core).pending is None
            &&& final(core).flow == old(core).flow
        },
{
    let pc = match core.pending.take() {
        None => {
            return None;
        },
        Some(pc) => pc,
    };
    Some(RpcResponse::error(pc.rpc_id, -32000, message))
}

/// The event bridge's close path: a native close request removes the
/// window's entry, reports `window.closed` out of band, and winds the
/// process down when the last window went. An id that is not live does
/// nothing.
pub fn handle_close_requested(core: &mut Core, id: &str) -> (r: Option<RpcResponse>)
    requires
        old(core).wf(),
    ensures
        final(core).wf(),
        old(core).flow is Exit ==> final(core).flow is Exit,
        !old(core).registry.has(id@) ==> *final(core) == *old(core) && r is None,
        old(core).registry.has(id@) ==> {
            &&& r matches Some(RpcResponse::Notify { method, params }) && method@
                == "window.closed"@ && jview(params) == JsonM::Obj(
                seq![("windowId"@, JsonM::Str(id@))],
            )
            &&& !final(core).registry.has(id@)
            &&& forall|x: Seq<char>|
                x != id@ ==> (final(core).registry.has(x) <==> old(core).registry.has(x))
            &&& final(core).registry.spec_len() + 1 == old(core).registry.spec_len()
            &&& final(core).registry.issued_ids() == old(core).registry.issued_ids()
            &&& final(core).pending == old(core).pending
            &&& (final(core).registry.spec_len() == 0 ==> final(core).flow is Exit)
            &&& (final(core).registry.spec_len() != 0 ==> final(core).flow == old(core).flow)
        },
{
    let was = core.registry.remove(id);
    if !was {
        return None;
    }
    if core.registry.is_empty() {
        core.flow = Flow::Exit;
    }
    proof {
        if old(core).pending is Some {
            let pc = old(core).pending->Some_0;
            assert(!old(core).registry.has(pc.id@));
            assert(pc.id@ != id@);
            assert(!core.registry.has(pc.id@));
        }
    }
    let key = String::from_str(id);
    Some(RpcResponse::notify("window.closed", obj1("windowId", Json::Str(key))))
}

// ---------------------------------------------------------------------------
// Replies built from what the native side read.
// ---------------------------------------------------------------------------
/// A plain boolean result.
pub fn bool_result(rpc_id: RpcId, value: bool) -> (r: RpcResponse)
    ensures
        r == (RpcResponse::Result { id: rpc_id, result: Json::Bool(value) }),
{
    RpcResponse::result(rpc_id, Json::Bool(value))
}

/// The reply to `window.getSize`: exactly the width and height read back.
pub fn size_response(rpc_id: RpcId, width: u32, height: u32) -> (r: RpcResponse)
    ensures
        r matches RpcResponse::Result { id, result } && id == rpc_id && jview(result)
            == JsonM::Obj(
            seq![
                ("width"@, JsonM::Num(dec_digits(width as nat))),
                ("height"@, JsonM::Num(dec_digits(height as nat))),
            ],
        ),
{
    RpcResponse::result(
        rpc_id,
        obj2("width", num_json_u32(width), "height", num_json_u32(height)),
    )
}

/// The reply to `window.getPosition`.
pub fn position_response(rpc_id: RpcId, x: i32, y: i32) -> (r: RpcResponse)
    ensures
        r matches RpcResponse::Result { id, result } && id == rpc_id && jview(result)
            == JsonM::Obj(
            seq![("x"@, JsonM::Num(dec_int(x as int))), ("y"@, JsonM::Num(dec_int(y as int)))],
        ),
{
    RpcResponse::result(rpc_id, obj2("x", num_json_i32(x), "y", num_json_i32(y)))
}

/// The reply when the outer position cannot be read.
pub fn position_unavailable(rpc_id: RpcId) -> (r: RpcResponse)
    ensures
        r matches RpcResponse::Error { id, error } && id == rpc_id && error.code as int == -32004
            && error.message@ == "Position unavailable"@,
{
    RpcResponse::error(rpc_id, -32004, String::from_str("Position unavailable"))
}

/// The reply to `window.getBounds`: the position when it could be read,
/// nulls otherwise, and the size.
pub fn bounds_response(rpc_id: RpcId, pos: Option<(i32, i32)>, width: u32, height: u32) -> (r:
    RpcResponse)
    ensures
        r matches RpcResponse::Result { id, result } && id == rpc_id && jview(result)
            == JsonM::Obj(
            seq![
                (
                    "x"@,
                    match pos {
                        Some(p) => JsonM::Num(dec_int(p.0 as int)),
                        None => JsonM::Null,
                    },
                ),
                (
                    "y"@,
                    match pos {
                        Some(p) => JsonM::Num(dec_int(p.1 as int)),
                        None => JsonM::Null,
                    },
                ),
                ("width"@, JsonM::Num(dec_digits(width as nat))),
                ("height"@, JsonM::Num(dec_digits(height as nat))),
            ],
        ),
{
    let (xj, yj) = match pos {
        Some(p) => (num_json_i32(p.0), num_json_i32(p.1)),
        None => (Json::Null, Json::Null),
    };
    let ghost xv = jview(xj);
    let ghost yv = jview(yj);
    let mut fields: Vec<(String, Json)> = Vec::new();
    fields.push((String::from_str("x"), xj));
    fields.push((String::from_str("y"), yj));
    fields.push((String::from_str("width"), num_json_u32(width)));
    fields.push((String::from_str("height"), num_json_u32(height)));
    let j = Json::Obj(fields);
    proof {
        lemma_jview_fields(j->Obj_0@);
        assert(xv == (match pos {
            Some(p) => JsonM::Num(dec_int(p.0 as int)),
            None => JsonM::Null,
        }));
        assert(yv == (match pos {
            Some(p) => JsonM::Num(dec_int(p.1 as int)),
            None => JsonM::Null,
        }));
        assert(jview_fields(j->Obj_0@) =~= seq![
            (
                "x"@,
                match pos {
                    Some(p) => JsonM::Num(dec_int(p.0 as int)),
                    None => JsonM::Null,
                },
            ),
            (
                "y"@,
                match pos {
                    Some(p) => JsonM::Num(dec_int(p.1 as int)),
                    None => JsonM::Null,
                },
            ),
            ("width"@, JsonM::Num(dec_digits(width as nat))),
            ("height"@, JsonM::Num(dec_digits(height as nat))),
        ]);
    }
    RpcResponse::result(rpc_id, j)
}

/// The reply once a script ran: plain success, or the page's error under
/// the script-failure code.
pub fn eval_result(rpc_id: RpcId, outcome: Result<(), String>) -> (r: RpcResponse)
    ensures
        outcome matches Ok(_) ==> r == (RpcResponse::Result {
            id: rpc_id,
            result: Json::Bool(true),
        }),
        outcome matches Err(m) ==> r matches RpcResponse::Error { id, error } && id == rpc_id
            && error.code as int == -32002 && error.message@ == m@,
{
    match outcome {
        Ok(_) => RpcResponse::result(rpc_id, Json::Bool(true)),
        Err(m) => RpcResponse::error(rpc_id, -32002, m),
    }
}

/// The reply once an icon was loaded and applied, or failed to decode.
pub fn icon_result(rpc_id: RpcId, outcome: Result<(), String>) -> (r: RpcResponse)
    ensures
        outcome matches Ok(_) ==> r == (RpcResponse::Result {
            id: rpc_id,
            result: Json::Bool(true),
        }),
        outcome matches Err(m) ==> r matches RpcResponse::Error { id, error } && id == rpc_id
            && error.code as int == -32003 && error.message@ == m@,
{
    match outcome {
        Ok(_) => RpcResponse::result(rpc_id, Json::Bool(true)),
        Err(m) => RpcResponse::error(rpc_id, -32003, m),
    }
}

/// The reply carrying one path or null: what `dialog.save` and
/// `app.getPath` answer.
pub fn path_response(rpc_id: RpcId, path: Option<String>) -> (r: RpcResponse)
    ensures
        r matches RpcResponse::Result { id, result } && id == rpc_id && jview(result)
            == JsonM::Obj(
            seq![
                (
                    "path"@,
                    match path {
                        Some(p) => JsonM::Str(p@),
                        None => JsonM::Null,
                    },
                ),
            ],
        ),
{
    let v = match path {
        Some(p) => Json::Str(p),
        None => Json::Null,
    };
    RpcResponse::result(rpc_id, obj1("path", v))
}

/// The reply listing what a file dialog picked, empty when it was
/// dismissed.
pub fn dialog_paths_response(rpc_id: RpcId, paths: Vec<String>) -> (r: RpcResponse)
    ensures
        r matches RpcResponse::Result { id, result } && id == rpc_id && jview(result)
            == JsonM::Obj(seq![("paths"@, JsonM::Arr(str_seq_view(paths@)))]),
{
    let mut items: Vec<Json> = Vec::new();
    let n = paths.len();
    let mut i: usize = 0;
    proof {
        assert(jview_seq(items@) =~= str_seq_view(paths@.subrange(0, 0)));
    }
    while i < n
        invariant
            n == paths@.len(),
            i <= n,
            items@.len() == i,
            jview_seq(items@) == str_seq_view(paths@.subrange(0, i as int)),
        decreases n - i,
    {
        let ghost old_items = items@;
        let s = paths[i].clone();
        items.push(Json::Str(s));
        proof {
            lemma_jview_seq(old_items);
            lemma_jview_seq(items@);
            assert forall|q: int|
                0 <= q < i + 1 implies #[trigger] jview_seq(items@)[q] == str_seq_view(
                paths@.subrange(0, i + 1),
            )[q] by {
                if q < i {
                    assert(jview_seq(items@)[q] == jview(items@[q]));
                    assert(items@[q] == old_items[q]);
                    assert(jview_seq(old_items)[q] == jview(old_items[q]));
                    assert(jview_seq(old_items)[q] == str_seq_view(
                        paths@.subrange(0, i as int),
                    )[q]);
                } else {
                    assert(jview_seq(items@)[q] == jview(items@[q]));
                }
            }
            assert(jview_seq(items@) =~= str_seq_view(paths@.subrange(0, i + 1)));
        }
        i = i + 1;
    }
    proof {
        assert(paths@.subrange(0, n as int) =~= paths@);
    }
    RpcResponse::result(rpc_id, obj1("paths", Json::Arr(items)))
}

/// The string values of a list, as JSON strings.
pub open spec fn str_seq_view(s: Seq<String>) -> Seq<JsonM> {
    Seq::new(s.len(), |i: int| JsonM::Str(s[i]@))
}

/// The reply carrying the clipboard's text.
pub fn clipboard_text_response(rpc_id: RpcId, text: String) -> (r: RpcResponse)
    ensures
        r matches RpcResponse::Result { id, result } && id == rpc_id && jview(result)
            == JsonM::Obj(seq![("text"@, JsonM::Str(text@))]),
{
    RpcResponse::result(rpc_id, obj1("text", Json::Str(text)))
}

/// The shape a page message is forwarded as: the message parsed as JSON
/// where it is one, and wrapped raw otherwise.
pub open spec fn ipc_payload_shape(parsed: Option<JsonM>, body: Seq<char>) -> JsonM {
    match parsed {
        Some(m) => m,
        None => JsonM::Obj(seq![("raw"@, JsonM::Str(body))]),
    }
}

/// The out-of-band notification for a message the page posted: method
/// `webview.ipc`, carrying the window's id and the message body.
pub fn ipc_notification(window_id: &str, body: &str) -> (r: RpcResponse)
    ensures
        r matches RpcResponse::Notify { method, params } && method@ == "webview.ipc"@ && jview(
            params,
        ) == JsonM::Obj(
            seq![
                ("windowId"@, JsonM::Str(window_id@)),
                ("payload"@, ipc_payload_shape(spec_parse_text(body@), body@)),
            ],
        ),
{
    let payload = match parse_text(body) {
        Some(j) => j,
        None => obj1("raw", Json::Str(String::from_str(body))),
    };
    let params = obj2(
        "windowId",
        Json::Str(String::from_str(window_id)),
        "payload",
        payload,
    );
    RpcResponse::notify("webview.ipc", params)
}

/// An operation-scoped failure, reported once with the given code.
pub fn op_failure(rpc_id: RpcId, code: i32, message: String) -> (r: RpcResponse)
    ensures
        r matches RpcResponse::Error { id, error } && id == rpc_id && error.code == code
            && error.message@ == message@,
{
    RpcResponse::error(rpc_id, code, message)
}

/// The reply once the system opener ran: plain success, or its failure
/// under the shell-integration code.
pub fn shell_open_result(rpc_id: RpcId, outcome: Result<(), String>) -> (r: RpcResponse)
    ensures
        outcome matches Ok(_) ==> r == (RpcResponse::Result {
            id: rpc_id,
            result: Json::Bool(true),
        }),
        outcome matches Err(m) ==> r matches RpcResponse::Error { id, error } && id == rpc_id
            && error.code as int == -33001 && error.message@ == m@,
{
    match outcome {
        Ok(_) => RpcResponse::result(rpc_id, Json::Bool(true)),
        Err(m) => RpcResponse::error(rpc_id, -33001, m),
    }
}

/// The reply once a clipboard write ran, under the clipboard-write code on
/// failure.
pub fn clipboard_write_result(rpc_id: RpcId, outcome: Result<(), String>) -> (r: RpcResponse)
    ensures
        outcome matches Ok(_) ==> r == (RpcResponse::Result {
            id: rpc_id,
            result: Json::Bool(true),
        }),
        outcome matches Err(m) ==> r matches RpcResponse::Error { id, error } && id == rpc_id
            && error.code as int == -33002 && error.message@ == m@,
{
    match outcome {
        Ok(_) => RpcResponse::result(rpc_id, Json::Bool(true)),
        Err(m) => RpcResponse::error(rpc_id, -33002, m),
    }
}

/// The reply once a clipboard read ran: the text read, or its failure
/// under the clipboard-read code.
pub fn clipboard_read_result(rpc_id: RpcId, outcome: Result<String, String>) -> (r: RpcResponse)
    ensures
        outcome matches Ok(t) ==> r matches RpcResponse::Result { id, result } && id == rpc_id
            && jview(result) == JsonM::Obj(seq![("text"@, JsonM::Str(t@))]),
        outcome matches Err(m) ==> r matches RpcResponse::Error { id, error } && id == rpc_id
            && error.code as int == -33003 && error.message@ == m@,
{
    match outcome {
        Ok(t) => clipboard_text_response(rpc_id, t),
        Err(m) => RpcResponse::error(rpc_id, -33003, m),
    }
}

/// The reply when the screen could not be captured, under the capture
/// code.
pub fn screenshot_failure(rpc_id: RpcId, message: String) -> (r: RpcResponse)
    ensures
        r matches RpcResponse::Error { id, error } && id == rpc_id && error.code as int == -33010
            && error.message@ == message@,
{
    RpcResponse::error(rpc_id, -33010, message)
}

} // verus!
