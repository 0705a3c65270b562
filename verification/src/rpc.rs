//! JSON-RPC envelopes: requests, correlation ids, responses, and the
//! line-level decode that feeds the dispatcher.
use vstd::prelude::*;
use crate::codec::{mrender, parse_text, spec_parse_text};
use crate::json::{
    field_index, field_of, jview, jview_fields, lemma_field_index, lemma_jview_fields, Json, JsonM,
};
use crate::num::{dec_int, push_dec_i64, token_as_i64, token_to_i64};
use crate::text::chars_to_string;
use vstd::string::StringExecFns;

verus! {

/// A correlation token, carried unchanged from a request to its reply.
pub enum RpcId {
    Num(i64),
    Text(String),
    Null,
}

/// An error reported to the peer.
pub struct RpcError {
    pub code: i32,
    pub message: String,
}

/// One decoded request envelope.
pub struct RpcRequest {
    pub jsonrpc: String,
    pub id: Option<Json>,
    pub method: String,
    pub params: Json,
}

/// One outgoing message: a reply carrying a result, a reply carrying an
/// error, or a notification that answers no request.
pub enum RpcResponse {
    Result { id: RpcId, result: Json },
    Error { id: RpcId, error: RpcError },
    Notify { method: String, params: Json },
}

/// The id a request value stands for, carried unchanged to the reply.
pub open spec fn spec_id_from(v: Json) -> RpcId {
    match v {
        Json::Num(t) => RpcId::Num(token_as_i64(t@)),
        Json::Str(s) => RpcId::Text(s),
        _ => RpcId::Null,
    }
}

impl RpcId {
    /// The id named by a decoded value: a number is read as a signed
    /// 64-bit integer (zero when it is not one), a string is kept, and
    /// everything else collapses to null.
    pub fn from_value(v: Json) -> (r: Self)
        ensures
            r == spec_id_from(v),
    {
        match v {
            Json::Num(t) => RpcId::Num(token_to_i64(t.as_str())),
            Json::Str(s) => RpcId::Text(s),
            _ => RpcId::Null,
        }
    }
}

/// The shape of an id inside a rendered response.
pub open spec fn id_shape(id: RpcId) -> JsonM {
    match id {
        RpcId::Num(v) => JsonM::Num(dec_int(v as int)),
        RpcId::Text(s) => JsonM::Str(s@),
        RpcId::Null => JsonM::Null,
    }
}

/// The exact shape of a rendered response: field order fixed, the protocol
/// tag first.
pub open spec fn resp_shape(r: RpcResponse) -> JsonM {
    match r {
        RpcResponse::Result { id, result } => JsonM::Obj(
            seq![
                ("jsonrpc"@, JsonM::Str("2.0"@)),
                ("id"@, id_shape(id)),
                ("result"@, jview(result)),
            ],
        ),
        RpcResponse::Error { id, error } => JsonM::Obj(
            seq![
                ("jsonrpc"@, JsonM::Str("2.0"@)),
                ("id"@, id_shape(id)),
                (
                    "error"@,
                    JsonM::Obj(
                        seq![
                            ("code"@, JsonM::Num(dec_int(error.code as int))),
                            ("message"@, JsonM::Str(error.message@)),
                        ],
                    ),
                ),
            ],
        ),
        RpcResponse::Notify { method, params } => JsonM::Obj(
            seq![
                ("jsonrpc"@, JsonM::Str("2.0"@)),
                ("method"@, JsonM::Str(method@)),
                ("params"@, jview(params)),
            ],
        ),
    }
}

/// The exact line of text a response is written as.
pub open spec fn resp_text(r: RpcResponse) -> Seq<char> {
    mrender(resp_shape(r))
}

impl RpcResponse {
    /// A reply carrying `result`.
    pub fn result(id: RpcId, result: Json) -> (r: Self)
        ensures
            r == (RpcResponse::Result { id, result }),
    {
        RpcResponse::Result { id, result }
    }

    /// A reply carrying an error.
    pub fn error(id: RpcId, code: i32, message: String) -> (r: Self)
        ensures
            r == (RpcResponse::Error { id, error: RpcError { code, message } }),
    {
        RpcResponse::Error { id, error: RpcError { code, message } }
    }

    /// A notification: no id, not a reply.
    pub fn notify(method: &str, params: Json) -> (r: Self)
        ensures
            r matches RpcResponse::Notify { method: m, params: p } && m@ == method@ && p == params,
    {
        RpcResponse::Notify { method: String::from_str(method), params }
    }
}

fn id_to_json(id: RpcId) -> (j: Json)
    ensures
        jview(j) == id_shape(id),
{
    match id {
        RpcId::Num(v) => {
            let mut out: Vec<char> = Vec::new();
            push_dec_i64(v, &mut out);
            Json::Num(chars_to_string(&out))
        },
        RpcId::Text(s) => Json::Str(s),
        RpcId::Null => Json::Null,
    }
}

/// The value a response is rendered from.
pub fn response_to_json(r: RpcResponse) -> (j: Json)
    ensures
        jview(j) == resp_shape(r),
{
    let ghost shape = resp_shape(r);
    match r {
        RpcResponse::Result { id, result } => {
            let mut fields: Vec<(String, Json)> = Vec::new();
            fields.push((String::from_str("jsonrpc"), Json::Str(String::from_str("2.0"))));
            fields.push((String::from_str("id"), id_to_json(id)));
            fields.push((String::from_str("result"), result));
            let j = Json::Obj(fields);
            proof {
                lemma_jview_fields(j->Obj_0@);
                assert(jview_fields(j->Obj_0@) =~= shape->Obj_0);
            }
            j
        },
        RpcResponse::Error { id, error } => {
            let RpcError { code, message } = error;
            let mut inner: Vec<(String, Json)> = Vec::new();
            let mut out: Vec<char> = Vec::new();
            push_dec_i64(code as i64, &mut out);
            inner.push((String::from_str("code"), Json::Num(chars_to_string(&out))));
            inner.push((String::from_str("message"), Json::Str(message)));
            let inner_j = Json::Obj(inner);
            proof {
                lemma_jview_fields(inner_j->Obj_0@);
                assert(jview_fields(inner_j->Obj_0@) =~= shape->Obj_0[2].1->Obj_0);
            }
            let mut fields: Vec<(String, Json)> = Vec::new();
            fields.push((String::from_str("jsonrpc"), Json::Str(String::from_str("2.0"))));
            fields.push((String::from_str("id"), id_to_json(id)));
            fields.push((String::from_str("error"), inner_j));
            let j = Json::Obj(fields);
            proof {
                lemma_jview_fields(j->Obj_0@);
                assert(jview_fields(j->Obj_0@) =~= shape->Obj_0);
            }
            j
        },
        RpcResponse::Notify { method, params } => {
            let mut fields: Vec<(String, Json)> = Vec::new();
            fields.push((String::from_str("jsonrpc"), Json::Str(String::from_str("2.0"))));
            fields.push((String::from_str("method"), Json::Str(method)));
            fields.push((String::from_str("params"), params));
            let j = Json::Obj(fields);
            proof {
                lemma_jview_fields(j->Obj_0@);
                assert(jview_fields(j->Obj_0@) =~= shape->Obj_0);
            }
            j
        },
    }
}

/// Render a response as the exact line of text it stands for, without the
/// trailing newline.
pub fn render_response(r: RpcResponse) -> (s: String)
    ensures
        s@ == resp_text(r),
{
    let j = response_to_json(r);
    crate::codec::render_json_m(&j)
}

// ---------------------------------------------------------------------------
// The strict request envelope.
// ---------------------------------------------------------------------------
/// The keys an envelope may carry.
pub open spec fn known_key(k: Seq<char>) -> bool {
    k == "jsonrpc"@ || k == "id"@ || k == "method"@ || k == "params"@
}

/// Whether a parsed value is a well-formed request envelope: an object,
/// every key known and unrepeated, `jsonrpc` and `method` strings.
pub open spec fn envelope_ok(m: JsonM) -> bool {
    &&& m matches JsonM::Obj(fields)
    &&& forall|i: int| 0 <= i < fields.len() ==> known_key((#[trigger] fields[i]).0)
    &&& forall|i: int, k: int|
        0 <= i < k < fields.len() ==> (#[trigger] fields[i]).0 != (#[trigger] fields[k]).0
    &&& field_of(m, "jsonrpc"@) matches Some(JsonM::Str(_))
    &&& field_of(m, "method"@) matches Some(JsonM::Str(_))
}

pub open spec fn req_jsonrpc_of(m: JsonM) -> Seq<char> {
    field_of(m, "jsonrpc"@)->Some_0->Str_0
}

pub open spec fn req_method_of(m: JsonM) -> Seq<char> {
    field_of(m, "method"@)->Some_0->Str_0
}

pub open spec fn req_id_of(m: JsonM) -> Option<JsonM> {
    field_of(m, "id"@)
}

pub open spec fn req_params_of(m: JsonM) -> JsonM {
    match field_of(m, "params"@) {
        Some(p) => p,
        None => JsonM::Null,
    }
}

/// What a slot gathered from the fields of `full` must hold for `key`.
spec fn slot_inv(full: Seq<(String, Json)>, done_from: int, slot: Option<Json>, key: Seq<char>) -> bool {
    match slot {
        Some(val) => exists|i: int|
            done_from <= i < full.len() && (#[trigger] full[i]).0@ == key && full[i].1 == val,
        None => forall|i: int| done_from <= i < full.len() ==> (#[trigger] full[i]).0@ != key,
    }
}

/// With unrepeated keys, a gathered slot is exactly what `field_of` finds.
proof fn lemma_slot_field(full: Seq<(String, Json)>, slot: Option<Json>, key: Seq<char>)
    requires
        forall|p: int, q: int|
            0 <= p < q < full.len() ==> (#[trigger] full[p]).0@ != (#[trigger] full[q]).0@,
        slot_inv(full, 0, slot, key),
    ensures
        match slot {
            Some(val) => field_of(JsonM::Obj(jview_fields(full)), key) == Some(jview(val)),
            None => field_of(JsonM::Obj(jview_fields(full)), key) is None,
        },
{
    lemma_jview_fields(full);
    let jf = jview_fields(full);
    lemma_field_index(jf, key);
    let r = field_index(jf, key);
    match slot {
        Some(val) => {
            let i = choose|i: int|
                0 <= i < full.len() && (#[trigger] full[i]).0@ == key && full[i].1 == val;
            assert(jf[i].0 == key);
            assert(r != -1);
            assert(full[r].0@ == key);
            if r < i {
                assert(full[r].0@ != full[i].0@);
                assert(false);
            } else if i < r {
                assert(full[i].0@ != full[r].0@);
                assert(false);
            }
            assert(jf[r].1 == jview(full[i].1));
        },
        None => {
            if r != -1 {
                assert(jf[r].0 == key);
                assert(full[r].0@ != key);
                assert(false);
            }
        },
    }
}

/// Decode a parsed value as a strict request envelope: exactly the four
/// known fields may appear, each at most once, `jsonrpc` and `method` must
/// be strings, `id` and `params` are optional.
pub fn request_from_json(v: Json) -> (r: Result<RpcRequest, String>)
    ensures
        r matches Ok(req) ==> envelope_ok(jview(v)) && req.jsonrpc@ == req_jsonrpc_of(jview(v))
            && req.method@ == req_method_of(jview(v)) && (match req.id {
            Some(idj) => req_id_of(jview(v)) == Some(jview(idj)),
            None => req_id_of(jview(v)) is None,
        }) && jview(req.params) == req_params_of(jview(v)),
        r is Err ==> !envelope_ok(jview(v)),
{
    let ghost mv = jview(v);
    let mut fields = match v {
        Json::Obj(fields) => fields,
        _ => {
            return Err(String::from_str("request must be an object"));
        },
    };
    let ghost full = fields@;
    proof {
        lemma_jview_fields(full);
        assert(jview(v) == JsonM::Obj(jview_fields(full)));
    }
    let key_jsonrpc = String::from_str("jsonrpc");
    let key_id = String::from_str("id");
    let key_method = String::from_str("method");
    let key_params = String::from_str("params");
    let n = fields.len();
    let mut i: usize = 0;
    while i < n
        invariant
            n == fields@.len(),
            fields@ == full,
            i <= n,
            jview(v) == JsonM::Obj(jview_fields(full)),
            key_jsonrpc@ == "jsonrpc"@,
            key_id@ == "id"@,
            key_method@ == "method"@,
            key_params@ == "params"@,
            forall|p: int| 0 <= p < i ==> known_key((#[trigger] full[p]).0@),
            forall|p: int, q: int|
                0 <= p < q < i ==> (#[trigger] full[p]).0@ != (#[trigger] full[q]).0@,
        decreases n - i,
    {
        let known = fields[i].0 == key_jsonrpc || fields[i].0 == key_id || fields[i].0
            == key_method || fields[i].0 == key_params;
        if !known {
            proof {
                lemma_jview_fields(full);
                assert(jview(v) == JsonM::Obj(jview_fields(full)));
                assert(jview_fields(full)[i as int].0 == full[i as int].0@);
            }
            return Err(String::from_str("unknown field in request"));
        }
        let mut q: usize = 0;
        while q < i
            invariant
                n == fields@.len(),
                fields@ == full,
                q <= i < n,
                jview(v) == JsonM::Obj(jview_fields(full)),
                forall|p: int| 0 <= p < q ==> (#[trigger] full[p]).0@ != full[i as int].0@,
            decreases i - q,
        {
            if fields[q].0 == fields[i].0 {
                proof {
                    lemma_jview_fields(full);
                    assert(jview(v) == JsonM::Obj(jview_fields(full)));
                    assert(jview_fields(full)[q as int].0 == full[q as int].0@);
                    assert(jview_fields(full)[i as int].0 == full[i as int].0@);
                }
                return Err(String::from_str("duplicate field in request"));
            }
            q = q + 1;
        }
        i = i + 1;
    }
    let mut s_jsonrpc: Option<Json> = None;
    let mut s_id: Option<Json> = None;
    let mut s_method: Option<Json> = None;
    let mut s_params: Option<Json> = None;
    while fields.len() > 0
        invariant
            fields@ == full.subrange(0, fields@.len() as int),
            fields@.len() <= full.len(),
            jview(v) == JsonM::Obj(jview_fields(full)),
            key_jsonrpc@ == "jsonrpc"@,
            key_id@ == "id"@,
            key_method@ == "method"@,
            key_params@ == "params"@,
            forall|p: int| 0 <= p < full.len() ==> known_key((#[trigger] full[p]).0@),
            forall|p: int, q: int|
                0 <= p < q < full.len() ==> (#[trigger] full[p]).0@ != (#[trigger] full[q]).0@,
            slot_inv(full, fields@.len() as int, s_jsonrpc, "jsonrpc"@),
            slot_inv(full, fields@.len() as int, s_id, "id"@),
            slot_inv(full, fields@.len() as int, s_method, "method"@),
            slot_inv(full, fields@.len() as int, s_params, "params"@),
        decreases fields@.len(),
    {
        let ghost idx = fields@.len() - 1;
        let kv = fields.pop().unwrap();
        proof {
            reveal_strlit("jsonrpc");
            reveal_strlit("id");
            reveal_strlit("method");
            reveal_strlit("params");
            assert("jsonrpc"@.len() == 7);
            assert("id"@.len() == 2);
            assert("method"@.len() == 6);
            assert("params"@.len() == 6);
            assert("method"@[0] == 'm');
            assert("params"@[0] == 'p');
            assert(full[idx] == kv);
        }
        let (k, val) = kv;
        if k == key_jsonrpc {
            s_jsonrpc = Some(val);
        } else if k == key_id {
            s_id = Some(val);
        } else if k == key_method {
            s_method = Some(val);
        } else if k == key_params {
            s_params = Some(val);
        } else {
            proof {
                assert(known_key(full[idx].0@));
                assert(false);
            }
        }
    }
    proof {
        assert(full.subrange(0, 0) =~= Seq::<(String, Json)>::empty());
        lemma_slot_field(full, s_jsonrpc, "jsonrpc"@);
        lemma_slot_field(full, s_id, "id"@);
        lemma_slot_field(full, s_method, "method"@);
        lemma_slot_field(full, s_params, "params"@);
        lemma_jview_fields(full);
        assert(jview(v) == JsonM::Obj(jview_fields(full)));
        let jf = jview_fields(full);
        assert forall|p: int| 0 <= p < jf.len() implies known_key((#[trigger] jf[p]).0) by {
            assert(jf[p] == (full[p].0@, jview(full[p].1)));
            assert(known_key(full[p].0@));
        }
        assert forall|p: int, q: int|
            0 <= p < q < jf.len() implies (#[trigger] jf[p]).0 != (#[trigger] jf[q]).0 by {
            assert(jf[p] == (full[p].0@, jview(full[p].1)));
            assert(jf[q] == (full[q].0@, jview(full[q].1)));
            assert(full[p].0@ != full[q].0@);
        }
    }
    let js = match s_jsonrpc {
        Some(Json::Str(s)) => s,
        Some(_) => {
            return Err(String::from_str("jsonrpc must be a string"));
        },
        None => {
            return Err(String::from_str("missing field jsonrpc"));
        },
    };
    let ms = match s_method {
        Some(Json::Str(s)) => s,
        Some(_) => {
            return Err(String::from_str("method must be a string"));
        },
        None => {
            return Err(String::from_str("missing field method"));
        },
    };
    let params = match s_params {
        Some(p) => p,
        None => Json::Null,
    };
    Ok(RpcRequest { jsonrpc: js, id: s_id, method: ms, params })
}

// ---------------------------------------------------------------------------
// One line of input.
// ---------------------------------------------------------------------------
/// What one line of input amounts to.
pub enum LineOutcome {
    /// Nothing but blanks: skipped.
    Blank,
    /// A well-formed request.
    Req(RpcRequest),
    /// Malformed: the parse-error report to emit, a reply to nobody.
    Malformed(RpcResponse),
}

/// A character with the Unicode white-space property: what trimming a
/// line treats as blank.
pub open spec fn is_blank_char(c: char) -> bool {
    ||| c == ' '
    ||| c == '\t'
    ||| c == '\n'
    ||| c == '\r'
    ||| c == '\x0b'
    ||| c == '\x0c'
    ||| c == '\u{85}'
    ||| c == '\u{a0}'
    ||| c == '\u{1680}'
    ||| ('\u{2000}' <= c && c <= '\u{200a}')
    ||| c == '\u{2028}'
    ||| c == '\u{2029}'
    ||| c == '\u{202f}'
    ||| c == '\u{205f}'
    ||| c == '\u{3000}'
}

/// Whether a line holds nothing but blanks.
pub open spec fn is_blank_line(s: Seq<char>) -> bool {
    forall|i: int| 0 <= i < s.len() ==> is_blank_char(#[trigger] s[i])
}

fn blank_char(c: char) -> (r: bool)
    ensures
        r == is_blank_char(c),
{
    c == ' ' || c == '\t' || c == '\n' || c == '\r' || c == '\x0b' || c == '\x0c' || c
        == '\u{85}' || c == '\u{a0}' || c == '\u{1680}' || ('\u{2000}' <= c && c <= '\u{200a}')
        || c == '\u{2028}' || c == '\u{2029}' || c == '\u{202f}' || c == '\u{205f}' || c
        == '\u{3000}'
}

fn line_is_blank(cs: &Vec<char>) -> (r: bool)
    ensures
        r == is_blank_line(cs@),
{
    let n = cs.len();
    let mut i: usize = 0;
    while i < n
        invariant
            n == cs@.len(),
            i <= n,
            forall|p: int| 0 <= p < i ==> is_blank_char(#[trigger] cs@[p]),
        decreases n - i,
    {
        if !blank_char(cs[i]) {
            return false;
        }
        i = i + 1;
    }
    true
}

/// Decode one line: blank lines are skipped; anything that does not parse
/// as a well-formed envelope yields a parse-error report with a null id and
/// code -32700; reading always goes on afterwards.
pub fn decode_line(line: &str) -> (r: LineOutcome)
    ensures
        r is Blank <==> is_blank_line(line@),
        r matches LineOutcome::Req(req) ==> {
            &&& spec_parse_text(line@) is Some
            &&& envelope_ok(spec_parse_text(line@)->Some_0)
            &&& req.method@ == req_method_of(spec_parse_text(line@)->Some_0)
            &&& (match req.id {
                Some(idj) => req_id_of(spec_parse_text(line@)->Some_0) == Some(jview(idj)),
                None => req_id_of(spec_parse_text(line@)->Some_0) is None,
            })
            &&& jview(req.params) == req_params_of(spec_parse_text(line@)->Some_0)
        },
        r matches LineOutcome::Malformed(resp) ==> {
            &&& !is_blank_line(line@)
            &&& (spec_parse_text(line@) is None || !envelope_ok(spec_parse_text(line@)->Some_0))
            &&& resp matches RpcResponse::Error { id: RpcId::Null, error }
            &&& error.code == -32700
        },
{
    let cs = crate::text::str_to_chars(line);
    if line_is_blank(&cs) {
        return LineOutcome::Blank;
    }
    match parse_text(line) {
        None => LineOutcome::Malformed(
            RpcResponse::error(
                RpcId::Null,
                -32700,
                String::from_str("Parse error: line is not a JSON value"),
            ),
        ),
        Some(j) => match request_from_json(j) {
            Ok(req) => LineOutcome::Req(req),
            Err(msg) => {
                let mut m = String::from_str("Parse error: ");
                m.append(msg.as_str());
                LineOutcome::Malformed(RpcResponse::error(RpcId::Null, -32700, m))
            },
        },
    }
}

} // verus!
