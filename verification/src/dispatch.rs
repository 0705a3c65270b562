//! The command dispatcher: one request in, one decision out, taken on the
//! thread that owns the registry. What the native toolkit must then do is
//! handed back as an `Action`; everything else is decided here.
use vstd::prelude::*;
use crate::codec::mrender;
use crate::json::{field_of, jview, Json, JsonM};
use crate::params::{
    create_cfg_ok, create_params_ok, dec_create, dec_dialog_filters, dialog_filters_of, f_bool,
    f_i32, f_str, f_u32, filters_view, opt_bool, opt_i32, opt_str, opt_u32, r_bool, r_i32, r_str,
    r_u32, req_bool, req_i32, req_str, req_u32, WindowConfig,
};
use crate::registry::Registry;
use crate::rpc::{spec_id_from, RpcId, RpcRequest, RpcResponse};
use crate::text::str_eq;
use vstd::string::StringExecFns;

verus! {

/// Whether the event loop keeps polling or winds down. Once `Exit` is set
/// it is never taken back.
pub enum Flow {
    Poll,
    Exit,
}

/// A window creation under way: the id was issued, the native build is with
/// the caller, and the reply is owed once it finishes.
pub struct PendingCreate {
    pub rpc_id: RpcId,
    pub id: String,
}

/// The dispatcher's whole state.
pub struct Core {
    pub registry: Registry,
    pub flow: Flow,
    pub pending: Option<PendingCreate>,
}

impl Core {
    pub open spec fn wf(self) -> bool {
        &&& self.registry.wf()
        &&& self.pending matches Some(pc) ==> self.registry.issued_ids().contains(pc.id@)
            && !self.registry.has(pc.id@)
    }

    /// A fresh core: no windows, no pending creation, polling.
    pub fn new() -> (r: Core)
        ensures
            r.wf(),
            r.flow is Poll,
            r.pending is None,
            r.registry.spec_len() == 0,
            r.registry.issued_ids() == Seq::<Seq<char>>::empty(),
    {
        Core { registry: Registry::new(), flow: Flow::Poll, pending: None }
    }
}

/// What the native layer must perform for a decision.
#[allow(inconsistent_fields)]
pub enum Action {
    /// Build a window and its webview as configured; the id and the reply
    /// owed stand in the core's pending slot.
    CreateWindow { cfg: WindowConfig },
    Show { id: String },
    Hide { id: String },
    /// Drop both native handles and hide the window; the registry entry is
    /// already gone.
    Destroy { id: String },
    SetTitle { id: String, title: String },
    SetSize { id: String, width: u32, height: u32 },
    SetMinSize { id: String, width: u32, height: u32 },
    SetMaxSize { id: String, width: u32, height: u32 },
    SetPosition { id: String, x: i32, y: i32 },
    SetBounds { id: String, position: Option<(i32, i32)>, size: Option<(u32, u32)> },
    SetAlwaysOnTop { id: String, value: bool },
    SetResizable { id: String, value: bool },
    SetFullscreen { id: String, value: bool },
    SetDecorations { id: String, value: bool },
    Maximize { id: String },
    Minimize { id: String },
    Unminimize { id: String },
    Unmaximize { id: String },
    Restore { id: String },
    Focus { id: String },
    RequestAttention { id: String, critical: bool },
    SetIcon { rpc_id: RpcId, id: String, path: String },
    Center { rpc_id: RpcId, id: String },
    GetSize { rpc_id: RpcId, id: String },
    GetPosition { rpc_id: RpcId, id: String },
    GetBounds { rpc_id: RpcId, id: String },
    IsVisible { rpc_id: RpcId, id: String },
    IsMaximized { rpc_id: RpcId, id: String },
    IsFullscreen { rpc_id: RpcId, id: String },
    /// Run a script in the page; also carries a message post, already
    /// framed as the script that delivers it.
    Eval { rpc_id: RpcId, id: String, code: String },
    OpenDevtools { id: String },
    Screenshot { rpc_id: RpcId },
    DialogOpen {
        rpc_id: RpcId,
        title: Option<String>,
        directory: bool,
        multiple: bool,
        filters: Vec<(String, Vec<String>)>,
    },
    DialogSave { rpc_id: RpcId, title: Option<String>, file_name: Option<String> },
    ResolvePath { rpc_id: RpcId, kind: PathKind, app_name: String },
    ShellOpen { rpc_id: RpcId, target: String },
    ClipboardWrite { rpc_id: RpcId, text: String },
    ClipboardRead { rpc_id: RpcId },
}

/// The well-known locations `app.getPath` can name.
pub enum PathKind {
    Home,
    Temp,
    AppData,
    UserData,
}

/// One decision: a reply to send now, an out-of-band notification, and an
/// action to perform. Only `window.close` fills more than one slot.
pub struct Step {
    pub reply: Option<RpcResponse>,
    pub notice: Option<RpcResponse>,
    pub action: Option<Action>,
}

/// The operations of the catalog.
#[derive(Clone, Copy)]
pub enum Op {
    CreateWindow,
    Show,
    Hide,
    Close,
    SetIcon,
    Eval,
    Maximize,
    Minimize,
    Unminimize,
    Unmaximize,
    IsMaximized,
    Restore,
    Focus,
    SetTitle,
    SetSize,
    GetSize,
    Center,
    SetAlwaysOnTop,
    SetResizable,
    IsVisible,
    SetFullscreen,
    IsFullscreen,
    SetDecorations,
    SetPosition,
    GetPosition,
    SetBounds,
    GetBounds,
    SetMinSize,
    SetMaxSize,
    RequestAttention,
    Screenshot,
    OpenDevtools,
    PostMessage,
    DialogOpen,
    DialogSave,
    GetPath,
    ShellOpen,
    ClipboardWrite,
    ClipboardRead,
}

/// The fixed method table.
pub open spec fn parse_op(m: Seq<char>) -> Option<Op> {
    if m == "createWindow"@ {
        Some(Op::CreateWindow)
    } else if m == "window.show"@ {
        Some(Op::Show)
    } else if m == "window.hide"@ {
        Some(Op::Hide)
    } else if m == "window.close"@ {
        Some(Op::Close)
    } else if m == "window.setIcon"@ {
        Some(Op::SetIcon)
    } else if m == "webview.eval"@ {
        Some(Op::Eval)
    } else if m == "window.maximize"@ {
        Some(Op::Maximize)
    } else if m == "window.minimize"@ {
        Some(Op::Minimize)
    } else if m == "window.unminimize"@ {
        Some(Op::Unminimize)
    } else if m == "window.unmaximize"@ {
        Some(Op::Unmaximize)
    } else if m == "window.isMaximized"@ {
        Some(Op::IsMaximized)
    } else if m == "window.restore"@ {
        Some(Op::Restore)
    } else if m == "window.focus"@ {
        Some(Op::Focus)
    } else if m == "window.setTitle"@ {
        Some(Op::SetTitle)
    } else if m == "window.setSize"@ {
        Some(Op::SetSize)
    } else if m == "window.getSize"@ {
        Some(Op::GetSize)
    } else if m == "window.center"@ {
        Some(Op::Center)
    } else if m == "window.setAlwaysOnTop"@ {
        Some(Op::SetAlwaysOnTop)
    } else if m == "window.setResizable"@ {
        Some(Op::SetResizable)
    } else if m == "window.isVisible"@ {
        Some(Op::IsVisible)
    } else if m == "window.setFullscreen"@ {
        Some(Op::SetFullscreen)
    } else if m == "window.isFullscreen"@ {
        Some(Op::IsFullscreen)
    } else if m == "window.setDecorations"@ {
        Some(Op::SetDecorations)
    } else if m == "window.setPosition"@ {
        Some(Op::SetPosition)
    } else if m == "window.getPosition"@ {
        Some(Op::GetPosition)
    } else if m == "window.setBounds"@ {
        Some(Op::SetBounds)
    } else if m == "window.getBounds"@ {
        Some(Op::GetBounds)
    } else if m == "window.setMinSize"@ {
        Some(Op::SetMinSize)
    } else if m == "window.setMaxSize"@ {
        Some(Op::SetMaxSize)
    } else if m == "window.requestUserAttention"@ {
        Some(Op::RequestAttention)
    } else if m == "window.screenshot"@ {
        Some(Op::Screenshot)
    } else if m == "webview.openDevtools"@ {
        Some(Op::OpenDevtools)
    } else if m == "webview.postMessage"@ {
        Some(Op::PostMessage)
    } else if m == "dialog.open"@ {
        Some(Op::DialogOpen)
    } else if m == "dialog.save"@ {
        Some(Op::DialogSave)
    } else if m == "app.getPath"@ {
        Some(Op::GetPath)
    } else if m == "shell.openExternal"@ {
        Some(Op::ShellOpen)
    } else if m == "clipboard.writeText"@ {
        Some(Op::ClipboardWrite)
    } else if m == "clipboard.readText"@ {
        Some(Op::ClipboardRead)
    } else {
        None
    }
}

/// The id the reply must carry.
pub open spec fn spec_req_id(req: RpcRequest) -> RpcId {
    match req.id {
        Some(v) => spec_id_from(v),
        None => RpcId::Null,
    }
}

// ---------------------------------------------------------------------------
// What each decision looks like.
// ---------------------------------------------------------------------------
pub open spec fn unchanged(pre: Core, post: Core) -> bool {
    post == pre
}

/// The invalid-parameters report for each operation.
pub open spec fn invalid_params_text(op: Op) -> Seq<char> {
    match op {
        Op::CreateWindow => "invalid parameters for createWindow"@,
        Op::Show => "invalid parameters for window.show"@,
        Op::Hide => "invalid parameters for window.hide"@,
        Op::Close => "invalid parameters for window.close"@,
        Op::SetIcon => "invalid parameters for window.setIcon"@,
        Op::Eval => "invalid parameters for webview.eval"@,
        Op::Maximize => "invalid parameters for window.maximize"@,
        Op::Minimize => "invalid parameters for window.minimize"@,
        Op::Unminimize => "invalid parameters for window.unminimize"@,
        Op::Unmaximize => "invalid parameters for window.unmaximize"@,
        Op::IsMaximized => "invalid parameters for window.isMaximized"@,
        Op::Restore => "invalid parameters for window.restore"@,
        Op::Focus => "invalid parameters for window.focus"@,
        Op::SetTitle => "invalid parameters for window.setTitle"@,
        Op::SetSize => "invalid parameters for window.setSize"@,
        Op::GetSize => "invalid parameters for window.getSize"@,
        Op::Center => "invalid parameters for window.center"@,
        Op::SetAlwaysOnTop => "invalid parameters for window.setAlwaysOnTop"@,
        Op::SetResizable => "invalid parameters for window.setResizable"@,
        Op::IsVisible => "invalid parameters for window.isVisible"@,
        Op::SetFullscreen => "invalid parameters for window.setFullscreen"@,
        Op::IsFullscreen => "invalid parameters for window.isFullscreen"@,
        Op::SetDecorations => "invalid parameters for window.setDecorations"@,
        Op::SetPosition => "invalid parameters for window.setPosition"@,
        Op::GetPosition => "invalid parameters for window.getPosition"@,
        Op::SetBounds => "invalid parameters for window.setBounds"@,
        Op::GetBounds => "invalid parameters for window.getBounds"@,
        Op::SetMinSize => "invalid parameters for window.setMinSize"@,
        Op::SetMaxSize => "invalid parameters for window.setMaxSize"@,
        Op::RequestAttention => "invalid parameters for window.requestUserAttention"@,
        Op::Screenshot => "invalid parameters for window.screenshot"@,
        Op::OpenDevtools => "invalid parameters for webview.openDevtools"@,
        Op::PostMessage => "invalid parameters for webview.postMessage"@,
        Op::DialogOpen => "invalid parameters for dialog.open"@,
        Op::DialogSave => "invalid parameters for dialog.save"@,
        Op::GetPath => "invalid parameters for app.getPath"@,
        Op::ShellOpen => "invalid parameters for shell.openExternal"@,
        Op::ClipboardWrite => "invalid parameters for clipboard.writeText"@,
        Op::ClipboardRead => "invalid parameters for clipboard.readText"@,
    }
}

/// A reply-only step carrying an error with this code.
pub open spec fn err_code(step: Step, rid: RpcId, code: int) -> bool {
    &&& step.action is None
    &&& step.reply matches Some(RpcResponse::Error { id, error }) && id == rid && error.code as int
        == code
}

/// A reply-only step carrying an error with this code and message.
pub open spec fn err_msg(step: Step, rid: RpcId, code: int, msg: Seq<char>) -> bool {
    &&& step.action is None
    &&& step.reply matches Some(RpcResponse::Error { id, error }) && id == rid && error.code as int
        == code && error.message@ == msg
}

/// A reply that reports plain success.
pub open spec fn reply_true(reply: Option<RpcResponse>, rid: RpcId) -> bool {
    reply matches Some(RpcResponse::Result { id, result }) && id == rid && result == Json::Bool(
        true,
    )
}

/// The missing-window reply every per-window operation gives.
pub open spec fn not_found(step: Step, rid: RpcId) -> bool {
    err_msg(step, rid, -32001, "Window not found"@)
}

// Per-operation parameter readings.
pub open spec fn dec_wid(pm: JsonM) -> Option<Seq<char>> {
    r_str(pm, "windowId"@)
}

pub open spec fn dec_wid_value(pm: JsonM) -> Option<(Seq<char>, bool)> {
    match (r_str(pm, "windowId"@), r_bool(pm, "value"@)) {
        (Some(w), Some(v)) => Some((w, v)),
        _ => None,
    }
}

pub open spec fn dec_wid_title(pm: JsonM) -> Option<(Seq<char>, Seq<char>)> {
    match (r_str(pm, "windowId"@), r_str(pm, "title"@)) {
        (Some(w), Some(t)) => Some((w, t)),
        _ => None,
    }
}

pub open spec fn dec_wid_size(pm: JsonM) -> Option<(Seq<char>, u32, u32)> {
    match (r_str(pm, "windowId"@), r_u32(pm, "width"@), r_u32(pm, "height"@)) {
        (Some(w), Some(wd), Some(ht)) => Some((w, wd, ht)),
        _ => None,
    }
}

pub open spec fn dec_wid_pos(pm: JsonM) -> Option<(Seq<char>, i32, i32)> {
    match (r_str(pm, "windowId"@), r_i32(pm, "x"@), r_i32(pm, "y"@)) {
        (Some(w), Some(x), Some(y)) => Some((w, x, y)),
        _ => None,
    }
}

pub open spec fn dec_wid_bounds(pm: JsonM) -> Option<
    (Seq<char>, Option<i32>, Option<i32>, Option<u32>, Option<u32>),
> {
    match (r_str(pm, "windowId"@), f_i32(pm, "x"@), f_i32(pm, "y"@), f_u32(pm, "width"@), f_u32(
        pm,
        "height"@,
    )) {
        (Some(w), Some(x), Some(y), Some(wd), Some(ht)) => Some((w, x, y, wd, ht)),
        _ => None,
    }
}

pub open spec fn dec_wid_code(pm: JsonM) -> Option<(Seq<char>, Seq<char>)> {
    match (r_str(pm, "windowId"@), r_str(pm, "code"@)) {
        (Some(w), Some(c)) => Some((w, c)),
        _ => None,
    }
}

pub open spec fn dec_wid_icon(pm: JsonM) -> Option<(Seq<char>, Seq<char>)> {
    match (r_str(pm, "windowId"@), r_str(pm, "iconPath"@)) {
        (Some(w), Some(p)) => Some((w, p)),
        _ => None,
    }
}

pub open spec fn dec_wid_attention(pm: JsonM) -> Option<(Seq<char>, bool)> {
    match (r_str(pm, "windowId"@), f_bool(pm, "critical"@)) {
        (Some(w), Some(c)) => Some(
            (
                w,
                match c {
                    Some(b) => b,
                    None => false,
                },
            ),
        ),
        _ => None,
    }
}

pub open spec fn dec_wid_payload(pm: JsonM) -> Option<(Seq<char>, JsonM)> {
    match (r_str(pm, "windowId"@), field_of(pm, "payload"@)) {
        (Some(w), Some(p)) => Some((w, p)),
        _ => None,
    }
}

/// The script that posts a message into the page.
pub open spec fn post_message_code(payload: JsonM) -> Seq<char> {
    "window.dispatchEvent(new MessageEvent('message', { data: "@ + mrender(payload) + " }));"@
}

pub open spec fn dec_dialog_open(pm: JsonM) -> Option<
    (Option<Seq<char>>, bool, bool, Seq<(Seq<char>, Seq<Seq<char>>)>),
> {
    match (f_str(pm, "title"@), f_bool(pm, "directory"@), f_bool(pm, "multiple"@),
    dialog_filters_of(pm)) {
        (Some(t), Some(d), Some(m), Some(fs)) => Some(
            (
                t,
                match d {
                    Some(b) => b,
                    None => false,
                },
                match m {
                    Some(b) => b,
                    None => false,
                },
                fs,
            ),
        ),
        _ => None,
    }
}

pub open spec fn dec_dialog_save(pm: JsonM) -> Option<(Option<Seq<char>>, Option<Seq<char>>)> {
    match (f_str(pm, "title"@), f_str(pm, "default_file_name"@)) {
        (Some(t), Some(f)) => Some((t, f)),
        _ => None,
    }
}

/// Which location a path name denotes.
pub open spec fn path_kind_of(name: Seq<char>) -> Option<PathKind> {
    if name == "home"@ {
        Some(PathKind::Home)
    } else if name == "temp"@ {
        Some(PathKind::Temp)
    } else if name == "appData"@ {
        Some(PathKind::AppData)
    } else if name == "userData"@ {
        Some(PathKind::UserData)
    } else {
        None
    }
}

pub open spec fn dec_get_path(pm: JsonM) -> Option<(Seq<char>, Seq<char>)> {
    match (r_str(pm, "name"@), f_str(pm, "app_name"@)) {
        (Some(n), Some(a)) => Some(
            (
                n,
                match a {
                    Some(s) => s,
                    None => "nanoframe-app"@,
                },
            ),
        ),
        _ => None,
    }
}

/// An optional string field matched against an optional owned string.
pub open spec fn opt_text_is(o: Option<Seq<char>>, s: Option<String>) -> bool {
    match (o, s) {
        (Some(a), Some(b)) => a == b@,
        (None, None) => true,
        _ => false,
    }
}

/// What one dispatched request does: how the reply and action relate to the
/// request, and how the state after relates to the state before.
pub open spec fn step_ok(pre: Core, req: RpcRequest, post: Core, step: Step) -> bool {
    let rid = spec_req_id(req);
    let pm = jview(req.params);
    &&& notice_ok(pre, req, step)
    &&& match parse_op(req.method@) {
        None => unchanged(pre, post) && err_msg(step, rid, -32601, "Method not found"@),
        Some(op) => match op {
            Op::CreateWindow => if !create_params_ok(pm) {
                unchanged(pre, post) && err_msg(step, rid, -32602, invalid_params_text(op))
            } else if pre.registry.issued_ids().len() >= u64::MAX {
                unchanged(pre, post) && err_code(step, rid, -32000)
            } else {
                &&& step.reply is None
                &&& step.action matches Some(Action::CreateWindow { cfg }) && create_cfg_ok(
                    pm,
                    cfg,
                )
                &&& post.pending matches Some(pc) && pc.rpc_id == rid
                    && post.registry.issued_ids() == pre.registry.issued_ids().push(pc.id@)
                    && !pre.registry.issued_ids().contains(pc.id@)
                &&& forall|x: Seq<char>| post.registry.has(x) <==> pre.registry.has(x)
                &&& post.registry.spec_len() == pre.registry.spec_len()
                &&& post.registry.live_ids() == pre.registry.live_ids()
                &&& post.flow == pre.flow
            },
            Op::Close => (match dec_wid(pm) {
                None => unchanged(pre, post) && err_msg(step, rid, -32602, invalid_params_text(op)),
                Some(w) => if !pre.registry.has(w) {
                    unchanged(pre, post) && not_found(step, rid)
                } else {
                    &&& reply_true(step.reply, rid)
                    &&& step.action matches Some(Action::Destroy { id }) && id@ == w
                    &&& !post.registry.has(w)
                    &&& forall|x: Seq<char>|
                        x != w ==> (post.registry.has(x) <==> pre.registry.has(x))
                    &&& post.registry.spec_len() + 1 == pre.registry.spec_len()
                    &&& post.registry.issued_ids() == pre.registry.issued_ids()
                    &&& post.pending == pre.pending
                    &&& (post.registry.spec_len() == 0 ==> post.flow is Exit)
                    &&& (post.registry.spec_len() != 0 ==> post.flow == pre.flow)
                },
            }),
            Op::Show => simple_window_step(pre, post, step, rid, pm, op),
            Op::Hide => simple_window_step(pre, post, step, rid, pm, op),
            Op::Maximize => simple_window_step(pre, post, step, rid, pm, op),
            Op::Minimize => simple_window_step(pre, post, step, rid, pm, op),
            Op::Unminimize => simple_window_step(pre, post, step, rid, pm, op),
            Op::Unmaximize => simple_window_step(pre, post, step, rid, pm, op),
            Op::Restore => simple_window_step(pre, post, step, rid, pm, op),
            Op::Focus => simple_window_step(pre, post, step, rid, pm, op),
            Op::OpenDevtools => simple_window_step(pre, post, step, rid, pm, op),
            Op::SetTitle => (match dec_wid_title(pm) {
                None => unchanged(pre, post) && err_msg(step, rid, -32602, invalid_params_text(op)),
                Some((w, t)) => if !pre.registry.has(w) {
                    unchanged(pre, post) && not_found(step, rid)
                } else {
                    unchanged(pre, post) && reply_true(step.reply, rid) && (
                    step.action matches Some(Action::SetTitle { id, title }) && id@ == w && title@
                        == t)
                },
            }),
            Op::SetSize => (match dec_wid_size(pm) {
                None => unchanged(pre, post) && err_msg(step, rid, -32602, invalid_params_text(op)),
                Some((w, wd, ht)) => if !pre.registry.has(w) {
                    unchanged(pre, post) && not_found(step, rid)
                } else {
                    unchanged(pre, post) && reply_true(step.reply, rid) && (
                    step.action matches Some(Action::SetSize { id, width, height }) && id@ == w
                        && width == wd && height == ht)
                },
            }),
            Op::SetMinSize => (match dec_wid_size(pm) {
                None => unchanged(pre, post) && err_msg(step, rid, -32602, invalid_params_text(op)),
                Some((w, wd, ht)) => if !pre.registry.has(w) {
                    unchanged(pre, post) && not_found(step, rid)
                } else {
                    unchanged(pre, post) && reply_true(step.reply, rid) && (
                    step.action matches Some(Action::SetMinSize { id, width, height }) && id@ == w
                        && width == wd && height == ht)
                },
            }),
            Op::SetMaxSize => (match dec_wid_size(pm) {
                None => unchanged(pre, post) && err_msg(step, rid, -32602, invalid_params_text(op)),
                Some((w, wd, ht)) => if !pre.registry.has(w) {
                    unchanged(pre, post) && not_found(step, rid)
                } else {
                    unchanged(pre, post) && reply_true(step.reply, rid) && (
                    step.action matches Some(Action::SetMaxSize { id, width, height }) && id@ == w
                        && width == wd && height == ht)
                },
            }),
            Op::SetPosition => (match dec_wid_pos(pm) {
                None => unchanged(pre, post) && err_msg(step, rid, -32602, invalid_params_text(op)),
                Some((w, px, py)) => if !pre.registry.has(w) {
                    unchanged(pre, post) && not_found(step, rid)
                } else {
                    unchanged(pre, post) && reply_true(step.reply, rid) && (
                    step.action matches Some(Action::SetPosition { id, x, y }) && id@ == w && x
                        == px && y == py)
                },
            }),
            Op::SetBounds => (match dec_wid_bounds(pm) {
                None => unchanged(pre, post) && err_msg(step, rid, -32602, invalid_params_text(op)),
                Some((w, px, py, wd, ht)) => if !pre.registry.has(w) {
                    unchanged(pre, post) && not_found(step, rid)
                } else {
                    unchanged(pre, post) && reply_true(step.reply, rid) && (
                    step.action matches Some(Action::SetBounds { id, position, size }) && id@ == w
                        && position == (match (px, py) {
                        (Some(a), Some(b)) => Some((a, b)),
                        _ => None::<(i32, i32)>,
                    }) && size == (match (wd, ht) {
                        (Some(a), Some(b)) => Some((a, b)),
                        _ => None::<(u32, u32)>,
                    }))
                },
            }),
            Op::SetAlwaysOnTop => (match dec_wid_value(pm) {
                None => unchanged(pre, post) && err_msg(step, rid, -32602, invalid_params_text(op)),
                Some((w, v)) => if !pre.registry.has(w) {
                    unchanged(pre, post) && not_found(step, rid)
                } else {
                    unchanged(pre, post) && reply_true(step.reply, rid) && (
                    step.action matches Some(Action::SetAlwaysOnTop { id, value }) && id@ == w
                        && value == v)
                },
            }),
            Op::SetResizable => (match dec_wid_value(pm) {
                None => unchanged(pre, post) && err_msg(step, rid, -32602, invalid_params_text(op)),
                Some((w, v)) => if !pre.registry.has(w) {
                    unchanged(pre, post) && not_found(step, rid)
                } else {
                    unchanged(pre, post) && reply_true(step.reply, rid) && (
                    step.action matches Some(Action::SetResizable { id, value }) && id@ == w
                        && value == v)
                },
            }),
            Op::SetFullscreen => (match dec_wid_value(pm) {
                None => unchanged(pre, post) && err_msg(step, rid, -32602, invalid_params_text(op)),
                Some((w, v)) => if !pre.registry.has(w) {
                    unchanged(pre, post) && not_found(step, rid)
                } else {
                    unchanged(pre, post) && reply_true(step.reply, rid) && (
                    step.action matches Some(Action::SetFullscreen { id, value }) && id@ == w
                        && value == v)
                },
            }),
            Op::SetDecorations => (match dec_wid_value(pm) {
                None => unchanged(pre, post) && err_msg(step, rid, -32602, invalid_params_text(op)),
                Some((w, v)) => if !pre.registry.has(w) {
                    unchanged(pre, post) && not_found(step, rid)
                } else {
                    unchanged(pre, post) && reply_true(step.reply, rid) && (
                    step.action matches Some(Action::SetDecorations { id, value }) && id@ == w
                        && value == v)
                },
            }),
            Op::RequestAttention => (match dec_wid_attention(pm) {
                None => unchanged(pre, post) && err_msg(step, rid, -32602, invalid_params_text(op)),
                Some((w, c)) => if !pre.registry.has(w) {
                    unchanged(pre, post) && not_found(step, rid)
                } else {
                    unchanged(pre, post) && reply_true(step.reply, rid) && (
                    step.action matches Some(Action::RequestAttention { id, critical }) && id@ == w
                        && critical == c)
                },
            }),
            Op::SetIcon => (match dec_wid_icon(pm) {
                None => unchanged(pre, post) && err_msg(step, rid, -32602, invalid_params_text(op)),
                Some((w, pth)) => if !pre.registry.has(w) {
                    unchanged(pre, post) && not_found(step, rid)
                } else {
                    unchanged(pre, post) && step.reply is None && (
                    step.action matches Some(Action::SetIcon { rpc_id, id, path }) && rpc_id == rid
                        && id@ == w && path@ == pth)
                },
            }),
            Op::Eval => (match dec_wid_code(pm) {
                None => unchanged(pre, post) && err_msg(step, rid, -32602, invalid_params_text(op)),
                Some((w, c)) => if !pre.registry.has(w) {
                    unchanged(pre, post) && not_found(step, rid)
                } else {
                    unchanged(pre, post) && step.reply is None && (
                    step.action matches Some(Action::Eval { rpc_id, id, code }) && rpc_id == rid
                        && id@ == w && code@ == c)
                },
            }),
            Op::PostMessage => (match dec_wid_payload(pm) {
                None => unchanged(pre, post) && err_msg(step, rid, -32602, invalid_params_text(op)),
                Some((w, payload)) => if !pre.registry.has(w) {
                    unchanged(pre, post) && not_found(step, rid)
                } else {
                    unchanged(pre, post) && step.reply is None && (
                    step.action matches Some(Action::Eval { rpc_id, id, code }) && rpc_id == rid
                        && id@ == w && code@ == post_message_code(payload))
                },
            }),
            Op::GetSize => query_window_step(pre, post, step, rid, pm, op),
            Op::GetPosition => query_window_step(pre, post, step, rid, pm, op),
            Op::GetBounds => query_window_step(pre, post, step, rid, pm, op),
            Op::IsVisible => query_window_step(pre, post, step, rid, pm, op),
            Op::IsMaximized => query_window_step(pre, post, step, rid, pm, op),
            Op::IsFullscreen => query_window_step(pre, post, step, rid, pm, op),
            Op::Center => query_window_step(pre, post, step, rid, pm, op),
            Op::Screenshot => (match dec_wid(pm) {
                None => unchanged(pre, post) && err_msg(step, rid, -32602, invalid_params_text(op)),
                Some(w) => if !pre.registry.has(w) {
                    unchanged(pre, post) && not_found(step, rid)
                } else {
                    unchanged(pre, post) && step.reply is None && (
                    step.action matches Some(Action::Screenshot { rpc_id }) && rpc_id == rid)
                },
            }),
            Op::DialogOpen => (match dec_dialog_open(pm) {
                None => unchanged(pre, post) && err_msg(step, rid, -32602, invalid_params_text(op)),
                Some((t, d, m, fs)) => unchanged(pre, post) && step.reply is None && (
                step.action matches Some(
                    Action::DialogOpen { rpc_id, title, directory, multiple, filters },
                ) && rpc_id == rid && opt_text_is(t, title) && directory == d && multiple == m
                    && filters_view(filters@) == fs),
            }),
            Op::DialogSave => (match dec_dialog_save(pm) {
                None => unchanged(pre, post) && err_msg(step, rid, -32602, invalid_params_text(op)),
                Some((t, f)) => unchanged(pre, post) && step.reply is None && (
                step.action matches Some(Action::DialogSave { rpc_id, title, file_name }) && rpc_id
                    == rid && opt_text_is(t, title) && opt_text_is(f, file_name)),
            }),
            Op::GetPath => (match dec_get_path(pm) {
                None => unchanged(pre, post) && err_msg(step, rid, -32602, invalid_params_text(op)),
                Some((name, app)) => (match path_kind_of(name) {
                    None => unchanged(pre, post) && step.action is None && (
                    step.reply matches Some(RpcResponse::Result { id, result }) && id == rid
                        && jview(result) == JsonM::Obj(seq![("path"@, JsonM::Null)])),
                    Some(k) => unchanged(pre, post) && step.reply is None && (
                    step.action matches Some(Action::ResolvePath { rpc_id, kind, app_name })
                        && rpc_id == rid && kind == k && app_name@ == app),
                }),
            }),
            Op::ShellOpen => (match r_str(pm, "target"@) {
                None => unchanged(pre, post) && err_msg(step, rid, -32602, invalid_params_text(op)),
                Some(t) => unchanged(pre, post) && step.reply is None && (
                step.action matches Some(Action::ShellOpen { rpc_id, target }) && rpc_id == rid
                    && target@ == t),
            }),
            Op::ClipboardWrite => (match r_str(pm, "text"@) {
                None => unchanged(pre, post) && err_msg(step, rid, -32602, invalid_params_text(op)),
                Some(t) => unchanged(pre, post) && step.reply is None && (
                step.action matches Some(Action::ClipboardWrite { rpc_id, text }) && rpc_id == rid
                    && text@ == t),
            }),
            Op::ClipboardRead => unchanged(pre, post) && step.reply is None && (
            step.action matches Some(Action::ClipboardRead { rpc_id }) && rpc_id == rid),
        },
    }
}

/// Exactly one `window.closed` notification goes with a performed close;
/// nothing else carries one.
pub open spec fn notice_ok(pre: Core, req: RpcRequest, step: Step) -> bool {
    match parse_op(req.method@) {
        Some(Op::Close) => (match dec_wid(jview(req.params)) {
            Some(w) => if pre.registry.has(w) {
                step.notice matches Some(RpcResponse::Notify { method, params }) && method@
                    == "window.closed"@ && jview(params) == JsonM::Obj(
                    seq![("windowId"@, JsonM::Str(w))],
                )
            } else {
                step.notice is None
            },
            None => step.notice is None,
        }),
        _ => step.notice is None,
    }
}

/// A per-window operation that only pokes the window and reports success.
pub open spec fn simple_window_step(
    pre: Core,
    post: Core,
    step: Step,
    rid: RpcId,
    pm: JsonM,
    op: Op,
) -> bool {
    match dec_wid(pm) {
        None => unchanged(pre, post) && err_msg(step, rid, -32602, invalid_params_text(op)),
        Some(w) => if !pre.registry.has(w) {
            unchanged(pre, post) && not_found(step, rid)
        } else {
            unchanged(pre, post) && reply_true(step.reply, rid) && simple_action_is(
                step.action,
                op,
                w,
            )
        },
    }
}

pub open spec fn simple_action_is(a: Option<Action>, op: Op, w: Seq<char>) -> bool {
    match op {
        Op::Show => a matches Some(Action::Show { id }) && id@ == w,
        Op::Hide => a matches Some(Action::Hide { id }) && id@ == w,
        Op::Maximize => a matches Some(Action::Maximize { id }) && id@ == w,
        Op::Minimize => a matches Some(Action::Minimize { id }) && id@ == w,
        Op::Unminimize => a matches Some(Action::Unminimize { id }) && id@ == w,
        Op::Unmaximize => a matches Some(Action::Unmaximize { id }) && id@ == w,
        Op::Restore => a matches Some(Action::Restore { id }) && id@ == w,
        Op::Focus => a matches Some(Action::Focus { id }) && id@ == w,
        Op::OpenDevtools => a matches Some(Action::OpenDevtools { id }) && id@ == w,
        _ => false,
    }
}

/// A per-window query: the reply waits for what the native side reads.
pub open spec fn query_window_step(
    pre: Core,
    post: Core,
    step: Step,
    rid: RpcId,
    pm: JsonM,
    op: Op,
) -> bool {
    match dec_wid(pm) {
        None => unchanged(pre, post) && err_msg(step, rid, -32602, invalid_params_text(op)),
        Some(w) => if !pre.registry.has(w) {
            unchanged(pre, post) && not_found(step, rid)
        } else {
            unchanged(pre, post) && step.reply is None && query_action_is(step.action, op, rid, w)
        },
    }
}

/// Look a method up in the fixed table.
pub fn op_of_method(m: &str) -> (r: Option<Op>)
    ensures
        r == parse_op(m@),
{
    if str_eq(m, "createWindow") {
        Some(Op::CreateWindow)
    } else if str_eq(m, "window.show") {
        Some(Op::Show)
    } else if str_eq(m, "window.hide") {
        Some(Op::Hide)
    } else if str_eq(m, "window.close") {
        Some(Op::Close)
    } else if str_eq(m, "window.setIcon") {
        Some(Op::SetIcon)
    } else if str_eq(m, "webview.eval") {
        Some(Op::Eval)
    } else if str_eq(m, "window.maximize") {
        Some(Op::Maximize)
    } else if str_eq(m, "window.minimize") {
        Some(Op::Minimize)
    } else if str_eq(m, "window.unminimize") {
        Some(Op::Unminimize)
    } else if str_eq(m, "window.unmaximize") {
        Some(Op::Unmaximize)
    } else if str_eq(m, "window.isMaximized") {
        Some(Op::IsMaximized)
    } else if str_eq(m, "window.restore") {
        Some(Op::Restore)
    } else if str_eq(m, "window.focus") {
        Some(Op::Focus)
    } else if str_eq(m, "window.setTitle") {
        Some(Op::SetTitle)
    } else if str_eq(m, "window.setSize") {
        Some(Op::SetSize)
    } else if str_eq(m, "window.getSize") {
        Some(Op::GetSize)
    } else if str_eq(m, "window.center") {
        Some(Op::Center)
    } else if str_eq(m, "window.setAlwaysOnTop") {
        Some(Op::SetAlwaysOnTop)
    } else if str_eq(m, "window.setResizable") {
        Some(Op::SetResizable)
    } else if str_eq(m, "window.isVisible") {
        Some(Op::IsVisible)
    } else if str_eq(m, "window.setFullscreen") {
        Some(Op::SetFullscreen)
    } else if str_eq(m, "window.isFullscreen") {
        Some(Op::IsFullscreen)
    } else if str_eq(m, "window.setDecorations") {
        Some(Op::SetDecorations)
    } else if str_eq(m, "window.setPosition") {
        Some(Op::SetPosition)
    } else if str_eq(m, "window.getPosition") {
        Some(Op::GetPosition)
    } else if str_eq(m, "window.setBounds") {
        Some(Op::SetBounds)
    } else if str_eq(m, "window.getBounds") {
        Some(Op::GetBounds)
    } else if str_eq(m, "window.setMinSize") {
        Some(Op::SetMinSize)
    } else if str_eq(m, "window.setMaxSize") {
        Some(Op::SetMaxSize)
    } else if str_eq(m, "window.requestUserAttention") {
        Some(Op::RequestAttention)
    } else if str_eq(m, "window.screenshot") {
        Some(Op::Screenshot)
    } else if str_eq(m, "webview.openDevtools") {
        Some(Op::OpenDevtools)
    } else if str_eq(m, "webview.postMessage") {
        Some(Op::PostMessage)
    } else if str_eq(m, "dialog.open") {
        Some(Op::DialogOpen)
    } else if str_eq(m, "dialog.save") {
        Some(Op::DialogSave)
    } else if str_eq(m, "app.getPath") {
        Some(Op::GetPath)
    } else if str_eq(m, "shell.openExternal") {
        Some(Op::ShellOpen)
    } else if str_eq(m, "clipboard.writeText") {
        Some(Op::ClipboardWrite)
    } else if str_eq(m, "clipboard.readText") {
        Some(Op::ClipboardRead)
    } else {
        None
    }
}

/// The invalid-parameters reply for an operation.
fn bad_params(rid: RpcId, op: Op) -> (s: Step)
    ensures
        err_msg(s, rid, -32602, invalid_params_text(op)),
        s.action is None,
        s.notice is None,
{
    match op {
        Op::CreateWindow => err_step(
            rid,
            -32602,
            "invalid parameters for createWindow",
        ),
        Op::Show => err_step(
            rid,
            -32602,
            "invalid parameters for window.show",
        ),
        Op::Hide => err_step(
            rid,
            -32602,
            "invalid parameters for window.hide",
        ),
        Op::Close => err_step(
            rid,
            -32602,
            "invalid parameters for window.close",
        ),
        Op::SetIcon => err_step(
            rid,
            -32602,
            "invalid parameters for window.setIcon",
        ),
        Op::Eval => err_step(
            rid,
            -32602,
            "invalid parameters for webview.eval",
        ),
        Op::Maximize => err_step(
            rid,
            -32602,
            "invalid parameters for window.maximize",
        ),
        Op::Minimize => err_step(
            rid,
            -32602,
            "invalid parameters for window.minimize",
        ),
        Op::Unminimize => err_step(
            rid,
            -32602,
            "invalid parameters for window.unminimize",
        ),
        Op::Unmaximize => err_step(
            rid,
            -32602,
            "invalid parameters for window.unmaximize",
        ),
        Op::IsMaximized => err_step(
            rid,
            -32602,
            "invalid parameters for window.isMaximized",
        ),
        Op::Restore => err_step(
            rid,
            -32602,
            "invalid parameters for window.restore",
        ),
        Op::Focus => err_step(
            rid,
            -32602,
            "invalid parameters for window.focus",
        ),
        Op::SetTitle => err_step(
            rid,
            -32602,
            "invalid parameters for window.setTitle",
        ),
        Op::SetSize => err_step(
            rid,
            -32602,
            "invalid parameters for window.setSize",
        ),
        Op::GetSize => err_step(
            rid,
            -32602,
            "invalid parameters for window.getSize",
        ),
        Op::Center => err_step(
            rid,
            -32602,
            "invalid parameters for window.center",
        ),
        Op::SetAlwaysOnTop => err_step(
            rid,
            -32602,
            "invalid parameters for window.setAlwaysOnTop",
        ),
        Op::SetResizable => err_step(
            rid,
            -32602,
            "invalid parameters for window.setResizable",
        ),
        Op::IsVisible => err_step(
            rid,
            -32602,
            "invalid parameters for window.isVisible",
        ),
        Op::SetFullscreen => err_step(
            rid,
            -32602,
            "invalid parameters for window.setFullscreen",
        ),
        Op::IsFullscreen => err_step(
            rid,
            -32602,
            "invalid parameters for window.isFullscreen",
        ),
        Op::SetDecorations => err_step(
            rid,
            -32602,
            "invalid parameters for window.setDecorations",
        ),
        Op::SetPosition => err_step(
            rid,
            -32602,
            "invalid parameters for window.setPosition",
        ),
        Op::GetPosition => err_step(
            rid,
            -32602,
            "invalid parameters for window.getPosition",
        ),
        Op::SetBounds => err_step(
            rid,
            -32602,
            "invalid parameters for window.setBounds",
        ),
        Op::GetBounds => err_step(
            rid,
            -32602,
            "invalid parameters for window.getBounds",
        ),
        Op::SetMinSize => err_step(
            rid,
            -32602,
            "invalid parameters for window.setMinSize",
        ),
        Op::SetMaxSize => err_step(
            rid,
            -32602,
            "invalid parameters for window.setMaxSize",
        ),
        Op::RequestAttention => err_step(
            rid,
            -32602,
            "invalid parameters for window.requestUserAttention",
        ),
        Op::Screenshot => err_step(
            rid,
            -32602,
            "invalid parameters for window.screenshot",
        ),
        Op::OpenDevtools => err_step(
            rid,
            -32602,
            "invalid parameters for webview.openDevtools",
        ),
        Op::PostMessage => err_step(
            rid,
            -32602,
            "invalid parameters for webview.postMessage",
        ),
        Op::DialogOpen => err_step(
            rid,
            -32602,
            "invalid parameters for dialog.open",
        ),
        Op::DialogSave => err_step(
            rid,
            -32602,
            "invalid parameters for dialog.save",
        ),
        Op::GetPath => err_step(
            rid,
            -32602,
            "invalid parameters for app.getPath",
        ),
        Op::ShellOpen => err_step(
            rid,
            -32602,
            "invalid parameters for shell.openExternal",
        ),
        Op::ClipboardWrite => err_step(
            rid,
            -32602,
            "invalid parameters for clipboard.writeText",
        ),
        Op::ClipboardRead => err_step(
            rid,
            -32602,
            "invalid parameters for clipboard.readText",
        ),
    }
}

fn err_step(rid: RpcId, code: i32, msg: &str) -> (s: Step)
    ensures
        err_msg(s, rid, code as int, msg@),
        err_code(s, rid, code as int),
        s.action is None,
        s.notice is None,
{
    Step {
        reply: Some(RpcResponse::error(rid, code, String::from_str(msg))),
        notice: None,
        action: None,
    }
}

fn ok_true_step(rid: RpcId, action: Action) -> (s: Step)
    ensures
        reply_true(s.reply, rid),
        s.action == Some(action),
        s.notice is None,
{
    Step {
        reply: Some(RpcResponse::result(rid, Json::Bool(true))),
        notice: None,
        action: Some(action),
    }
}

fn act_step(action: Action) -> (s: Step)
    ensures
        s.reply is None,
        s.action == Some(action),
        s.notice is None,
{
    Step { reply: None, notice: None, action: Some(action) }
}

/// Decode, route and decide one request, exactly as `step_ok` says.
pub fn handle_request(core: &mut Core, req: RpcRequest) -> (step: Step)
    requires
        old(core).wf(),
    ensures
        final(core).wf(),
        step_ok(*old(core), req, *final(core), step),
        old(core).flow is Exit ==> final(core).flow is Exit,
{
    let ghost req0 = req;
    let RpcRequest { jsonrpc: _tag, id, method, params } = req;
    let rid = match id {
        Some(v) => RpcId::from_value(v),
        None => RpcId::Null,
    };
    proof {
        assert(rid == spec_req_id(req0));
        assert(params == req0.params);
        assert(method@ == req0.method@);
    }
    let op = match op_of_method(method.as_str()) {
        None => {
            return err_step(rid, -32601, "Method not found");
        },
        Some(op) => op,
    };
    match op {
        Op::CreateWindow => {
            let cfg = match dec_create(&params) {
                Ok(cfg) => cfg,
                Err(_) => {
                    return bad_params(rid, op);
                },
            };
            if core.registry.issued_count() == u64::MAX {
                return err_step(rid, -32000, "window id space exhausted");
            }
            let wid = core.registry.issue_id();
            let ghost widv = wid@;
            core.pending = Some(PendingCreate { rpc_id: rid, id: wid });
            proof {
                crate::registry::lemma_live_issued(old(core).registry);
                assert(core.registry.issued_ids().last() == widv);
                assert(core.registry.issued_ids().contains(widv));
                assert(!old(core).registry.has(widv));
            }
            act_step(Action::CreateWindow { cfg })
        },
        Op::Close => {
            let w = match req_str(&params, "windowId") {
                Ok(w) => w,
                Err(_) => {
                    return bad_params(rid, op);
                },
            };
            if !core.registry.contains_id(w.as_str()) {
                return err_step(rid, -32001, "Window not found");
            }
            let _removed = core.registry.remove(w.as_str());
            if core.registry.is_empty() {
                core.flow = Flow::Exit;
            }
            proof {
                if old(core).pending is Some {
                    let pc = old(core).pending->Some_0;
                    assert(!old(core).registry.has(pc.id@));
                    assert(pc.id@ != w@);
                    assert(!core.registry.has(pc.id@));
                }
            }
            let gone = w.clone();
            let notice = RpcResponse::notify(
                "window.closed",
                crate::reply::str_field_obj("windowId", gone),
            );
            Step {
                reply: Some(RpcResponse::result(rid, Json::Bool(true))),
                notice: Some(notice),
                action: Some(Action::Destroy { id: w }),
            }
        },
        Op::Show => simple_window(core, &params, rid, op),
        Op::Hide => simple_window(core, &params, rid, op),
        Op::Maximize => simple_window(core, &params, rid, op),
        Op::Minimize => simple_window(core, &params, rid, op),
        Op::Unminimize => simple_window(core, &params, rid, op),
        Op::Unmaximize => simple_window(core, &params, rid, op),
        Op::Restore => simple_window(core, &params, rid, op),
        Op::Focus => simple_window(core, &params, rid, op),
        Op::OpenDevtools => simple_window(core, &params, rid, op),
        Op::GetSize => query_window(core, &params, rid, op),
        Op::GetPosition => query_window(core, &params, rid, op),
        Op::GetBounds => query_window(core, &params, rid, op),
        Op::IsVisible => query_window(core, &params, rid, op),
        Op::IsMaximized => query_window(core, &params, rid, op),
        Op::IsFullscreen => query_window(core, &params, rid, op),
        Op::Center => query_window(core, &params, rid, op),
        Op::SetTitle => {
            let w = match req_str(&params, "windowId") {
                Ok(w) => w,
                Err(_) => {
                    return bad_params(rid, op);
                },
            };
            let t = match req_str(&params, "title") {
                Ok(t) => t,
                Err(_) => {
                    return bad_params(rid, op);
                },
            };
            if !core.registry.contains_id(w.as_str()) {
                return err_step(rid, -32001, "Window not found");
            }
            ok_true_step(rid, Action::SetTitle { id: w, title: t })
        },
        Op::SetSize => {
            match dec_size_args(&params) {
                Err(_) => bad_params(rid, op),
                Ok((w, wd, ht)) => {
                    if !core.registry.contains_id(w.as_str()) {
                        return err_step(rid, -32001, "Window not found");
                    }
                    ok_true_step(rid, Action::SetSize { id: w, width: wd, height: ht })
                },
            }
        },
        Op::SetMinSize => {
            match dec_size_args(&params) {
                Err(_) => bad_params(rid, op),
                Ok((w, wd, ht)) => {
                    if !core.registry.contains_id(w.as_str()) {
                        return err_step(rid, -32001, "Window not found");
                    }
                    ok_true_step(rid, Action::SetMinSize { id: w, width: wd, height: ht })
                },
            }
        },
        Op::SetMaxSize => {
            match dec_size_args(&params) {
                Err(_) => bad_params(rid, op),
                Ok((w, wd, ht)) => {
                    if !core.registry.contains_id(w.as_str()) {
                        return err_step(rid, -32001, "Window not found");
                    }
                    ok_true_step(rid, Action::SetMaxSize { id: w, width: wd, height: ht })
                },
            }
        },
        Op::SetPosition => {
            let w = match req_str(&params, "windowId") {
                Ok(w) => w,
                Err(_) => {
                    return bad_params(rid, op);
                },
            };
            let x = match req_i32(&params, "x") {
                Ok(v) => v,
                Err(_) => {
                    return bad_params(rid, op);
                },
            };
            let y = match req_i32(&params, "y") {
                Ok(v) => v,
                Err(_) => {
                    return bad_params(rid, op);
                },
            };
            if !core.registry.contains_id(w.as_str()) {
                return err_step(rid, -32001, "Window not found");
            }
            ok_true_step(rid, Action::SetPosition { id: w, x, y })
        },
        Op::SetBounds => {
            let w = match req_str(&params, "windowId") {
                Ok(w) => w,
                Err(_) => {
                    return bad_params(rid, op);
                },
            };
            let x = match opt_i32(&params, "x") {
                Ok(v) => v,
                Err(_) => {
                    return bad_params(rid, op);
                },
            };
            let y = match opt_i32(&params, "y") {
                Ok(v) => v,
                Err(_) => {
                    return bad_params(rid, op);
                },
            };
            let wd = match opt_u32(&params, "width") {
                Ok(v) => v,
                Err(_) => {
                    return bad_params(rid, op);
                },
            };
            let ht = match opt_u32(&params, "height") {
                Ok(v) => v,
                Err(_) => {
                    return bad_params(rid, op);
                },
            };
            if !core.registry.contains_id(w.as_str()) {
                return err_step(rid, -32001, "Window not found");
            }
            let position = match (x, y) {
                (Some(a), Some(b)) => Some((a, b)),
                _ => None,
            };
            let size = match (wd, ht) {
                (Some(a), Some(b)) => Some((a, b)),
                _ => None,
            };
            ok_true_step(rid, Action::SetBounds { id: w, position, size })
        },
        Op::SetAlwaysOnTop => {
            match dec_value_args(&params) {
                Err(_) => bad_params(rid, op),
                Ok((w, v)) => {
                    if !core.registry.contains_id(w.as_str()) {
                        return err_step(rid, -32001, "Window not found");
                    }
                    ok_true_step(rid, Action::SetAlwaysOnTop { id: w, value: v })
                },
            }
        },
        Op::SetResizable => {
            match dec_value_args(&params) {
                Err(_) => bad_params(rid, op),
                Ok((w, v)) => {
                    if !core.registry.contains_id(w.as_str()) {
                        return err_step(rid, -32001, "Window not found");
                    }
                    ok_true_step(rid, Action::SetResizable { id: w, value: v })
                },
            }
        },
        Op::SetFullscreen => {
            match dec_value_args(&params) {
                Err(_) => bad_params(rid, op),
                Ok((w, v)) => {
                    if !core.registry.contains_id(w.as_str()) {
                        return err_step(rid, -32001, "Window not found");
                    }
                    ok_true_step(rid, Action::SetFullscreen { id: w, value: v })
                },
            }
        },
        Op::SetDecorations => {
            match dec_value_args(&params) {
                Err(_) => bad_params(rid, op),
                Ok((w, v)) => {
                    if !core.registry.contains_id(w.as_str()) {
                        return err_step(rid, -32001, "Window not found");
                    }
                    ok_true_step(rid, Action::SetDecorations { id: w, value: v })
                },
            }
        },
        Op::RequestAttention => {
            let w = match req_str(&params, "windowId") {
                Ok(w) => w,
                Err(_) => {
                    return bad_params(rid, op);
                },
            };
            let c = match opt_bool(&params, "critical") {
                Ok(v) => v,
                Err(_) => {
                    return bad_params(rid, op);
                },
            };
            if !core.registry.contains_id(w.as_str()) {
                return err_step(rid, -32001, "Window not found");
            }
            let critical = match c {
                Some(b) => b,
                None => false,
            };
            ok_true_step(rid, Action::RequestAttention { id: w, critical })
        },
        Op::SetIcon => {
            let w = match req_str(&params, "windowId") {
                Ok(w) => w,
                Err(_) => {
                    return bad_params(rid, op);
                },
            };
            let pth = match req_str(&params, "iconPath") {
                Ok(p) => p,
                Err(_) => {
                    return bad_params(rid, op);
                },
            };
            if !core.registry.contains_id(w.as_str()) {
                return err_step(rid, -32001, "Window not found");
            }
            act_step(Action::SetIcon { rpc_id: rid, id: w, path: pth })
        },
        Op::Eval => {
            let w = match req_str(&params, "windowId") {
                Ok(w) => w,
                Err(_) => {
                    return bad_params(rid, op);
                },
            };
            let c = match req_str(&params, "code") {
                Ok(c) => c,
                Err(_) => {
                    return bad_params(rid, op);
                },
            };
            if !core.registry.contains_id(w.as_str()) {
                return err_step(rid, -32001, "Window not found");
            }
            act_step(Action::Eval { rpc_id: rid, id: w, code: c })
        },
        Op::PostMessage => {
            let w = match req_str(&params, "windowId") {
                Ok(w) => w,
                Err(_) => {
                    return bad_params(rid, op);
                },
            };
            let payload = match crate::params::get_field(&params, "payload") {
                Some(p) => p,
                None => {
                    return bad_params(rid, op);
                },
            };
            let code = build_post_message_code(payload);
            if !core.registry.contains_id(w.as_str()) {
                return err_step(rid, -32001, "Window not found");
            }
            act_step(Action::Eval { rpc_id: rid, id: w, code })
        },
        Op::Screenshot => {
            let w = match req_str(&params, "windowId") {
                Ok(w) => w,
                Err(_) => {
                    return bad_params(rid, op);
                },
            };
            if !core.registry.contains_id(w.as_str()) {
                return err_step(rid, -32001, "Window not found");
            }
            act_step(Action::Screenshot { rpc_id: rid })
        },
        Op::DialogOpen => {
            let title = match opt_str(&params, "title") {
                Ok(v) => v,
                Err(_) => {
                    return bad_params(rid, op);
                },
            };
            let directory = match opt_bool(&params, "directory") {
                Ok(v) => v,
                Err(_) => {
                    return bad_params(rid, op);
                },
            };
            let multiple = match opt_bool(&params, "multiple") {
                Ok(v) => v,
                Err(_) => {
                    return bad_params(rid, op);
                },
            };
            let filters = match dec_dialog_filters(&params) {
                Ok(v) => v,
                Err(_) => {
                    return bad_params(rid, op);
                },
            };
            let d = match directory {
                Some(b) => b,
                None => false,
            };
            let m = match multiple {
                Some(b) => b,
                None => false,
            };
            act_step(Action::DialogOpen { rpc_id: rid, title, directory: d, multiple: m, filters })
        },
        Op::DialogSave => {
            let title = match opt_str(&params, "title") {
                Ok(v) => v,
                Err(_) => {
                    return bad_params(rid, op);
                },
            };
            let file_name = match opt_str(&params, "default_file_name") {
                Ok(v) => v,
                Err(_) => {
                    return bad_params(rid, op);
                },
            };
            act_step(Action::DialogSave { rpc_id: rid, title, file_name })
        },
        Op::GetPath => {
            let name = match req_str(&params, "name") {
                Ok(v) => v,
                Err(_) => {
                    return bad_params(rid, op);
                },
            };
            let app_name = match opt_str(&params, "app_name") {
                Ok(v) => v,
                Err(_) => {
                    return bad_params(rid, op);
                },
            };
            let app = match app_name {
                Some(s) => s,
                None => String::from_str("nanoframe-app"),
            };
            match path_kind_e(name.as_str()) {
                None => {
                    let mut fields: Vec<(String, Json)> = Vec::new();
                    fields.push((String::from_str("path"), Json::Null));
                    let result = Json::Obj(fields);
                    proof {
                        crate::json::lemma_jview_fields(result->Obj_0@);
                        assert(crate::json::jview_fields(result->Obj_0@) =~= seq![
                            ("path"@, JsonM::Null),
                        ]);
                    }
                    Step {
                        reply: Some(RpcResponse::result(rid, result)),
                        notice: None,
                        action: None,
                    }
                },
                Some(kind) => act_step(
                    Action::ResolvePath { rpc_id: rid, kind, app_name: app },
                ),
            }
        },
        Op::ShellOpen => {
            let target = match req_str(&params, "target") {
                Ok(v) => v,
                Err(_) => {
                    return bad_params(rid, op);
                },
            };
            act_step(Action::ShellOpen { rpc_id: rid, target })
        },
        Op::ClipboardWrite => {
            let text = match req_str(&params, "text") {
                Ok(v) => v,
                Err(_) => {
                    return bad_params(rid, op);
                },
            };
            act_step(Action::ClipboardWrite { rpc_id: rid, text })
        },
        Op::ClipboardRead => act_step(Action::ClipboardRead { rpc_id: rid }),
    }
}

fn dec_size_args(params: &Json) -> (r: Result<(String, u32, u32), ()>)
    ensures
        r matches Ok((w, wd, ht)) ==> dec_wid_size(jview(*params)) == Some((w@, wd, ht)),
        r is Err ==> dec_wid_size(jview(*params)) is None,
{
    let w = match req_str(params, "windowId") {
        Ok(w) => w,
        Err(_) => {
            return Err(());
        },
    };
    let wd = match req_u32(params, "width") {
        Ok(v) => v,
        Err(_) => {
            return Err(());
        },
    };
    let ht = match req_u32(params, "height") {
        Ok(v) => v,
        Err(_) => {
            return Err(());
        },
    };
    Ok((w, wd, ht))
}

fn dec_value_args(params: &Json) -> (r: Result<(String, bool), ()>)
    ensures
        r matches Ok((w, v)) ==> dec_wid_value(jview(*params)) == Some((w@, v)),
        r is Err ==> dec_wid_value(jview(*params)) is None,
{
    let w = match req_str(params, "windowId") {
        Ok(w) => w,
        Err(_) => {
            return Err(());
        },
    };
    let v = match req_bool(params, "value") {
        Ok(v) => v,
        Err(_) => {
            return Err(());
        },
    };
    Ok((w, v))
}

/// The script that delivers a posted message into the page.
fn build_post_message_code(payload: &Json) -> (code: String)
    ensures
        code@ == post_message_code(jview(*payload)),
{
    let mut out: Vec<char> = Vec::new();
    crate::codec::push_str_chars(
        "window.dispatchEvent(new MessageEvent('message', { data: ",
        &mut out,
    );
    let rendered = crate::codec::render_json_m(payload);
    crate::codec::push_str_chars(rendered.as_str(), &mut out);
    crate::codec::push_str_chars(" }));", &mut out);
    crate::text::chars_to_string(&out)
}

/// Truncating halving, as the platform's signed division rounds.
pub open spec fn half_toward_zero(v: int) -> int {
    if v >= 0 {
        v / 2
    } else {
        -((-v) / 2)
    }
}

pub open spec fn clamp_i32(v: int) -> int {
    if v < i32::MIN {
        i32::MIN as int
    } else if v > i32::MAX {
        i32::MAX as int
    } else {
        v
    }
}

/// Where a window's corner goes to center it on its monitor: the monitor
/// origin plus half the free space, on each axis.
pub fn center_position(mx: i32, my: i32, mw: u32, mh: u32, ww: u32, wh: u32) -> (r: (i32, i32))
    ensures
        r.0 as int == clamp_i32(mx as int + half_toward_zero(mw as int - ww as int)),
        r.1 as int == clamp_i32(my as int + half_toward_zero(mh as int - wh as int)),
{
    let x = clamp_to_i32((mx as i64) + ((mw as i64) - (ww as i64)) / 2);
    let y = clamp_to_i32((my as i64) + ((mh as i64) - (wh as i64)) / 2);
    (x, y)
}

fn clamp_to_i32(v: i64) -> (r: i32)
    ensures
        r as int == clamp_i32(v as int),
{
    if v < (i32::MIN as i64) {
        i32::MIN
    } else if v > (i32::MAX as i64) {
        i32::MAX
    } else {
        v as i32
    }
}

/// Which location a path name denotes.
fn path_kind_e(name: &str) -> (r: Option<PathKind>)
    ensures
        r == path_kind_of(name@),
{
    if str_eq(name, "home") {
        Some(PathKind::Home)
    } else if str_eq(name, "temp") {
        Some(PathKind::Temp)
    } else if str_eq(name, "appData") {
        Some(PathKind::AppData)
    } else if str_eq(name, "userData") {
        Some(PathKind::UserData)
    } else {
        None
    }
}

fn simple_window(core: &mut Core, params: &Json, rid: RpcId, op: Op) -> (step: Step)
    requires
        old(core).wf(),
        op is Show || op is Hide || op is Maximize || op is Minimize || op is Unminimize
            || op is Unmaximize || op is Restore || op is Focus || op is OpenDevtools,
    ensures
        final(core).wf(),
        *final(core) == *old(core),
        step.notice is None,
        simple_window_step(*old(core), *final(core), step, rid, jview(*params), op),
{
    let w = match req_str(params, "windowId") {
        Ok(w) => w,
        Err(_) => {
            return bad_params(rid, op);
        },
    };
    if !core.registry.contains_id(w.as_str()) {
        return err_step(rid, -32001, "Window not found");
    }
    let action = match op {
        Op::Show => Action::Show { id: w },
        Op::Hide => Action::Hide { id: w },
        Op::Maximize => Action::Maximize { id: w },
        Op::Minimize => Action::Minimize { id: w },
        Op::Unminimize => Action::Unminimize { id: w },
        Op::Unmaximize => Action::Unmaximize { id: w },
        Op::Restore => Action::Restore { id: w },
        Op::Focus => Action::Focus { id: w },
        _ => Action::OpenDevtools { id: w },
    };
    ok_true_step(rid, action)
}

fn query_window(core: &mut Core, params: &Json, rid: RpcId, op: Op) -> (step: Step)
    requires
        old(core).wf(),
        op is GetSize || op is GetPosition || op is GetBounds || op is IsVisible
            || op is IsMaximized || op is IsFullscreen || op is Center,
    ensures
        final(core).wf(),
        *final(core) == *old(core),
        step.notice is None,
        query_window_step(*old(core), *final(core), step, rid, jview(*params), op),
{
    let w = match req_str(params, "windowId") {
        Ok(w) => w,
        Err(_) => {
            return bad_params(rid, op);
        },
    };
    if !core.registry.contains_id(w.as_str()) {
        return err_step(rid, -32001, "Window not found");
    }
    let action = match op {
        Op::GetSize => Action::GetSize { rpc_id: rid, id: w },
        Op::GetPosition => Action::GetPosition { rpc_id: rid, id: w },
        Op::GetBounds => Action::GetBounds { rpc_id: rid, id: w },
        Op::IsVisible => Action::IsVisible { rpc_id: rid, id: w },
        Op::IsMaximized => Action::IsMaximized { rpc_id: rid, id: w },
        Op::IsFullscreen => Action::IsFullscreen { rpc_id: rid, id: w },
        _ => Action::Center { rpc_id: rid, id: w },
    };
    act_step(action)
}

pub open spec fn query_action_is(a: Option<Action>, op: Op, rid: RpcId, w: Seq<char>) -> bool {
    match op {
        Op::GetSize => a matches Some(Action::GetSize { rpc_id, id }) && rpc_id == rid && id@ == w,
        Op::GetPosition => a matches Some(Action::GetPosition { rpc_id, id }) && rpc_id == rid
            && id@ == w,
        Op::GetBounds => a matches Some(Action::GetBounds { rpc_id, id }) && rpc_id == rid && id@
            == w,
        Op::IsVisible => a matches Some(Action::IsVisible { rpc_id, id }) && rpc_id == rid && id@
            == w,
        Op::IsMaximized => a matches Some(Action::IsMaximized { rpc_id, id }) && rpc_id == rid
            && id@ == w,
        Op::IsFullscreen => a matches Some(Action::IsFullscreen { rpc_id, id }) && rpc_id == rid
            && id@ == w,
        Op::Center => a matches Some(Action::Center { rpc_id, id }) && rpc_id == rid && id@ == w,
        _ => false,
    }
}

} // verus!
