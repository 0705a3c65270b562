//! The dispatch guarantees, stated on their own: what every request is
//! owed, whatever else the process is doing.
use vstd::prelude::*;
use crate::dispatch::{
    dec_wid, dec_wid_attention, dec_wid_bounds, dec_wid_code, dec_wid_icon, dec_wid_payload,
    dec_wid_pos, dec_wid_size, dec_wid_title, dec_wid_value, err_msg, not_found, parse_op,
    spec_req_id, step_ok, Action, Core, Op, Step,
};
use crate::json::{jview, JsonM};
use crate::rpc::{RpcRequest, RpcResponse};

verus! {

/// The window a per-window operation addresses, when its parameters
/// decode; nothing for the operations that address no window.
pub open spec fn window_target(op: Op, pm: JsonM) -> Option<Seq<char>> {
    match op {
        Op::Show => dec_wid(pm),
        Op::Hide => dec_wid(pm),
        Op::Close => dec_wid(pm),
        Op::Maximize => dec_wid(pm),
        Op::Minimize => dec_wid(pm),
        Op::Unminimize => dec_wid(pm),
        Op::Unmaximize => dec_wid(pm),
        Op::Restore => dec_wid(pm),
        Op::Focus => dec_wid(pm),
        Op::OpenDevtools => dec_wid(pm),
        Op::GetSize => dec_wid(pm),
        Op::GetPosition => dec_wid(pm),
        Op::GetBounds => dec_wid(pm),
        Op::IsVisible => dec_wid(pm),
        Op::IsMaximized => dec_wid(pm),
        Op::IsFullscreen => dec_wid(pm),
        Op::Center => dec_wid(pm),
        Op::Screenshot => dec_wid(pm),
        Op::SetTitle => match dec_wid_title(pm) {
            Some(d) => Some(d.0),
            None => None,
        },
        Op::SetSize => match dec_wid_size(pm) {
            Some(d) => Some(d.0),
            None => None,
        },
        Op::SetMinSize => match dec_wid_size(pm) {
            Some(d) => Some(d.0),
            None => None,
        },
        Op::SetMaxSize => match dec_wid_size(pm) {
            Some(d) => Some(d.0),
            None => None,
        },
        Op::SetPosition => match dec_wid_pos(pm) {
            Some(d) => Some(d.0),
            None => None,
        },
        Op::SetBounds => match dec_wid_bounds(pm) {
            Some(d) => Some(d.0),
            None => None,
        },
        Op::SetAlwaysOnTop => match dec_wid_value(pm) {
            Some(d) => Some(d.0),
            None => None,
        },
        Op::SetResizable => match dec_wid_value(pm) {
            Some(d) => Some(d.0),
            None => None,
        },
        Op::SetFullscreen => match dec_wid_value(pm) {
            Some(d) => Some(d.0),
            None => None,
        },
        Op::SetDecorations => match dec_wid_value(pm) {
            Some(d) => Some(d.0),
            None => None,
        },
        Op::RequestAttention => match dec_wid_attention(pm) {
            Some(d) => Some(d.0),
            None => None,
        },
        Op::SetIcon => match dec_wid_icon(pm) {
            Some(d) => Some(d.0),
            None => None,
        },
        Op::Eval => match dec_wid_code(pm) {
            Some(d) => Some(d.0),
            None => None,
        },
        Op::PostMessage => match dec_wid_payload(pm) {
            Some(d) => Some(d.0),
            None => None,
        },
        _ => None,
    }
}

/// A request whose method is not in the catalog is answered with exactly
/// the method-not-found error, under the request's own id, and changes
/// nothing.
pub proof fn lemma_unknown_method(pre: Core, req: RpcRequest, post: Core, step: Step)
    requires
        step_ok(pre, req, post, step),
        parse_op(req.method@) is None,
    ensures
        post == pre,
        err_msg(step, spec_req_id(req), -32601, "Method not found"@),
{
}

/// Any per-window operation whose parameters name a window that is not in
/// the registry is answered with exactly the resource-not-found error,
/// whichever operation it was, and changes nothing.
pub proof fn lemma_absent_window(pre: Core, req: RpcRequest, post: Core, step: Step, op: Op)
    requires
        step_ok(pre, req, post, step),
        parse_op(req.method@) == Some(op),
        window_target(op, jview(req.params)) matches Some(w) && !pre.registry.has(w),
    ensures
        post == pre,
        not_found(step, spec_req_id(req)),
{
}

/// A successful `createWindow` issues an id that was never issued before,
/// and only extends the issue history.
pub proof fn lemma_create_issues_fresh_id(pre: Core, req: RpcRequest, post: Core, step: Step)
    requires
        step_ok(pre, req, post, step),
        parse_op(req.method@) == Some(Op::CreateWindow),
        step.action matches Some(Action::CreateWindow { .. }),
    ensures
        post.pending matches Some(pc) && !pre.registry.issued_ids().contains(pc.id@)
            && post.registry.issued_ids() == pre.registry.issued_ids().push(pc.id@),
{
}

/// Closing a window through `window.close` removes exactly that window
/// and reports it closed exactly once; the process winds down exactly when
/// it was the last one, and keeps running otherwise.
pub proof fn lemma_close_policy(pre: Core, req: RpcRequest, post: Core, step: Step, w: Seq<char>)
    requires
        step_ok(pre, req, post, step),
        parse_op(req.method@) == Some(Op::Close),
        dec_wid(jview(req.params)) == Some(w),
        pre.registry.has(w),
    ensures
        !post.registry.has(w),
        forall|x: Seq<char>| x != w ==> (post.registry.has(x) <==> pre.registry.has(x)),
        post.registry.spec_len() + 1 == pre.registry.spec_len(),
        pre.registry.spec_len() == 1 ==> post.flow is Exit,
        pre.registry.spec_len() > 1 ==> post.flow == pre.flow,
        step.notice matches Some(RpcResponse::Notify { method, params }) && method@
            == "window.closed"@ && jview(params) == JsonM::Obj(
            seq![("windowId"@, JsonM::Str(w))],
        ),
{
}

/// Setting a size hands the native layer exactly the width and height that
/// were asked for; together with `size_response`, which echoes exactly
/// what the native layer reads back, a read after an unclamped set returns
/// the size that was set.
pub proof fn lemma_size_round_trip(
    pre: Core,
    req: RpcRequest,
    post: Core,
    step: Step,
    w: Seq<char>,
    width: u32,
    height: u32,
)
    requires
        step_ok(pre, req, post, step),
        parse_op(req.method@) == Some(Op::SetSize),
        dec_wid_size(jview(req.params)) == Some((w, width, height)),
        pre.registry.has(w),
    ensures
        step.action matches Some(Action::SetSize { id, width: aw, height: ah }) && id@ == w && aw
            == width && ah == height,
        post == pre,
{
}

} // verus!
