//! Decoding of each operation's parameters out of the request's `params`
//! value, with the exact conditions under which decoding fails.
use vstd::prelude::*;
use crate::json::{field_index, field_of, jview, jview_fields, jview_seq, lemma_field_index,
    lemma_jview_fields, lemma_jview_seq, Json, JsonM};
use crate::num::{token_as_i32, token_as_u32, token_to_i32, token_to_u32};
use crate::text::str_eq;

verus! {

/// The first field named `key`, if any.
pub fn get_field<'a>(p: &'a Json, key: &str) -> (r: Option<&'a Json>)
    ensures
        r matches Some(v) ==> field_of(jview(*p), key@) == Some(jview(*v)),
        r is None ==> field_of(jview(*p), key@) is None,
{
    match p {
        Json::Obj(fields) => {
            let n = fields.len();
            let mut i: usize = 0;
            while i < n
                invariant
                    n == fields@.len(),
                    i <= n,
                    *p == Json::Obj(*fields),
                    forall|q: int| 0 <= q < i ==> (#[trigger] fields@[q]).0@ != key@,
                decreases n - i,
            {
                if str_eq(fields[i].0.as_str(), key) {
                    proof {
                        lemma_jview_fields(fields@);
                        let jf = jview_fields(fields@);
                        lemma_field_index(jf, key@);
                        let fi = field_index(jf, key@);
                        assert(jf[i as int].0 == key@);
                        assert(fi != -1);
                        if fi < i {
                            assert(fields@[fi].0@ != key@);
                            assert(jf[fi].0 == fields@[fi].0@);
                            assert(false);
                        }
                        if fi > i {
                            assert(false);
                        }
                        assert(jf[i as int].1 == jview(fields@[i as int].1));
                    }
                    return Some(&fields[i].1);
                }
                i = i + 1;
            }
            proof {
                lemma_jview_fields(fields@);
                let jf = jview_fields(fields@);
                lemma_field_index(jf, key@);
                if field_index(jf, key@) != -1 {
                    let fi = field_index(jf, key@);
                    assert(jf[fi].0 == fields@[fi].0@);
                    assert(false);
                }
            }
            None
        },
        _ => None,
    }
}

// ---------------------------------------------------------------------------
// Field readers. The outer `Option` is `None` on a type mismatch; for the
// `f_*` readers the inner `Option` is `None` when the field is absent or
// null, as an optional field may be.
// ---------------------------------------------------------------------------
pub open spec fn f_str(m: JsonM, k: Seq<char>) -> Option<Option<Seq<char>>> {
    match field_of(m, k) {
        None => Some(None),
        Some(JsonM::Null) => Some(None),
        Some(JsonM::Str(s)) => Some(Some(s)),
        Some(_) => None,
    }
}

pub open spec fn f_u32(m: JsonM, k: Seq<char>) -> Option<Option<u32>> {
    match field_of(m, k) {
        None => Some(None),
        Some(JsonM::Null) => Some(None),
        Some(JsonM::Num(t)) => match token_as_u32(t) {
            Some(v) => Some(Some(v)),
            None => None,
        },
        Some(_) => None,
    }
}

pub open spec fn f_i32(m: JsonM, k: Seq<char>) -> Option<Option<i32>> {
    match field_of(m, k) {
        None => Some(None),
        Some(JsonM::Null) => Some(None),
        Some(JsonM::Num(t)) => match token_as_i32(t) {
            Some(v) => Some(Some(v)),
            None => None,
        },
        Some(_) => None,
    }
}

pub open spec fn f_bool(m: JsonM, k: Seq<char>) -> Option<Option<bool>> {
    match field_of(m, k) {
        None => Some(None),
        Some(JsonM::Null) => Some(None),
        Some(JsonM::Bool(b)) => Some(Some(b)),
        Some(_) => None,
    }
}

/// A required string field.
pub open spec fn r_str(m: JsonM, k: Seq<char>) -> Option<Seq<char>> {
    match field_of(m, k) {
        Some(JsonM::Str(s)) => Some(s),
        _ => None,
    }
}

/// A required unsigned field.
pub open spec fn r_u32(m: JsonM, k: Seq<char>) -> Option<u32> {
    match field_of(m, k) {
        Some(JsonM::Num(t)) => token_as_u32(t),
        _ => None,
    }
}

/// A required signed field.
pub open spec fn r_i32(m: JsonM, k: Seq<char>) -> Option<i32> {
    match field_of(m, k) {
        Some(JsonM::Num(t)) => token_as_i32(t),
        _ => None,
    }
}

/// A required boolean field.
pub open spec fn r_bool(m: JsonM, k: Seq<char>) -> Option<bool> {
    match field_of(m, k) {
        Some(JsonM::Bool(b)) => Some(b),
        _ => None,
    }
}

pub fn opt_str(p: &Json, key: &str) -> (r: Result<Option<String>, ()>)
    ensures
        r matches Ok(Some(s)) ==> f_str(jview(*p), key@) == Some(Some(s@)),
        r matches Ok(o) && o is None ==> f_str(jview(*p), key@) == Some(None::<Seq<char>>),
        r is Err ==> f_str(jview(*p), key@) is None,
{
    match get_field(p, key) {
        None => Ok(None),
        Some(Json::Null) => Ok(None),
        Some(Json::Str(s)) => Ok(Some(s.clone())),
        Some(_) => Err(()),
    }
}

pub fn opt_u32(p: &Json, key: &str) -> (r: Result<Option<u32>, ()>)
    ensures
        r matches Ok(o) ==> f_u32(jview(*p), key@) == Some(o),
        r is Err ==> f_u32(jview(*p), key@) is None,
{
    match get_field(p, key) {
        None => Ok(None),
        Some(Json::Null) => Ok(None),
        Some(Json::Num(t)) => match token_to_u32(t.as_str()) {
            Some(v) => Ok(Some(v)),
            None => Err(()),
        },
        Some(_) => Err(()),
    }
}

pub fn opt_i32(p: &Json, key: &str) -> (r: Result<Option<i32>, ()>)
    ensures
        r matches Ok(o) ==> f_i32(jview(*p), key@) == Some(o),
        r is Err ==> f_i32(jview(*p), key@) is None,
{
    match get_field(p, key) {
        None => Ok(None),
        Some(Json::Null) => Ok(None),
        Some(Json::Num(t)) => match token_to_i32(t.as_str()) {
            Some(v) => Ok(Some(v)),
            None => Err(()),
        },
        Some(_) => Err(()),
    }
}

pub fn opt_bool(p: &Json, key: &str) -> (r: Result<Option<bool>, ()>)
    ensures
        r matches Ok(o) ==> f_bool(jview(*p), key@) == Some(o),
        r is Err ==> f_bool(jview(*p), key@) is None,
{
    match get_field(p, key) {
        None => Ok(None),
        Some(Json::Null) => Ok(None),
        Some(Json::Bool(b)) => Ok(Some(*b)),
        Some(_) => Err(()),
    }
}

pub fn req_str(p: &Json, key: &str) -> (r: Result<String, ()>)
    ensures
        r matches Ok(s) ==> r_str(jview(*p), key@) == Some(s@),
        r is Err ==> r_str(jview(*p), key@) is None,
{
    match get_field(p, key) {
        Some(Json::Str(s)) => Ok(s.clone()),
        Some(_) => Err(()),
        None => Err(()),
    }
}

pub fn req_u32(p: &Json, key: &str) -> (r: Result<u32, ()>)
    ensures
        r matches Ok(v) ==> r_u32(jview(*p), key@) == Some(v),
        r is Err ==> r_u32(jview(*p), key@) is None,
{
    match get_field(p, key) {
        Some(Json::Num(t)) => match token_to_u32(t.as_str()) {
            Some(v) => Ok(v),
            None => Err(()),
        },
        Some(_) => Err(()),
        None => Err(()),
    }
}

pub fn req_i32(p: &Json, key: &str) -> (r: Result<i32, ()>)
    ensures
        r matches Ok(v) ==> r_i32(jview(*p), key@) == Some(v),
        r is Err ==> r_i32(jview(*p), key@) is None,
{
    match get_field(p, key) {
        Some(Json::Num(t)) => match token_to_i32(t.as_str()) {
            Some(v) => Ok(v),
            None => Err(()),
        },
        Some(_) => Err(()),
        None => Err(()),
    }
}

pub fn req_bool(p: &Json, key: &str) -> (r: Result<bool, ()>)
    ensures
        r matches Ok(v) ==> r_bool(jview(*p), key@) == Some(v),
        r is Err ==> r_bool(jview(*p), key@) is None,
{
    match get_field(p, key) {
        Some(Json::Bool(b)) => Ok(*b),
        Some(_) => Err(()),
        None => Err(()),
    }
}

// ---------------------------------------------------------------------------
// The window construction configuration.
// ---------------------------------------------------------------------------
/// Everything `createWindow` accepts. Optional fields stay optional; the
/// lifecycle defaults (visible unless suppressed) are applied where the
/// window is built.
pub struct WindowConfig {
    pub title: Option<String>,
    pub url: Option<String>,
    pub html: Option<String>,
    pub width: Option<u32>,
    pub height: Option<u32>,
    pub x: Option<i32>,
    pub y: Option<i32>,
    pub show: Option<bool>,
    pub min_width: Option<u32>,
    pub min_height: Option<u32>,
    pub max_width: Option<u32>,
    pub max_height: Option<u32>,
    pub icon_path: Option<String>,
    pub resizable: Option<bool>,
    pub always_on_top: Option<bool>,
    pub fullscreen: Option<bool>,
    pub decorations: Option<bool>,
    pub center: Option<bool>,
    pub preload: Option<String>,
    pub content_size: Option<bool>,
}

pub open spec fn opt_str_is(m: JsonM, k: Seq<char>, o: Option<String>) -> bool {
    match o {
        Some(s) => f_str(m, k) == Some(Some(s@)),
        None => f_str(m, k) == Some(None::<Seq<char>>),
    }
}

/// Whether `cfg` is exactly what the parameters say.
pub open spec fn create_cfg_ok(m: JsonM, cfg: WindowConfig) -> bool {
    &&& opt_str_is(m, "title"@, cfg.title)
    &&& opt_str_is(m, "url"@, cfg.url)
    &&& opt_str_is(m, "html"@, cfg.html)
    &&& f_u32(m, "width"@) == Some(cfg.width)
    &&& f_u32(m, "height"@) == Some(cfg.height)
    &&& f_i32(m, "x"@) == Some(cfg.x)
    &&& f_i32(m, "y"@) == Some(cfg.y)
    &&& f_bool(m, "show"@) == Some(cfg.show)
    &&& f_u32(m, "minWidth"@) == Some(cfg.min_width)
    &&& f_u32(m, "minHeight"@) == Some(cfg.min_height)
    &&& f_u32(m, "maxWidth"@) == Some(cfg.max_width)
    &&& f_u32(m, "maxHeight"@) == Some(cfg.max_height)
    &&& opt_str_is(m, "iconPath"@, cfg.icon_path)
    &&& f_bool(m, "resizable"@) == Some(cfg.resizable)
    &&& f_bool(m, "alwaysOnTop"@) == Some(cfg.always_on_top)
    &&& f_bool(m, "fullscreen"@) == Some(cfg.fullscreen)
    &&& f_bool(m, "decorations"@) == Some(cfg.decorations)
    &&& f_bool(m, "center"@) == Some(cfg.center)
    &&& opt_str_is(m, "preload"@, cfg.preload)
    &&& f_bool(m, "contentSize"@) == Some(cfg.content_size)
}

/// Whether `createWindow` parameters decode at all.
pub open spec fn create_params_ok(m: JsonM) -> bool {
    &&& f_str(m, "title"@) is Some
    &&& f_str(m, "url"@) is Some
    &&& f_str(m, "html"@) is Some
    &&& f_u32(m, "width"@) is Some
    &&& f_u32(m, "height"@) is Some
    &&& f_i32(m, "x"@) is Some
    &&& f_i32(m, "y"@) is Some
    &&& f_bool(m, "show"@) is Some
    &&& f_u32(m, "minWidth"@) is Some
    &&& f_u32(m, "minHeight"@) is Some
    &&& f_u32(m, "maxWidth"@) is Some
    &&& f_u32(m, "maxHeight"@) is Some
    &&& f_str(m, "iconPath"@) is Some
    &&& f_bool(m, "resizable"@) is Some
    &&& f_bool(m, "alwaysOnTop"@) is Some
    &&& f_bool(m, "fullscreen"@) is Some
    &&& f_bool(m, "decorations"@) is Some
    &&& f_bool(m, "center"@) is Some
    &&& f_str(m, "preload"@) is Some
    &&& f_bool(m, "contentSize"@) is Some
}

/// Decode `createWindow` parameters.
pub fn dec_create(p: &Json) -> (r: Result<WindowConfig, ()>)
    ensures
        r matches Ok(cfg) ==> create_params_ok(jview(*p)) && create_cfg_ok(jview(*p), cfg),
        r is Err ==> !create_params_ok(jview(*p)),
{
    let title = match opt_str(p, "title") {
        Ok(v) => v,
        Err(_) => {
            return Err(());
        },
    };
    let url = match opt_str(p, "url") {
        Ok(v) => v,
        Err(_) => {
            return Err(());
        },
    };
    let html = match opt_str(p, "html") {
        Ok(v) => v,
        Err(_) => {
            return Err(());
        },
    };
    let width = match opt_u32(p, "width") {
        Ok(v) => v,
        Err(_) => {
            return Err(());
        },
    };
    let height = match opt_u32(p, "height") {
        Ok(v) => v,
        Err(_) => {
            return Err(());
        },
    };
    let x = match opt_i32(p, "x") {
        Ok(v) => v,
        Err(_) => {
            return Err(());
        },
    };
    let y = match opt_i32(p, "y") {
        Ok(v) => v,
        Err(_) => {
            return Err(());
        },
    };
    let show = match opt_bool(p, "show") {
        Ok(v) => v,
        Err(_) => {
            return Err(());
        },
    };
    let min_width = match opt_u32(p, "minWidth") {
        Ok(v) => v,
        Err(_) => {
            return Err(());
        },
    };
    let min_height = match opt_u32(p, "minHeight") {
        Ok(v) => v,
        Err(_) => {
            return Err(());
        },
    };
    let max_width = match opt_u32(p, "maxWidth") {
        Ok(v) => v,
        Err(_) => {
            return Err(());
        },
    };
    let max_height = match opt_u32(p, "maxHeight") {
        Ok(v) => v,
        Err(_) => {
            return Err(());
        },
    };
    let icon_path = match opt_str(p, "iconPath") {
        Ok(v) => v,
        Err(_) => {
            return Err(());
        },
    };
    let resizable = match opt_bool(p, "resizable") {
        Ok(v) => v,
        Err(_) => {
            return Err(());
        },
    };
    let always_on_top = match opt_bool(p, "alwaysOnTop") {
        Ok(v) => v,
        Err(_) => {
            return Err(());
        },
    };
    let fullscreen = match opt_bool(p, "fullscreen") {
        Ok(v) => v,
        Err(_) => {
            return Err(());
        },
    };
    let decorations = match opt_bool(p, "decorations") {
        Ok(v) => v,
        Err(_) => {
            return Err(());
        },
    };
    let center = match opt_bool(p, "center") {
        Ok(v) => v,
        Err(_) => {
            return Err(());
        },
    };
    let preload = match opt_str(p, "preload") {
        Ok(v) => v,
        Err(_) => {
            return Err(());
        },
    };
    let content_size = match opt_bool(p, "contentSize") {
        Ok(v) => v,
        Err(_) => {
            return Err(());
        },
    };
    Ok(
        WindowConfig {
            title,
            url,
            html,
            width,
            height,
            x,
            y,
            show,
            min_width,
            min_height,
            max_width,
            max_height,
            icon_path,
            resizable,
            always_on_top,
            fullscreen,
            decorations,
            center,
            preload,
            content_size,
        },
    )
}

/// The initial visibility a configuration asks for: visible unless
/// explicitly suppressed.
pub fn initial_visibility(cfg: &WindowConfig) -> (v: bool)
    ensures
        v == (match cfg.show {
            Some(b) => b,
            None => true,
        }),
{
    match cfg.show {
        Some(b) => b,
        None => true,
    }
}

/// Whether the window is re-centered on its monitor after construction.
pub fn wants_centering(cfg: &WindowConfig) -> (v: bool)
    ensures
        v == (cfg.center == Some(true)),
{
    match cfg.center {
        Some(b) => b,
        None => false,
    }
}

// ---------------------------------------------------------------------------
// Dialog filters.
// ---------------------------------------------------------------------------
/// The string items of an array, when every item is a string.
pub open spec fn str_items_from(s: Seq<JsonM>, i: int) -> Option<Seq<Seq<char>>>
    decreases s.len() - i,
{
    if i < 0 || i >= s.len() {
        Some(Seq::empty())
    } else {
        match s[i] {
            JsonM::Str(t) => match str_items_from(s, i + 1) {
                Some(rest) => Some(seq![t] + rest),
                None => None,
            },
            _ => None,
        }
    }
}

/// One decoded file filter: its label and the extensions it admits. An
/// entry that is not an object fails the decode; an object without
/// extensions is kept only to be dropped, as the dialog builder drops it.
pub open spec fn filter_of(e: JsonM) -> Option<(Seq<char>, Option<Seq<Seq<char>>>)> {
    if !(e is Obj) {
        None
    } else {
        match f_str(e, "name"@) {
            None => None,
            Some(name) => {
                let label = match name {
                    Some(n) => n,
                    None => Seq::empty(),
                };
                match field_of(e, "extensions"@) {
                    None => Some((label, None)),
                    Some(JsonM::Null) => Some((label, None)),
                    Some(JsonM::Arr(items)) => match str_items_from(items, 0) {
                        Some(exts) => Some((label, Some(exts))),
                        None => None,
                    },
                    Some(_) => None,
                }
            },
        }
    }
}

/// The filters actually handed to the dialog, in order.
pub open spec fn filters_from(s: Seq<JsonM>, i: int) -> Option<
    Seq<(Seq<char>, Seq<Seq<char>>)>,
>
    decreases s.len() - i,
{
    if i < 0 || i >= s.len() {
        Some(Seq::empty())
    } else {
        match filter_of(s[i]) {
            None => None,
            Some((label, exts)) => match filters_from(s, i + 1) {
                None => None,
                Some(rest) => match exts {
                    Some(e) => Some(seq![(label, e)] + rest),
                    None => Some(rest),
                },
            },
        }
    }
}

/// The view of a decoded filter list.
pub open spec fn filters_view(fs: Seq<(String, Vec<String>)>) -> Seq<(Seq<char>, Seq<Seq<char>>)> {
    Seq::new(fs.len(), |i: int| (fs[i].0@, fs[i].1.deep_view()))
}

fn dec_str_items(items: &Vec<Json>, i: usize) -> (r: Result<Vec<String>, ()>)
    requires
        i <= items@.len(),
    ensures
        r matches Ok(v) ==> str_items_from(jview_seq(items@), i as int) == Some(v.deep_view()),
        r is Err ==> str_items_from(jview_seq(items@), i as int) is None,
    decreases items@.len() - i,
{
    proof {
        lemma_jview_seq(items@);
    }
    if i >= items.len() {
        let v: Vec<String> = Vec::new();
        proof {
            assert(v.deep_view() =~= Seq::<Seq<char>>::empty());
        }
        return Ok(v);
    }
    match &items[i] {
        Json::Str(s) => {
            let t = s.clone();
            match dec_str_items(items, i + 1) {
                Ok(mut rest) => {
                    let ghost tail = rest.deep_view();
                    rest.insert(0, t);
                    proof {
                        assert(rest.deep_view() =~= seq![items@[i as int]->Str_0@] + tail);
                    }
                    Ok(rest)
                },
                Err(_) => Err(()),
            }
        },
        _ => Err(()),
    }
}

fn dec_filters_items(items: &Vec<Json>, i: usize) -> (r: Result<Vec<(String, Vec<String>)>, ()>)
    requires
        i <= items@.len(),
    ensures
        r matches Ok(v) ==> filters_from(jview_seq(items@), i as int) == Some(filters_view(v@)),
        r is Err ==> filters_from(jview_seq(items@), i as int) is None,
    decreases items@.len() - i,
{
    proof {
        lemma_jview_seq(items@);
    }
    if i >= items.len() {
        let v: Vec<(String, Vec<String>)> = Vec::new();
        proof {
            assert(filters_view(v@) =~= Seq::<(Seq<char>, Seq<Seq<char>>)>::empty());
        }
        return Ok(v);
    }
    let e = &items[i];
    match e {
        Json::Obj(_) => {},
        _ => {
            return Err(());
        },
    }
    let name = match opt_str(e, "name") {
        Ok(v) => v,
        Err(_) => {
            return Err(());
        },
    };
    let label = match name {
        Some(n) => n,
        None => String::new(),
    };
    let exts: Option<Vec<String>> = match get_field(e, "extensions") {
        None => None,
        Some(Json::Null) => None,
        Some(Json::Arr(xs)) => match dec_str_items(xs, 0) {
            Ok(v) => Some(v),
            Err(_) => {
                return Err(());
            },
        },
        Some(_) => {
            return Err(());
        },
    };
    match dec_filters_items(items, i + 1) {
        Ok(mut rest) => match exts {
            Some(ex) => {
                let ghost tail = filters_view(rest@);
                rest.insert(0, (label, ex));
                proof {
                    assert(filters_view(rest@) =~= seq![(rest@[0].0@, rest@[0].1.deep_view())]
                        + tail);
                }
                Ok(rest)
            },
            None => Ok(rest),
        },
        Err(_) => Err(()),
    }
}

/// The decoded filter list of dialog parameters: absent or null means none.
pub open spec fn dialog_filters_of(m: JsonM) -> Option<Seq<(Seq<char>, Seq<Seq<char>>)>> {
    match field_of(m, "filters"@) {
        None => Some(Seq::empty()),
        Some(JsonM::Null) => Some(Seq::empty()),
        Some(JsonM::Arr(items)) => filters_from(items, 0),
        Some(_) => None,
    }
}

/// Decode the `filters` field of dialog parameters.
pub fn dec_dialog_filters(p: &Json) -> (r: Result<Vec<(String, Vec<String>)>, ()>)
    ensures
        r matches Ok(v) ==> dialog_filters_of(jview(*p)) == Some(filters_view(v@)),
        r is Err ==> dialog_filters_of(jview(*p)) is None,
{
    match get_field(p, "filters") {
        None => {
            let v: Vec<(String, Vec<String>)> = Vec::new();
            proof {
                assert(filters_view(v@) =~= Seq::<(Seq<char>, Seq<Seq<char>>)>::empty());
            }
            Ok(v)
        },
        Some(Json::Null) => {
            let v: Vec<(String, Vec<String>)> = Vec::new();
            proof {
                assert(filters_view(v@) =~= Seq::<(Seq<char>, Seq<Seq<char>>)>::empty());
            }
            Ok(v)
        },
        Some(Json::Arr(items)) => dec_filters_items(items, 0),
        Some(_) => Err(()),
    }
}

} // verus!
