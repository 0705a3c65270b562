//! The protocol codec: one JSON value per line, rendered and parsed
//! character by character against an exact grammar.
use vstd::prelude::*;
use crate::json::{jview, jview_fields, jview_seq, lemma_jview_fields, lemma_jview_seq, Json, JsonM};
use crate::num::{digit_char, digit_char_e, is_digit};
use crate::text::{char_from_u32, chars_to_string, is_scalar, str_to_chars};

verus! {

// ---------------------------------------------------------------------------
// Rendering: the exact character sequence emitted for a value.
// ---------------------------------------------------------------------------
/// The characters that stand for `c` inside a rendered string literal.
pub open spec fn esc_char(c: char) -> Seq<char> {
    if c == '"' {
        seq!['\\', '"']
    } else if c == '\\' {
        seq!['\\', '\\']
    } else if c == '\x08' {
        seq!['\\', 'b']
    } else if c == '\x0c' {
        seq!['\\', 'f']
    } else if c == '\n' {
        seq!['\\', 'n']
    } else if c == '\r' {
        seq!['\\', 'r']
    } else if c == '\t' {
        seq!['\\', 't']
    } else if (c as int) < 0x20 {
        seq!['\\', 'u', '0', '0', hex_char((c as int) / 16), hex_char((c as int) % 16)]
    } else {
        seq![c]
    }
}

pub open spec fn hex_char(n: int) -> char {
    if n < 10 {
        digit_char(n)
    } else if n == 10 {
        'a'
    } else if n == 11 {
        'b'
    } else if n == 12 {
        'c'
    } else if n == 13 {
        'd'
    } else if n == 14 {
        'e'
    } else {
        'f'
    }
}

/// The escaped body of a string literal.
pub open spec fn esc_str(s: Seq<char>) -> Seq<char>
    decreases s.len(),
{
    if s.len() == 0 {
        Seq::empty()
    } else {
        esc_str(s.subrange(0, s.len() - 1)) + esc_char(s.last())
    }
}

/// The exact rendering of a value: no spaces, object fields in order,
/// strings escaped as `esc_char` says, number tokens verbatim.
pub open spec fn spec_render(j: Json) -> Seq<char>
    decreases j,
{
    match j {
        Json::Null => seq!['n', 'u', 'l', 'l'],
        Json::Bool(b) => if b {
            seq!['t', 'r', 'u', 'e']
        } else {
            seq!['f', 'a', 'l', 's', 'e']
        },
        Json::Num(t) => t@,
        Json::Str(s) => seq!['"'] + esc_str(s@) + seq!['"'],
        Json::Arr(items) => seq!['['] + render_items(items@) + seq![']'],
        Json::Obj(fields) => seq!['{'] + render_fields(fields@) + seq!['}'],
    }
}

pub open spec fn render_items(s: Seq<Json>) -> Seq<char>
    decreases s,
{
    if s.len() == 0 {
        Seq::empty()
    } else if s.len() == 1 {
        spec_render(s[0])
    } else {
        render_items(s.subrange(0, s.len() - 1)) + seq![','] + spec_render(s[s.len() - 1])
    }
}

pub open spec fn render_field(f: (String, Json)) -> Seq<char>
    decreases f,
{
    seq!['"'] + esc_str(f.0@) + seq!['"', ':'] + spec_render(f.1)
}

pub open spec fn render_fields(s: Seq<(String, Json)>) -> Seq<char>
    decreases s,
{
    if s.len() == 0 {
        Seq::empty()
    } else if s.len() == 1 {
        render_field(s[0])
    } else {
        render_fields(s.subrange(0, s.len() - 1)) + seq![','] + render_field(s[s.len() - 1])
    }
}

fn hex_char_e(n: u32) -> (c: char)
    requires
        n < 16,
    ensures
        c == hex_char(n as int),
{
    if n < 10 {
        digit_char_e(n as u64)
    } else if n == 10 {
        'a'
    } else if n == 11 {
        'b'
    } else if n == 12 {
        'c'
    } else if n == 13 {
        'd'
    } else if n == 14 {
        'e'
    } else {
        'f'
    }
}

fn push_escaped(c: char, out: &mut Vec<char>)
    ensures
        final(out)@ == old(out)@ + esc_char(c),
{
    if c == '"' {
        out.push('\\');
        out.push('"');
    } else if c == '\\' {
        out.push('\\');
        out.push('\\');
    } else if c == '\x08' {
        out.push('\\');
        out.push('b');
    } else if c == '\x0c' {
        out.push('\\');
        out.push('f');
    } else if c == '\n' {
        out.push('\\');
        out.push('n');
    } else if c == '\r' {
        out.push('\\');
        out.push('r');
    } else if c == '\t' {
        out.push('\\');
        out.push('t');
    } else if (c as u32) < 0x20 {
        out.push('\\');
        out.push('u');
        out.push('0');
        out.push('0');
        out.push(hex_char_e((c as u32) / 16));
        out.push(hex_char_e((c as u32) % 16));
    } else {
        out.push(c);
    }
    assert(out@ =~= old(out)@ + esc_char(c));
}

/// Append the escaped body of a string literal.
fn push_escaped_str(s: &str, out: &mut Vec<char>)
    ensures
        final(out)@ == old(out)@ + esc_str(s@),
{
    let cs = str_to_chars(s);
    let ghost base = out@;
    let n = cs.len();
    let mut k: usize = 0;
    while k < n
        invariant
            n == cs@.len(),
            cs@ == s@,
            k <= n,
            out@ == base + esc_str(cs@.subrange(0, k as int)),
        decreases n - k,
    {
        push_escaped(cs[k], out);
        proof {
            let pre = cs@.subrange(0, k + 1);
            assert(pre.subrange(0, pre.len() - 1) =~= cs@.subrange(0, k as int));
            assert(pre.last() == cs@[k as int]);
        }
        k = k + 1;
    }
    assert(cs@.subrange(0, n as int) =~= s@);
}

/// Append the characters of `s` unchanged.
pub fn push_str_chars(s: &str, out: &mut Vec<char>)
    ensures
        final(out)@ == old(out)@ + s@,
{
    let cs = str_to_chars(s);
    let ghost base = out@;
    let n = cs.len();
    let mut k: usize = 0;
    while k < n
        invariant
            n == cs@.len(),
            cs@ == s@,
            k <= n,
            out@ == base + cs@.subrange(0, k as int),
        decreases n - k,
    {
        out.push(cs[k]);
        assert(out@ =~= base + cs@.subrange(0, k + 1));
        k = k + 1;
    }
    assert(cs@.subrange(0, n as int) =~= s@);
}

/// Append the exact rendering of `j`.
pub fn render_into(j: &Json, out: &mut Vec<char>)
    ensures
        final(out)@ == old(out)@ + spec_render(*j),
    decreases *j,
{
    match j {
        Json::Null => {
            out.push('n');
            out.push('u');
            out.push('l');
            out.push('l');
            assert(out@ =~= old(out)@ + spec_render(*j));
        },
        Json::Bool(b) => {
            if *b {
                out.push('t');
                out.push('r');
                out.push('u');
                out.push('e');
            } else {
                out.push('f');
                out.push('a');
                out.push('l');
                out.push('s');
                out.push('e');
            }
            assert(out@ =~= old(out)@ + spec_render(*j));
        },
        Json::Num(t) => {
            push_str_chars(t.as_str(), out);
        },
        Json::Str(s) => {
            out.push('"');
            push_escaped_str(s.as_str(), out);
            out.push('"');
            assert(out@ =~= old(out)@ + spec_render(*j));
        },
        Json::Arr(items) => {
            out.push('[');
            let ghost base = out@;
            let n = items.len();
            let mut k: usize = 0;
            while k < n
                invariant
                    n == items@.len(),
                    k <= n,
                    out@ == base + render_items(items@.subrange(0, k as int)),
                    j == Json::Arr(*items),
                decreases n - k,
            {
                if k > 0 {
                    out.push(',');
                }
                proof {
                    assert(decreases_to!(*j => j->Arr_0));
                    assert(decreases_to!(j->Arr_0 => items@));
                    assert(decreases_to!(items@ => items@[k as int]));
                    assert(decreases_to!(*j => items@[k as int]));
                }
                render_into(&items[k], out);
                proof {
                    let pre = items@.subrange(0, k + 1);
                    assert(pre.subrange(0, pre.len() - 1) =~= items@.subrange(0, k as int));
                    assert(pre[pre.len() - 1] == items@[k as int]);
                    assert(out@ =~= base + render_items(items@.subrange(0, k + 1)));
                }
                k = k + 1;
            }
            out.push(']');
            proof {
                assert(items@.subrange(0, n as int) =~= items@);
                assert(out@ =~= old(out)@ + spec_render(*j));
            }
        },
        Json::Obj(fields) => {
            out.push('{');
            let ghost base = out@;
            let n = fields.len();
            let mut k: usize = 0;
            while k < n
                invariant
                    n == fields@.len(),
                    k <= n,
                    out@ == base + render_fields(fields@.subrange(0, k as int)),
                    j == Json::Obj(*fields),
                decreases n - k,
            {
                if k > 0 {
                    out.push(',');
                }
                out.push('"');
                push_escaped_str(fields[k].0.as_str(), out);
                out.push('"');
                out.push(':');
                proof {
                    assert(decreases_to!(*j => j->Obj_0));
                    assert(decreases_to!(j->Obj_0 => fields@));
                    assert(decreases_to!(fields@ => fields@[k as int]));
                    assert(decreases_to!(fields@[k as int] => fields@[k as int].1));
                    assert(decreases_to!(*j => fields@[k as int].1));
                }
                render_into(&fields[k].1, out);
                proof {
                    let pre = fields@.subrange(0, k + 1);
                    assert(pre.subrange(0, pre.len() - 1) =~= fields@.subrange(0, k as int));
                    assert(pre[pre.len() - 1] == fields@[k as int]);
                    assert(render_field(fields@[k as int]) == seq!['"'] + esc_str(
                        fields@[k as int].0@,
                    ) + seq!['"', ':'] + spec_render(fields@[k as int].1));
                    assert(out@ =~= base + render_fields(fields@.subrange(0, k + 1)));
                }
                k = k + 1;
            }
            out.push('}');
            proof {
                assert(fields@.subrange(0, n as int) =~= fields@);
                assert(out@ =~= old(out)@ + spec_render(*j));
            }
        },
    }
}

/// The rendering of `j` as a string.
pub fn render_json(j: &Json) -> (s: String)
    ensures
        s@ == spec_render(*j),
{
    let mut out: Vec<char> = Vec::new();
    render_into(j, &mut out);
    chars_to_string(&out)
}

/// The rendering of a value shape; agrees with `spec_render` through the view.
pub open spec fn mrender(m: JsonM) -> Seq<char>
    decreases m,
{
    match m {
        JsonM::Null => seq!['n', 'u', 'l', 'l'],
        JsonM::Bool(b) => if b {
            seq!['t', 'r', 'u', 'e']
        } else {
            seq!['f', 'a', 'l', 's', 'e']
        },
        JsonM::Num(t) => t,
        JsonM::Str(s) => seq!['"'] + esc_str(s) + seq!['"'],
        JsonM::Arr(items) => seq!['['] + mrender_items(items) + seq![']'],
        JsonM::Obj(fields) => seq!['{'] + mrender_fields(fields) + seq!['}'],
    }
}

pub open spec fn mrender_items(s: Seq<JsonM>) -> Seq<char>
    decreases s,
{
    if s.len() == 0 {
        Seq::empty()
    } else if s.len() == 1 {
        mrender(s[0])
    } else {
        mrender_items(s.subrange(0, s.len() - 1)) + seq![','] + mrender(s[s.len() - 1])
    }
}

pub open spec fn mrender_fields(s: Seq<(Seq<char>, JsonM)>) -> Seq<char>
    decreases s,
{
    if s.len() == 0 {
        Seq::empty()
    } else if s.len() == 1 {
        seq!['"'] + esc_str(s[0].0) + seq!['"', ':'] + mrender(s[0].1)
    } else {
        mrender_fields(s.subrange(0, s.len() - 1)) + seq![','] + (seq!['"'] + esc_str(
            s[s.len() - 1].0,
        ) + seq!['"', ':'] + mrender(s[s.len() - 1].1))
    }
}

/// Rendering depends only on the shape of a value.
pub proof fn lemma_render_view(j: Json)
    ensures
        spec_render(j) == mrender(jview(j)),
    decreases j,
{
    match j {
        Json::Arr(items) => {
            lemma_render_items_view(items@);
        },
        Json::Obj(fields) => {
            lemma_render_fields_view(fields@);
        },
        _ => {},
    }
}

proof fn lemma_render_items_view(s: Seq<Json>)
    ensures
        render_items(s) == mrender_items(jview_seq(s)),
    decreases s,
{
    lemma_jview_seq(s);
    if s.len() == 0 {
    } else if s.len() == 1 {
        lemma_render_view(s[0]);
        assert(jview_seq(s)[0] == jview(s[0]));
    } else {
        let pre = s.subrange(0, s.len() - 1);
        lemma_render_items_view(pre);
        lemma_render_view(s[s.len() - 1]);
        lemma_jview_seq(pre);
        assert(jview_seq(pre) =~= jview_seq(s).subrange(0, s.len() - 1));
        assert(jview_seq(s)[s.len() - 1] == jview(s[s.len() - 1]));
    }
}

proof fn lemma_render_fields_view(s: Seq<(String, Json)>)
    ensures
        render_fields(s) == mrender_fields(jview_fields(s)),
    decreases s,
{
    lemma_jview_fields(s);
    if s.len() == 0 {
    } else if s.len() == 1 {
        lemma_render_view(s[0].1);
        assert(jview_fields(s)[0] == (s[0].0@, jview(s[0].1)));
        assert(render_fields(s) == render_field(s[0]));
        assert(render_field(s[0]) == seq!['"'] + esc_str(s[0].0@) + seq!['"', ':'] + spec_render(
            s[0].1,
        ));
        assert(mrender_fields(jview_fields(s)) == seq!['"'] + esc_str(jview_fields(s)[0].0) + seq![
            '"',
            ':',
        ] + mrender(jview_fields(s)[0].1));
    } else {
        let pre = s.subrange(0, s.len() - 1);
        lemma_render_fields_view(pre);
        lemma_render_view(s[s.len() - 1].1);
        lemma_jview_fields(pre);
        assert(jview_fields(pre) =~= jview_fields(s).subrange(0, s.len() - 1));
        assert(jview_fields(s)[s.len() - 1] == (s[s.len() - 1].0@, jview(s[s.len() - 1].1)));
        assert(render_fields(pre) == mrender_fields(jview_fields(s).subrange(0, s.len() - 1)));
        assert(render_field(s[s.len() - 1]) == seq!['"'] + esc_str(
            jview_fields(s)[s.len() - 1].0,
        ) + seq!['"', ':'] + mrender(jview_fields(s)[s.len() - 1].1));
    }
}

/// The rendering of `j` as a string, stated over the shape of `j`.
pub fn render_json_m(j: &Json) -> (s: String)
    ensures
        s@ == mrender(jview(*j)),
{
    proof {
        lemma_render_view(*j);
    }
    render_json(j)
}

// ---------------------------------------------------------------------------
// Parsing: the exact value a line of text stands for, if any.
// ---------------------------------------------------------------------------
pub open spec fn is_ws(c: char) -> bool {
    c == ' ' || c == '\t' || c == '\n' || c == '\r'
}

/// The first position at or after `i` holding no blank.
pub open spec fn sp_ws(s: Seq<char>, i: int) -> int
    decreases s.len() - i,
{
    if 0 <= i && i < s.len() && is_ws(s[i]) {
        sp_ws(s, i + 1)
    } else {
        i
    }
}

/// The first position at or after `i` holding no digit.
pub open spec fn sp_digits(s: Seq<char>, i: int) -> int
    decreases s.len() - i,
{
    if 0 <= i && i < s.len() && is_digit(s[i]) {
        sp_digits(s, i + 1)
    } else {
        i
    }
}

/// The position after the number token starting at `i`, or a negative value
/// if none starts there.
pub open spec fn sp_number_end(s: Seq<char>, i: int) -> int {
    let j = if 0 <= i && i < s.len() && s[i] == '-' {
        i + 1
    } else {
        i
    };
    if !(0 <= j && j < s.len() && is_digit(s[j])) {
        -1
    } else {
        let k = if s[j] == '0' {
            j + 1
        } else {
            sp_digits(s, j)
        };
        let k2 = if k < s.len() && s[k] == '.' {
            if k + 1 < s.len() && is_digit(s[k + 1]) {
                sp_digits(s, k + 1)
            } else {
                -1
            }
        } else {
            k
        };
        if k2 < 0 {
            -1
        } else {
            let k3 = if k2 < s.len() && (s[k2] == 'e' || s[k2] == 'E') {
                let e0 = if k2 + 1 < s.len() && (s[k2 + 1] == '+' || s[k2 + 1] == '-') {
                    k2 + 2
                } else {
                    k2 + 1
                };
                if e0 < s.len() && is_digit(s[e0]) {
                    sp_digits(s, e0)
                } else {
                    -1
                }
            } else {
                k2
            };
            k3
        }
    }
}

pub open spec fn hex_val(c: char) -> int {
    if '0' <= c && c <= '9' {
        c as int - '0' as int
    } else if 'a' <= c && c <= 'f' {
        10 + c as int - 'a' as int
    } else if 'A' <= c && c <= 'F' {
        10 + c as int - 'A' as int
    } else {
        -1
    }
}

/// The value of the four hex digits at `i`, or a negative value.
pub open spec fn hex4(s: Seq<char>, i: int) -> int {
    if 0 <= i && i + 4 <= s.len() && hex_val(s[i]) >= 0 && hex_val(s[i + 1]) >= 0 && hex_val(
        s[i + 2],
    ) >= 0 && hex_val(s[i + 3]) >= 0 {
        0x1000 * hex_val(s[i]) + 0x100 * hex_val(s[i + 1]) + 0x10 * hex_val(s[i + 2]) + hex_val(
            s[i + 3],
        )
    } else {
        -1
    }
}

/// The characters encoded by a string literal body starting at `i` (after
/// its opening quote), together with the position after the closing quote.
pub open spec fn sp_string_body(s: Seq<char>, i: int) -> Option<(Seq<char>, int)>
    decreases s.len() - i,
{
    if !(0 <= i && i < s.len()) {
        None
    } else {
        let c = s[i];
        if c == '"' {
            Some((Seq::empty(), i + 1))
        } else if (c as u32) < 0x20 {
            None
        } else if c == '\\' {
            if i + 1 >= s.len() {
                None
            } else {
                let e = s[i + 1];
                if e == 'u' {
                    let h = hex4(s, i + 2);
                    if h < 0 {
                        None
                    } else if 0xD800 <= h && h < 0xDC00 {
                        if i + 12 <= s.len() && s[i + 6] == '\\' && s[i + 7] == 'u' {
                            let l = hex4(s, i + 8);
                            if 0xDC00 <= l && l < 0xE000 {
                                let code = 0x10000 + (h - 0xD800) * 0x400 + (l - 0xDC00);
                                match sp_string_body(s, i + 12) {
                                    None => None,
                                    Some((t, e2)) => Some((seq![((code as u32) as char)] + t, e2)),
                                }
                            } else {
                                None
                            }
                        } else {
                            None
                        }
                    } else if 0xDC00 <= h && h < 0xE000 {
                        None
                    } else {
                        match sp_string_body(s, i + 6) {
                            None => None,
                            Some((t, e2)) => Some((seq![((h as u32) as char)] + t, e2)),
                        }
                    }
                } else if e == '"' || e == '\\' || e == '/' || e == 'b' || e == 'f' || e == 'n' || e
                    == 'r' || e == 't' {
                    let r = if e == '"' {
                        '"'
                    } else if e == '\\' {
                        '\\'
                    } else if e == '/' {
                        '/'
                    } else if e == 'b' {
                        '\x08'
                    } else if e == 'f' {
                        '\x0c'
                    } else if e == 'n' {
                        '\n'
                    } else if e == 'r' {
                        '\r'
                    } else {
                        '\t'
                    };
                    match sp_string_body(s, i + 2) {
                        None => None,
                        Some((t, e2)) => Some((seq![r] + t, e2)),
                    }
                } else {
                    None
                }
            }
        } else {
            match sp_string_body(s, i + 1) {
                None => None,
                Some((t, e2)) => Some((seq![c] + t, e2)),
            }
        }
    }
}

/// The value starting exactly at `i` (no leading blanks), with the position
/// after it.
pub open spec fn sp_value(s: Seq<char>, i: int) -> Option<(JsonM, int)>
    decreases s.len() - i, 0int,
{
    if !(0 <= i && i < s.len()) {
        None
    } else {
        let c = s[i];
        if c == 'n' {
            if i + 4 <= s.len() && s[i + 1] == 'u' && s[i + 2] == 'l' && s[i + 3] == 'l' {
                Some((JsonM::Null, i + 4))
            } else {
                None
            }
        } else if c == 't' {
            if i + 4 <= s.len() && s[i + 1] == 'r' && s[i + 2] == 'u' && s[i + 3] == 'e' {
                Some((JsonM::Bool(true), i + 4))
            } else {
                None
            }
        } else if c == 'f' {
            if i + 5 <= s.len() && s[i + 1] == 'a' && s[i + 2] == 'l' && s[i + 3] == 's' && s[i + 4]
                == 'e' {
                Some((JsonM::Bool(false), i + 5))
            } else {
                None
            }
        } else if c == '"' {
            match sp_string_body(s, i + 1) {
                None => None,
                Some((t, e)) => Some((JsonM::Str(t), e)),
            }
        } else if c == '-' || is_digit(c) {
            let e = sp_number_end(s, i);
            if e < 0 || e > s.len() {
                None
            } else {
                Some((JsonM::Num(s.subrange(i, e)), e))
            }
        } else if c == '[' {
            let k = sp_ws(s, i + 1);
            if k < s.len() && s[k] == ']' {
                Some((JsonM::Arr(Seq::empty()), k + 1))
            } else {
                match sp_elems(s, i + 1) {
                    None => None,
                    Some((es, e)) => Some((JsonM::Arr(es), e)),
                }
            }
        } else if c == '{' {
            let k = sp_ws(s, i + 1);
            if k < s.len() && s[k] == '}' {
                Some((JsonM::Obj(Seq::empty()), k + 1))
            } else {
                match sp_members(s, i + 1) {
                    None => None,
                    Some((fs, e)) => Some((JsonM::Obj(fs), e)),
                }
            }
        } else {
            None
        }
    }
}

/// One or more comma-separated array elements starting at `i` (just after
/// `[` or a comma), up to and including the closing bracket.
pub open spec fn sp_elems(s: Seq<char>, i: int) -> Option<(Seq<JsonM>, int)>
    decreases s.len() - i, 1int,
{
    if !(0 <= i && i <= s.len()) {
        None
    } else {
        let k = sp_ws(s, i);
        if !(i <= k && k <= s.len()) {
            None
        } else {
            match sp_value(s, k) {
                None => None,
                Some((m, n)) => if n <= k || n > s.len() {
                    None
                } else {
                    let k2 = sp_ws(s, n);
                    if !(n <= k2 && k2 <= s.len()) {
                        None
                    } else if k2 < s.len() && s[k2] == ']' {
                        Some((seq![m], k2 + 1))
                    } else if k2 < s.len() && s[k2] == ',' {
                        match sp_elems(s, k2 + 1) {
                            None => None,
                            Some((rest, e)) => Some((seq![m] + rest, e)),
                        }
                    } else {
                        None
                    }
                },
            }
        }
    }
}

/// One or more `"key":value` members starting at `i` (just after `{` or a
/// comma), up to and including the closing brace.
pub open spec fn sp_members(s: Seq<char>, i: int) -> Option<(Seq<(Seq<char>, JsonM)>, int)>
    decreases s.len() - i, 1int,
{
    if !(0 <= i && i <= s.len()) {
        None
    } else {
        let k = sp_ws(s, i);
        if !(i <= k && k < s.len()) {
            None
        } else if s[k] != '"' {
            None
        } else {
            match sp_string_body(s, k + 1) {
                None => None,
                Some((key, e1)) => if e1 <= k + 1 || e1 > s.len() {
                    None
                } else {
                    let k3 = sp_ws(s, e1);
                    if !(e1 <= k3 && k3 < s.len()) {
                        None
                    } else if s[k3] != ':' {
                        None
                    } else {
                        let k4 = sp_ws(s, k3 + 1);
                        if !(k3 < k4 && k4 <= s.len()) {
                            None
                        } else {
                        match sp_value(s, k4) {
                            None => None,
                            Some((m, n)) => if n <= k4 || n > s.len() {
                                None
                            } else {
                                let k5 = sp_ws(s, n);
                                if !(n <= k5 && k5 <= s.len()) {
                                    None
                                } else if k5 < s.len() && s[k5] == '}' {
                                    Some((seq![(key, m)], k5 + 1))
                                } else if k5 < s.len() && s[k5] == ',' {
                                    match sp_members(s, k5 + 1) {
                                        None => None,
                                        Some((rest, e)) => Some((seq![(key, m)] + rest, e)),
                                    }
                                } else {
                                    None
                                }
                            },
                        }
                        }
                    }
                },
            }
        }
    }
}

/// The value that a whole line of text stands for: one value, surrounded by
/// nothing but blanks.
pub open spec fn spec_parse_text(s: Seq<char>) -> Option<JsonM> {
    match sp_value(s, sp_ws(s, 0)) {
        None => None,
        Some((m, n)) => if sp_ws(s, n) == s.len() {
            Some(m)
        } else {
            None
        },
    }
}

pub fn skip_ws(s: &Vec<char>, i: usize) -> (r: usize)
    requires
        i <= s@.len(),
    ensures
        r as int == sp_ws(s@, i as int),
        i <= r <= s@.len(),
{
    let mut cur = i;
    while cur < s.len() && (s[cur] == ' ' || s[cur] == '\t' || s[cur] == '\n' || s[cur] == '\r')
        invariant
            i <= cur <= s@.len(),
            sp_ws(s@, i as int) == sp_ws(s@, cur as int),
        decreases s@.len() - cur,
    {
        cur = cur + 1;
    }
    cur
}

fn scan_digits(s: &Vec<char>, i: usize) -> (r: usize)
    requires
        i <= s@.len(),
    ensures
        r as int == sp_digits(s@, i as int),
        i <= r <= s@.len(),
        r == i ==> !(i < s@.len() && is_digit(s@[i as int])),
{
    let mut cur = i;
    while cur < s.len() && ('0' <= s[cur] && s[cur] <= '9')
        invariant
            i <= cur <= s@.len(),
            sp_digits(s@, i as int) == sp_digits(s@, cur as int),
        decreases s@.len() - cur,
    {
        cur = cur + 1;
    }
    cur
}

fn hex_nibble(c: char) -> (r: Option<u32>)
    ensures
        r matches Some(v) ==> hex_val(c) == v as int && v < 16,
        r is None ==> hex_val(c) < 0,
{
    if '0' <= c && c <= '9' {
        Some((c as u32) - ('0' as u32))
    } else if 'a' <= c && c <= 'f' {
        Some(10 + (c as u32) - ('a' as u32))
    } else if 'A' <= c && c <= 'F' {
        Some(10 + (c as u32) - ('A' as u32))
    } else {
        None
    }
}

fn hex4_e(s: &Vec<char>, i: usize) -> (r: Option<u32>)
    requires
        i <= s@.len(),
    ensures
        r matches Some(v) ==> hex4(s@, i as int) == v as int && v < 0x10000,
        r is None ==> hex4(s@, i as int) < 0,
{
    if s.len() - i < 4 {
        return None;
    }
    let a = hex_nibble(s[i]);
    let b = hex_nibble(s[i + 1]);
    let c = hex_nibble(s[i + 2]);
    let d = hex_nibble(s[i + 3]);
    match (a, b, c, d) {
        (Some(a), Some(b), Some(c), Some(d)) => Some(0x1000 * a + 0x100 * b + 0x10 * c + d),
        _ => None,
    }
}

proof fn lemma_body_step(
    s: Seq<char>,
    i0: int,
    pre: Seq<char>,
    post: Seq<char>,
    cur: int,
    nxt: int,
    c: char,
)
    requires
        (match sp_string_body(s, cur) {
            Some((t, e)) => sp_string_body(s, i0) == Some((pre + t, e)),
            None => sp_string_body(s, i0) is None,
        }),
        sp_string_body(s, cur) == (match sp_string_body(s, nxt) {
            None => None::<(Seq<char>, int)>,
            Some((t, e)) => Some((seq![c] + t, e)),
        }),
        post == pre + seq![c],
    ensures
        (match sp_string_body(s, nxt) {
            Some((t, e)) => sp_string_body(s, i0) == Some((post + t, e)),
            None => sp_string_body(s, i0) is None,
        }),
{
    match sp_string_body(s, nxt) {
        Some((t, e)) => {
            assert(pre + (seq![c] + t) =~= post + t);
        },
        None => {},
    }
}

/// Parse a string literal body, `i` standing just after the opening quote;
/// on success the decoded text and the position after the closing quote.
fn parse_string_body(s: &Vec<char>, i: usize) -> (r: Option<(String, usize)>)
    requires
        i <= s@.len(),
    ensures
        r matches Some((t, e)) ==> sp_string_body(s@, i as int) == Some((t@, e as int)) && i < e
            <= s@.len(),
        r is None ==> sp_string_body(s@, i as int) is None,
{
    let mut acc: Vec<char> = Vec::new();
    let mut cur: usize = i;
    proof {
        if sp_string_body(s@, i as int) is Some {
            let te = sp_string_body(s@, i as int)->Some_0;
            assert(acc@ + te.0 =~= te.0);
        }
    }
    loop
        invariant
            i <= cur <= s@.len(),
            (match sp_string_body(s@, cur as int) {
                Some((t, e)) => sp_string_body(s@, i as int) == Some((acc@ + t, e)),
                None => sp_string_body(s@, i as int) is None,
            }),
        decreases s@.len() - cur,
    {
        if cur >= s.len() {
            return None;
        }
        let c = s[cur];
        if c == '"' {
            proof {
                assert(sp_string_body(s@, cur as int) == Some((Seq::<char>::empty(), cur + 1)));
                assert(acc@ + Seq::<char>::empty() =~= acc@);
            }
            let t = chars_to_string(&acc);
            return Some((t, cur + 1));
        } else if (c as u32) < 0x20 {
            return None;
        } else if c == '\\' {
            if cur + 1 >= s.len() {
                return None;
            }
            let e = s[cur + 1];
            if e == 'u' {
                let h = match hex4_e(s, cur + 2) {
                    None => {
                        return None;
                    },
                    Some(h) => h,
                };
                if 0xD800 <= h && h < 0xDC00 {
                    if s.len() - cur < 12 {
                        return None;
                    }
                    if !(s[cur + 6] == '\\' && s[cur + 7] == 'u') {
                        return None;
                    }
                    let l = match hex4_e(s, cur + 8) {
                        None => {
                            return None;
                        },
                        Some(l) => l,
                    };
                    if !(0xDC00 <= l && l < 0xE000) {
                        return None;
                    }
                    let code: u32 = 0x10000 + (h - 0xD800) * 0x400 + (l - 0xDC00);
                    let c2 = match char_from_u32(code) {
                        None => {
                            proof {
                                assert(is_scalar(code));
                            }
                            return None;
                        },
                        Some(c2) => c2,
                    };
                    let ghost pre_cur = cur as int;
                    let ghost pre_acc = acc@;
                    acc.push(c2);
                    cur = cur + 12;
                    proof {
                        assert(sp_string_body(s@, pre_cur) == (match sp_string_body(
                            s@,
                            cur as int,
                        ) {
                            None => None::<(Seq<char>, int)>,
                            Some((t, e2)) => Some((seq![c2] + t, e2)),
                        }));
                        assert(acc@ =~= pre_acc + seq![c2]);
                        lemma_body_step(s@, i as int, pre_acc, acc@, pre_cur, cur as int, c2);
                    }
                } else if 0xDC00 <= h && h < 0xE000 {
                    return None;
                } else {
                    let c2 = match char_from_u32(h) {
                        None => {
                            proof {
                                assert(is_scalar(h));
                            }
                            return None;
                        },
                        Some(c2) => c2,
                    };
                    let ghost pre_cur = cur as int;
                    let ghost pre_acc = acc@;
                    acc.push(c2);
                    cur = cur + 6;
                    proof {
                        assert(sp_string_body(s@, pre_cur) == (match sp_string_body(
                            s@,
                            cur as int,
                        ) {
                            None => None::<(Seq<char>, int)>,
                            Some((t, e2)) => Some((seq![c2] + t, e2)),
                        }));
                        assert(acc@ =~= pre_acc + seq![c2]);
                        lemma_body_step(s@, i as int, pre_acc, acc@, pre_cur, cur as int, c2);
                    }
                }
            } else if e == '"' || e == '\\' || e == '/' || e == 'b' || e == 'f' || e == 'n' || e
                == 'r' || e == 't' {
                let c2 = if e == '"' {
                    '"'
                } else if e == '\\' {
                    '\\'
                } else if e == '/' {
                    '/'
                } else if e == 'b' {
                    '\x08'
                } else if e == 'f' {
                    '\x0c'
                } else if e == 'n' {
                    '\n'
                } else if e == 'r' {
                    '\r'
                } else {
                    '\t'
                };
                let ghost pre_cur = cur as int;
                let ghost pre_acc = acc@;
                acc.push(c2);
                cur = cur + 2;
                proof {
                    assert(sp_string_body(s@, pre_cur) == (match sp_string_body(s@, cur as int) {
                        None => None::<(Seq<char>, int)>,
                        Some((t, e2)) => Some((seq![c2] + t, e2)),
                    }));
                    assert(acc@ =~= pre_acc + seq![c2]);
                    lemma_body_step(s@, i as int, pre_acc, acc@, pre_cur, cur as int, c2);
                }
            } else {
                return None;
            }
        } else {
            let ghost pre_cur = cur as int;
            let ghost pre_acc = acc@;
            acc.push(c);
            cur = cur + 1;
            proof {
                assert(sp_string_body(s@, pre_cur) == (match sp_string_body(s@, cur as int) {
                    None => None::<(Seq<char>, int)>,
                    Some((t, e2)) => Some((seq![c] + t, e2)),
                }));
                assert(acc@ =~= pre_acc + seq![c]);
                lemma_body_step(s@, i as int, pre_acc, acc@, pre_cur, cur as int, c);
            }
        }
    }
}

/// Parse the number token starting at `i`: the token text and the position
/// after it.
fn parse_number(s: &Vec<char>, i: usize) -> (r: Option<(String, usize)>)
    requires
        i < s@.len(),
    ensures
        r matches Some((t, e)) ==> sp_number_end(s@, i as int) == e as int && t@ == s@.subrange(
            i as int,
            e as int,
        ) && i < e <= s@.len(),
        r is None ==> sp_number_end(s@, i as int) < 0,
{
    let n = s.len();
    let j: usize = if s[i] == '-' {
        i + 1
    } else {
        i
    };
    if j >= n {
        return None;
    }
    let cj = s[j];
    if !('0' <= cj && cj <= '9') {
        return None;
    }
    let k: usize = if cj == '0' {
        j + 1
    } else {
        scan_digits(s, j)
    };
    let k2: usize = if k < s.len() && s[k] == '.' {
        if k + 1 < s.len() && {
            let c = s[k + 1];
            '0' <= c && c <= '9'
        } {
            scan_digits(s, k + 1)
        } else {
            return None;
        }
    } else {
        k
    };
    let k3: usize = if k2 < s.len() && (s[k2] == 'e' || s[k2] == 'E') {
        let e0: usize = if k2 + 1 < s.len() && (s[k2 + 1] == '+' || s[k2 + 1] == '-') {
            k2 + 2
        } else {
            k2 + 1
        };
        if e0 < s.len() && {
            let c = s[e0];
            '0' <= c && c <= '9'
        } {
            scan_digits(s, e0)
        } else {
            return None;
        }
    } else {
        k2
    };
    let mut tok: Vec<char> = Vec::new();
    let mut p: usize = i;
    while p < k3
        invariant
            i <= p <= k3 <= s@.len(),
            tok@ == s@.subrange(i as int, p as int),
        decreases k3 - p,
    {
        tok.push(s[p]);
        assert(tok@ =~= s@.subrange(i as int, p + 1));
        p = p + 1;
    }
    let t = chars_to_string(&tok);
    assert(i < k3);
    Some((t, k3))
}

/// Parse the value starting exactly at `i`.
fn parse_value(s: &Vec<char>, i: usize) -> (r: Option<(Json, usize)>)
    requires
        i <= s@.len(),
    ensures
        r matches Some((j, e)) ==> sp_value(s@, i as int) == Some((jview(j), e as int)) && i < e
            <= s@.len(),
        r is None ==> sp_value(s@, i as int) is None,
    decreases s@.len() - i, 0int,
{
    if i >= s.len() {
        return None;
    }
    let c = s[i];
    if c == 'n' {
        if s.len() - i >= 4 && s[i + 1] == 'u' && s[i + 2] == 'l' && s[i + 3] == 'l' {
            Some((Json::Null, i + 4))
        } else {
            None
        }
    } else if c == 't' {
        if s.len() - i >= 4 && s[i + 1] == 'r' && s[i + 2] == 'u' && s[i + 3] == 'e' {
            Some((Json::Bool(true), i + 4))
        } else {
            None
        }
    } else if c == 'f' {
        if s.len() - i >= 5 && s[i + 1] == 'a' && s[i + 2] == 'l' && s[i + 3] == 's' && s[i + 4]
            == 'e' {
            Some((Json::Bool(false), i + 5))
        } else {
            None
        }
    } else if c == '"' {
        match parse_string_body(s, i + 1) {
            None => None,
            Some((t, e)) => Some((Json::Str(t), e)),
        }
    } else if c == '-' || ('0' <= c && c <= '9') {
        match parse_number(s, i) {
            None => None,
            Some((t, e)) => Some((Json::Num(t), e)),
        }
    } else if c == '[' {
        let k = skip_ws(s, i + 1);
        if k < s.len() && s[k] == ']' {
            let items: Vec<Json> = Vec::new();
            proof {
                assert(jview_seq(items@) =~= Seq::<JsonM>::empty());
            }
            Some((Json::Arr(items), k + 1))
        } else {
            match parse_elems(s, i + 1) {
                None => None,
                Some((items, e)) => Some((Json::Arr(items), e)),
            }
        }
    } else if c == '{' {
        let k = skip_ws(s, i + 1);
        if k < s.len() && s[k] == '}' {
            let fields: Vec<(String, Json)> = Vec::new();
            proof {
                assert(jview_fields(fields@) =~= Seq::<(Seq<char>, JsonM)>::empty());
            }
            Some((Json::Obj(fields), k + 1))
        } else {
            match parse_members(s, i + 1) {
                None => None,
                Some((fields, e)) => Some((Json::Obj(fields), e)),
            }
        }
    } else {
        None
    }
}

/// Parse array elements from just after `[` or a comma, through `]`.
fn parse_elems(s: &Vec<char>, i: usize) -> (r: Option<(Vec<Json>, usize)>)
    requires
        i <= s@.len(),
    ensures
        r matches Some((items, e)) ==> sp_elems(s@, i as int) == Some((jview_seq(items@), e as int))
            && i < e <= s@.len(),
        r is None ==> sp_elems(s@, i as int) is None,
    decreases s@.len() - i, 1int,
{
    let k = skip_ws(s, i);
    match parse_value(s, k) {
        None => None,
        Some((v, n)) => {
            let k2 = skip_ws(s, n);
            if k2 < s.len() && s[k2] == ']' {
                let mut items: Vec<Json> = Vec::new();
                items.push(v);
                proof {
                    reveal_with_fuel(jview_seq, 2);
                    assert(items@ =~= seq![v]);
                    assert(items@.subrange(1, items@.len() as int) =~= Seq::<Json>::empty());
                    assert(jview_seq(items@) =~= seq![jview(v)]);
                }
                Some((items, k2 + 1))
            } else if k2 < s.len() && s[k2] == ',' {
                match parse_elems(s, k2 + 1) {
                    None => None,
                    Some((mut rest, e)) => {
                        let ghost tail = rest@;
                        rest.insert(0, v);
                        proof {
                            assert(rest@.subrange(1, rest@.len() as int) =~= tail);
                            assert(jview_seq(rest@) =~= seq![jview(v)] + jview_seq(tail));
                        }
                        Some((rest, e))
                    },
                }
            } else {
                None
            }
        },
    }
}

/// Parse object members from just after `{` or a comma, through `}`.
fn parse_members(s: &Vec<char>, i: usize) -> (r: Option<(Vec<(String, Json)>, usize)>)
    requires
        i <= s@.len(),
    ensures
        r matches Some((fields, e)) ==> sp_members(s@, i as int) == Some(
            (jview_fields(fields@), e as int),
        ) && i < e <= s@.len(),
        r is None ==> sp_members(s@, i as int) is None,
    decreases s@.len() - i, 1int,
{
    let k = skip_ws(s, i);
    if k >= s.len() {
        return None;
    }
    if s[k] != '"' {
        return None;
    }
    match parse_string_body(s, k + 1) {
        None => None,
        Some((key, e1)) => {
            let k3 = skip_ws(s, e1);
            if k3 >= s.len() {
                return None;
            }
            if s[k3] != ':' {
                return None;
            }
            let k4 = skip_ws(s, k3 + 1);
            match parse_value(s, k4) {
                None => None,
                Some((v, n)) => {
                    let k5 = skip_ws(s, n);
                    if k5 < s.len() && s[k5] == '}' {
                        let mut fields: Vec<(String, Json)> = Vec::new();
                        let ghost kv = (key@, jview(v));
                        fields.push((key, v));
                        proof {
                            reveal_with_fuel(jview_fields, 2);
                            assert(fields@.subrange(1, fields@.len() as int) =~= Seq::<
                                (String, Json),
                            >::empty());
                            assert(jview_fields(fields@) =~= seq![kv]);
                        }
                        Some((fields, k5 + 1))
                    } else if k5 < s.len() && s[k5] == ',' {
                        match parse_members(s, k5 + 1) {
                            None => None,
                            Some((mut rest, e)) => {
                                let ghost kv = (key@, jview(v));
                                let ghost tail = rest@;
                                rest.insert(0, (key, v));
                                proof {
                                    let whole = rest@;
                                    assert(whole.subrange(1, whole.len() as int) =~= tail);
                                    assert(jview_fields(rest@) =~= seq![kv] + jview_fields(tail));
                                }
                                Some((rest, e))
                            },
                        }
                    } else {
                        None
                    }
                },
            }
        },
    }
}

/// Parse one line of text as a single JSON value.
pub fn parse_text(line: &str) -> (r: Option<Json>)
    ensures
        r matches Some(j) ==> spec_parse_text(line@) == Some(jview(j)),
        r is None ==> spec_parse_text(line@) is None,
{
    let s = str_to_chars(line);
    let i = skip_ws(&s, 0);
    match parse_value(&s, i) {
        None => None,
        Some((j, n)) => {
            let e = skip_ws(&s, n);
            if e == s.len() {
                Some(j)
            } else {
                None
            }
        },
    }
}

} // verus!
