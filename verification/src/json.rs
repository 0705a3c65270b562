//! The structured values that the protocol carries: a JSON document modelled
//! with plain library types, numbers kept as their textual source tokens.
use vstd::prelude::*;

verus! {

/// A JSON value. Numbers are carried as their textual token so that no
/// precision is lost and no floating point enters the library.
pub enum Json {
    Null,
    Bool(bool),
    Num(String),
    Str(String),
    Arr(Vec<Json>),
    Obj(Vec<(String, Json)>),
}

/// The mathematical shape of a [`Json`] value: the same tree with every
/// string replaced by its character sequence.
pub ghost enum JsonM {
    Null,
    Bool(bool),
    Num(Seq<char>),
    Str(Seq<char>),
    Arr(Seq<JsonM>),
    Obj(Seq<(Seq<char>, JsonM)>),
}

/// The shape of a value.
pub open spec fn jview(j: Json) -> JsonM
    decreases j,
{
    match j {
        Json::Null => JsonM::Null,
        Json::Bool(b) => JsonM::Bool(b),
        Json::Num(t) => JsonM::Num(t@),
        Json::Str(s) => JsonM::Str(s@),
        Json::Arr(items) => JsonM::Arr(jview_seq(items@)),
        Json::Obj(fields) => JsonM::Obj(jview_fields(fields@)),
    }
}

pub open spec fn jview_seq(s: Seq<Json>) -> Seq<JsonM>
    decreases s,
{
    if s.len() == 0 {
        Seq::empty()
    } else {
        seq![jview(s[0])] + jview_seq(s.subrange(1, s.len() as int))
    }
}

pub open spec fn jview_fields(s: Seq<(String, Json)>) -> Seq<(Seq<char>, JsonM)>
    decreases s,
{
    if s.len() == 0 {
        Seq::empty()
    } else {
        seq![(s[0].0@, jview(s[0].1))] + jview_fields(s.subrange(1, s.len() as int))
    }
}

/// `jview_seq` maps the view over the elements.
pub proof fn lemma_jview_seq(s: Seq<Json>)
    ensures
        jview_seq(s).len() == s.len(),
        forall|i: int| 0 <= i < s.len() ==> #[trigger] jview_seq(s)[i] == jview(s[i]),
    decreases s.len(),
{
    if s.len() > 0 {
        lemma_jview_seq(s.subrange(1, s.len() as int));
    }
}

/// `jview_fields` maps the view over the fields.
pub proof fn lemma_jview_fields(s: Seq<(String, Json)>)
    ensures
        jview_fields(s).len() == s.len(),
        forall|i: int|
            0 <= i < s.len() ==> #[trigger] jview_fields(s)[i] == (s[i].0@, jview(s[i].1)),
    decreases s.len(),
{
    if s.len() > 0 {
        lemma_jview_fields(s.subrange(1, s.len() as int));
    }
}

/// The index of the first field named `key`, if any.
pub open spec fn field_index(fields: Seq<(Seq<char>, JsonM)>, key: Seq<char>) -> int
    decreases fields.len(),
{
    if fields.len() == 0 {
        -1
    } else if fields[0].0 == key {
        0
    } else {
        let r = field_index(fields.subrange(1, fields.len() as int), key);
        if r == -1 {
            -1
        } else {
            r + 1
        }
    }
}

/// The value of the first field named `key`, if any.
pub open spec fn field_of(m: JsonM, key: Seq<char>) -> Option<JsonM> {
    match m {
        JsonM::Obj(fields) => {
            let i = field_index(fields, key);
            if i == -1 {
                None
            } else {
                Some(fields[i].1)
            }
        },
        _ => None,
    }
}

/// What `field_index` finds: a position of a field named `key` before which
/// no field bears that name, or nothing anywhere.
pub proof fn lemma_field_index(fields: Seq<(Seq<char>, JsonM)>, key: Seq<char>)
    ensures
        field_index(fields, key) == -1 ==> forall|i: int|
            0 <= i < fields.len() ==> (#[trigger] fields[i]).0 != key,
        field_index(fields, key) != -1 ==> {
            let r = field_index(fields, key);
            &&& 0 <= r < fields.len()
            &&& fields[r].0 == key
            &&& forall|i: int| 0 <= i < r ==> (#[trigger] fields[i]).0 != key
        },
    decreases fields.len(),
{
    if fields.len() > 0 && fields[0].0 != key {
        lemma_field_index(fields.subrange(1, fields.len() as int), key);
        assert forall|i: int|
            1 <= i < fields.len() implies fields.subrange(1, fields.len() as int)[i - 1]
            == fields[i] by {}
    }
}

} // verus!
