//! JSON trees: the arguments that tools read and the data that they return.
//!
//! [`Json`] is the tree that the logic builds and reads, [`JsonView`] what it
//! means. `serde_json` turns trees into text.

use crate::text::{own, same};
use vstd::prelude::*;

verus! {

/// A JSON number of `serde_json`.
#[verifier::external_type_specification]
#[verifier::external_body]
pub struct ExNumber(serde_json::Number);

/// A JSON value of `serde_json`.
#[verifier::external_type_specification]
#[verifier::external_body]
pub struct ExValue(serde_json::Value);

/// A JSON tree.
#[derive(Debug, PartialEq)]
pub enum Json {
    Null,
    Bool(bool),
    Num(serde_json::Number),
    Text(String),
    List(Vec<Json>),
    Object(Vec<Field>),
}

/// One entry of a JSON object. Of two entries with one key the later counts.
#[derive(Debug, PartialEq)]
pub struct Field {
    pub key: String,
    pub value: Json,
}

/// What a JSON tree means: an object is a map from keys to values.
pub enum JsonView {
    Null,
    Bool(bool),
    Num(serde_json::Number),
    Text(Seq<char>),
    List(Seq<JsonView>),
    Object(Map<Seq<char>, JsonView>),
}

/// The meaning of a tree.
pub open spec fn json_view(j: Json) -> JsonView
    decreases j,
{
    match j {
        Json::Null => JsonView::Null,
        Json::Bool(b) => JsonView::Bool(b),
        Json::Num(n) => JsonView::Num(n),
        Json::Text(s) => JsonView::Text(s@),
        Json::List(v) => JsonView::List(list_view(v@)),
        Json::Object(v) => JsonView::Object(object_view(v@)),
    }
}

/// The meanings of the items of a list.
pub open spec fn list_view(s: Seq<Json>) -> Seq<JsonView>
    decreases s,
{
    if s.len() == 0 {
        Seq::empty()
    } else {
        list_view(s.subrange(0, s.len() - 1)).push(json_view(s[s.len() - 1]))
    }
}

/// The map that the entries of an object make.
pub open spec fn object_view(s: Seq<Field>) -> Map<Seq<char>, JsonView>
    decreases s,
{
    if s.len() == 0 {
        Map::empty()
    } else {
        object_view(s.subrange(0, s.len() - 1)).insert(
            s[s.len() - 1].key@,
            json_view(s[s.len() - 1].value),
        )
    }
}

impl View for Json {
    type V = JsonView;

    open spec fn view(&self) -> JsonView {
        json_view(*self)
    }
}

// ---------------------------------------------------------------------
// Numbers
// ---------------------------------------------------------------------

/// The JSON number of an integer.
pub uninterp spec fn number_of_int(n: int) -> serde_json::Number;

/// The 64-bit signed integer that a JSON number is, if it is one.
pub uninterp spec fn int_of_number(n: serde_json::Number) -> Option<i64>;

/// `serde_json::Number::from` on an `i64`. Reading the number back gives
/// the integer.
#[verifier::external_body]
fn number_from(n: i64) -> (r: serde_json::Number)
    ensures
        r == number_of_int(n as int),
        int_of_number(r) == Some(n),
{
    serde_json::Number::from(n)
}

/// `serde_json::Number::from` on a length: the number that the same integer
/// gives as an `i64`.
#[verifier::external_body]
fn number_from_usize(n: usize) -> (r: serde_json::Number)
    ensures
        r == number_of_int(n as int),
{
    serde_json::Number::from(n)
}

/// `serde_json::Number::as_i64`.
#[verifier::external_body]
fn number_as_i64(n: &serde_json::Number) -> (r: Option<i64>)
    ensures
        r == int_of_number(*n),
{
    n.as_i64()
}

/// `serde_json::Number::clone`: the copy is the same number.
#[verifier::external_body]
fn number_clone(n: &serde_json::Number) -> (r: serde_json::Number)
    ensures
        r == *n,
{
    n.clone()
}

/// The JSON number that `serde_json` reads from a text, where it is one.
pub uninterp spec fn number_of_text(s: Seq<char>) -> Option<serde_json::Number>;

/// `serde_json::from_str` into a number.
#[verifier::external_body]
fn number_from_text(s: &str) -> (r: Option<serde_json::Number>)
    ensures
        r == number_of_text(s@),
{
    serde_json::from_str::<serde_json::Number>(s).ok()
}

// ---------------------------------------------------------------------
// Text of a tree
// ---------------------------------------------------------------------

/// One layer of a `serde_json` value, over finished values.
pub enum Layer {
    Null,
    Bool(bool),
    Num(serde_json::Number),
    Text(String),
    List(Vec<serde_json::Value>),
    Object(Vec<(String, serde_json::Value)>),
}

/// The tree that a `serde_json` value holds.
pub uninterp spec fn content(v: serde_json::Value) -> JsonView;

/// The trees that the values of a list hold.
pub open spec fn contents(s: Seq<serde_json::Value>) -> Seq<JsonView> {
    s.map_values(|v: serde_json::Value| content(v))
}

/// The map that entries make when they are put in one after the other.
pub open spec fn entries_content(s: Seq<(String, serde_json::Value)>) -> Map<Seq<char>, JsonView>
    decreases s.len(),
{
    if s.len() == 0 {
        Map::empty()
    } else {
        entries_content(s.drop_last()).insert(s.last().0@, content(s.last().1))
    }
}

/// The tree that a layer describes.
pub open spec fn layer_view(l: Layer) -> JsonView {
    match l {
        Layer::Null => JsonView::Null,
        Layer::Bool(b) => JsonView::Bool(b),
        Layer::Num(n) => JsonView::Num(n),
        Layer::Text(s) => JsonView::Text(s@),
        Layer::List(v) => JsonView::List(contents(v@)),
        Layer::Object(v) => JsonView::Object(entries_content(v@)),
    }
}

/// The constructors of `serde_json::Value`. An object is collected from its
/// entries: of two entries with one key the later stays.
#[verifier::external_body]
fn build(layer: Layer) -> (r: serde_json::Value)
    ensures
        content(r) == layer_view(layer),
{
    match layer {
        Layer::Null => serde_json::Value::Null,
        Layer::Bool(b) => serde_json::Value::Bool(b),
        Layer::Num(n) => serde_json::Value::Number(n),
        Layer::Text(s) => serde_json::Value::String(s),
        Layer::List(v) => serde_json::Value::Array(v),
        Layer::Object(v) => serde_json::Value::Object(v.into_iter().collect()),
    }
}

/// The text that `serde_json::to_string` writes of a tree.
pub uninterp spec fn compact_text(v: JsonView) -> Seq<char>;

/// The indented text that `serde_json::to_string_pretty` writes of a tree.
pub uninterp spec fn pretty_text(v: JsonView) -> Seq<char>;

/// `serde_json::Value::to_string`, the compact text of a value.
#[verifier::external_body]
fn value_to_string(v: &serde_json::Value) -> (r: String)
    ensures
        r@ == compact_text(content(*v)),
{
    v.to_string()
}

/// `serde_json::to_string_pretty` on a value, whose keys are all texts, so
/// that writing it cannot fail.
#[verifier::external_body]
fn value_to_string_pretty(v: &serde_json::Value) -> (r: String)
    ensures
        r@ == pretty_text(content(*v)),
{
    serde_json::to_string_pretty(v).unwrap_or_default()
}

// ---------------------------------------------------------------------
// Tree of a text
// ---------------------------------------------------------------------

/// The tree that `serde_json::from_str` reads from a text, or the text of its
/// error where the text is not one JSON value.
pub uninterp spec fn json_read(text: Seq<char>) -> Result<JsonView, Seq<char>>;

/// `serde_json::from_str` into a value, with its error as a text.
#[verifier::external_body]
fn parse(text: &str) -> (r: Result<serde_json::Value, String>)
    ensures
        json_read(text@) == (match r {
            Ok(v) => Ok::<JsonView, Seq<char>>(content(v)),
            Err(e) => Err::<JsonView, Seq<char>>(e@),
        }),
{
    serde_json::from_str::<serde_json::Value>(text).map_err(|e| e.to_string())
}

/// Whether no two entries have one key.
pub open spec fn distinct_keys(s: Seq<(String, serde_json::Value)>) -> bool {
    forall|i: int, j: int| 0 <= i < j < s.len() ==> (#[trigger] s[i]).0@ != (#[trigger] s[j]).0@
}

/// The variants of `serde_json::Value`, taken apart. An object's entries are
/// those of a map, so that no two have one key.
#[verifier::external_body]
fn take_apart(value: serde_json::Value) -> (r: Layer)
    ensures
        layer_view(r) == content(value),
        match r {
            Layer::Object(v) => distinct_keys(v@),
            _ => true,
        },
{
    match value {
        serde_json::Value::Null => Layer::Null,
        serde_json::Value::Bool(b) => Layer::Bool(b),
        serde_json::Value::Number(n) => Layer::Num(n),
        serde_json::Value::String(s) => Layer::Text(s),
        serde_json::Value::Array(v) => Layer::List(v),
        serde_json::Value::Object(m) => Layer::Object(m.into_iter().collect()),
    }
}

proof fn lemma_entries(s: Seq<(String, serde_json::Value)>)
    ensures
        entries_content(s).dom().finite(),
        distinct_keys(s) ==> forall|i: int|
            0 <= i < s.len() ==> entries_content(s).dom().contains((#[trigger] s[i]).0@)
                && entries_content(s)[s[i].0@] == content(s[i].1),
    decreases s.len(),
{
    if s.len() > 0 {
        let t = s.drop_last();
        lemma_entries(t);
        if distinct_keys(s) {
            assert(distinct_keys(t));
            assert forall|i: int| 0 <= i < s.len() implies entries_content(s).dom().contains(
                (#[trigger] s[i]).0@,
            ) && entries_content(s)[s[i].0@] == content(s[i].1) by {
                if i < t.len() {
                    assert(t[i] == s[i]);
                    assert(s[i].0@ != s[s.len() - 1].0@);
                }
            }
        }
    }
}

proof fn lemma_same_entries(v: Seq<Field>, s: Seq<(String, serde_json::Value)>)
    requires
        v.len() == s.len(),
        forall|i: int|
            0 <= i < s.len() ==> (#[trigger] v[i]).key@ == s[i].0@ && v[i].value@ == content(s[i].1),
    ensures
        object_view(v) == entries_content(s),
    decreases s.len(),
{
    if s.len() > 0 {
        let w = v.subrange(0, v.len() - 1);
        let t = s.drop_last();
        assert forall|i: int| 0 <= i < t.len() implies (#[trigger] w[i]).key@ == t[i].0@
            && w[i].value@ == content(t[i].1) by {
            assert(w[i] == v[i]);
        }
        lemma_same_entries(w, t);
        assert(v[v.len() - 1].value@ == content(s.last().1));
    }
}

/// The tree that `value` holds.
pub fn tree_of(value: serde_json::Value) -> (r: Json)
    ensures
        r@ == content(value),
    decreases content(value),
{
    let ghost whole = content(value);
    match take_apart(value) {
        Layer::Null => Json::Null,
        Layer::Bool(b) => Json::Bool(b),
        Layer::Num(n) => Json::Num(n),
        Layer::Text(s) => Json::Text(s),
        Layer::List(v) => {
            let mut rest: Vec<serde_json::Value> = v;
            let ghost all = rest@;
            let mut back: Vec<Json> = Vec::new();
            proof {
                assert(all.subrange(0, all.len() as int) =~= all);
            }
            while rest.len() > 0
                invariant
                    whole == content(value),
                    whole == JsonView::List(contents(all)),
                    rest@.len() + back@.len() == all.len(),
                    rest@ == all.subrange(0, rest@.len() as int),
                    forall|k: int|
                        0 <= k < back@.len() ==> (#[trigger] back@[k])@ == content(
                            all[all.len() - 1 - k],
                        ),
                decreases rest@.len(),
            {
                let ghost n = rest@.len() - 1;
                match rest.pop() {
                    Some(x) => {
                        proof {
                            assert(x == all[n]);
                            assert(contents(all)[n] == content(x));
                            assert(decreases_to!(whole => whole->List_0));
                            assert(decreases_to!(whole->List_0 => whole->List_0[n]));
                        }
                        back.push(tree_of(x));
                    },
                    None => {},
                }
                proof {
                    assert(rest@ =~= all.subrange(0, rest@.len() as int));
                }
            }
            let mut out: Vec<Json> = Vec::new();
            while back.len() > 0
                invariant
                    out@.len() + back@.len() == all.len(),
                    forall|k: int|
                        0 <= k < back@.len() ==> (#[trigger] back@[k])@ == content(
                            all[all.len() - 1 - k],
                        ),
                    forall|k: int|
                        0 <= k < out@.len() ==> (#[trigger] out@[k])@ == content(all[k]),
                decreases back@.len(),
            {
                match back.pop() {
                    Some(x) => {
                        out.push(x);
                    },
                    None => {},
                }
            }
            proof {
                lemma_list_view(out@);
                assert(list_view(out@) =~= contents(all));
            }
            Json::List(out)
        },
        Layer::Object(v) => {
            let mut rest: Vec<(String, serde_json::Value)> = v;
            let ghost all = rest@;
            let mut back: Vec<Field> = Vec::new();
            proof {
                assert(all.subrange(0, all.len() as int) =~= all);
                lemma_entries(all);
            }
            while rest.len() > 0
                invariant
                    whole == content(value),
                    whole == JsonView::Object(entries_content(all)),
                    entries_content(all).dom().finite(),
                    forall|i: int|
                        0 <= i < all.len() ==> entries_content(all).dom().contains(
                            (#[trigger] all[i]).0@,
                        ) && entries_content(all)[all[i].0@] == content(all[i].1),
                    rest@.len() + back@.len() == all.len(),
                    rest@ == all.subrange(0, rest@.len() as int),
                    forall|k: int|
                        0 <= k < back@.len() ==> (#[trigger] back@[k]).key@ == all[all.len() - 1
                            - k].0@ && back@[k].value@ == content(all[all.len() - 1 - k].1),
                decreases rest@.len(),
            {
                let ghost n = rest@.len() - 1;
                match rest.pop() {
                    Some((key, x)) => {
                        proof {
                            assert((key, x) == all[n]);
                            let m = whole->Object_0;
                            assert(m.dom().contains(key@) && m[key@] == content(x));
                            assert(decreases_to!(whole => whole->Object_0));
                            assert(decreases_to!(m => m[key@]));
                        }
                        back.push(Field { key, value: tree_of(x) });
                    },
                    None => {},
                }
                proof {
                    assert(rest@ =~= all.subrange(0, rest@.len() as int));
                }
            }
            let mut out: Vec<Field> = Vec::new();
            while back.len() > 0
                invariant
                    out@.len() + back@.len() == all.len(),
                    forall|k: int|
                        0 <= k < back@.len() ==> (#[trigger] back@[k]).key@ == all[all.len() - 1
                            - k].0@ && back@[k].value@ == content(all[all.len() - 1 - k].1),
                    forall|k: int|
                        0 <= k < out@.len() ==> (#[trigger] out@[k]).key@ == all[k].0@
                            && out@[k].value@ == content(all[k].1),
                decreases back@.len(),
            {
                match back.pop() {
                    Some(x) => {
                        out.push(x);
                    },
                    None => {},
                }
            }
            proof {
                lemma_same_entries(out@, all);
            }
            Json::Object(out)
        },
    }
}

/// The tree that `text` spells; none where it is not JSON.
pub fn read_json(text: &str) -> (r: Option<Json>)
    ensures
        match r {
            Some(j) => json_read(text@) == Ok::<JsonView, Seq<char>>(j@),
            None => json_read(text@) is Err,
        },
{
    match parse(text) {
        Ok(v) => Some(tree_of(v)),
        Err(_e) => None,
    }
}

/// Why a text is not JSON; none where it is.
pub open spec fn json_error(text: Seq<char>) -> Option<Seq<char>> {
    match json_read(text) {
        Ok(_) => None,
        Err(e) => Some(e),
    }
}

/// Why `text` is not JSON; `None` where it is.
pub fn json_problem(text: &str) -> (r: Option<String>)
    ensures
        crate::text::opt(r) == json_error(text@),
{
    match parse(text) {
        Ok(_v) => None,
        Err(e) => Some(e),
    }
}

// ---------------------------------------------------------------------
// Reading
// ---------------------------------------------------------------------

/// The value of `key` in an object.
pub open spec fn field(j: JsonView, key: Seq<char>) -> Option<JsonView> {
    match j {
        JsonView::Object(m) => if m.dom().contains(key) {
            Some(m[key])
        } else {
            None
        },
        _ => None,
    }
}

/// The text that a value is.
pub open spec fn text_in(j: Option<JsonView>) -> Option<Seq<char>> {
    match j {
        Some(JsonView::Text(s)) => Some(s),
        _ => None,
    }
}

/// The text under `key`, where there is one.
pub open spec fn text_field(j: JsonView, key: Seq<char>) -> Option<Seq<char>> {
    text_in(field(j, key))
}

/// The truth value under `key`, where there is one.
pub open spec fn bool_field(j: JsonView, key: Seq<char>) -> Option<bool> {
    match field(j, key) {
        Some(JsonView::Bool(b)) => Some(b),
        _ => None,
    }
}

/// The 64-bit integer under `key`, where there is one.
pub open spec fn int_field(j: JsonView, key: Seq<char>) -> Option<i64> {
    match field(j, key) {
        Some(JsonView::Num(n)) => int_of_number(n),
        _ => None,
    }
}

/// The list under `key`, where there is one.
pub open spec fn list_field(j: JsonView, key: Seq<char>) -> Option<Seq<JsonView>> {
    match field(j, key) {
        Some(JsonView::List(v)) => Some(v),
        _ => None,
    }
}

/// `field` over an optional reference, for contracts.
pub open spec fn opt_view(j: Option<&Json>) -> Option<JsonView> {
    match j {
        Some(v) => Some(v@),
        None => None,
    }
}

impl Json {
    /// The value of `key`, where this is an object that has it.
    pub fn get(&self, key: &str) -> (r: Option<&Json>)
        ensures
            opt_view(r) == field(self@, key@),
    {
        match self {
            Json::Object(v) => {
                let mut i: usize = v.len();
                proof {
                    assert(v@.subrange(0, v@.len() as int) =~= v@);
                }
                while i > 0
                    invariant
                        i <= v@.len(),
                        field(self@, key@) == field(
                            JsonView::Object(object_view(v@.subrange(0, i as int))),
                            key@,
                        ),
                    decreases i,
                {
                    proof {
                        let s = v@.subrange(0, i as int);
                        assert(s.subrange(0, s.len() - 1) =~= v@.subrange(0, i - 1));
                    }
                    i = i - 1;
                    if same(v[i].key.as_str(), key) {
                        return Some(&v[i].value);
                    }
                }
                None
            },
            _ => None,
        }
    }

    /// The text that this value is.
    pub fn as_str(&self) -> (r: Option<&str>)
        ensures
            crate::text::opt_str(r) == text_in(Some(self@)),
    {
        match self {
            Json::Text(s) => Some(s.as_str()),
            _ => None,
        }
    }

    /// The text under `key`.
    pub fn text_at(&self, key: &str) -> (r: Option<&str>)
        ensures
            crate::text::opt_str(r) == text_field(self@, key@),
    {
        match self.get(key) {
            Some(v) => v.as_str(),
            None => None,
        }
    }

    /// The truth value under `key`.
    pub fn flag_at(&self, key: &str) -> (r: Option<bool>)
        ensures
            r == bool_field(self@, key@),
    {
        match self.get(key) {
            Some(Json::Bool(b)) => Some(*b),
            _ => None,
        }
    }

    /// The 64-bit integer under `key`.
    pub fn int_at(&self, key: &str) -> (r: Option<i64>)
        ensures
            r == int_field(self@, key@),
    {
        match self.get(key) {
            Some(Json::Num(n)) => number_as_i64(n),
            _ => None,
        }
    }

    /// The list under `key`.
    pub fn list_at(&self, key: &str) -> (r: Option<&Vec<Json>>)
        ensures
            match r {
                Some(v) => list_field(self@, key@) == Some(list_view(v@)),
                None => list_field(self@, key@) is None,
            },
    {
        match self.get(key) {
            Some(Json::List(v)) => Some(v),
            _ => None,
        }
    }

    /// Whether this is an object.
    pub fn is_object(&self) -> (r: bool)
        ensures
            r == (self@ is Object),
    {
        match self {
            Json::Object(_) => true,
            _ => false,
        }
    }

    /// A copy of this tree.
    pub fn copy(&self) -> (r: Json)
        ensures
            r@ == self@,
        decreases *self,
    {
        match self {
            Json::Null => Json::Null,
            Json::Bool(b) => Json::Bool(*b),
            Json::Num(n) => Json::Num(number_clone(n)),
            Json::Text(s) => Json::Text(own(s.as_str())),
            Json::List(v) => Json::List(copy_list(v)),
            Json::Object(v) => Json::Object(copy_fields(v)),
        }
    }

    /// This tree as a `serde_json` value.
    pub fn to_value(&self) -> (r: serde_json::Value)
        ensures
            content(r) == self@,
        decreases *self,
    {
        match self {
            Json::Null => build(Layer::Null),
            Json::Bool(b) => build(Layer::Bool(*b)),
            Json::Num(n) => build(Layer::Num(number_clone(n))),
            Json::Text(s) => build(Layer::Text(own(s.as_str()))),
            Json::List(v) => {
                let mut w: Vec<serde_json::Value> = Vec::new();
                let mut i: usize = 0;
                proof {
                    assert(contents(w@) =~= list_view(v@.subrange(0, 0)));
                }
                while i < v.len()
                    invariant
                        i <= v@.len(),
                        *self is List,
                        self->List_0 == *v,
                        contents(w@) == list_view(v@.subrange(0, i as int)),
                    decreases v@.len() - i,
                {
                    let ghost old_w = w@;
                    proof {
                        assert(decreases_to!(*self => *v));
                        assert(decreases_to!(*v => v[i as int]));
                    }
                    w.push(v[i].to_value());
                    proof {
                        let s = v@.subrange(0, i + 1);
                        assert(s.subrange(0, s.len() - 1) =~= v@.subrange(0, i as int));
                        assert(contents(w@) =~= contents(old_w).push(content(w@.last())));
                    }
                    i = i + 1;
                }
                proof {
                    assert(v@.subrange(0, v@.len() as int) =~= v@);
                }
                build(Layer::List(w))
            },
            Json::Object(v) => {
                let mut w: Vec<(String, serde_json::Value)> = Vec::new();
                let mut i: usize = 0;
                while i < v.len()
                    invariant
                        i <= v@.len(),
                        *self is Object,
                        self->Object_0 == *v,
                        entries_content(w@) == object_view(v@.subrange(0, i as int)),
                    decreases v@.len() - i,
                {
                    let ghost old_w = w@;
                    proof {
                        assert(decreases_to!(*self => *v));
                        assert(decreases_to!(*v => v[i as int]));
                    }
                    let value: serde_json::Value = v[i].value.to_value();
                    w.push((own(v[i].key.as_str()), value));
                    proof {
                        let s = v@.subrange(0, i + 1);
                        assert(s.subrange(0, s.len() - 1) =~= v@.subrange(0, i as int));
                        assert(w@.drop_last() =~= old_w);
                    }
                    i = i + 1;
                }
                proof {
                    assert(v@.subrange(0, v@.len() as int) =~= v@);
                }
                build(Layer::Object(w))
            },
        }
    }

    /// The compact text of this tree.
    pub fn compact(&self) -> (r: String)
        ensures
            r@ == compact_text(self@),
    {
        value_to_string(&self.to_value())
    }

    /// The indented text of this tree.
    pub fn pretty(&self) -> (r: String)
        ensures
            r@ == pretty_text(self@),
    {
        value_to_string_pretty(&self.to_value())
    }
}

/// A copy of a list of trees.
pub fn copy_list(v: &Vec<Json>) -> (r: Vec<Json>)
    ensures
        list_view(r@) == list_view(v@),
    decreases *v,
{
    let mut w: Vec<Json> = Vec::new();
    let mut i: usize = 0;
    proof {
        assert(v@.subrange(0, 0) =~= w@);
    }
    while i < v.len()
        invariant
            i <= v@.len(),
            list_view(w@) == list_view(v@.subrange(0, i as int)),
        decreases v@.len() - i,
    {
        let ghost old_w = w@;
        w.push(v[i].copy());
        proof {
            let s = v@.subrange(0, i + 1);
            assert(s.subrange(0, s.len() - 1) =~= v@.subrange(0, i as int));
            assert(w@.subrange(0, w@.len() - 1) =~= old_w);
        }
        i = i + 1;
    }
    proof {
        assert(v@.subrange(0, v@.len() as int) =~= v@);
    }
    w
}

/// A copy of the entries of an object.
pub fn copy_fields(v: &Vec<Field>) -> (r: Vec<Field>)
    ensures
        object_view(r@) == object_view(v@),
    decreases *v,
{
    let mut w: Vec<Field> = Vec::new();
    let mut i: usize = 0;
    proof {
        assert(v@.subrange(0, 0) =~= w@);
    }
    while i < v.len()
        invariant
            i <= v@.len(),
            object_view(w@) == object_view(v@.subrange(0, i as int)),
        decreases v@.len() - i,
    {
        let ghost old_w = w@;
        proof {
            assert(decreases_to!(*v => v[i as int]));
        }
        let value: Json = v[i].value.copy();
        w.push(Field { key: own(v[i].key.as_str()), value });
        proof {
            let s = v@.subrange(0, i + 1);
            assert(s.subrange(0, s.len() - 1) =~= v@.subrange(0, i as int));
            assert(w@.subrange(0, w@.len() - 1) =~= old_w);
        }
        i = i + 1;
    }
    proof {
        assert(v@.subrange(0, v@.len() as int) =~= v@);
    }
    w
}

/// A list view has an item for each tree.
pub proof fn lemma_list_view(s: Seq<Json>)
    ensures
        list_view(s).len() == s.len(),
        forall|i: int| 0 <= i < s.len() ==> #[trigger] list_view(s)[i] == s[i]@,
    decreases s.len(),
{
    if s.len() > 0 {
        let t = s.subrange(0, s.len() - 1);
        lemma_list_view(t);
        assert forall|i: int| 0 <= i < s.len() implies #[trigger] list_view(s)[i] == s[i]@ by {
            if i < t.len() {
                assert(list_view(s)[i] == list_view(t)[i]);
                assert(t[i] == s[i]);
            }
        }
    }
}

// ---------------------------------------------------------------------
// Building
// ---------------------------------------------------------------------

/// The JSON form of an integer.
pub open spec fn int_json(n: int) -> JsonView {
    JsonView::Num(number_of_int(n))
}

/// The JSON form of an optional text: the text, or `null`.
pub open spec fn opt_json(s: Option<Seq<char>>) -> JsonView {
    match s {
        Some(t) => JsonView::Text(t),
        None => JsonView::Null,
    }
}

/// The JSON form of a list of texts.
pub open spec fn texts_json(v: Seq<Seq<char>>) -> JsonView {
    JsonView::List(v.map_values(|s: Seq<char>| JsonView::Text(s)))
}

/// An integer.
pub fn jint(n: i64) -> (r: Json)
    ensures
        r@ == int_json(n as int),
        int_of_number(number_of_int(n as int)) == Some(n),
{
    Json::Num(number_from(n))
}

/// A length.
pub fn jlen(n: usize) -> (r: Json)
    ensures
        r@ == int_json(n as int),
{
    Json::Num(number_from_usize(n))
}

/// The JSON form of a number in decimal notation; `null` where it is none.
pub open spec fn decimal_json(s: Seq<char>) -> JsonView {
    match number_of_text(s) {
        Some(n) => JsonView::Num(n),
        None => JsonView::Null,
    }
}

/// A number in decimal notation.
pub fn jdecimal(s: &str) -> (r: Json)
    ensures
        r@ == decimal_json(s@),
{
    match number_from_text(s) {
        Some(n) => Json::Num(n),
        None => Json::Null,
    }
}

/// A text.
pub fn jtext(s: &str) -> (r: Json)
    ensures
        r@ == JsonView::Text(s@),
{
    Json::Text(own(s))
}

/// A text, or `null`.
pub fn jopt(s: Option<&str>) -> (r: Json)
    ensures
        r@ == opt_json(crate::text::opt_str(s)),
{
    match s {
        Some(t) => jtext(t),
        None => Json::Null,
    }
}

/// A list of texts.
pub fn jtexts(v: &Vec<String>) -> (r: Json)
    ensures
        r@ == texts_json(crate::text::texts(v@)),
{
    let mut w: Items = Items::new();
    let mut i: usize = 0;
    while i < v.len()
        invariant
            i <= v@.len(),
            w@.len() == i,
            forall|k: int| 0 <= k < i ==> #[trigger] w@[k] == JsonView::Text(v@[k]@),
        decreases v@.len() - i,
    {
        w.push(jtext(v[i].as_str()));
        i = i + 1;
    }
    proof {
        assert(w@ =~= crate::text::texts(v@).map_values(|s: Seq<char>| JsonView::Text(s)));
    }
    w.done()
}

/// An object under construction.
pub struct Fields {
    pub entries: Vec<Field>,
}

impl View for Fields {
    type V = Map<Seq<char>, JsonView>;

    open spec fn view(&self) -> Map<Seq<char>, JsonView> {
        object_view(self.entries@)
    }
}

impl Fields {
    /// An object without entries.
    pub fn new() -> (r: Fields)
        ensures
            r@ == Map::<Seq<char>, JsonView>::empty(),
    {
        Fields { entries: Vec::new() }
    }

    /// Gives `key` the value `value`.
    pub fn put(&mut self, key: &str, value: Json)
        ensures
            final(self)@ == old(self)@.insert(key@, value@),
    {
        let ghost before = self.entries@;
        self.entries.push(Field { key: own(key), value });
        proof {
            let s = self.entries@;
            assert(s.subrange(0, s.len() - 1) =~= before);
        }
    }

    /// The finished object.
    pub fn done(self) -> (r: Json)
        ensures
            r@ == JsonView::Object(self@),
    {
        Json::Object(self.entries)
    }
}

/// A list under construction.
pub struct Items {
    pub items: Vec<Json>,
}

impl View for Items {
    type V = Seq<JsonView>;

    open spec fn view(&self) -> Seq<JsonView> {
        list_view(self.items@)
    }
}

impl Items {
    /// A list without items.
    pub fn new() -> (r: Items)
        ensures
            r@ == Seq::<JsonView>::empty(),
    {
        Items { items: Vec::new() }
    }

    /// Puts `value` behind the items.
    pub fn push(&mut self, value: Json)
        ensures
            final(self)@ == old(self)@.push(value@),
    {
        let ghost before = self.items@;
        self.items.push(value);
        proof {
            let s = self.items@;
            assert(s.subrange(0, s.len() - 1) =~= before);
        }
    }

    /// The finished list.
    pub fn done(self) -> (r: Json)
        ensures
            r@ == JsonView::List(self@),
    {
        Json::List(self.items)
    }
}

} // verus!
