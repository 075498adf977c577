//! Reading typed resource models out of structured values and writing them
//! back: the field-by-field mapping that each model follows.
//!
//! A field that is missing or null reads as absent. Fields a model does not
//! know are ignored. A model's fields are checked in the order of their keys,
//! and the first field of the wrong shape is an error whose message says
//! what was found and what was expected, in the words of a serde/JSON
//! deserializer: `invalid type: string "podinfo", expected struct
//! ObjectMeta`. A list where an object is expected gives its items to the
//! model's fields in the order of their keys. Writing leaves absent fields
//! out.

use vstd::prelude::*;
use crate::entries::{get_entry, group_entries, keys_distinct};
use crate::text::{debug_string, debug_text, int_text, int_to_string, nat_to_string};
use crate::value::{lemma_object_view, value_view, Struct, Value, ValueView};

verus! {

broadcast use group_entries;

/// The message of a value that does not read as the model asks.
pub type DecodeErrorView = Seq<char>;

/// A value that does not read as its model asks.
#[derive(Debug)]
pub struct DecodeError {
    pub message: String,
}

impl DeepView for DecodeError {
    type V = Seq<char>;

    open spec fn deep_view(&self) -> Seq<char> {
        self.message@
    }
}

/// The message of a decoding error.
pub open spec fn decode_message(e: DecodeErrorView) -> Seq<char> {
    e
}

impl DecodeError {
    /// Describes the error.
    pub fn message(&self) -> (r: String)
        ensures
            r@ == decode_message(self.deep_view()),
    {
        self.message.clone()
    }
}

/// How a value that was found is named in messages.
pub open spec fn unexpected_text(v: ValueView) -> Seq<char> {
    match v {
        ValueView::Null => "null"@,
        ValueView::Bool(b) => if b {
            "boolean `true`"@
        } else {
            "boolean `false`"@
        },
        ValueView::Int(i) => "integer `"@ + int_text(i as int) + "`"@,
        ValueView::Float(_, t) => "floating point `"@ + t + "`"@,
        ValueView::Str(s) => found_string_text(debug_text(s)),
        ValueView::List(_) => "sequence"@,
        ValueView::Object(_) => "map"@,
    }
}

/// How a string that was found is named in messages, given the string as
/// `Debug` quotes it.
pub open spec fn found_string_text(quoted: Seq<char>) -> Seq<char> {
    "string "@ + quoted
}

/// Names a string that was found, given it quoted.
pub fn found_string(quoted: &str) -> (r: String)
    ensures
        r@ == found_string_text(quoted@),
{
    let mut r = String::from_str("string ");
    r.append(quoted);
    r
}

/// The message for a value of the wrong kind.
pub open spec fn invalid_type(v: ValueView, expected: Seq<char>) -> Seq<char> {
    "invalid type: "@ + unexpected_text(v) + ", expected "@ + expected
}

/// The message for a value of the right kind that is out of range.
pub open spec fn invalid_value(v: ValueView, expected: Seq<char>) -> Seq<char> {
    "invalid value: "@ + unexpected_text(v) + ", expected "@ + expected
}

/// Names a value that was found.
pub fn unexpected(v: &Value) -> (r: String)
    ensures
        r@ == unexpected_text(v.deep_view()),
{
    match v {
        Value::Null => String::from_str("null"),
        Value::Bool(b) => if *b {
            String::from_str("boolean `true`")
        } else {
            String::from_str("boolean `false`")
        },
        Value::Int(i) => {
            let mut r = String::from_str("integer `");
            r.append(int_to_string(*i).as_str());
            r.append("`");
            r
        },
        Value::Float(_, t) => {
            let mut r = String::from_str("floating point `");
            r.append(t.as_str());
            r.append("`");
            r
        },
        Value::Str(s) => found_string(debug_string(s.as_str()).as_str()),
        Value::List(_) => String::from_str("sequence"),
        Value::Object(_) => String::from_str("map"),
    }
}

/// The error for a value of the wrong kind.
pub fn type_error(v: &Value, expected: &str) -> (r: DecodeError)
    ensures
        r.deep_view() == invalid_type(v.deep_view(), expected@),
{
    let mut m = String::from_str("invalid type: ");
    m.append(unexpected(v).as_str());
    m.append(", expected ");
    m.append(expected);
    DecodeError { message: m }
}

/// The error for a value of the right kind that is out of range.
pub fn value_error(v: &Value, expected: &str) -> (r: DecodeError)
    ensures
        r.deep_view() == invalid_value(v.deep_view(), expected@),
{
    let mut m = String::from_str("invalid value: ");
    m.append(unexpected(v).as_str());
    m.append(", expected ");
    m.append(expected);
    DecodeError { message: m }
}

pub type Fields = Seq<(Seq<char>, ValueView)>;

pub open spec fn result_view<T: DeepView>(r: Result<T, DecodeError>) -> Result<
    T::V,
    DecodeErrorView,
> {
    match r {
        Ok(t) => Ok(t.deep_view()),
        Err(e) => Err(e.deep_view()),
    }
}

/// The value of a field, a null counting as absent.
pub open spec fn field_value(fields: Fields, key: Seq<char>) -> Option<ValueView> {
    match get_entry(fields, key) {
        Some(ValueView::Null) => None,
        other => other,
    }
}

/// An entry for a present field, none for an absent one.
pub open spec fn entry_if(key: Seq<char>, v: Option<ValueView>) -> Fields {
    match v {
        Some(x) => seq![(key, x)],
        None => Seq::empty(),
    }
}

/// Reading the entry of one field: its value under its own key, nothing
/// under any other.
pub broadcast proof fn lemma_get_entry_if(k: Seq<char>, v: Option<ValueView>, key: Seq<char>)
    ensures
        #[trigger] get_entry(entry_if(k, v), key) == (if k == key {
            v
        } else {
            None
        }),
{
}

/// A typed resource model: how it is read from an object's fields and
/// written back as fields.
pub trait Model: DeepView + Sized {
    /// The name of the model's type, as messages give it.
    spec fn model_name() -> Seq<char>;

    /// The keys of the fields the model reads and writes.
    spec fn keys() -> Set<Seq<char>>;

    /// The model that an object's fields read as, or the message of the first
    /// field, in key order, that does not fit.
    spec fn from_fields(fields: Fields) -> Result<Self::V, DecodeErrorView>;

    /// The fields that a model is written as.
    spec fn to_fields(m: Self::V) -> Fields;

    /// Reading what was written gives the model back.
    proof fn lemma_round_trip(m: Self::V)
        ensures
            Self::from_fields(Self::to_fields(m)) == Ok::<Self::V, DecodeErrorView>(m),
    ;

    /// Reading looks at no field but the model's own.
    proof fn lemma_reads_only_keys(f: Fields, g: Fields)
        requires
            forall|k: Seq<char>| Self::keys().contains(k) ==> field_value(f, k) == field_value(g, k),
        ensures
            Self::from_fields(f) == Self::from_fields(g),
    ;

    /// Writing gives each of the model's keys at most once, and no other key.
    proof fn lemma_writes_only_keys(m: Self::V)
        ensures
            keys_distinct(Self::to_fields(m)),
            forall|i: int|
                0 <= i < Self::to_fields(m).len() ==> Self::keys().contains(
                    #[trigger] Self::to_fields(m)[i].0,
                ),
    ;

    /// The keys of the model's fields in the order the fields are declared,
    /// which is the order of the keys: a list read in place of an object
    /// gives its items to the fields in this order.
    spec fn key_seq() -> Seq<Seq<char>>;

    /// The number of the model's fields.
    fn field_count() -> (r: usize)
        ensures
            r == Self::key_seq().len(),
    ;

    /// The key of the `i`-th field, none past the last.
    fn field_key(i: usize) -> (r: Option<&'static str>)
        ensures
            match r {
                Some(k) => i < Self::key_seq().len() && k@ == Self::key_seq()[i as int],
                None => i >= Self::key_seq().len(),
            },
    ;

    /// The name of the model's type.
    fn name() -> (r: &'static str)
        ensures
            r@ == Self::model_name(),
    ;

    /// Reads the model from an object.
    fn decode(s: &Struct) -> (r: Result<Self, DecodeError>)
        ensures
            result_view(r) == Self::from_fields(s.deep_view()),
    ;

    /// Writes the model as an object.
    fn encode(&self) -> (r: Struct)
        ensures
            r.deep_view() == Self::to_fields(self.deep_view()),
    ;
}

/// Adding an entry for a new key keeps keys distinct, and the keys within
/// those allowed.
pub proof fn lemma_push_entry(prefix: Fields, key: Seq<char>, seg: Fields, allowed: Set<Seq<char>>)
    requires
        keys_distinct(prefix),
        forall|i: int| 0 <= i < prefix.len() ==> allowed.contains(#[trigger] prefix[i].0),
        !allowed.contains(key),
        seg.len() <= 1,
        seg.len() == 1 ==> seg[0].0 == key,
    ensures
        keys_distinct(prefix + seg),
        forall|i: int|
            0 <= i < (prefix + seg).len() ==> allowed.insert(key).contains(#[trigger] (prefix
                + seg)[i].0),
{
    let all = prefix + seg;
    assert forall|i: int| 0 <= i < all.len() implies allowed.insert(key).contains(
        #[trigger] all[i].0,
    ) by {
        if i < prefix.len() {
            assert(all[i] == prefix[i]);
        }
    }
    assert forall|i: int, j: int|
        0 <= i < all.len() && 0 <= j < all.len() && i != j implies all[i].0 != all[j].0 by {
        if i < prefix.len() && j < prefix.len() {
            assert(all[i] == prefix[i] && all[j] == prefix[j]);
        } else if i < prefix.len() {
            assert(all[i] == prefix[i]);
            assert(allowed.contains(prefix[i].0));
        } else if j < prefix.len() {
            assert(all[j] == prefix[j]);
            assert(allowed.contains(prefix[j].0));
        }
    }
}

fn key_string(key: &str) -> (r: String)
    ensures
        r@ == key@,
{
    String::from_str(key)
}

fn push_field(fields: &mut Vec<(String, Value)>, key: &str, v: Value)
    ensures
        final(fields).deep_view() == old(fields).deep_view() + seq![(key@, v.deep_view())],
{
    let ghost before = fields.deep_view();
    fields.push((key_string(key), v));
    assert(fields.deep_view() =~= before + seq![(key@, v.deep_view())]);
}

// ---- checking every item of a list ----
/// The items as each reads, or the message of the first that does not.
pub open spec fn check_items<T>(items: Seq<ValueView>, f: spec_fn(ValueView) -> Result<T, Seq<char>>) -> Result<
    Seq<T>,
    Seq<char>,
>
    decreases items.len(),
{
    if items.len() == 0 {
        Ok(Seq::empty())
    } else {
        match check_items(items.drop_last(), f) {
            Err(e) => Err(e),
            Ok(xs) => match f(items.last()) {
                Ok(x) => Ok(xs.push(x)),
                Err(e) => Err(e),
            },
        }
    }
}

/// An error among the first items is the error of them all.
pub proof fn lemma_check_items_prefix_error<T>(
    items: Seq<ValueView>,
    n: int,
    f: spec_fn(ValueView) -> Result<T, Seq<char>>,
    e: Seq<char>,
)
    requires
        0 <= n <= items.len(),
        check_items(items.take(n), f) == Err::<Seq<T>, Seq<char>>(e),
    ensures
        check_items(items, f) == Err::<Seq<T>, Seq<char>>(e),
    decreases items.len() - n,
{
    if n < items.len() {
        assert(items.take(n + 1).drop_last() =~= items.take(n));
        lemma_check_items_prefix_error(items, n + 1, f, e);
    } else {
        assert(items.take(n) =~= items);
    }
}

/// One more item that reads extends what the items before it read as; one
/// that does not makes the error.
pub proof fn lemma_check_items_step<T>(
    items: Seq<ValueView>,
    n: int,
    f: spec_fn(ValueView) -> Result<T, Seq<char>>,
)
    requires
        0 <= n < items.len(),
    ensures
        check_items(items.take(n + 1), f) == match check_items(items.take(n), f) {
            Err(e) => Err(e),
            Ok(xs) => match f(items[n]) {
                Ok(x) => Ok(xs.push(x)),
                Err(e) => Err(e),
            },
        },
{
    assert(items.take(n + 1).drop_last() =~= items.take(n));
}

/// Items that all read give what each reads as.
pub proof fn lemma_check_items_ok<T>(items: Seq<ValueView>, f: spec_fn(ValueView) -> Result<T, Seq<char>>, xs: Seq<T>)
    requires
        xs.len() == items.len(),
        forall|i: int| 0 <= i < items.len() ==> f(items[i]) == Ok::<T, Seq<char>>(xs[i]),
    ensures
        check_items(items, f) == Ok::<Seq<T>, Seq<char>>(xs),
    decreases items.len(),
{
    if items.len() > 0 {
        lemma_check_items_ok(items.drop_last(), f, xs.drop_last());
        assert(xs.drop_last().push(xs.last()) =~= xs);
    } else {
        assert(xs =~= Seq::<T>::empty());
    }
}

// ---- strings ----
pub open spec fn str_item(v: ValueView) -> Result<Seq<char>, Seq<char>> {
    match v {
        ValueView::Str(s) => Ok(s),
        _ => Err(invalid_type(v, "a string"@)),
    }
}

pub open spec fn str_field(fields: Fields, key: Seq<char>) -> Result<
    Option<Seq<char>>,
    DecodeErrorView,
> {
    match field_value(fields, key) {
        None => Ok(None),
        Some(v) => match str_item(v) {
            Ok(s) => Ok(Some(s)),
            Err(e) => Err(e),
        },
    }
}

pub open spec fn str_entry(key: Seq<char>, o: Option<Seq<char>>) -> Fields {
    entry_if(
        key,
        match o {
            Some(s) => Some(ValueView::Str(s)),
            None => None,
        },
    )
}

/// Reads an optional string field.
pub fn read_str(s: &Struct, key: &str) -> (r: Result<Option<String>, DecodeError>)
    ensures
        result_view(r) == str_field(s.deep_view(), key@),
{
    let k = key_string(key);
    match s.get(&k) {
        None => Ok(None),
        Some(Value::Null) => Ok(None),
        Some(Value::Str(x)) => Ok(Some(x.clone())),
        Some(v) => Err(type_error(v, "a string")),
    }
}

/// Writes an optional string field.
pub fn write_str(fields: &mut Vec<(String, Value)>, key: &str, o: &Option<String>)
    ensures
        final(fields).deep_view() == old(fields).deep_view() + str_entry(key@, o.deep_view()),
{
    match o {
        Some(x) => push_field(fields, key, Value::Str(x.clone())),
        None => {
            assert(old(fields).deep_view() + str_entry(key@, o.deep_view()) =~= fields.deep_view());
        },
    }
}

// ---- booleans ----
pub open spec fn bool_field(fields: Fields, key: Seq<char>) -> Result<Option<bool>, DecodeErrorView> {
    match field_value(fields, key) {
        None => Ok(None),
        Some(ValueView::Bool(b)) => Ok(Some(b)),
        Some(v) => Err(invalid_type(v, "a boolean"@)),
    }
}

pub open spec fn bool_entry(key: Seq<char>, o: Option<bool>) -> Fields {
    entry_if(
        key,
        match o {
            Some(b) => Some(ValueView::Bool(b)),
            None => None,
        },
    )
}

/// Reads an optional boolean field.
pub fn read_bool(s: &Struct, key: &str) -> (r: Result<Option<bool>, DecodeError>)
    ensures
        result_view(r) == bool_field(s.deep_view(), key@),
{
    let k = key_string(key);
    match s.get(&k) {
        None => Ok(None),
        Some(Value::Null) => Ok(None),
        Some(Value::Bool(b)) => Ok(Some(*b)),
        Some(v) => Err(type_error(v, "a boolean")),
    }
}

/// Writes an optional boolean field.
pub fn write_bool(fields: &mut Vec<(String, Value)>, key: &str, o: &Option<bool>)
    ensures
        final(fields).deep_view() == old(fields).deep_view() + bool_entry(key@, *o),
{
    match o {
        Some(b) => push_field(fields, key, Value::Bool(*b)),
        None => {
            assert(old(fields).deep_view() + bool_entry(key@, *o) =~= fields.deep_view());
        },
    }
}

// ---- integers ----
pub open spec fn i32_item(v: ValueView) -> Result<i32, Seq<char>> {
    match v {
        ValueView::Int(i) => if i32::MIN <= i <= i32::MAX {
            Ok(i as i32)
        } else {
            Err(invalid_value(v, "i32"@))
        },
        _ => Err(invalid_type(v, "i32"@)),
    }
}

pub open spec fn i32_field(fields: Fields, key: Seq<char>) -> Result<Option<i32>, DecodeErrorView> {
    match field_value(fields, key) {
        None => Ok(None),
        Some(v) => match i32_item(v) {
            Ok(i) => Ok(Some(i)),
            Err(e) => Err(e),
        },
    }
}

pub open spec fn i64_field(fields: Fields, key: Seq<char>) -> Result<Option<i64>, DecodeErrorView> {
    match field_value(fields, key) {
        None => Ok(None),
        Some(ValueView::Int(i)) => Ok(Some(i)),
        Some(v) => Err(invalid_type(v, "i64"@)),
    }
}

pub open spec fn int_entry(key: Seq<char>, o: Option<int>) -> Fields {
    entry_if(
        key,
        match o {
            Some(i) => Some(ValueView::Int(i as i64)),
            None => None,
        },
    )
}

pub open spec fn opt_int<T: Integer>(o: Option<T>) -> Option<int> {
    match o {
        Some(i) => Some(i as int),
        None => None,
    }
}

fn i32_of(v: &Value) -> (r: Result<i32, DecodeError>)
    ensures
        result_view(r) == i32_item(v.deep_view()),
{
    match v {
        Value::Int(i) => {
            if i32::MIN as i64 <= *i && *i <= i32::MAX as i64 {
                Ok(*i as i32)
            } else {
                Err(value_error(v, "i32"))
            }
        },
        _ => Err(type_error(v, "i32")),
    }
}

/// Reads an optional 32-bit integer field.
pub fn read_i32(s: &Struct, key: &str) -> (r: Result<Option<i32>, DecodeError>)
    ensures
        result_view(r) == i32_field(s.deep_view(), key@),
{
    let k = key_string(key);
    match s.get(&k) {
        None => Ok(None),
        Some(Value::Null) => Ok(None),
        Some(v) => match i32_of(v) {
            Ok(i) => Ok(Some(i)),
            Err(e) => Err(e),
        },
    }
}

/// Reads an optional 64-bit integer field.
pub fn read_i64(s: &Struct, key: &str) -> (r: Result<Option<i64>, DecodeError>)
    ensures
        result_view(r) == i64_field(s.deep_view(), key@),
{
    let k = key_string(key);
    match s.get(&k) {
        None => Ok(None),
        Some(Value::Null) => Ok(None),
        Some(Value::Int(i)) => Ok(Some(*i)),
        Some(v) => Err(type_error(v, "i64")),
    }
}

/// Writes an optional 32-bit integer field.
pub fn write_i32(fields: &mut Vec<(String, Value)>, key: &str, o: &Option<i32>)
    ensures
        final(fields).deep_view() == old(fields).deep_view() + int_entry(key@, opt_int(*o)),
{
    match o {
        Some(i) => push_field(fields, key, Value::Int(*i as i64)),
        None => {
            assert(old(fields).deep_view() + int_entry(key@, opt_int(*o)) =~= fields.deep_view());
        },
    }
}

/// Writes an optional 64-bit integer field.
pub fn write_i64(fields: &mut Vec<(String, Value)>, key: &str, o: &Option<i64>)
    ensures
        final(fields).deep_view() == old(fields).deep_view() + int_entry(key@, opt_int(*o)),
{
    match o {
        Some(i) => push_field(fields, key, Value::Int(*i)),
        None => {
            assert(old(fields).deep_view() + int_entry(key@, opt_int(*o)) =~= fields.deep_view());
        },
    }
}

// ---- maps of strings ----
pub open spec fn str_checker() -> spec_fn(ValueView) -> Result<Seq<char>, Seq<char>> {
    |v: ValueView| str_item(v)
}

pub open spec fn map_values(m: Fields) -> Seq<ValueView> {
    Seq::new(m.len(), |i: int| m[i].1)
}

pub open spec fn zip_keys(m: Fields, vals: Seq<Seq<char>>) -> Seq<(Seq<char>, Seq<char>)> {
    Seq::new(m.len(), |i: int| (m[i].0, vals[i]))
}

pub open spec fn str_map_value(m: Seq<(Seq<char>, Seq<char>)>) -> ValueView {
    ValueView::Object(Seq::new(m.len(), |i: int| (m[i].0, ValueView::Str(m[i].1))))
}

pub open spec fn str_map_field(fields: Fields, key: Seq<char>) -> Result<
    Option<Seq<(Seq<char>, Seq<char>)>>,
    DecodeErrorView,
> {
    match field_value(fields, key) {
        None => Ok(None),
        Some(ValueView::Object(m)) => match check_items(map_values(m), str_checker()) {
            Ok(vals) => Ok(Some(zip_keys(m, vals))),
            Err(e) => Err(e),
        },
        Some(v) => Err(invalid_type(v, "a map"@)),
    }
}

pub open spec fn str_map_entry(key: Seq<char>, o: Option<Seq<(Seq<char>, Seq<char>)>>) -> Fields {
    entry_if(
        key,
        match o {
            Some(m) => Some(str_map_value(m)),
            None => None,
        },
    )
}

/// Reads an optional map of strings to strings.
#[verifier::loop_isolation(false)]
pub fn read_str_map(s: &Struct, key: &str) -> (r: Result<
    Option<Vec<(String, String)>>,
    DecodeError,
>)
    ensures
        result_view(r) == str_map_field(s.deep_view(), key@),
{
    let k = key_string(key);
    match s.get(&k) {
        None => Ok(None),
        Some(Value::Null) => Ok(None),
        Some(Value::Object(m)) => {
            proof {
                lemma_object_view(m);
            }
            let ghost vals = map_values(m.deep_view());
            let mut out: Vec<(String, String)> = Vec::new();
            let mut i: usize = 0;
            assert(vals.take(0) =~= Seq::<ValueView>::empty());
            while i < m.fields.len()
                invariant
                    i <= m.fields.len(),
                    vals.len() == m.fields.len(),
                    check_items(vals.take(i as int), str_checker()) matches Ok(xs) && xs.len() == i
                        && out.deep_view() =~= zip_keys(m.deep_view().take(i as int), xs),
                decreases m.fields.len() - i,
            {
                proof {
                    lemma_check_items_step(vals, i as int, str_checker());
                }
                let ghost xs = check_items(vals.take(i as int), str_checker())->Ok_0;
                match &m.fields[i].1 {
                    Value::Str(x) => {
                        let ghost before = out.deep_view();
                        out.push((m.fields[i].0.clone(), x.clone()));
                        assert(out.deep_view() =~= before.push((m.deep_view()[i as int].0, x@)));
                        assert(vals[i as int] == ValueView::Str(x@));
                        assert(zip_keys(m.deep_view().take(i as int + 1), xs.push(x@)) =~= zip_keys(
                            m.deep_view().take(i as int),
                            xs,
                        ).push((m.deep_view()[i as int].0, x@)));
                    },
                    v => {
                        let e = type_error(v, "a string");
                        proof {
                            lemma_check_items_prefix_error(vals, i as int + 1, str_checker(), e.deep_view());
                        }
                        return Err(e);
                    },
                }
                i = i + 1;
            }
            assert(vals.take(i as int) =~= vals);
            assert(m.deep_view().take(i as int) =~= m.deep_view());
            Ok(Some(out))
        },
        Some(v) => Err(type_error(v, "a map")),
    }
}

/// Builds the object for a map of strings.
pub fn str_map_to_value(m: &Vec<(String, String)>) -> (r: Value)
    ensures
        r.deep_view() == str_map_value(m.deep_view()),
{
    let mut fields: Vec<(String, Value)> = Vec::new();
    let mut i: usize = 0;
    while i < m.len()
        invariant
            i <= m.len(),
            fields.deep_view() =~= Seq::new(
                i as nat,
                |j: int| (m.deep_view()[j].0, ValueView::Str(m.deep_view()[j].1)),
            ),
        decreases m.len() - i,
    {
        let ghost before = fields.deep_view();
        fields.push((m[i].0.clone(), Value::Str(m[i].1.clone())));
        assert(fields.deep_view() =~= before.push(
            (m.deep_view()[i as int].0, ValueView::Str(m.deep_view()[i as int].1)),
        ));
        i = i + 1;
    }
    let s = Struct { fields };
    proof {
        lemma_object_view(&s);
    }
    Value::Object(s)
}

/// Writes an optional map of strings to strings.
pub fn write_str_map(
    fields: &mut Vec<(String, Value)>,
    key: &str,
    o: &Option<Vec<(String, String)>>,
)
    ensures
        final(fields).deep_view() == old(fields).deep_view() + str_map_entry(key@, o.deep_view()),
{
    match o {
        Some(m) => push_field(fields, key, str_map_to_value(m)),
        None => {
            assert(old(fields).deep_view() + str_map_entry(key@, o.deep_view()) =~= fields.deep_view());
        },
    }
}

pub proof fn lemma_str_map_round_trip(m: Seq<(Seq<char>, Seq<char>)>)
    ensures
        check_items(map_values(str_map_value(m)->Object_0), str_checker()) == Ok::<
            Seq<Seq<char>>,
            Seq<char>,
        >(Seq::new(m.len(), |i: int| m[i].1)),
        zip_keys(str_map_value(m)->Object_0, Seq::new(m.len(), |i: int| m[i].1)) == m,
{
    let vals = map_values(str_map_value(m)->Object_0);
    lemma_check_items_ok(vals, str_checker(), Seq::new(m.len(), |i: int| m[i].1));
    assert(zip_keys(str_map_value(m)->Object_0, Seq::new(m.len(), |i: int| m[i].1)) =~= m);
}

// ---- lists of strings ----
pub open spec fn str_list_value(l: Seq<Seq<char>>) -> ValueView {
    ValueView::List(Seq::new(l.len(), |i: int| ValueView::Str(l[i])))
}

pub open spec fn str_list_field(fields: Fields, key: Seq<char>) -> Result<
    Option<Seq<Seq<char>>>,
    DecodeErrorView,
> {
    match field_value(fields, key) {
        None => Ok(None),
        Some(ValueView::List(items)) => match check_items(items, str_checker()) {
            Ok(l) => Ok(Some(l)),
            Err(e) => Err(e),
        },
        Some(v) => Err(invalid_type(v, "a sequence"@)),
    }
}

pub open spec fn str_list_entry(key: Seq<char>, o: Option<Seq<Seq<char>>>) -> Fields {
    entry_if(
        key,
        match o {
            Some(l) => Some(str_list_value(l)),
            None => None,
        },
    )
}

pub proof fn lemma_list_view(items: &Vec<Value>)
    ensures
        value_view(&Value::List(*items)) == ValueView::List(items.deep_view()),
{
    assert(value_view(&Value::List(*items))->List_0 =~= items.deep_view());
}

/// Reads an optional list of strings.
#[verifier::loop_isolation(false)]
pub fn read_str_list(s: &Struct, key: &str) -> (r: Result<Option<Vec<String>>, DecodeError>)
    ensures
        result_view(r) == str_list_field(s.deep_view(), key@),
{
    let k = key_string(key);
    match s.get(&k) {
        None => Ok(None),
        Some(Value::Null) => Ok(None),
        Some(Value::List(items)) => {
            proof {
                lemma_list_view(items);
            }
            let ghost iv = items.deep_view();
            let mut out: Vec<String> = Vec::new();
            let mut i: usize = 0;
            assert(iv.take(0) =~= Seq::<ValueView>::empty());
            assert(out.deep_view() =~= Seq::<Seq<char>>::empty());
            while i < items.len()
                invariant
                    i <= items.len(),
                    check_items(iv.take(i as int), str_checker()) == Ok::<
                        Seq<Seq<char>>,
                        Seq<char>,
                    >(out.deep_view()),
                decreases items.len() - i,
            {
                proof {
                    lemma_check_items_step(iv, i as int, str_checker());
                }
                match &items[i] {
                    Value::Str(x) => {
                        let ghost before = out.deep_view();
                        out.push(x.clone());
                        assert(out.deep_view() =~= before.push(x@));
                    },
                    v => {
                        let e = type_error(v, "a string");
                        proof {
                            lemma_check_items_prefix_error(iv, i as int + 1, str_checker(), e.deep_view());
                        }
                        return Err(e);
                    },
                }
                i = i + 1;
            }
            assert(iv.take(i as int) =~= iv);
            Ok(Some(out))
        },
        Some(v) => Err(type_error(v, "a sequence")),
    }
}

/// Writes an optional list of strings.
pub fn write_str_list(fields: &mut Vec<(String, Value)>, key: &str, o: &Option<Vec<String>>)
    ensures
        final(fields).deep_view() == old(fields).deep_view() + str_list_entry(key@, o.deep_view()),
{
    match o {
        Some(l) => {
            let mut items: Vec<Value> = Vec::new();
            let mut i: usize = 0;
            while i < l.len()
                invariant
                    i <= l.len(),
                    items.deep_view() =~= Seq::new(
                        i as nat,
                        |j: int| ValueView::Str(l.deep_view()[j]),
                    ),
                decreases l.len() - i,
            {
                let ghost before = items.deep_view();
                items.push(Value::Str(l[i].clone()));
                assert(items.deep_view() =~= before.push(ValueView::Str(l.deep_view()[i as int])));
                i = i + 1;
            }
            proof {
                lemma_list_view(&items);
            }
            push_field(fields, key, Value::List(items));
        },
        None => {
            assert(old(fields).deep_view() + str_list_entry(key@, o.deep_view()) =~= fields.deep_view());
        },
    }
}

pub proof fn lemma_str_list_round_trip(l: Seq<Seq<char>>)
    ensures
        check_items(str_list_value(l)->List_0, str_checker()) == Ok::<Seq<Seq<char>>, Seq<char>>(l),
{
    lemma_check_items_ok(str_list_value(l)->List_0, str_checker(), l);
}

// ---- lists of 32-bit integers ----
pub open spec fn i32_checker() -> spec_fn(ValueView) -> Result<i32, Seq<char>> {
    |v: ValueView| i32_item(v)
}

pub open spec fn i32_list_value(l: Seq<i32>) -> ValueView {
    ValueView::List(Seq::new(l.len(), |i: int| ValueView::Int(l[i] as i64)))
}

pub open spec fn i32_list_field(fields: Fields, key: Seq<char>) -> Result<
    Option<Seq<i32>>,
    DecodeErrorView,
> {
    match field_value(fields, key) {
        None => Ok(None),
        Some(ValueView::List(items)) => match check_items(items, i32_checker()) {
            Ok(l) => Ok(Some(l)),
            Err(e) => Err(e),
        },
        Some(v) => Err(invalid_type(v, "a sequence"@)),
    }
}

pub open spec fn i32_list_entry(key: Seq<char>, o: Option<Seq<i32>>) -> Fields {
    entry_if(
        key,
        match o {
            Some(l) => Some(i32_list_value(l)),
            None => None,
        },
    )
}

/// Reads an optional list of 32-bit integers.
#[verifier::loop_isolation(false)]
pub fn read_i32_list(s: &Struct, key: &str) -> (r: Result<Option<Vec<i32>>, DecodeError>)
    ensures
        result_view(r) == i32_list_field(s.deep_view(), key@),
{
    let k = key_string(key);
    match s.get(&k) {
        None => Ok(None),
        Some(Value::Null) => Ok(None),
        Some(Value::List(items)) => {
            proof {
                lemma_list_view(items);
            }
            let ghost iv = items.deep_view();
            let mut out: Vec<i32> = Vec::new();
            let mut i: usize = 0;
            assert(iv.take(0) =~= Seq::<ValueView>::empty());
            assert(out.deep_view() =~= Seq::<i32>::empty());
            while i < items.len()
                invariant
                    i <= items.len(),
                    check_items(iv.take(i as int), i32_checker()) == Ok::<Seq<i32>, Seq<char>>(
                        out.deep_view(),
                    ),
                decreases items.len() - i,
            {
                proof {
                    lemma_check_items_step(iv, i as int, i32_checker());
                }
                match i32_of(&items[i]) {
                    Ok(x) => {
                        let ghost before = out.deep_view();
                        out.push(x);
                        assert(out.deep_view() =~= before.push(x));
                    },
                    Err(e) => {
                        proof {
                            lemma_check_items_prefix_error(iv, i as int + 1, i32_checker(), e.deep_view());
                        }
                        return Err(e);
                    },
                }
                i = i + 1;
            }
            assert(iv.take(i as int) =~= iv);
            Ok(Some(out))
        },
        Some(v) => Err(type_error(v, "a sequence")),
    }
}

/// Writes an optional list of 32-bit integers.
pub fn write_i32_list(fields: &mut Vec<(String, Value)>, key: &str, o: &Option<Vec<i32>>)
    ensures
        final(fields).deep_view() == old(fields).deep_view() + i32_list_entry(key@, o.deep_view()),
{
    match o {
        Some(l) => {
            let mut items: Vec<Value> = Vec::new();
            let mut i: usize = 0;
            while i < l.len()
                invariant
                    i <= l.len(),
                    items.deep_view() =~= Seq::new(
                        i as nat,
                        |j: int| ValueView::Int(l.deep_view()[j] as i64),
                    ),
                decreases l.len() - i,
            {
                let ghost before = items.deep_view();
                items.push(Value::Int(l[i] as i64));
                assert(items.deep_view() =~= before.push(ValueView::Int(l.deep_view()[i as int] as i64)));
                i = i + 1;
            }
            proof {
                lemma_list_view(&items);
            }
            push_field(fields, key, Value::List(items));
        },
        None => {
            assert(old(fields).deep_view() + i32_list_entry(key@, o.deep_view()) =~= fields.deep_view());
        },
    }
}

pub proof fn lemma_i32_list_round_trip(l: Seq<i32>)
    ensures
        check_items(i32_list_value(l)->List_0, i32_checker()) == Ok::<Seq<i32>, Seq<char>>(l),
{
    lemma_check_items_ok(i32_list_value(l)->List_0, i32_checker(), l);
}

// ---- nested models ----
pub open spec fn model_item<T: Model>(v: ValueView) -> Result<T::V, DecodeErrorView> {
    match v {
        ValueView::Object(f) => T::from_fields(f),
        ValueView::List(items) => model_list::<T>(items),
        _ => Err(invalid_type(v, "struct "@ + T::model_name())),
    }
}

/// The message for a list of the wrong length.
pub open spec fn invalid_length(len: nat, expected: Seq<char>) -> Seq<char> {
    "invalid length "@ + int_text(len as int) + ", expected "@ + expected
}

/// What a list read as a model was expected to be.
pub open spec fn struct_length_text(name: Seq<char>, n: nat) -> Seq<char> {
    "struct "@ + name + " with "@ + int_text(n as int) + if n == 1 {
        " element"@
    } else {
        " elements"@
    }
}

/// The items of a list, each under the key of the field it stands for, as
/// far as there are both items and fields.
pub open spec fn zip_items(keys: Seq<Seq<char>>, items: Seq<ValueView>) -> Fields {
    Seq::new(
        if keys.len() < items.len() {
            keys.len()
        } else {
            items.len()
        },
        |i: int| (keys[i], items[i]),
    )
}

/// A list read as a model, item by item in the order of its fields: the
/// first item that does not read is the error; then too few items, or too
/// many, are an error of their own.
pub open spec fn model_list<T: Model>(items: Seq<ValueView>) -> Result<T::V, DecodeErrorView> {
    let n = T::key_seq().len();
    match T::from_fields(zip_items(T::key_seq(), items)) {
        Err(e) => Err(e),
        Ok(m) => if items.len() < n {
            Err(invalid_length(items.len(), struct_length_text(T::model_name(), n)))
        } else if items.len() > n {
            Err(invalid_length(items.len(), "fewer elements in array"@))
        } else {
            Ok(m)
        },
    }
}

/// The error for a list of the wrong length.
pub fn length_error(len: usize, expected: &str) -> (r: DecodeError)
    ensures
        r.deep_view() == invalid_length(len as nat, expected@),
{
    let mut m = String::from_str("invalid length ");
    m.append(nat_to_string(len as u64).as_str());
    m.append(", expected ");
    m.append(expected);
    DecodeError { message: m }
}

fn struct_length<T: Model>(n: usize) -> (r: String)
    ensures
        r@ == struct_length_text(T::model_name(), n as nat),
{
    let mut r = String::from_str("struct ");
    r.append(T::name());
    r.append(" with ");
    r.append(nat_to_string(n as u64).as_str());
    if n == 1 {
        r.append(" element");
    } else {
        r.append(" elements");
    }
    r
}

/// Reads a list as a model, item by item in the order of its fields.
pub fn model_from_list<T: Model>(items: &Vec<Value>) -> (r: Result<T, DecodeError>)
    ensures
        result_view(r) == model_list::<T>(items.deep_view()),
{
    let n = T::field_count();
    let ghost keys = T::key_seq();
    let ghost iv = items.deep_view();
    let mut fields: Vec<(String, Value)> = Vec::new();
    let mut i: usize = 0;
    while i < n && i < items.len()
        invariant
            keys == T::key_seq(),
            n == keys.len(),
            iv == items.deep_view(),
            i <= n,
            i <= items.len(),
            fields.deep_view().len() == i,
            forall|j: int| 0 <= j < i ==> #[trigger] fields.deep_view()[j] == (keys[j], iv[j]),
        decreases n - i,
    {
        match T::field_key(i) {
            Some(k) => {
                let v = items[i].clone();
                let ghost before = fields.deep_view();
                fields.push((key_string(k), v));
                assert(fields.deep_view() =~= before.push((keys[i as int], iv[i as int])));
            },
            None => {
                assert(false);
            },
        }
        i = i + 1;
    }
    assert(fields.deep_view() =~= zip_items(keys, iv));
    let s = Struct { fields };
    match T::decode(&s) {
        Err(e) => Err(e),
        Ok(m) => {
            if items.len() < n {
                let expected = struct_length::<T>(n);
                Err(length_error(items.len(), expected.as_str()))
            } else if items.len() > n {
                Err(length_error(items.len(), "fewer elements in array"))
            } else {
                Ok(m)
            }
        },
    }
}

pub open spec fn model_field<T: Model>(fields: Fields, key: Seq<char>) -> Result<
    Option<T::V>,
    DecodeErrorView,
> {
    match field_value(fields, key) {
        None => Ok(None),
        Some(v) => match model_item::<T>(v) {
            Ok(m) => Ok(Some(m)),
            Err(e) => Err(e),
        },
    }
}

pub open spec fn model_entry<T: Model>(key: Seq<char>, o: Option<T::V>) -> Fields {
    entry_if(
        key,
        match o {
            Some(m) => Some(ValueView::Object(T::to_fields(m))),
            None => None,
        },
    )
}

fn struct_error<T: Model>(v: &Value) -> (r: DecodeError)
    ensures
        r.deep_view() == invalid_type(v.deep_view(), "struct "@ + T::model_name()),
{
    let mut expected = String::from_str("struct ");
    expected.append(T::name());
    type_error(v, expected.as_str())
}

fn model_of<T: Model>(v: &Value) -> (r: Result<T, DecodeError>)
    ensures
        result_view(r) == model_item::<T>(v.deep_view()),
{
    match v {
        Value::Object(f) => {
            proof {
                lemma_object_view(f);
            }
            T::decode(f)
        },
        Value::List(items) => {
            proof {
                lemma_list_view(items);
            }
            model_from_list::<T>(items)
        },
        _ => Err(struct_error::<T>(v)),
    }
}

/// Reads an optional nested model.
pub fn read_model<T: Model>(s: &Struct, key: &str) -> (r: Result<Option<T>, DecodeError>)
    ensures
        result_view(r) == model_field::<T>(s.deep_view(), key@),
{
    let k = key_string(key);
    match s.get(&k) {
        None => Ok(None),
        Some(Value::Null) => Ok(None),
        Some(v) => match model_of::<T>(v) {
            Ok(m) => Ok(Some(m)),
            Err(e) => Err(e),
        },
    }
}

/// Writes an optional nested model.
pub fn write_model<T: Model>(fields: &mut Vec<(String, Value)>, key: &str, o: &Option<T>)
    ensures
        final(fields).deep_view() == old(fields).deep_view() + model_entry::<T>(
            key@,
            o.deep_view(),
        ),
{
    match o {
        Some(m) => {
            let s = m.encode();
            proof {
                lemma_object_view(&s);
            }
            push_field(fields, key, Value::Object(s));
        },
        None => {
            assert(old(fields).deep_view() + model_entry::<T>(key@, o.deep_view())
                =~= fields.deep_view());
        },
    }
}

// ---- lists of nested models ----
pub open spec fn model_checker<T: Model>() -> spec_fn(ValueView) -> Result<T::V, Seq<char>> {
    |v: ValueView| model_item::<T>(v)
}

pub open spec fn models_value<T: Model>(ms: Seq<T::V>) -> ValueView {
    ValueView::List(Seq::new(ms.len(), |i: int| ValueView::Object(T::to_fields(ms[i]))))
}

pub open spec fn models_field<T: Model>(fields: Fields, key: Seq<char>) -> Result<
    Option<Seq<T::V>>,
    DecodeErrorView,
> {
    match field_value(fields, key) {
        None => Ok(None),
        Some(ValueView::List(items)) => match check_items(items, model_checker::<T>()) {
            Ok(ms) => Ok(Some(ms)),
            Err(e) => Err(e),
        },
        Some(v) => Err(invalid_type(v, "a sequence"@)),
    }
}

pub open spec fn models_entry<T: Model>(key: Seq<char>, o: Option<Seq<T::V>>) -> Fields {
    entry_if(
        key,
        match o {
            Some(ms) => Some(models_value::<T>(ms)),
            None => None,
        },
    )
}

/// Reads an optional list of nested models.
#[verifier::loop_isolation(false)]
pub fn read_models<T: Model>(s: &Struct, key: &str) -> (r: Result<Option<Vec<T>>, DecodeError>)
    ensures
        result_view(r) == models_field::<T>(s.deep_view(), key@),
{
    let k = key_string(key);
    match s.get(&k) {
        None => Ok(None),
        Some(Value::Null) => Ok(None),
        Some(Value::List(items)) => {
            proof {
                lemma_list_view(items);
            }
            let ghost iv = items.deep_view();
            let mut out: Vec<T> = Vec::new();
            let mut i: usize = 0;
            assert(iv.take(0) =~= Seq::<ValueView>::empty());
            assert(out.deep_view() =~= Seq::<T::V>::empty());
            while i < items.len()
                invariant
                    i <= items.len(),
                    check_items(iv.take(i as int), model_checker::<T>()) == Ok::<
                        Seq<T::V>,
                        Seq<char>,
                    >(out.deep_view()),
                decreases items.len() - i,
            {
                proof {
                    lemma_check_items_step(iv, i as int, model_checker::<T>());
                }
                match model_of::<T>(&items[i]) {
                    Ok(m) => {
                        let ghost before = out.deep_view();
                        out.push(m);
                        assert(out.deep_view() =~= before.push(m.deep_view()));
                    },
                    Err(e) => {
                        proof {
                            lemma_check_items_prefix_error(
                                iv,
                                i as int + 1,
                                model_checker::<T>(),
                                e.deep_view(),
                            );
                        }
                        return Err(e);
                    },
                }
                i = i + 1;
            }
            assert(iv.take(i as int) =~= iv);
            Ok(Some(out))
        },
        Some(v) => Err(type_error(v, "a sequence")),
    }
}

/// Writes an optional list of nested models.
pub fn write_models<T: Model>(fields: &mut Vec<(String, Value)>, key: &str, o: &Option<Vec<T>>)
    ensures
        final(fields).deep_view() == old(fields).deep_view() + models_entry::<T>(
            key@,
            o.deep_view(),
        ),
{
    match o {
        Some(ms) => {
            let mut items: Vec<Value> = Vec::new();
            let mut i: usize = 0;
            while i < ms.len()
                invariant
                    i <= ms.len(),
                    items.deep_view() =~= Seq::new(
                        i as nat,
                        |j: int| ValueView::Object(T::to_fields(ms.deep_view()[j])),
                    ),
                decreases ms.len() - i,
            {
                let s = ms[i].encode();
                proof {
                    lemma_object_view(&s);
                }
                let ghost before = items.deep_view();
                items.push(Value::Object(s));
                assert(items.deep_view() =~= before.push(
                    ValueView::Object(T::to_fields(ms.deep_view()[i as int])),
                ));
                i = i + 1;
            }
            proof {
                lemma_list_view(&items);
            }
            push_field(fields, key, Value::List(items));
        },
        None => {
            assert(old(fields).deep_view() + models_entry::<T>(key@, o.deep_view())
                =~= fields.deep_view());
        },
    }
}

/// Reading a written list of models gives the models back.
pub proof fn lemma_models_round_trip<T: Model>(ms: Seq<T::V>)
    ensures
        check_items(models_value::<T>(ms)->List_0, model_checker::<T>()) == Ok::<
            Seq<T::V>,
            DecodeErrorView,
        >(ms),
{
    let items = models_value::<T>(ms)->List_0;
    assert forall|i: int| 0 <= i < items.len() implies (model_checker::<T>())(items[i])
        == Ok::<T::V, Seq<char>>(ms[i]) by {
        T::lemma_round_trip(ms[i]);
    }
    lemma_check_items_ok(items, model_checker::<T>(), ms);
}

}
