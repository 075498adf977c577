//! The structured values that resources travel in: a JSON-like tree with the
//! shape of a protobuf `Struct`.

use vstd::prelude::*;
use crate::entries::{find_index, get_entry, keys_distinct, lemma_find_key, put, put_entry};

verus! {

/// One value of a structured document.
///
/// Numbers keep the distinction the protobuf/JSON bridge makes: an integral
/// number is an `Int`, any other number a `Float`, held as its IEEE-754 bits
/// together with the decimal text that messages show for it.
pub enum Value {
    Null,
    Bool(bool),
    Int(i64),
    Float(u64, String),
    Str(String),
    List(Vec<Value>),
    Object(Struct),
}

/// An object: its fields in order. Objects that come from the protocol hold
/// each key once; where a key occurs twice, the first occurrence counts.
pub struct Struct {
    pub fields: Vec<(String, Value)>,
}

/// The mathematical view of a [`Value`].
pub enum ValueView {
    Null,
    Bool(bool),
    Int(i64),
    Float(u64, Seq<char>),
    Str(Seq<char>),
    List(Seq<ValueView>),
    Object(Seq<(Seq<char>, ValueView)>),
}

pub open spec fn value_view(v: &Value) -> ValueView
    decreases v,
{
    match v {
        Value::Null => ValueView::Null,
        Value::Bool(b) => ValueView::Bool(*b),
        Value::Int(i) => ValueView::Int(*i),
        Value::Float(f, t) => ValueView::Float(*f, t@),
        Value::Str(s) => ValueView::Str(s@),
        Value::List(items) => ValueView::List(
            Seq::new(
                items@.len(),
                |i: int|
                    if 0 <= i < items@.len() {
                        value_view(&items@[i])
                    } else {
                        ValueView::Null
                    },
            ),
        ),
        Value::Object(s) => ValueView::Object(
            Seq::new(
                s.fields@.len(),
                |i: int|
                    if 0 <= i < s.fields@.len() {
                        (s.fields@[i].0@, value_view(&s.fields@[i].1))
                    } else {
                        (Seq::empty(), ValueView::Null)
                    },
            ),
        ),
    }
}

impl DeepView for Value {
    type V = ValueView;

    open spec fn deep_view(&self) -> ValueView {
        value_view(self)
    }
}

impl DeepView for Struct {
    type V = Seq<(Seq<char>, ValueView)>;

    open spec fn deep_view(&self) -> Seq<(Seq<char>, ValueView)> {
        self.fields.deep_view()
    }
}

/// The view of an object is the view of its fields.
pub proof fn lemma_object_view(s: &Struct)
    ensures
        value_view(&Value::Object(*s)) == ValueView::Object(s.deep_view()),
{
    assert(value_view(&Value::Object(*s))->Object_0 =~= s.deep_view());
}

impl Clone for Value {
    fn clone(&self) -> (r: Self)
        ensures
            r.deep_view() == self.deep_view(),
        decreases self,
    {
        match self {
            Value::Null => Value::Null,
            Value::Bool(b) => Value::Bool(*b),
            Value::Int(i) => Value::Int(*i),
            Value::Float(f, t) => Value::Float(*f, t.clone()),
            Value::Str(s) => Value::Str(s.clone()),
            Value::List(items) => {
                let mut out: Vec<Value> = Vec::new();
                let mut i: usize = 0;
                while i < items.len()
                    invariant
                        *self == Value::List(*items),
                        i <= items.len(),
                        out@.len() == i,
                        forall|j: int| 0 <= j < i ==> value_view(&out@[j]) == value_view(&items@[j]),
                    decreases items.len() - i,
                {
                    assert(decreases_to!(*self => self->List_0));
                    out.push(items[i].clone());
                    i = i + 1;
                }
                let r = Value::List(out);
                assert(value_view(&r)->List_0 =~= value_view(self)->List_0);
                r
            },
            Value::Object(s) => {
                let c = s.clone();
                proof {
                    lemma_object_view(s);
                    lemma_object_view(&c);
                }
                Value::Object(c)
            },
        }
    }
}

impl Clone for Struct {
    fn clone(&self) -> (r: Self)
        ensures
            r.deep_view() == self.deep_view(),
        decreases self,
    {
        let mut out: Vec<(String, Value)> = Vec::new();
        let mut i: usize = 0;
        while i < self.fields.len()
            invariant
                i <= self.fields.len(),
                out@.len() == i,
                forall|j: int| 0 <= j < i ==> out.deep_view()[j] == self.fields.deep_view()[j],
            decreases self.fields.len() - i,
        {
            let v = self.fields[i].1.clone();
            let ghost before = out.deep_view();
            out.push((self.fields[i].0.clone(), v));
            assert(out.deep_view() =~= before.push(self.fields.deep_view()[i as int]));
            i = i + 1;
        }
        let r = Struct { fields: out };
        assert(r.deep_view() =~= self.deep_view());
        r
    }
}

impl Struct {
    /// An object with no fields.
    pub fn new() -> (r: Struct)
        ensures
            r.deep_view() == Seq::<(Seq<char>, ValueView)>::empty(),
    {
        let r = Struct { fields: Vec::new() };
        assert(r.deep_view() =~= Seq::<(Seq<char>, ValueView)>::empty());
        r
    }

    /// The value of the field `key`, if the object has one.
    pub fn get(&self, key: &String) -> (r: Option<&Value>)
        ensures
            match r {
                Some(v) => get_entry(self.deep_view(), key@) == Some(v.deep_view()),
                None => get_entry(self.deep_view(), key@) == None::<ValueView>,
            },
    {
        proof {
            lemma_find_key(self.deep_view(), key@);
        }
        match find_index(&self.fields, key) {
            Some(i) => Some(&self.fields[i].1),
            None => None,
        }
    }

    /// Sets the field `key` to `value`, in place when the object has it. An
    /// object with no key twice keeps that so.
    pub fn put(&mut self, key: String, value: Value)
        ensures
            final(self).deep_view() == put_entry(old(self).deep_view(), key@, value.deep_view()),
            keys_distinct(old(self).deep_view()) ==> keys_distinct(final(self).deep_view()),
    {
        put(&mut self.fields, key, value);
    }
}

}
