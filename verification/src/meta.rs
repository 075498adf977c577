//! The models shared by all kinds of resource: object metadata, label
//! selectors, and the int-or-string values of ports and budgets.

use vstd::prelude::*;
use crate::codec::{
    bool_entry, bool_field, entry_if, field_value, i64_field, int_entry, invalid_type,
    invalid_value, lemma_models_round_trip, lemma_push_entry, lemma_str_list_round_trip,
    lemma_str_map_round_trip, models_entry, models_field, opt_int, read_bool, read_i64, read_models,
    read_str, read_str_list, read_str_map, result_view, str_entry, str_field, str_list_entry,
    str_list_field, str_map_entry, str_map_field, type_error, value_error, write_bool, write_i64,
    write_models, write_str, write_str_list, write_str_map, DecodeError, DecodeErrorView, Fields,
    Model,
};
use crate::entries::{get_entry, group_entries};
use crate::value::{Struct, Value, ValueView};

verus! {

broadcast use {group_entries, vstd::string::group_string_axioms, crate::codec::lemma_get_entry_if};

/// A value that is either a number or a name, such as a port or a count
/// of pods.
pub enum IntOrString {
    Int(i32),
    Str(String),
}

pub enum IntOrStringView {
    Int(i32),
    Str(Seq<char>),
}

impl DeepView for IntOrString {
    type V = IntOrStringView;

    open spec fn deep_view(&self) -> IntOrStringView {
        match self {
            IntOrString::Int(i) => IntOrStringView::Int(*i),
            IntOrString::Str(s) => IntOrStringView::Str(s@),
        }
    }
}

pub open spec fn int_or_string_value(v: IntOrStringView) -> ValueView {
    match v {
        IntOrStringView::Int(i) => ValueView::Int(i as i64),
        IntOrStringView::Str(s) => ValueView::Str(s),
    }
}

pub open spec fn int_or_string_field(f: Fields, key: Seq<char>) -> Result<
    Option<IntOrStringView>,
    DecodeErrorView,
> {
    match field_value(f, key) {
        None => Ok(None),
        Some(ValueView::Int(i)) => if i32::MIN <= i <= i32::MAX {
            Ok(Some(IntOrStringView::Int(i as i32)))
        } else {
            Err(invalid_value(ValueView::Int(i), "IntOrString"@))
        },
        Some(ValueView::Str(s)) => Ok(Some(IntOrStringView::Str(s))),
        Some(v) => Err(invalid_type(v, "IntOrString"@)),
    }
}

pub open spec fn int_or_string_entry(key: Seq<char>, o: Option<IntOrStringView>) -> Fields {
    entry_if(
        key,
        match o {
            Some(v) => Some(int_or_string_value(v)),
            None => None,
        },
    )
}

/// Reads an optional int-or-string field.
pub fn read_int_or_string(s: &Struct, key: &str) -> (r: Result<Option<IntOrString>, DecodeError>)
    ensures
        result_view(r) == int_or_string_field(s.deep_view(), key@),
{
    let k = String::from_str(key);
    match s.get(&k) {
        None => Ok(None),
        Some(Value::Null) => Ok(None),
        Some(Value::Int(i)) => {
            if i32::MIN as i64 <= *i && *i <= i32::MAX as i64 {
                Ok(Some(IntOrString::Int(*i as i32)))
            } else {
                Err(value_error(&Value::Int(*i), "IntOrString"))
            }
        },
        Some(Value::Str(x)) => Ok(Some(IntOrString::Str(x.clone()))),
        Some(v) => Err(type_error(v, "IntOrString")),
    }
}

/// Writes an optional int-or-string field.
pub fn write_int_or_string(fields: &mut Vec<(String, Value)>, key: &str, o: &Option<IntOrString>)
    ensures
        final(fields).deep_view() == old(fields).deep_view() + int_or_string_entry(
            key@,
            o.deep_view(),
        ),
{
    let ghost before = fields.deep_view();
    match o {
        Some(IntOrString::Int(i)) => {
            fields.push((String::from_str(key), Value::Int(*i as i64)));
        },
        Some(IntOrString::Str(x)) => {
            fields.push((String::from_str(key), Value::Str(x.clone())));
        },
        None => {},
    }
    assert(fields.deep_view() =~= before + int_or_string_entry(key@, o.deep_view()));
}

/// An object that owns the one whose metadata names it.
pub struct OwnerReference {
    pub api_version: Option<String>,
    pub block_owner_deletion: Option<bool>,
    pub controller: Option<bool>,
    pub kind: Option<String>,
    pub name: Option<String>,
    pub uid: Option<String>,
}

pub struct OwnerReferenceView {
    pub api_version: Option<Seq<char>>,
    pub block_owner_deletion: Option<bool>,
    pub controller: Option<bool>,
    pub kind: Option<Seq<char>>,
    pub name: Option<Seq<char>>,
    pub uid: Option<Seq<char>>,
}

impl DeepView for OwnerReference {
    type V = OwnerReferenceView;

    open spec fn deep_view(&self) -> OwnerReferenceView {
        OwnerReferenceView {
            api_version: self.api_version.deep_view(),
            block_owner_deletion: self.block_owner_deletion.deep_view(),
            controller: self.controller.deep_view(),
            kind: self.kind.deep_view(),
            name: self.name.deep_view(),
            uid: self.uid.deep_view(),
        }
    }
}

impl Model for OwnerReference {
    open spec fn model_name() -> Seq<char> {
        "OwnerReference"@
    }

    open spec fn keys() -> Set<Seq<char>> {
        set!["apiVersion"@, "blockOwnerDeletion"@, "controller"@, "kind"@, "name"@, "uid"@]
    }

    open spec fn from_fields(f: Fields) -> Result<OwnerReferenceView, DecodeErrorView> {
        match str_field(f, "apiVersion"@) {
            Err(e) => Err(e),
            Ok(api_version) => match bool_field(f, "blockOwnerDeletion"@) {
                Err(e) => Err(e),
                Ok(block_owner_deletion) => match bool_field(f, "controller"@) {
                    Err(e) => Err(e),
                    Ok(controller) => match str_field(f, "kind"@) {
                        Err(e) => Err(e),
                        Ok(kind) => match str_field(f, "name"@) {
                            Err(e) => Err(e),
                            Ok(name) => match str_field(f, "uid"@) {
                                Err(e) => Err(e),
                                Ok(uid) => Ok(OwnerReferenceView { api_version, block_owner_deletion, controller, kind, name, uid }),
                            },
                        },
                    },
                },
            },
        }
    }

    open spec fn to_fields(m: OwnerReferenceView) -> Fields {
        str_entry("apiVersion"@, m.api_version)
            + bool_entry("blockOwnerDeletion"@, m.block_owner_deletion)
            + bool_entry("controller"@, m.controller)
            + str_entry("kind"@, m.kind)
            + str_entry("name"@, m.name)
            + str_entry("uid"@, m.uid)
    }

    proof fn lemma_round_trip(m: OwnerReferenceView) {
        OwnerReference::lemma_reads_back_api_version(m);
        OwnerReference::lemma_reads_back_block_owner_deletion(m);
        OwnerReference::lemma_reads_back_controller(m);
        OwnerReference::lemma_reads_back_kind(m);
        OwnerReference::lemma_reads_back_name(m);
        OwnerReference::lemma_reads_back_uid(m);
    }

    proof fn lemma_reads_only_keys(f: Fields, g: Fields) {
        assert(field_value(f, "apiVersion"@) == field_value(g, "apiVersion"@));
        assert(str_field(f, "apiVersion"@) == str_field(g, "apiVersion"@));
        assert(field_value(f, "blockOwnerDeletion"@) == field_value(g, "blockOwnerDeletion"@));
        assert(bool_field(f, "blockOwnerDeletion"@) == bool_field(g, "blockOwnerDeletion"@));
        assert(field_value(f, "controller"@) == field_value(g, "controller"@));
        assert(bool_field(f, "controller"@) == bool_field(g, "controller"@));
        assert(field_value(f, "kind"@) == field_value(g, "kind"@));
        assert(str_field(f, "kind"@) == str_field(g, "kind"@));
        assert(field_value(f, "name"@) == field_value(g, "name"@));
        assert(str_field(f, "name"@) == str_field(g, "name"@));
        assert(field_value(f, "uid"@) == field_value(g, "uid"@));
        assert(str_field(f, "uid"@) == str_field(g, "uid"@));
    }

    proof fn lemma_writes_only_keys(m: OwnerReferenceView) {
        reveal_strlit("apiVersion");
        reveal_strlit("blockOwnerDeletion");
        reveal_strlit("controller");
        reveal_strlit("kind");
        reveal_strlit("name");
        reveal_strlit("uid");
        assert("apiVersion"@.len() == 10);
        assert("blockOwnerDeletion"@.len() == 18);
        assert("controller"@.len() == 10);
        assert("kind"@.len() == 4);
        assert("name"@.len() == 4);
        assert("uid"@.len() == 3);
        assert("apiVersion"@[0] == 'a' && "controller"@[0] == 'c');
        assert("kind"@[0] == 'k' && "name"@[0] == 'n');
        let p0 = Seq::<(Seq<char>, ValueView)>::empty();
        let a0 = Set::<Seq<char>>::empty();
        lemma_push_entry(p0, "apiVersion"@, str_entry("apiVersion"@, m.api_version), a0);
        let p1 = p0 + str_entry("apiVersion"@, m.api_version);
        let a1 = a0.insert("apiVersion"@);
        lemma_push_entry(p1, "blockOwnerDeletion"@, bool_entry("blockOwnerDeletion"@, m.block_owner_deletion), a1);
        let p2 = p1 + bool_entry("blockOwnerDeletion"@, m.block_owner_deletion);
        let a2 = a1.insert("blockOwnerDeletion"@);
        lemma_push_entry(p2, "controller"@, bool_entry("controller"@, m.controller), a2);
        let p3 = p2 + bool_entry("controller"@, m.controller);
        let a3 = a2.insert("controller"@);
        lemma_push_entry(p3, "kind"@, str_entry("kind"@, m.kind), a3);
        let p4 = p3 + str_entry("kind"@, m.kind);
        let a4 = a3.insert("kind"@);
        lemma_push_entry(p4, "name"@, str_entry("name"@, m.name), a4);
        let p5 = p4 + str_entry("name"@, m.name);
        let a5 = a4.insert("name"@);
        lemma_push_entry(p5, "uid"@, str_entry("uid"@, m.uid), a5);
        let p6 = p5 + str_entry("uid"@, m.uid);
        let a6 = a5.insert("uid"@);
        assert(p6 =~= Self::to_fields(m));
        assert(a6 =~= Self::keys());
    }

    open spec fn key_seq() -> Seq<Seq<char>> {
        seq!["apiVersion"@, "blockOwnerDeletion"@, "controller"@, "kind"@, "name"@, "uid"@]
    }

    fn field_count() -> (r: usize) {
        6
    }

    fn field_key(i: usize) -> (r: Option<&'static str>) {
        if i == 0 {
            Some("apiVersion")
        } else if i == 1 {
            Some("blockOwnerDeletion")
        } else if i == 2 {
            Some("controller")
        } else if i == 3 {
            Some("kind")
        } else if i == 4 {
            Some("name")
        } else if i == 5 {
            Some("uid")
        } else {
            None
        }
    }

    fn name() -> (r: &'static str) {
        "OwnerReference"
    }

    fn decode(s: &Struct) -> (r: Result<OwnerReference, DecodeError>) {
        let api_version = read_str(s, "apiVersion")?;
        let block_owner_deletion = read_bool(s, "blockOwnerDeletion")?;
        let controller = read_bool(s, "controller")?;
        let kind = read_str(s, "kind")?;
        let name = read_str(s, "name")?;
        let uid = read_str(s, "uid")?;
        Ok(OwnerReference { api_version, block_owner_deletion, controller, kind, name, uid })
    }

    fn encode(&self) -> (r: Struct) {
        let mut fields: Vec<(String, Value)> = Vec::new();
        let ghost start = fields.deep_view();
        write_str(&mut fields, "apiVersion", &self.api_version);
        write_bool(&mut fields, "blockOwnerDeletion", &self.block_owner_deletion);
        write_bool(&mut fields, "controller", &self.controller);
        write_str(&mut fields, "kind", &self.kind);
        write_str(&mut fields, "name", &self.name);
        write_str(&mut fields, "uid", &self.uid);
        assert(start =~= Seq::<(Seq<char>, ValueView)>::empty());
        assert(fields.deep_view() =~= Self::to_fields(self.deep_view()));
        Struct { fields }
    }
}

impl OwnerReference {
    /// How an object reads as a `OwnerReference` depends on nothing but how each of
    /// its fields reads.
    pub proof fn lemma_reads_field_by_field(f: Fields, g: Fields)
        requires
            str_field(f, "apiVersion"@) == str_field(g, "apiVersion"@),
            bool_field(f, "blockOwnerDeletion"@) == bool_field(g, "blockOwnerDeletion"@),
            bool_field(f, "controller"@) == bool_field(g, "controller"@),
            str_field(f, "kind"@) == str_field(g, "kind"@),
            str_field(f, "name"@) == str_field(g, "name"@),
            str_field(f, "uid"@) == str_field(g, "uid"@),
        ensures
            Self::from_fields(f) == Self::from_fields(g),
    {
    }

    proof fn lemma_key_facts()
        ensures
            "apiVersion"@.len() == 10,
            "blockOwnerDeletion"@.len() == 18,
            "controller"@.len() == 10,
            "kind"@.len() == 4,
            "name"@.len() == 4,
            "uid"@.len() == 3,
            "apiVersion"@[0] == 'a' && "controller"@[0] == 'c',
            "kind"@[0] == 'k' && "name"@[0] == 'n',
    {
        reveal_strlit("apiVersion");
        reveal_strlit("blockOwnerDeletion");
        reveal_strlit("controller");
        reveal_strlit("kind");
        reveal_strlit("name");
        reveal_strlit("uid");
    }

    /// Field `apiVersion` reads back as written, and is written only when it is set.
    pub proof fn lemma_reads_back_api_version(m: OwnerReferenceView)
        ensures
            str_field(Self::to_fields(m), "apiVersion"@) == Ok::<Option<Seq<char>>, DecodeErrorView>(m.api_version),
            (get_entry(Self::to_fields(m), "apiVersion"@) is Some) == (m.api_version is Some),
    {
        Self::lemma_key_facts();
        let p1 = str_entry("apiVersion"@, m.api_version);
        let p2 = p1 + bool_entry("blockOwnerDeletion"@, m.block_owner_deletion);
        let p3 = p2 + bool_entry("controller"@, m.controller);
        let p4 = p3 + str_entry("kind"@, m.kind);
        let p5 = p4 + str_entry("name"@, m.name);
        let p6 = p5 + str_entry("uid"@, m.uid);
        assert(Self::to_fields(m) == p6);
    }

    /// Field `blockOwnerDeletion` reads back as written, and is written only when it is set.
    pub proof fn lemma_reads_back_block_owner_deletion(m: OwnerReferenceView)
        ensures
            bool_field(Self::to_fields(m), "blockOwnerDeletion"@) == Ok::<Option<bool>, DecodeErrorView>(m.block_owner_deletion),
            (get_entry(Self::to_fields(m), "blockOwnerDeletion"@) is Some) == (m.block_owner_deletion is Some),
    {
        Self::lemma_key_facts();
        let p1 = str_entry("apiVersion"@, m.api_version);
        let p2 = p1 + bool_entry("blockOwnerDeletion"@, m.block_owner_deletion);
        let p3 = p2 + bool_entry("controller"@, m.controller);
        let p4 = p3 + str_entry("kind"@, m.kind);
        let p5 = p4 + str_entry("name"@, m.name);
        let p6 = p5 + str_entry("uid"@, m.uid);
        assert(Self::to_fields(m) == p6);
        assert(get_entry(p1, "blockOwnerDeletion"@) == None::<ValueView>);
    }

    /// Field `controller` reads back as written, and is written only when it is set.
    pub proof fn lemma_reads_back_controller(m: OwnerReferenceView)
        ensures
            bool_field(Self::to_fields(m), "controller"@) == Ok::<Option<bool>, DecodeErrorView>(m.controller),
            (get_entry(Self::to_fields(m), "controller"@) is Some) == (m.controller is Some),
    {
        Self::lemma_key_facts();
        let p1 = str_entry("apiVersion"@, m.api_version);
        let p2 = p1 + bool_entry("blockOwnerDeletion"@, m.block_owner_deletion);
        let p3 = p2 + bool_entry("controller"@, m.controller);
        let p4 = p3 + str_entry("kind"@, m.kind);
        let p5 = p4 + str_entry("name"@, m.name);
        let p6 = p5 + str_entry("uid"@, m.uid);
        assert(Self::to_fields(m) == p6);
        assert(get_entry(p2, "controller"@) == None::<ValueView>);
    }

    /// Field `kind` reads back as written, and is written only when it is set.
    pub proof fn lemma_reads_back_kind(m: OwnerReferenceView)
        ensures
            str_field(Self::to_fields(m), "kind"@) == Ok::<Option<Seq<char>>, DecodeErrorView>(m.kind),
            (get_entry(Self::to_fields(m), "kind"@) is Some) == (m.kind is Some),
    {
        Self::lemma_key_facts();
        let p1 = str_entry("apiVersion"@, m.api_version);
        let p2 = p1 + bool_entry("blockOwnerDeletion"@, m.block_owner_deletion);
        let p3 = p2 + bool_entry("controller"@, m.controller);
        let p4 = p3 + str_entry("kind"@, m.kind);
        let p5 = p4 + str_entry("name"@, m.name);
        let p6 = p5 + str_entry("uid"@, m.uid);
        assert(Self::to_fields(m) == p6);
        assert(get_entry(p3, "kind"@) == None::<ValueView>);
    }

    /// Field `name` reads back as written, and is written only when it is set.
    pub proof fn lemma_reads_back_name(m: OwnerReferenceView)
        ensures
            str_field(Self::to_fields(m), "name"@) == Ok::<Option<Seq<char>>, DecodeErrorView>(m.name),
            (get_entry(Self::to_fields(m), "name"@) is Some) == (m.name is Some),
    {
        Self::lemma_key_facts();
        let p1 = str_entry("apiVersion"@, m.api_version);
        let p2 = p1 + bool_entry("blockOwnerDeletion"@, m.block_owner_deletion);
        let p3 = p2 + bool_entry("controller"@, m.controller);
        let p4 = p3 + str_entry("kind"@, m.kind);
        let p5 = p4 + str_entry("name"@, m.name);
        let p6 = p5 + str_entry("uid"@, m.uid);
        assert(Self::to_fields(m) == p6);
        assert(get_entry(p4, "name"@) == None::<ValueView>);
    }

    /// Field `uid` reads back as written, and is written only when it is set.
    pub proof fn lemma_reads_back_uid(m: OwnerReferenceView)
        ensures
            str_field(Self::to_fields(m), "uid"@) == Ok::<Option<Seq<char>>, DecodeErrorView>(m.uid),
            (get_entry(Self::to_fields(m), "uid"@) is Some) == (m.uid is Some),
    {
        Self::lemma_key_facts();
        let p1 = str_entry("apiVersion"@, m.api_version);
        let p2 = p1 + bool_entry("blockOwnerDeletion"@, m.block_owner_deletion);
        let p3 = p2 + bool_entry("controller"@, m.controller);
        let p4 = p3 + str_entry("kind"@, m.kind);
        let p5 = p4 + str_entry("name"@, m.name);
        let p6 = p5 + str_entry("uid"@, m.uid);
        assert(Self::to_fields(m) == p6);
        assert(get_entry(p5, "uid"@) == None::<ValueView>);
    }

}

/// Metadata of a resource: its name, namespace, labels and the other fields
/// that Kubernetes keeps for every object.
pub struct ObjectMeta {
    pub name: Option<String>,
    pub namespace: Option<String>,
    pub labels: Option<Vec<(String, String)>>,
    pub annotations: Option<Vec<(String, String)>>,
    pub creation_timestamp: Option<String>,
    pub deletion_grace_period_seconds: Option<i64>,
    pub deletion_timestamp: Option<String>,
    pub finalizers: Option<Vec<String>>,
    pub generate_name: Option<String>,
    pub generation: Option<i64>,
    pub owner_references: Option<Vec<OwnerReference>>,
    pub resource_version: Option<String>,
    pub self_link: Option<String>,
    pub uid: Option<String>,
}

pub struct ObjectMetaView {
    pub name: Option<Seq<char>>,
    pub namespace: Option<Seq<char>>,
    pub labels: Option<Seq<(Seq<char>, Seq<char>)>>,
    pub annotations: Option<Seq<(Seq<char>, Seq<char>)>>,
    pub creation_timestamp: Option<Seq<char>>,
    pub deletion_grace_period_seconds: Option<i64>,
    pub deletion_timestamp: Option<Seq<char>>,
    pub finalizers: Option<Seq<Seq<char>>>,
    pub generate_name: Option<Seq<char>>,
    pub generation: Option<i64>,
    pub owner_references: Option<Seq<OwnerReferenceView>>,
    pub resource_version: Option<Seq<char>>,
    pub self_link: Option<Seq<char>>,
    pub uid: Option<Seq<char>>,
}

impl DeepView for ObjectMeta {
    type V = ObjectMetaView;

    open spec fn deep_view(&self) -> ObjectMetaView {
        ObjectMetaView {
            name: self.name.deep_view(),
            namespace: self.namespace.deep_view(),
            labels: self.labels.deep_view(),
            annotations: self.annotations.deep_view(),
            creation_timestamp: self.creation_timestamp.deep_view(),
            deletion_grace_period_seconds: self.deletion_grace_period_seconds.deep_view(),
            deletion_timestamp: self.deletion_timestamp.deep_view(),
            finalizers: self.finalizers.deep_view(),
            generate_name: self.generate_name.deep_view(),
            generation: self.generation.deep_view(),
            owner_references: self.owner_references.deep_view(),
            resource_version: self.resource_version.deep_view(),
            self_link: self.self_link.deep_view(),
            uid: self.uid.deep_view(),
        }
    }
}

impl Model for ObjectMeta {
    open spec fn model_name() -> Seq<char> {
        "ObjectMeta"@
    }

    open spec fn keys() -> Set<Seq<char>> {
        set!["name"@, "namespace"@, "labels"@, "annotations"@, "creationTimestamp"@, "deletionGracePeriodSeconds"@, "deletionTimestamp"@, "finalizers"@, "generateName"@, "generation"@, "ownerReferences"@, "resourceVersion"@, "selfLink"@, "uid"@]
    }

    open spec fn from_fields(f: Fields) -> Result<ObjectMetaView, DecodeErrorView> {
        match str_map_field(f, "annotations"@) {
            Err(e) => Err(e),
            Ok(annotations) => match str_field(f, "creationTimestamp"@) {
                Err(e) => Err(e),
                Ok(creation_timestamp) => match i64_field(f, "deletionGracePeriodSeconds"@) {
                    Err(e) => Err(e),
                    Ok(deletion_grace_period_seconds) => match str_field(f, "deletionTimestamp"@) {
                        Err(e) => Err(e),
                        Ok(deletion_timestamp) => match str_list_field(f, "finalizers"@) {
                            Err(e) => Err(e),
                            Ok(finalizers) => match str_field(f, "generateName"@) {
                                Err(e) => Err(e),
                                Ok(generate_name) => match i64_field(f, "generation"@) {
                                    Err(e) => Err(e),
                                    Ok(generation) => match str_map_field(f, "labels"@) {
                                        Err(e) => Err(e),
                                        Ok(labels) => match str_field(f, "name"@) {
                                            Err(e) => Err(e),
                                            Ok(name) => match str_field(f, "namespace"@) {
                                                Err(e) => Err(e),
                                                Ok(namespace) => match models_field::<OwnerReference>(f, "ownerReferences"@) {
                                                    Err(e) => Err(e),
                                                    Ok(owner_references) => match str_field(f, "resourceVersion"@) {
                                                        Err(e) => Err(e),
                                                        Ok(resource_version) => match str_field(f, "selfLink"@) {
                                                            Err(e) => Err(e),
                                                            Ok(self_link) => match str_field(f, "uid"@) {
                                                                Err(e) => Err(e),
                                                                Ok(uid) => Ok(ObjectMetaView { name, namespace, labels, annotations, creation_timestamp, deletion_grace_period_seconds, deletion_timestamp, finalizers, generate_name, generation, owner_references, resource_version, self_link, uid }),
                                                            },
                                                        },
                                                    },
                                                },
                                            },
                                        },
                                    },
                                },
                            },
                        },
                    },
                },
            },
        }
    }

    open spec fn to_fields(m: ObjectMetaView) -> Fields {
        str_entry("name"@, m.name)
            + str_entry("namespace"@, m.namespace)
            + str_map_entry("labels"@, m.labels)
            + str_map_entry("annotations"@, m.annotations)
            + str_entry("creationTimestamp"@, m.creation_timestamp)
            + int_entry("deletionGracePeriodSeconds"@, opt_int(m.deletion_grace_period_seconds))
            + str_entry("deletionTimestamp"@, m.deletion_timestamp)
            + str_list_entry("finalizers"@, m.finalizers)
            + str_entry("generateName"@, m.generate_name)
            + int_entry("generation"@, opt_int(m.generation))
            + models_entry::<OwnerReference>("ownerReferences"@, m.owner_references)
            + str_entry("resourceVersion"@, m.resource_version)
            + str_entry("selfLink"@, m.self_link)
            + str_entry("uid"@, m.uid)
    }

    proof fn lemma_round_trip(m: ObjectMetaView) {
        ObjectMeta::lemma_reads_back_name(m);
        ObjectMeta::lemma_reads_back_namespace(m);
        ObjectMeta::lemma_reads_back_labels(m);
        ObjectMeta::lemma_reads_back_annotations(m);
        ObjectMeta::lemma_reads_back_creation_timestamp(m);
        ObjectMeta::lemma_reads_back_deletion_grace_period_seconds(m);
        ObjectMeta::lemma_reads_back_deletion_timestamp(m);
        ObjectMeta::lemma_reads_back_finalizers(m);
        ObjectMeta::lemma_reads_back_generate_name(m);
        ObjectMeta::lemma_reads_back_generation(m);
        ObjectMeta::lemma_reads_back_owner_references(m);
        ObjectMeta::lemma_reads_back_resource_version(m);
        ObjectMeta::lemma_reads_back_self_link(m);
        ObjectMeta::lemma_reads_back_uid(m);
    }

    proof fn lemma_reads_only_keys(f: Fields, g: Fields) {
        assert(field_value(f, "name"@) == field_value(g, "name"@));
        assert(str_field(f, "name"@) == str_field(g, "name"@));
        assert(field_value(f, "namespace"@) == field_value(g, "namespace"@));
        assert(str_field(f, "namespace"@) == str_field(g, "namespace"@));
        assert(field_value(f, "labels"@) == field_value(g, "labels"@));
        assert(str_map_field(f, "labels"@) == str_map_field(g, "labels"@));
        assert(field_value(f, "annotations"@) == field_value(g, "annotations"@));
        assert(str_map_field(f, "annotations"@) == str_map_field(g, "annotations"@));
        assert(field_value(f, "creationTimestamp"@) == field_value(g, "creationTimestamp"@));
        assert(str_field(f, "creationTimestamp"@) == str_field(g, "creationTimestamp"@));
        assert(field_value(f, "deletionGracePeriodSeconds"@) == field_value(g, "deletionGracePeriodSeconds"@));
        assert(i64_field(f, "deletionGracePeriodSeconds"@) == i64_field(g, "deletionGracePeriodSeconds"@));
        assert(field_value(f, "deletionTimestamp"@) == field_value(g, "deletionTimestamp"@));
        assert(str_field(f, "deletionTimestamp"@) == str_field(g, "deletionTimestamp"@));
        assert(field_value(f, "finalizers"@) == field_value(g, "finalizers"@));
        assert(str_list_field(f, "finalizers"@) == str_list_field(g, "finalizers"@));
        assert(field_value(f, "generateName"@) == field_value(g, "generateName"@));
        assert(str_field(f, "generateName"@) == str_field(g, "generateName"@));
        assert(field_value(f, "generation"@) == field_value(g, "generation"@));
        assert(i64_field(f, "generation"@) == i64_field(g, "generation"@));
        assert(field_value(f, "ownerReferences"@) == field_value(g, "ownerReferences"@));
        assert(models_field::<OwnerReference>(f, "ownerReferences"@) == models_field::<OwnerReference>(g, "ownerReferences"@));
        assert(field_value(f, "resourceVersion"@) == field_value(g, "resourceVersion"@));
        assert(str_field(f, "resourceVersion"@) == str_field(g, "resourceVersion"@));
        assert(field_value(f, "selfLink"@) == field_value(g, "selfLink"@));
        assert(str_field(f, "selfLink"@) == str_field(g, "selfLink"@));
        assert(field_value(f, "uid"@) == field_value(g, "uid"@));
        assert(str_field(f, "uid"@) == str_field(g, "uid"@));
    }

    proof fn lemma_writes_only_keys(m: ObjectMetaView) {
        reveal_strlit("name");
        reveal_strlit("namespace");
        reveal_strlit("labels");
        reveal_strlit("annotations");
        reveal_strlit("creationTimestamp");
        reveal_strlit("deletionGracePeriodSeconds");
        reveal_strlit("deletionTimestamp");
        reveal_strlit("finalizers");
        reveal_strlit("generateName");
        reveal_strlit("generation");
        reveal_strlit("ownerReferences");
        reveal_strlit("resourceVersion");
        reveal_strlit("selfLink");
        reveal_strlit("uid");
        assert("name"@.len() == 4);
        assert("namespace"@.len() == 9);
        assert("labels"@.len() == 6);
        assert("annotations"@.len() == 11);
        assert("creationTimestamp"@.len() == 17);
        assert("deletionGracePeriodSeconds"@.len() == 26);
        assert("deletionTimestamp"@.len() == 17);
        assert("finalizers"@.len() == 10);
        assert("generateName"@.len() == 12);
        assert("generation"@.len() == 10);
        assert("ownerReferences"@.len() == 15);
        assert("resourceVersion"@.len() == 15);
        assert("selfLink"@.len() == 8);
        assert("uid"@.len() == 3);
        assert("creationTimestamp"@[0] == 'c' && "deletionTimestamp"@[0] == 'd');
        assert("finalizers"@[0] == 'f' && "generation"@[0] == 'g');
        assert("ownerReferences"@[0] == 'o' && "resourceVersion"@[0] == 'r');
        let p0 = Seq::<(Seq<char>, ValueView)>::empty();
        let a0 = Set::<Seq<char>>::empty();
        lemma_push_entry(p0, "name"@, str_entry("name"@, m.name), a0);
        let p1 = p0 + str_entry("name"@, m.name);
        let a1 = a0.insert("name"@);
        lemma_push_entry(p1, "namespace"@, str_entry("namespace"@, m.namespace), a1);
        let p2 = p1 + str_entry("namespace"@, m.namespace);
        let a2 = a1.insert("namespace"@);
        lemma_push_entry(p2, "labels"@, str_map_entry("labels"@, m.labels), a2);
        let p3 = p2 + str_map_entry("labels"@, m.labels);
        let a3 = a2.insert("labels"@);
        lemma_push_entry(p3, "annotations"@, str_map_entry("annotations"@, m.annotations), a3);
        let p4 = p3 + str_map_entry("annotations"@, m.annotations);
        let a4 = a3.insert("annotations"@);
        lemma_push_entry(p4, "creationTimestamp"@, str_entry("creationTimestamp"@, m.creation_timestamp), a4);
        let p5 = p4 + str_entry("creationTimestamp"@, m.creation_timestamp);
        let a5 = a4.insert("creationTimestamp"@);
        lemma_push_entry(p5, "deletionGracePeriodSeconds"@, int_entry("deletionGracePeriodSeconds"@, opt_int(m.deletion_grace_period_seconds)), a5);
        let p6 = p5 + int_entry("deletionGracePeriodSeconds"@, opt_int(m.deletion_grace_period_seconds));
        let a6 = a5.insert("deletionGracePeriodSeconds"@);
        lemma_push_entry(p6, "deletionTimestamp"@, str_entry("deletionTimestamp"@, m.deletion_timestamp), a6);
        let p7 = p6 + str_entry("deletionTimestamp"@, m.deletion_timestamp);
        let a7 = a6.insert("deletionTimestamp"@);
        lemma_push_entry(p7, "finalizers"@, str_list_entry("finalizers"@, m.finalizers), a7);
        let p8 = p7 + str_list_entry("finalizers"@, m.finalizers);
        let a8 = a7.insert("finalizers"@);
        lemma_push_entry(p8, "generateName"@, str_entry("generateName"@, m.generate_name), a8);
        let p9 = p8 + str_entry("generateName"@, m.generate_name);
        let a9 = a8.insert("generateName"@);
        lemma_push_entry(p9, "generation"@, int_entry("generation"@, opt_int(m.generation)), a9);
        let p10 = p9 + int_entry("generation"@, opt_int(m.generation));
        let a10 = a9.insert("generation"@);
        lemma_push_entry(p10, "ownerReferences"@, models_entry::<OwnerReference>("ownerReferences"@, m.owner_references), a10);
        let p11 = p10 + models_entry::<OwnerReference>("ownerReferences"@, m.owner_references);
        let a11 = a10.insert("ownerReferences"@);
        lemma_push_entry(p11, "resourceVersion"@, str_entry("resourceVersion"@, m.resource_version), a11);
        let p12 = p11 + str_entry("resourceVersion"@, m.resource_version);
        let a12 = a11.insert("resourceVersion"@);
        lemma_push_entry(p12, "selfLink"@, str_entry("selfLink"@, m.self_link), a12);
        let p13 = p12 + str_entry("selfLink"@, m.self_link);
        let a13 = a12.insert("selfLink"@);
        lemma_push_entry(p13, "uid"@, str_entry("uid"@, m.uid), a13);
        let p14 = p13 + str_entry("uid"@, m.uid);
        let a14 = a13.insert("uid"@);
        assert(p14 =~= Self::to_fields(m));
        assert(a14 =~= Self::keys());
    }

    open spec fn key_seq() -> Seq<Seq<char>> {
        seq!["annotations"@, "creationTimestamp"@, "deletionGracePeriodSeconds"@, "deletionTimestamp"@, "finalizers"@, "generateName"@, "generation"@, "labels"@, "name"@, "namespace"@, "ownerReferences"@, "resourceVersion"@, "selfLink"@, "uid"@]
    }

    fn field_count() -> (r: usize) {
        14
    }

    fn field_key(i: usize) -> (r: Option<&'static str>) {
        if i == 0 {
            Some("annotations")
        } else if i == 1 {
            Some("creationTimestamp")
        } else if i == 2 {
            Some("deletionGracePeriodSeconds")
        } else if i == 3 {
            Some("deletionTimestamp")
        } else if i == 4 {
            Some("finalizers")
        } else if i == 5 {
            Some("generateName")
        } else if i == 6 {
            Some("generation")
        } else if i == 7 {
            Some("labels")
        } else if i == 8 {
            Some("name")
        } else if i == 9 {
            Some("namespace")
        } else if i == 10 {
            Some("ownerReferences")
        } else if i == 11 {
            Some("resourceVersion")
        } else if i == 12 {
            Some("selfLink")
        } else if i == 13 {
            Some("uid")
        } else {
            None
        }
    }

    fn name() -> (r: &'static str) {
        "ObjectMeta"
    }

    fn decode(s: &Struct) -> (r: Result<ObjectMeta, DecodeError>) {
        let annotations = read_str_map(s, "annotations")?;
        let creation_timestamp = read_str(s, "creationTimestamp")?;
        let deletion_grace_period_seconds = read_i64(s, "deletionGracePeriodSeconds")?;
        let deletion_timestamp = read_str(s, "deletionTimestamp")?;
        let finalizers = read_str_list(s, "finalizers")?;
        let generate_name = read_str(s, "generateName")?;
        let generation = read_i64(s, "generation")?;
        let labels = read_str_map(s, "labels")?;
        let name = read_str(s, "name")?;
        let namespace = read_str(s, "namespace")?;
        let owner_references = read_models::<OwnerReference>(s, "ownerReferences")?;
        let resource_version = read_str(s, "resourceVersion")?;
        let self_link = read_str(s, "selfLink")?;
        let uid = read_str(s, "uid")?;
        Ok(ObjectMeta { name, namespace, labels, annotations, creation_timestamp, deletion_grace_period_seconds, deletion_timestamp, finalizers, generate_name, generation, owner_references, resource_version, self_link, uid })
    }

    fn encode(&self) -> (r: Struct) {
        let mut fields: Vec<(String, Value)> = Vec::new();
        let ghost start = fields.deep_view();
        write_str(&mut fields, "name", &self.name);
        write_str(&mut fields, "namespace", &self.namespace);
        write_str_map(&mut fields, "labels", &self.labels);
        write_str_map(&mut fields, "annotations", &self.annotations);
        write_str(&mut fields, "creationTimestamp", &self.creation_timestamp);
        write_i64(&mut fields, "deletionGracePeriodSeconds", &self.deletion_grace_period_seconds);
        write_str(&mut fields, "deletionTimestamp", &self.deletion_timestamp);
        write_str_list(&mut fields, "finalizers", &self.finalizers);
        write_str(&mut fields, "generateName", &self.generate_name);
        write_i64(&mut fields, "generation", &self.generation);
        write_models::<OwnerReference>(&mut fields, "ownerReferences", &self.owner_references);
        write_str(&mut fields, "resourceVersion", &self.resource_version);
        write_str(&mut fields, "selfLink", &self.self_link);
        write_str(&mut fields, "uid", &self.uid);
        assert(start =~= Seq::<(Seq<char>, ValueView)>::empty());
        assert(fields.deep_view() =~= Self::to_fields(self.deep_view()));
        Struct { fields }
    }
}

impl ObjectMeta {
    /// How an object reads as a `ObjectMeta` depends on nothing but how each of
    /// its fields reads.
    pub proof fn lemma_reads_field_by_field(f: Fields, g: Fields)
        requires
            str_field(f, "name"@) == str_field(g, "name"@),
            str_field(f, "namespace"@) == str_field(g, "namespace"@),
            str_map_field(f, "labels"@) == str_map_field(g, "labels"@),
            str_map_field(f, "annotations"@) == str_map_field(g, "annotations"@),
            str_field(f, "creationTimestamp"@) == str_field(g, "creationTimestamp"@),
            i64_field(f, "deletionGracePeriodSeconds"@) == i64_field(g, "deletionGracePeriodSeconds"@),
            str_field(f, "deletionTimestamp"@) == str_field(g, "deletionTimestamp"@),
            str_list_field(f, "finalizers"@) == str_list_field(g, "finalizers"@),
            str_field(f, "generateName"@) == str_field(g, "generateName"@),
            i64_field(f, "generation"@) == i64_field(g, "generation"@),
            models_field::<OwnerReference>(f, "ownerReferences"@) == models_field::<OwnerReference>(g, "ownerReferences"@),
            str_field(f, "resourceVersion"@) == str_field(g, "resourceVersion"@),
            str_field(f, "selfLink"@) == str_field(g, "selfLink"@),
            str_field(f, "uid"@) == str_field(g, "uid"@),
        ensures
            Self::from_fields(f) == Self::from_fields(g),
    {
    }

    proof fn lemma_key_facts()
        ensures
            "name"@.len() == 4,
            "namespace"@.len() == 9,
            "labels"@.len() == 6,
            "annotations"@.len() == 11,
            "creationTimestamp"@.len() == 17,
            "deletionGracePeriodSeconds"@.len() == 26,
            "deletionTimestamp"@.len() == 17,
            "finalizers"@.len() == 10,
            "generateName"@.len() == 12,
            "generation"@.len() == 10,
            "ownerReferences"@.len() == 15,
            "resourceVersion"@.len() == 15,
            "selfLink"@.len() == 8,
            "uid"@.len() == 3,
            "creationTimestamp"@[0] == 'c' && "deletionTimestamp"@[0] == 'd',
            "finalizers"@[0] == 'f' && "generation"@[0] == 'g',
            "ownerReferences"@[0] == 'o' && "resourceVersion"@[0] == 'r',
    {
        reveal_strlit("name");
        reveal_strlit("namespace");
        reveal_strlit("labels");
        reveal_strlit("annotations");
        reveal_strlit("creationTimestamp");
        reveal_strlit("deletionGracePeriodSeconds");
        reveal_strlit("deletionTimestamp");
        reveal_strlit("finalizers");
        reveal_strlit("generateName");
        reveal_strlit("generation");
        reveal_strlit("ownerReferences");
        reveal_strlit("resourceVersion");
        reveal_strlit("selfLink");
        reveal_strlit("uid");
    }

    /// Field `name` reads back as written, and is written only when it is set.
    pub proof fn lemma_reads_back_name(m: ObjectMetaView)
        ensures
            str_field(Self::to_fields(m), "name"@) == Ok::<Option<Seq<char>>, DecodeErrorView>(m.name),
            (get_entry(Self::to_fields(m), "name"@) is Some) == (m.name is Some),
    {
        Self::lemma_key_facts();
        let p1 = str_entry("name"@, m.name);
        let p2 = p1 + str_entry("namespace"@, m.namespace);
        let p3 = p2 + str_map_entry("labels"@, m.labels);
        let p4 = p3 + str_map_entry("annotations"@, m.annotations);
        let p5 = p4 + str_entry("creationTimestamp"@, m.creation_timestamp);
        let p6 = p5 + int_entry("deletionGracePeriodSeconds"@, opt_int(m.deletion_grace_period_seconds));
        let p7 = p6 + str_entry("deletionTimestamp"@, m.deletion_timestamp);
        let p8 = p7 + str_list_entry("finalizers"@, m.finalizers);
        let p9 = p8 + str_entry("generateName"@, m.generate_name);
        let p10 = p9 + int_entry("generation"@, opt_int(m.generation));
        let p11 = p10 + models_entry::<OwnerReference>("ownerReferences"@, m.owner_references);
        let p12 = p11 + str_entry("resourceVersion"@, m.resource_version);
        let p13 = p12 + str_entry("selfLink"@, m.self_link);
        let p14 = p13 + str_entry("uid"@, m.uid);
        assert(Self::to_fields(m) == p14);
    }

    /// Field `namespace` reads back as written, and is written only when it is set.
    pub proof fn lemma_reads_back_namespace(m: ObjectMetaView)
        ensures
            str_field(Self::to_fields(m), "namespace"@) == Ok::<Option<Seq<char>>, DecodeErrorView>(m.namespace),
            (get_entry(Self::to_fields(m), "namespace"@) is Some) == (m.namespace is Some),
    {
        Self::lemma_key_facts();
        let p1 = str_entry("name"@, m.name);
        let p2 = p1 + str_entry("namespace"@, m.namespace);
        let p3 = p2 + str_map_entry("labels"@, m.labels);
        let p4 = p3 + str_map_entry("annotations"@, m.annotations);
        let p5 = p4 + str_entry("creationTimestamp"@, m.creation_timestamp);
        let p6 = p5 + int_entry("deletionGracePeriodSeconds"@, opt_int(m.deletion_grace_period_seconds));
        let p7 = p6 + str_entry("deletionTimestamp"@, m.deletion_timestamp);
        let p8 = p7 + str_list_entry("finalizers"@, m.finalizers);
        let p9 = p8 + str_entry("generateName"@, m.generate_name);
        let p10 = p9 + int_entry("generation"@, opt_int(m.generation));
        let p11 = p10 + models_entry::<OwnerReference>("ownerReferences"@, m.owner_references);
        let p12 = p11 + str_entry("resourceVersion"@, m.resource_version);
        let p13 = p12 + str_entry("selfLink"@, m.self_link);
        let p14 = p13 + str_entry("uid"@, m.uid);
        assert(Self::to_fields(m) == p14);
        assert(get_entry(p1, "namespace"@) == None::<ValueView>);
    }

    /// Field `labels` reads back as written, and is written only when it is set.
    pub proof fn lemma_reads_back_labels(m: ObjectMetaView)
        ensures
            str_map_field(Self::to_fields(m), "labels"@) == Ok::<Option<Seq<(Seq<char>, Seq<char>)>>, DecodeErrorView>(m.labels),
            (get_entry(Self::to_fields(m), "labels"@) is Some) == (m.labels is Some),
    {
        Self::lemma_key_facts();
        let p1 = str_entry("name"@, m.name);
        let p2 = p1 + str_entry("namespace"@, m.namespace);
        let p3 = p2 + str_map_entry("labels"@, m.labels);
        let p4 = p3 + str_map_entry("annotations"@, m.annotations);
        let p5 = p4 + str_entry("creationTimestamp"@, m.creation_timestamp);
        let p6 = p5 + int_entry("deletionGracePeriodSeconds"@, opt_int(m.deletion_grace_period_seconds));
        let p7 = p6 + str_entry("deletionTimestamp"@, m.deletion_timestamp);
        let p8 = p7 + str_list_entry("finalizers"@, m.finalizers);
        let p9 = p8 + str_entry("generateName"@, m.generate_name);
        let p10 = p9 + int_entry("generation"@, opt_int(m.generation));
        let p11 = p10 + models_entry::<OwnerReference>("ownerReferences"@, m.owner_references);
        let p12 = p11 + str_entry("resourceVersion"@, m.resource_version);
        let p13 = p12 + str_entry("selfLink"@, m.self_link);
        let p14 = p13 + str_entry("uid"@, m.uid);
        assert(Self::to_fields(m) == p14);
        assert(get_entry(p2, "labels"@) == None::<ValueView>);
        if let Some(x) = m.labels {
            lemma_str_map_round_trip(x);
        }
    }

    /// Field `annotations` reads back as written, and is written only when it is set.
    pub proof fn lemma_reads_back_annotations(m: ObjectMetaView)
        ensures
            str_map_field(Self::to_fields(m), "annotations"@) == Ok::<Option<Seq<(Seq<char>, Seq<char>)>>, DecodeErrorView>(m.annotations),
            (get_entry(Self::to_fields(m), "annotations"@) is Some) == (m.annotations is Some),
    {
        Self::lemma_key_facts();
        let p1 = str_entry("name"@, m.name);
        let p2 = p1 + str_entry("namespace"@, m.namespace);
        let p3 = p2 + str_map_entry("labels"@, m.labels);
        let p4 = p3 + str_map_entry("annotations"@, m.annotations);
        let p5 = p4 + str_entry("creationTimestamp"@, m.creation_timestamp);
        let p6 = p5 + int_entry("deletionGracePeriodSeconds"@, opt_int(m.deletion_grace_period_seconds));
        let p7 = p6 + str_entry("deletionTimestamp"@, m.deletion_timestamp);
        let p8 = p7 + str_list_entry("finalizers"@, m.finalizers);
        let p9 = p8 + str_entry("generateName"@, m.generate_name);
        let p10 = p9 + int_entry("generation"@, opt_int(m.generation));
        let p11 = p10 + models_entry::<OwnerReference>("ownerReferences"@, m.owner_references);
        let p12 = p11 + str_entry("resourceVersion"@, m.resource_version);
        let p13 = p12 + str_entry("selfLink"@, m.self_link);
        let p14 = p13 + str_entry("uid"@, m.uid);
        assert(Self::to_fields(m) == p14);
        assert(get_entry(p3, "annotations"@) == None::<ValueView>);
        if let Some(x) = m.annotations {
            lemma_str_map_round_trip(x);
        }
    }

    /// Field `creationTimestamp` reads back as written, and is written only when it is set.
    pub proof fn lemma_reads_back_creation_timestamp(m: ObjectMetaView)
        ensures
            str_field(Self::to_fields(m), "creationTimestamp"@) == Ok::<Option<Seq<char>>, DecodeErrorView>(m.creation_timestamp),
            (get_entry(Self::to_fields(m), "creationTimestamp"@) is Some) == (m.creation_timestamp is Some),
    {
        Self::lemma_key_facts();
        let p1 = str_entry("name"@, m.name);
        let p2 = p1 + str_entry("namespace"@, m.namespace);
        let p3 = p2 + str_map_entry("labels"@, m.labels);
        let p4 = p3 + str_map_entry("annotations"@, m.annotations);
        let p5 = p4 + str_entry("creationTimestamp"@, m.creation_timestamp);
        let p6 = p5 + int_entry("deletionGracePeriodSeconds"@, opt_int(m.deletion_grace_period_seconds));
        let p7 = p6 + str_entry("deletionTimestamp"@, m.deletion_timestamp);
        let p8 = p7 + str_list_entry("finalizers"@, m.finalizers);
        let p9 = p8 + str_entry("generateName"@, m.generate_name);
        let p10 = p9 + int_entry("generation"@, opt_int(m.generation));
        let p11 = p10 + models_entry::<OwnerReference>("ownerReferences"@, m.owner_references);
        let p12 = p11 + str_entry("resourceVersion"@, m.resource_version);
        let p13 = p12 + str_entry("selfLink"@, m.self_link);
        let p14 = p13 + str_entry("uid"@, m.uid);
        assert(Self::to_fields(m) == p14);
        assert(get_entry(p4, "creationTimestamp"@) == None::<ValueView>);
    }

    /// Field `deletionGracePeriodSeconds` reads back as written, and is written only when it is set.
    pub proof fn lemma_reads_back_deletion_grace_period_seconds(m: ObjectMetaView)
        ensures
            i64_field(Self::to_fields(m), "deletionGracePeriodSeconds"@) == Ok::<Option<i64>, DecodeErrorView>(m.deletion_grace_period_seconds),
            (get_entry(Self::to_fields(m), "deletionGracePeriodSeconds"@) is Some) == (m.deletion_grace_period_seconds is Some),
    {
        Self::lemma_key_facts();
        let p1 = str_entry("name"@, m.name);
        let p2 = p1 + str_entry("namespace"@, m.namespace);
        let p3 = p2 + str_map_entry("labels"@, m.labels);
        let p4 = p3 + str_map_entry("annotations"@, m.annotations);
        let p5 = p4 + str_entry("creationTimestamp"@, m.creation_timestamp);
        let p6 = p5 + int_entry("deletionGracePeriodSeconds"@, opt_int(m.deletion_grace_period_seconds));
        let p7 = p6 + str_entry("deletionTimestamp"@, m.deletion_timestamp);
        let p8 = p7 + str_list_entry("finalizers"@, m.finalizers);
        let p9 = p8 + str_entry("generateName"@, m.generate_name);
        let p10 = p9 + int_entry("generation"@, opt_int(m.generation));
        let p11 = p10 + models_entry::<OwnerReference>("ownerReferences"@, m.owner_references);
        let p12 = p11 + str_entry("resourceVersion"@, m.resource_version);
        let p13 = p12 + str_entry("selfLink"@, m.self_link);
        let p14 = p13 + str_entry("uid"@, m.uid);
        assert(Self::to_fields(m) == p14);
        assert(get_entry(p5, "deletionGracePeriodSeconds"@) == None::<ValueView>);
    }

    /// Field `deletionTimestamp` reads back as written, and is written only when it is set.
    pub proof fn lemma_reads_back_deletion_timestamp(m: ObjectMetaView)
        ensures
            str_field(Self::to_fields(m), "deletionTimestamp"@) == Ok::<Option<Seq<char>>, DecodeErrorView>(m.deletion_timestamp),
            (get_entry(Self::to_fields(m), "deletionTimestamp"@) is Some) == (m.deletion_timestamp is Some),
    {
        Self::lemma_key_facts();
        let p1 = str_entry("name"@, m.name);
        let p2 = p1 + str_entry("namespace"@, m.namespace);
        let p3 = p2 + str_map_entry("labels"@, m.labels);
        let p4 = p3 + str_map_entry("annotations"@, m.annotations);
        let p5 = p4 + str_entry("creationTimestamp"@, m.creation_timestamp);
        let p6 = p5 + int_entry("deletionGracePeriodSeconds"@, opt_int(m.deletion_grace_period_seconds));
        let p7 = p6 + str_entry("deletionTimestamp"@, m.deletion_timestamp);
        let p8 = p7 + str_list_entry("finalizers"@, m.finalizers);
        let p9 = p8 + str_entry("generateName"@, m.generate_name);
        let p10 = p9 + int_entry("generation"@, opt_int(m.generation));
        let p11 = p10 + models_entry::<OwnerReference>("ownerReferences"@, m.owner_references);
        let p12 = p11 + str_entry("resourceVersion"@, m.resource_version);
        let p13 = p12 + str_entry("selfLink"@, m.self_link);
        let p14 = p13 + str_entry("uid"@, m.uid);
        assert(Self::to_fields(m) == p14);
        assert(get_entry(p6, "deletionTimestamp"@) == None::<ValueView>);
    }

    /// Field `finalizers` reads back as written, and is written only when it is set.
    pub proof fn lemma_reads_back_finalizers(m: ObjectMetaView)
        ensures
            str_list_field(Self::to_fields(m), "finalizers"@) == Ok::<Option<Seq<Seq<char>>>, DecodeErrorView>(m.finalizers),
            (get_entry(Self::to_fields(m), "finalizers"@) is Some) == (m.finalizers is Some),
    {
        Self::lemma_key_facts();
        let p1 = str_entry("name"@, m.name);
        let p2 = p1 + str_entry("namespace"@, m.namespace);
        let p3 = p2 + str_map_entry("labels"@, m.labels);
        let p4 = p3 + str_map_entry("annotations"@, m.annotations);
        let p5 = p4 + str_entry("creationTimestamp"@, m.creation_timestamp);
        let p6 = p5 + int_entry("deletionGracePeriodSeconds"@, opt_int(m.deletion_grace_period_seconds));
        let p7 = p6 + str_entry("deletionTimestamp"@, m.deletion_timestamp);
        let p8 = p7 + str_list_entry("finalizers"@, m.finalizers);
        let p9 = p8 + str_entry("generateName"@, m.generate_name);
        let p10 = p9 + int_entry("generation"@, opt_int(m.generation));
        let p11 = p10 + models_entry::<OwnerReference>("ownerReferences"@, m.owner_references);
        let p12 = p11 + str_entry("resourceVersion"@, m.resource_version);
        let p13 = p12 + str_entry("selfLink"@, m.self_link);
        let p14 = p13 + str_entry("uid"@, m.uid);
        assert(Self::to_fields(m) == p14);
        assert(get_entry(p7, "finalizers"@) == None::<ValueView>);
        if let Some(x) = m.finalizers {
            lemma_str_list_round_trip(x);
        }
    }

    /// Field `generateName` reads back as written, and is written only when it is set.
    pub proof fn lemma_reads_back_generate_name(m: ObjectMetaView)
        ensures
            str_field(Self::to_fields(m), "generateName"@) == Ok::<Option<Seq<char>>, DecodeErrorView>(m.generate_name),
            (get_entry(Self::to_fields(m), "generateName"@) is Some) == (m.generate_name is Some),
    {
        Self::lemma_key_facts();
        let p1 = str_entry("name"@, m.name);
        let p2 = p1 + str_entry("namespace"@, m.namespace);
        let p3 = p2 + str_map_entry("labels"@, m.labels);
        let p4 = p3 + str_map_entry("annotations"@, m.annotations);
        let p5 = p4 + str_entry("creationTimestamp"@, m.creation_timestamp);
        let p6 = p5 + int_entry("deletionGracePeriodSeconds"@, opt_int(m.deletion_grace_period_seconds));
        let p7 = p6 + str_entry("deletionTimestamp"@, m.deletion_timestamp);
        let p8 = p7 + str_list_entry("finalizers"@, m.finalizers);
        let p9 = p8 + str_entry("generateName"@, m.generate_name);
        let p10 = p9 + int_entry("generation"@, opt_int(m.generation));
        let p11 = p10 + models_entry::<OwnerReference>("ownerReferences"@, m.owner_references);
        let p12 = p11 + str_entry("resourceVersion"@, m.resource_version);
        let p13 = p12 + str_entry("selfLink"@, m.self_link);
        let p14 = p13 + str_entry("uid"@, m.uid);
        assert(Self::to_fields(m) == p14);
        assert(get_entry(p8, "generateName"@) == None::<ValueView>);
    }

    /// Field `generation` reads back as written, and is written only when it is set.
    pub proof fn lemma_reads_back_generation(m: ObjectMetaView)
        ensures
            i64_field(Self::to_fields(m), "generation"@) == Ok::<Option<i64>, DecodeErrorView>(m.generation),
            (get_entry(Self::to_fields(m), "generation"@) is Some) == (m.generation is Some),
    {
        Self::lemma_key_facts();
        let p1 = str_entry("name"@, m.name);
        let p2 = p1 + str_entry("namespace"@, m.namespace);
        let p3 = p2 + str_map_entry("labels"@, m.labels);
        let p4 = p3 + str_map_entry("annotations"@, m.annotations);
        let p5 = p4 + str_entry("creationTimestamp"@, m.creation_timestamp);
        let p6 = p5 + int_entry("deletionGracePeriodSeconds"@, opt_int(m.deletion_grace_period_seconds));
        let p7 = p6 + str_entry("deletionTimestamp"@, m.deletion_timestamp);
        let p8 = p7 + str_list_entry("finalizers"@, m.finalizers);
        let p9 = p8 + str_entry("generateName"@, m.generate_name);
        let p10 = p9 + int_entry("generation"@, opt_int(m.generation));
        let p11 = p10 + models_entry::<OwnerReference>("ownerReferences"@, m.owner_references);
        let p12 = p11 + str_entry("resourceVersion"@, m.resource_version);
        let p13 = p12 + str_entry("selfLink"@, m.self_link);
        let p14 = p13 + str_entry("uid"@, m.uid);
        assert(Self::to_fields(m) == p14);
        assert(get_entry(p9, "generation"@) == None::<ValueView>);
    }

    /// Field `ownerReferences` reads back as written, and is written only when it is set.
    pub proof fn lemma_reads_back_owner_references(m: ObjectMetaView)
        ensures
            models_field::<OwnerReference>(Self::to_fields(m), "ownerReferences"@) == Ok::<Option<Seq<OwnerReferenceView>>, DecodeErrorView>(m.owner_references),
            (get_entry(Self::to_fields(m), "ownerReferences"@) is Some) == (m.owner_references is Some),
    {
        Self::lemma_key_facts();
        let p1 = str_entry("name"@, m.name);
        let p2 = p1 + str_entry("namespace"@, m.namespace);
        let p3 = p2 + str_map_entry("labels"@, m.labels);
        let p4 = p3 + str_map_entry("annotations"@, m.annotations);
        let p5 = p4 + str_entry("creationTimestamp"@, m.creation_timestamp);
        let p6 = p5 + int_entry("deletionGracePeriodSeconds"@, opt_int(m.deletion_grace_period_seconds));
        let p7 = p6 + str_entry("deletionTimestamp"@, m.deletion_timestamp);
        let p8 = p7 + str_list_entry("finalizers"@, m.finalizers);
        let p9 = p8 + str_entry("generateName"@, m.generate_name);
        let p10 = p9 + int_entry("generation"@, opt_int(m.generation));
        let p11 = p10 + models_entry::<OwnerReference>("ownerReferences"@, m.owner_references);
        let p12 = p11 + str_entry("resourceVersion"@, m.resource_version);
        let p13 = p12 + str_entry("selfLink"@, m.self_link);
        let p14 = p13 + str_entry("uid"@, m.uid);
        assert(Self::to_fields(m) == p14);
        assert(get_entry(p10, "ownerReferences"@) == None::<ValueView>);
        if let Some(x) = m.owner_references {
            lemma_models_round_trip::<OwnerReference>(x);
        }
    }

    /// Field `resourceVersion` reads back as written, and is written only when it is set.
    pub proof fn lemma_reads_back_resource_version(m: ObjectMetaView)
        ensures
            str_field(Self::to_fields(m), "resourceVersion"@) == Ok::<Option<Seq<char>>, DecodeErrorView>(m.resource_version),
            (get_entry(Self::to_fields(m), "resourceVersion"@) is Some) == (m.resource_version is Some),
    {
        Self::lemma_key_facts();
        let p1 = str_entry("name"@, m.name);
        let p2 = p1 + str_entry("namespace"@, m.namespace);
        let p3 = p2 + str_map_entry("labels"@, m.labels);
        let p4 = p3 + str_map_entry("annotations"@, m.annotations);
        let p5 = p4 + str_entry("creationTimestamp"@, m.creation_timestamp);
        let p6 = p5 + int_entry("deletionGracePeriodSeconds"@, opt_int(m.deletion_grace_period_seconds));
        let p7 = p6 + str_entry("deletionTimestamp"@, m.deletion_timestamp);
        let p8 = p7 + str_list_entry("finalizers"@, m.finalizers);
        let p9 = p8 + str_entry("generateName"@, m.generate_name);
        let p10 = p9 + int_entry("generation"@, opt_int(m.generation));
        let p11 = p10 + models_entry::<OwnerReference>("ownerReferences"@, m.owner_references);
        let p12 = p11 + str_entry("resourceVersion"@, m.resource_version);
        let p13 = p12 + str_entry("selfLink"@, m.self_link);
        let p14 = p13 + str_entry("uid"@, m.uid);
        assert(Self::to_fields(m) == p14);
        assert(get_entry(p11, "resourceVersion"@) == None::<ValueView>);
    }

    /// Field `selfLink` reads back as written, and is written only when it is set.
    pub proof fn lemma_reads_back_self_link(m: ObjectMetaView)
        ensures
            str_field(Self::to_fields(m), "selfLink"@) == Ok::<Option<Seq<char>>, DecodeErrorView>(m.self_link),
            (get_entry(Self::to_fields(m), "selfLink"@) is Some) == (m.self_link is Some),
    {
        Self::lemma_key_facts();
        let p1 = str_entry("name"@, m.name);
        let p2 = p1 + str_entry("namespace"@, m.namespace);
        let p3 = p2 + str_map_entry("labels"@, m.labels);
        let p4 = p3 + str_map_entry("annotations"@, m.annotations);
        let p5 = p4 + str_entry("creationTimestamp"@, m.creation_timestamp);
        let p6 = p5 + int_entry("deletionGracePeriodSeconds"@, opt_int(m.deletion_grace_period_seconds));
        let p7 = p6 + str_entry("deletionTimestamp"@, m.deletion_timestamp);
        let p8 = p7 + str_list_entry("finalizers"@, m.finalizers);
        let p9 = p8 + str_entry("generateName"@, m.generate_name);
        let p10 = p9 + int_entry("generation"@, opt_int(m.generation));
        let p11 = p10 + models_entry::<OwnerReference>("ownerReferences"@, m.owner_references);
        let p12 = p11 + str_entry("resourceVersion"@, m.resource_version);
        let p13 = p12 + str_entry("selfLink"@, m.self_link);
        let p14 = p13 + str_entry("uid"@, m.uid);
        assert(Self::to_fields(m) == p14);
        assert(get_entry(p12, "selfLink"@) == None::<ValueView>);
    }

    /// Field `uid` reads back as written, and is written only when it is set.
    pub proof fn lemma_reads_back_uid(m: ObjectMetaView)
        ensures
            str_field(Self::to_fields(m), "uid"@) == Ok::<Option<Seq<char>>, DecodeErrorView>(m.uid),
            (get_entry(Self::to_fields(m), "uid"@) is Some) == (m.uid is Some),
    {
        Self::lemma_key_facts();
        let p1 = str_entry("name"@, m.name);
        let p2 = p1 + str_entry("namespace"@, m.namespace);
        let p3 = p2 + str_map_entry("labels"@, m.labels);
        let p4 = p3 + str_map_entry("annotations"@, m.annotations);
        let p5 = p4 + str_entry("creationTimestamp"@, m.creation_timestamp);
        let p6 = p5 + int_entry("deletionGracePeriodSeconds"@, opt_int(m.deletion_grace_period_seconds));
        let p7 = p6 + str_entry("deletionTimestamp"@, m.deletion_timestamp);
        let p8 = p7 + str_list_entry("finalizers"@, m.finalizers);
        let p9 = p8 + str_entry("generateName"@, m.generate_name);
        let p10 = p9 + int_entry("generation"@, opt_int(m.generation));
        let p11 = p10 + models_entry::<OwnerReference>("ownerReferences"@, m.owner_references);
        let p12 = p11 + str_entry("resourceVersion"@, m.resource_version);
        let p13 = p12 + str_entry("selfLink"@, m.self_link);
        let p14 = p13 + str_entry("uid"@, m.uid);
        assert(Self::to_fields(m) == p14);
        assert(get_entry(p13, "uid"@) == None::<ValueView>);
    }

}

/// Metadata with no field set.
pub open spec fn empty_meta() -> ObjectMetaView {
    ObjectMetaView {
        name: None,
        namespace: None,
        labels: None,
        annotations: None,
        creation_timestamp: None,
        deletion_grace_period_seconds: None,
        deletion_timestamp: None,
        finalizers: None,
        generate_name: None,
        generation: None,
        owner_references: None,
        resource_version: None,
        self_link: None,
        uid: None,
    }
}

impl ObjectMeta {
    /// Metadata with no field set.
    pub fn empty() -> (r: ObjectMeta)
        ensures
            r.deep_view() == empty_meta(),
    {
        ObjectMeta {
            name: None,
            namespace: None,
            labels: None,
            annotations: None,
            creation_timestamp: None,
            deletion_grace_period_seconds: None,
            deletion_timestamp: None,
            finalizers: None,
            generate_name: None,
            generation: None,
            owner_references: None,
            resource_version: None,
            self_link: None,
            uid: None,
        }
    }
}

/// One requirement of a label selector: a label key, an operator and the
/// values it relates them to.
pub struct LabelSelectorRequirement {
    pub key: Option<String>,
    pub operator: Option<String>,
    pub values: Option<Vec<String>>,
}

pub struct LabelSelectorRequirementView {
    pub key: Option<Seq<char>>,
    pub operator: Option<Seq<char>>,
    pub values: Option<Seq<Seq<char>>>,
}

impl DeepView for LabelSelectorRequirement {
    type V = LabelSelectorRequirementView;

    open spec fn deep_view(&self) -> LabelSelectorRequirementView {
        LabelSelectorRequirementView {
            key: self.key.deep_view(),
            operator: self.operator.deep_view(),
            values: self.values.deep_view(),
        }
    }
}

impl Model for LabelSelectorRequirement {
    open spec fn model_name() -> Seq<char> {
        "LabelSelectorRequirement"@
    }

    open spec fn keys() -> Set<Seq<char>> {
        set!["key"@, "operator"@, "values"@]
    }

    open spec fn from_fields(f: Fields) -> Result<LabelSelectorRequirementView, DecodeErrorView> {
        match str_field(f, "key"@) {
            Err(e) => Err(e),
            Ok(key) => match str_field(f, "operator"@) {
                Err(e) => Err(e),
                Ok(operator) => match str_list_field(f, "values"@) {
                    Err(e) => Err(e),
                    Ok(values) => Ok(LabelSelectorRequirementView { key, operator, values }),
                },
            },
        }
    }

    open spec fn to_fields(m: LabelSelectorRequirementView) -> Fields {
        str_entry("key"@, m.key)
            + str_entry("operator"@, m.operator)
            + str_list_entry("values"@, m.values)
    }

    proof fn lemma_round_trip(m: LabelSelectorRequirementView) {
        LabelSelectorRequirement::lemma_reads_back_key(m);
        LabelSelectorRequirement::lemma_reads_back_operator(m);
        LabelSelectorRequirement::lemma_reads_back_values(m);
    }

    proof fn lemma_reads_only_keys(f: Fields, g: Fields) {
        assert(field_value(f, "key"@) == field_value(g, "key"@));
        assert(str_field(f, "key"@) == str_field(g, "key"@));
        assert(field_value(f, "operator"@) == field_value(g, "operator"@));
        assert(str_field(f, "operator"@) == str_field(g, "operator"@));
        assert(field_value(f, "values"@) == field_value(g, "values"@));
        assert(str_list_field(f, "values"@) == str_list_field(g, "values"@));
    }

    proof fn lemma_writes_only_keys(m: LabelSelectorRequirementView) {
        reveal_strlit("key");
        reveal_strlit("operator");
        reveal_strlit("values");
        assert("key"@.len() == 3);
        assert("operator"@.len() == 8);
        assert("values"@.len() == 6);
        let p0 = Seq::<(Seq<char>, ValueView)>::empty();
        let a0 = Set::<Seq<char>>::empty();
        lemma_push_entry(p0, "key"@, str_entry("key"@, m.key), a0);
        let p1 = p0 + str_entry("key"@, m.key);
        let a1 = a0.insert("key"@);
        lemma_push_entry(p1, "operator"@, str_entry("operator"@, m.operator), a1);
        let p2 = p1 + str_entry("operator"@, m.operator);
        let a2 = a1.insert("operator"@);
        lemma_push_entry(p2, "values"@, str_list_entry("values"@, m.values), a2);
        let p3 = p2 + str_list_entry("values"@, m.values);
        let a3 = a2.insert("values"@);
        assert(p3 =~= Self::to_fields(m));
        assert(a3 =~= Self::keys());
    }

    open spec fn key_seq() -> Seq<Seq<char>> {
        seq!["key"@, "operator"@, "values"@]
    }

    fn field_count() -> (r: usize) {
        3
    }

    fn field_key(i: usize) -> (r: Option<&'static str>) {
        if i == 0 {
            Some("key")
        } else if i == 1 {
            Some("operator")
        } else if i == 2 {
            Some("values")
        } else {
            None
        }
    }

    fn name() -> (r: &'static str) {
        "LabelSelectorRequirement"
    }

    fn decode(s: &Struct) -> (r: Result<LabelSelectorRequirement, DecodeError>) {
        let key = read_str(s, "key")?;
        let operator = read_str(s, "operator")?;
        let values = read_str_list(s, "values")?;
        Ok(LabelSelectorRequirement { key, operator, values })
    }

    fn encode(&self) -> (r: Struct) {
        let mut fields: Vec<(String, Value)> = Vec::new();
        let ghost start = fields.deep_view();
        write_str(&mut fields, "key", &self.key);
        write_str(&mut fields, "operator", &self.operator);
        write_str_list(&mut fields, "values", &self.values);
        assert(start =~= Seq::<(Seq<char>, ValueView)>::empty());
        assert(fields.deep_view() =~= Self::to_fields(self.deep_view()));
        Struct { fields }
    }
}

impl LabelSelectorRequirement {
    /// How an object reads as a `LabelSelectorRequirement` depends on nothing but how each of
    /// its fields reads.
    pub proof fn lemma_reads_field_by_field(f: Fields, g: Fields)
        requires
            str_field(f, "key"@) == str_field(g, "key"@),
            str_field(f, "operator"@) == str_field(g, "operator"@),
            str_list_field(f, "values"@) == str_list_field(g, "values"@),
        ensures
            Self::from_fields(f) == Self::from_fields(g),
    {
    }

    proof fn lemma_key_facts()
        ensures
            "key"@.len() == 3,
            "operator"@.len() == 8,
            "values"@.len() == 6,
    {
        reveal_strlit("key");
        reveal_strlit("operator");
        reveal_strlit("values");
    }

    /// Field `key` reads back as written, and is written only when it is set.
    pub proof fn lemma_reads_back_key(m: LabelSelectorRequirementView)
        ensures
            str_field(Self::to_fields(m), "key"@) == Ok::<Option<Seq<char>>, DecodeErrorView>(m.key),
            (get_entry(Self::to_fields(m), "key"@) is Some) == (m.key is Some),
    {
        Self::lemma_key_facts();
        let p1 = str_entry("key"@, m.key);
        let p2 = p1 + str_entry("operator"@, m.operator);
        let p3 = p2 + str_list_entry("values"@, m.values);
        assert(Self::to_fields(m) == p3);
    }

    /// Field `operator` reads back as written, and is written only when it is set.
    pub proof fn lemma_reads_back_operator(m: LabelSelectorRequirementView)
        ensures
            str_field(Self::to_fields(m), "operator"@) == Ok::<Option<Seq<char>>, DecodeErrorView>(m.operator),
            (get_entry(Self::to_fields(m), "operator"@) is Some) == (m.operator is Some),
    {
        Self::lemma_key_facts();
        let p1 = str_entry("key"@, m.key);
        let p2 = p1 + str_entry("operator"@, m.operator);
        let p3 = p2 + str_list_entry("values"@, m.values);
        assert(Self::to_fields(m) == p3);
        assert(get_entry(p1, "operator"@) == None::<ValueView>);
    }

    /// Field `values` reads back as written, and is written only when it is set.
    pub proof fn lemma_reads_back_values(m: LabelSelectorRequirementView)
        ensures
            str_list_field(Self::to_fields(m), "values"@) == Ok::<Option<Seq<Seq<char>>>, DecodeErrorView>(m.values),
            (get_entry(Self::to_fields(m), "values"@) is Some) == (m.values is Some),
    {
        Self::lemma_key_facts();
        let p1 = str_entry("key"@, m.key);
        let p2 = p1 + str_entry("operator"@, m.operator);
        let p3 = p2 + str_list_entry("values"@, m.values);
        assert(Self::to_fields(m) == p3);
        assert(get_entry(p2, "values"@) == None::<ValueView>);
        if let Some(x) = m.values {
            lemma_str_list_round_trip(x);
        }
    }

}

/// Selects resources by their labels.
pub struct LabelSelector {
    /// Labels that a selected resource carries, each with the value given.
    pub match_labels: Option<Vec<(String, String)>>,
    /// Further requirements on the labels.
    pub match_expressions: Option<Vec<LabelSelectorRequirement>>,
}

pub struct LabelSelectorView {
    pub match_labels: Option<Seq<(Seq<char>, Seq<char>)>>,
    pub match_expressions: Option<Seq<LabelSelectorRequirementView>>,
}

impl DeepView for LabelSelector {
    type V = LabelSelectorView;

    open spec fn deep_view(&self) -> LabelSelectorView {
        LabelSelectorView {
            match_labels: self.match_labels.deep_view(),
            match_expressions: self.match_expressions.deep_view(),
        }
    }
}

impl Model for LabelSelector {
    open spec fn model_name() -> Seq<char> {
        "LabelSelector"@
    }

    open spec fn keys() -> Set<Seq<char>> {
        set!["matchLabels"@, "matchExpressions"@]
    }

    open spec fn from_fields(f: Fields) -> Result<LabelSelectorView, DecodeErrorView> {
        match models_field::<LabelSelectorRequirement>(f, "matchExpressions"@) {
            Err(e) => Err(e),
            Ok(match_expressions) => match str_map_field(f, "matchLabels"@) {
                Err(e) => Err(e),
                Ok(match_labels) => Ok(LabelSelectorView { match_labels, match_expressions }),
            },
        }
    }

    open spec fn to_fields(m: LabelSelectorView) -> Fields {
        str_map_entry("matchLabels"@, m.match_labels)
            + models_entry::<LabelSelectorRequirement>("matchExpressions"@, m.match_expressions)
    }

    proof fn lemma_round_trip(m: LabelSelectorView) {
        LabelSelector::lemma_reads_back_match_labels(m);
        LabelSelector::lemma_reads_back_match_expressions(m);
    }

    proof fn lemma_reads_only_keys(f: Fields, g: Fields) {
        assert(field_value(f, "matchLabels"@) == field_value(g, "matchLabels"@));
        assert(str_map_field(f, "matchLabels"@) == str_map_field(g, "matchLabels"@));
        assert(field_value(f, "matchExpressions"@) == field_value(g, "matchExpressions"@));
        assert(models_field::<LabelSelectorRequirement>(f, "matchExpressions"@) == models_field::<LabelSelectorRequirement>(g, "matchExpressions"@));
    }

    proof fn lemma_writes_only_keys(m: LabelSelectorView) {
        reveal_strlit("matchLabels");
        reveal_strlit("matchExpressions");
        assert("matchLabels"@.len() == 11);
        assert("matchExpressions"@.len() == 16);
        let p0 = Seq::<(Seq<char>, ValueView)>::empty();
        let a0 = Set::<Seq<char>>::empty();
        lemma_push_entry(p0, "matchLabels"@, str_map_entry("matchLabels"@, m.match_labels), a0);
        let p1 = p0 + str_map_entry("matchLabels"@, m.match_labels);
        let a1 = a0.insert("matchLabels"@);
        lemma_push_entry(p1, "matchExpressions"@, models_entry::<LabelSelectorRequirement>("matchExpressions"@, m.match_expressions), a1);
        let p2 = p1 + models_entry::<LabelSelectorRequirement>("matchExpressions"@, m.match_expressions);
        let a2 = a1.insert("matchExpressions"@);
        assert(p2 =~= Self::to_fields(m));
        assert(a2 =~= Self::keys());
    }

    open spec fn key_seq() -> Seq<Seq<char>> {
        seq!["matchExpressions"@, "matchLabels"@]
    }

    fn field_count() -> (r: usize) {
        2
    }

    fn field_key(i: usize) -> (r: Option<&'static str>) {
        if i == 0 {
            Some("matchExpressions")
        } else if i == 1 {
            Some("matchLabels")
        } else {
            None
        }
    }

    fn name() -> (r: &'static str) {
        "LabelSelector"
    }

    fn decode(s: &Struct) -> (r: Result<LabelSelector, DecodeError>) {
        let match_expressions = read_models::<LabelSelectorRequirement>(s, "matchExpressions")?;
        let match_labels = read_str_map(s, "matchLabels")?;
        Ok(LabelSelector { match_labels, match_expressions })
    }

    fn encode(&self) -> (r: Struct) {
        let mut fields: Vec<(String, Value)> = Vec::new();
        let ghost start = fields.deep_view();
        write_str_map(&mut fields, "matchLabels", &self.match_labels);
        write_models::<LabelSelectorRequirement>(&mut fields, "matchExpressions", &self.match_expressions);
        assert(start =~= Seq::<(Seq<char>, ValueView)>::empty());
        assert(fields.deep_view() =~= Self::to_fields(self.deep_view()));
        Struct { fields }
    }
}

impl LabelSelector {
    /// How an object reads as a `LabelSelector` depends on nothing but how each of
    /// its fields reads.
    pub proof fn lemma_reads_field_by_field(f: Fields, g: Fields)
        requires
            str_map_field(f, "matchLabels"@) == str_map_field(g, "matchLabels"@),
            models_field::<LabelSelectorRequirement>(f, "matchExpressions"@) == models_field::<LabelSelectorRequirement>(g, "matchExpressions"@),
        ensures
            Self::from_fields(f) == Self::from_fields(g),
    {
    }

    proof fn lemma_key_facts()
        ensures
            "matchLabels"@.len() == 11,
            "matchExpressions"@.len() == 16,
    {
        reveal_strlit("matchLabels");
        reveal_strlit("matchExpressions");
    }

    /// Field `matchLabels` reads back as written, and is written only when it is set.
    pub proof fn lemma_reads_back_match_labels(m: LabelSelectorView)
        ensures
            str_map_field(Self::to_fields(m), "matchLabels"@) == Ok::<Option<Seq<(Seq<char>, Seq<char>)>>, DecodeErrorView>(m.match_labels),
            (get_entry(Self::to_fields(m), "matchLabels"@) is Some) == (m.match_labels is Some),
    {
        Self::lemma_key_facts();
        let p1 = str_map_entry("matchLabels"@, m.match_labels);
        let p2 = p1 + models_entry::<LabelSelectorRequirement>("matchExpressions"@, m.match_expressions);
        assert(Self::to_fields(m) == p2);
        if let Some(x) = m.match_labels {
            lemma_str_map_round_trip(x);
        }
    }

    /// Field `matchExpressions` reads back as written, and is written only when it is set.
    pub proof fn lemma_reads_back_match_expressions(m: LabelSelectorView)
        ensures
            models_field::<LabelSelectorRequirement>(Self::to_fields(m), "matchExpressions"@) == Ok::<Option<Seq<LabelSelectorRequirementView>>, DecodeErrorView>(m.match_expressions),
            (get_entry(Self::to_fields(m), "matchExpressions"@) is Some) == (m.match_expressions is Some),
    {
        Self::lemma_key_facts();
        let p1 = str_map_entry("matchLabels"@, m.match_labels);
        let p2 = p1 + models_entry::<LabelSelectorRequirement>("matchExpressions"@, m.match_expressions);
        assert(Self::to_fields(m) == p2);
        assert(get_entry(p1, "matchExpressions"@) == None::<ValueView>);
        if let Some(x) = m.match_expressions {
            lemma_models_round_trip::<LabelSelectorRequirement>(x);
        }
    }

}

}
