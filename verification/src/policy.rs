//! Pod disruption budgets.

use vstd::prelude::*;
use crate::codec::{
    field_value, lemma_push_entry, model_entry, model_field, read_model, read_str, str_entry,
    str_field, write_model, write_str, DecodeError, DecodeErrorView, Fields, Model,
};
use crate::entries::{get_entry, group_entries};
use crate::meta::{
    int_or_string_entry, int_or_string_field, read_int_or_string, write_int_or_string, IntOrString,
    IntOrStringView, LabelSelector, LabelSelectorView, ObjectMeta, ObjectMetaView,
};
use crate::value::{Struct, Value, ValueView};

verus! {

broadcast use {group_entries, vstd::string::group_string_axioms, crate::codec::lemma_get_entry_if};

/// How many of the selected pods a voluntary disruption may take down.
pub struct PodDisruptionBudgetSpec {
    pub max_unavailable: Option<IntOrString>,
    pub min_available: Option<IntOrString>,
    pub selector: Option<LabelSelector>,
}

pub struct PodDisruptionBudgetSpecView {
    pub max_unavailable: Option<IntOrStringView>,
    pub min_available: Option<IntOrStringView>,
    pub selector: Option<LabelSelectorView>,
}

impl DeepView for PodDisruptionBudgetSpec {
    type V = PodDisruptionBudgetSpecView;

    open spec fn deep_view(&self) -> PodDisruptionBudgetSpecView {
        PodDisruptionBudgetSpecView {
            max_unavailable: self.max_unavailable.deep_view(),
            min_available: self.min_available.deep_view(),
            selector: self.selector.deep_view(),
        }
    }
}

impl Model for PodDisruptionBudgetSpec {
    open spec fn model_name() -> Seq<char> {
        "PodDisruptionBudgetSpec"@
    }

    open spec fn keys() -> Set<Seq<char>> {
        set!["maxUnavailable"@, "minAvailable"@, "selector"@]
    }

    open spec fn from_fields(f: Fields) -> Result<PodDisruptionBudgetSpecView, DecodeErrorView> {
        match int_or_string_field(f, "maxUnavailable"@) {
            Err(e) => Err(e),
            Ok(max_unavailable) => match int_or_string_field(f, "minAvailable"@) {
                Err(e) => Err(e),
                Ok(min_available) => match model_field::<LabelSelector>(f, "selector"@) {
                    Err(e) => Err(e),
                    Ok(selector) => Ok(PodDisruptionBudgetSpecView { max_unavailable, min_available, selector }),
                },
            },
        }
    }

    open spec fn to_fields(m: PodDisruptionBudgetSpecView) -> Fields {
        int_or_string_entry("maxUnavailable"@, m.max_unavailable)
            + int_or_string_entry("minAvailable"@, m.min_available)
            + model_entry::<LabelSelector>("selector"@, m.selector)
    }

    proof fn lemma_round_trip(m: PodDisruptionBudgetSpecView) {
        PodDisruptionBudgetSpec::lemma_reads_back_max_unavailable(m);
        PodDisruptionBudgetSpec::lemma_reads_back_min_available(m);
        PodDisruptionBudgetSpec::lemma_reads_back_selector(m);
    }

    proof fn lemma_reads_only_keys(f: Fields, g: Fields) {
        assert(field_value(f, "maxUnavailable"@) == field_value(g, "maxUnavailable"@));
        assert(int_or_string_field(f, "maxUnavailable"@) == int_or_string_field(g, "maxUnavailable"@));
        assert(field_value(f, "minAvailable"@) == field_value(g, "minAvailable"@));
        assert(int_or_string_field(f, "minAvailable"@) == int_or_string_field(g, "minAvailable"@));
        assert(field_value(f, "selector"@) == field_value(g, "selector"@));
        assert(model_field::<LabelSelector>(f, "selector"@) == model_field::<LabelSelector>(g, "selector"@));
    }

    proof fn lemma_writes_only_keys(m: PodDisruptionBudgetSpecView) {
        reveal_strlit("maxUnavailable");
        reveal_strlit("minAvailable");
        reveal_strlit("selector");
        assert("maxUnavailable"@.len() == 14);
        assert("minAvailable"@.len() == 12);
        assert("selector"@.len() == 8);
        let p0 = Seq::<(Seq<char>, ValueView)>::empty();
        let a0 = Set::<Seq<char>>::empty();
        lemma_push_entry(p0, "maxUnavailable"@, int_or_string_entry("maxUnavailable"@, m.max_unavailable), a0);
        let p1 = p0 + int_or_string_entry("maxUnavailable"@, m.max_unavailable);
        let a1 = a0.insert("maxUnavailable"@);
        lemma_push_entry(p1, "minAvailable"@, int_or_string_entry("minAvailable"@, m.min_available), a1);
        let p2 = p1 + int_or_string_entry("minAvailable"@, m.min_available);
        let a2 = a1.insert("minAvailable"@);
        lemma_push_entry(p2, "selector"@, model_entry::<LabelSelector>("selector"@, m.selector), a2);
        let p3 = p2 + model_entry::<LabelSelector>("selector"@, m.selector);
        let a3 = a2.insert("selector"@);
        assert(p3 =~= Self::to_fields(m));
        assert(a3 =~= Self::keys());
    }

    open spec fn key_seq() -> Seq<Seq<char>> {
        seq!["maxUnavailable"@, "minAvailable"@, "selector"@]
    }

    fn field_count() -> (r: usize) {
        3
    }

    fn field_key(i: usize) -> (r: Option<&'static str>) {
        if i == 0 {
            Some("maxUnavailable")
        } else if i == 1 {
            Some("minAvailable")
        } else if i == 2 {
            Some("selector")
        } else {
            None
        }
    }

    fn name() -> (r: &'static str) {
        "PodDisruptionBudgetSpec"
    }

    fn decode(s: &Struct) -> (r: Result<PodDisruptionBudgetSpec, DecodeError>) {
        let max_unavailable = read_int_or_string(s, "maxUnavailable")?;
        let min_available = read_int_or_string(s, "minAvailable")?;
        let selector = read_model::<LabelSelector>(s, "selector")?;
        Ok(PodDisruptionBudgetSpec { max_unavailable, min_available, selector })
    }

    fn encode(&self) -> (r: Struct) {
        let mut fields: Vec<(String, Value)> = Vec::new();
        let ghost start = fields.deep_view();
        write_int_or_string(&mut fields, "maxUnavailable", &self.max_unavailable);
        write_int_or_string(&mut fields, "minAvailable", &self.min_available);
        write_model::<LabelSelector>(&mut fields, "selector", &self.selector);
        assert(start =~= Seq::<(Seq<char>, ValueView)>::empty());
        assert(fields.deep_view() =~= Self::to_fields(self.deep_view()));
        Struct { fields }
    }
}

impl PodDisruptionBudgetSpec {
    /// How an object reads as a `PodDisruptionBudgetSpec` depends on nothing but how each of
    /// its fields reads.
    pub proof fn lemma_reads_field_by_field(f: Fields, g: Fields)
        requires
            int_or_string_field(f, "maxUnavailable"@) == int_or_string_field(g, "maxUnavailable"@),
            int_or_string_field(f, "minAvailable"@) == int_or_string_field(g, "minAvailable"@),
            model_field::<LabelSelector>(f, "selector"@) == model_field::<LabelSelector>(g, "selector"@),
        ensures
            Self::from_fields(f) == Self::from_fields(g),
    {
    }

    proof fn lemma_key_facts()
        ensures
            "maxUnavailable"@.len() == 14,
            "minAvailable"@.len() == 12,
            "selector"@.len() == 8,
    {
        reveal_strlit("maxUnavailable");
        reveal_strlit("minAvailable");
        reveal_strlit("selector");
    }

    /// Field `maxUnavailable` reads back as written, and is written only when it is set.
    pub proof fn lemma_reads_back_max_unavailable(m: PodDisruptionBudgetSpecView)
        ensures
            int_or_string_field(Self::to_fields(m), "maxUnavailable"@) == Ok::<Option<IntOrStringView>, DecodeErrorView>(m.max_unavailable),
            (get_entry(Self::to_fields(m), "maxUnavailable"@) is Some) == (m.max_unavailable is Some),
    {
        Self::lemma_key_facts();
        let p1 = int_or_string_entry("maxUnavailable"@, m.max_unavailable);
        let p2 = p1 + int_or_string_entry("minAvailable"@, m.min_available);
        let p3 = p2 + model_entry::<LabelSelector>("selector"@, m.selector);
        assert(Self::to_fields(m) == p3);
    }

    /// Field `minAvailable` reads back as written, and is written only when it is set.
    pub proof fn lemma_reads_back_min_available(m: PodDisruptionBudgetSpecView)
        ensures
            int_or_string_field(Self::to_fields(m), "minAvailable"@) == Ok::<Option<IntOrStringView>, DecodeErrorView>(m.min_available),
            (get_entry(Self::to_fields(m), "minAvailable"@) is Some) == (m.min_available is Some),
    {
        Self::lemma_key_facts();
        let p1 = int_or_string_entry("maxUnavailable"@, m.max_unavailable);
        let p2 = p1 + int_or_string_entry("minAvailable"@, m.min_available);
        let p3 = p2 + model_entry::<LabelSelector>("selector"@, m.selector);
        assert(Self::to_fields(m) == p3);
        assert(get_entry(p1, "minAvailable"@) == None::<ValueView>);
    }

    /// Field `selector` reads back as written, and is written only when it is set.
    pub proof fn lemma_reads_back_selector(m: PodDisruptionBudgetSpecView)
        ensures
            model_field::<LabelSelector>(Self::to_fields(m), "selector"@) == Ok::<Option<LabelSelectorView>, DecodeErrorView>(m.selector),
            (get_entry(Self::to_fields(m), "selector"@) is Some) == (m.selector is Some),
    {
        Self::lemma_key_facts();
        let p1 = int_or_string_entry("maxUnavailable"@, m.max_unavailable);
        let p2 = p1 + int_or_string_entry("minAvailable"@, m.min_available);
        let p3 = p2 + model_entry::<LabelSelector>("selector"@, m.selector);
        assert(Self::to_fields(m) == p3);
        assert(get_entry(p2, "selector"@) == None::<ValueView>);
        if let Some(x) = m.selector {
            LabelSelector::lemma_round_trip(x);
        }
    }

}

/// A `policy/v1` PodDisruptionBudget.
pub struct PodDisruptionBudget {
    pub api_version: Option<String>,
    pub kind: Option<String>,
    pub metadata: Option<ObjectMeta>,
    pub spec: Option<PodDisruptionBudgetSpec>,
}

pub struct PodDisruptionBudgetView {
    pub api_version: Option<Seq<char>>,
    pub kind: Option<Seq<char>>,
    pub metadata: Option<ObjectMetaView>,
    pub spec: Option<PodDisruptionBudgetSpecView>,
}

impl DeepView for PodDisruptionBudget {
    type V = PodDisruptionBudgetView;

    open spec fn deep_view(&self) -> PodDisruptionBudgetView {
        PodDisruptionBudgetView {
            api_version: self.api_version.deep_view(),
            kind: self.kind.deep_view(),
            metadata: self.metadata.deep_view(),
            spec: self.spec.deep_view(),
        }
    }
}

impl Model for PodDisruptionBudget {
    open spec fn model_name() -> Seq<char> {
        "PodDisruptionBudget"@
    }

    open spec fn keys() -> Set<Seq<char>> {
        set!["apiVersion"@, "kind"@, "metadata"@, "spec"@]
    }

    open spec fn from_fields(f: Fields) -> Result<PodDisruptionBudgetView, DecodeErrorView> {
        match str_field(f, "apiVersion"@) {
            Err(e) => Err(e),
            Ok(api_version) => match str_field(f, "kind"@) {
                Err(e) => Err(e),
                Ok(kind) => match model_field::<ObjectMeta>(f, "metadata"@) {
                    Err(e) => Err(e),
                    Ok(metadata) => match model_field::<PodDisruptionBudgetSpec>(f, "spec"@) {
                        Err(e) => Err(e),
                        Ok(spec) => Ok(PodDisruptionBudgetView { api_version, kind, metadata, spec }),
                    },
                },
            },
        }
    }

    open spec fn to_fields(m: PodDisruptionBudgetView) -> Fields {
        str_entry("apiVersion"@, m.api_version)
            + str_entry("kind"@, m.kind)
            + model_entry::<ObjectMeta>("metadata"@, m.metadata)
            + model_entry::<PodDisruptionBudgetSpec>("spec"@, m.spec)
    }

    proof fn lemma_round_trip(m: PodDisruptionBudgetView) {
        PodDisruptionBudget::lemma_reads_back_api_version(m);
        PodDisruptionBudget::lemma_reads_back_kind(m);
        PodDisruptionBudget::lemma_reads_back_metadata(m);
        PodDisruptionBudget::lemma_reads_back_spec(m);
    }

    proof fn lemma_reads_only_keys(f: Fields, g: Fields) {
        assert(field_value(f, "apiVersion"@) == field_value(g, "apiVersion"@));
        assert(str_field(f, "apiVersion"@) == str_field(g, "apiVersion"@));
        assert(field_value(f, "kind"@) == field_value(g, "kind"@));
        assert(str_field(f, "kind"@) == str_field(g, "kind"@));
        assert(field_value(f, "metadata"@) == field_value(g, "metadata"@));
        assert(model_field::<ObjectMeta>(f, "metadata"@) == model_field::<ObjectMeta>(g, "metadata"@));
        assert(field_value(f, "spec"@) == field_value(g, "spec"@));
        assert(model_field::<PodDisruptionBudgetSpec>(f, "spec"@) == model_field::<PodDisruptionBudgetSpec>(g, "spec"@));
    }

    proof fn lemma_writes_only_keys(m: PodDisruptionBudgetView) {
        reveal_strlit("apiVersion");
        reveal_strlit("kind");
        reveal_strlit("metadata");
        reveal_strlit("spec");
        assert("apiVersion"@.len() == 10);
        assert("kind"@.len() == 4);
        assert("metadata"@.len() == 8);
        assert("spec"@.len() == 4);
        assert("kind"@[0] == 'k' && "spec"@[0] == 's');
        let p0 = Seq::<(Seq<char>, ValueView)>::empty();
        let a0 = Set::<Seq<char>>::empty();
        lemma_push_entry(p0, "apiVersion"@, str_entry("apiVersion"@, m.api_version), a0);
        let p1 = p0 + str_entry("apiVersion"@, m.api_version);
        let a1 = a0.insert("apiVersion"@);
        lemma_push_entry(p1, "kind"@, str_entry("kind"@, m.kind), a1);
        let p2 = p1 + str_entry("kind"@, m.kind);
        let a2 = a1.insert("kind"@);
        lemma_push_entry(p2, "metadata"@, model_entry::<ObjectMeta>("metadata"@, m.metadata), a2);
        let p3 = p2 + model_entry::<ObjectMeta>("metadata"@, m.metadata);
        let a3 = a2.insert("metadata"@);
        lemma_push_entry(p3, "spec"@, model_entry::<PodDisruptionBudgetSpec>("spec"@, m.spec), a3);
        let p4 = p3 + model_entry::<PodDisruptionBudgetSpec>("spec"@, m.spec);
        let a4 = a3.insert("spec"@);
        assert(p4 =~= Self::to_fields(m));
        assert(a4 =~= Self::keys());
    }

    open spec fn key_seq() -> Seq<Seq<char>> {
        seq!["apiVersion"@, "kind"@, "metadata"@, "spec"@]
    }

    fn field_count() -> (r: usize) {
        4
    }

    fn field_key(i: usize) -> (r: Option<&'static str>) {
        if i == 0 {
            Some("apiVersion")
        } else if i == 1 {
            Some("kind")
        } else if i == 2 {
            Some("metadata")
        } else if i == 3 {
            Some("spec")
        } else {
            None
        }
    }

    fn name() -> (r: &'static str) {
        "PodDisruptionBudget"
    }

    fn decode(s: &Struct) -> (r: Result<PodDisruptionBudget, DecodeError>) {
        let api_version = read_str(s, "apiVersion")?;
        let kind = read_str(s, "kind")?;
        let metadata = read_model::<ObjectMeta>(s, "metadata")?;
        let spec = read_model::<PodDisruptionBudgetSpec>(s, "spec")?;
        Ok(PodDisruptionBudget { api_version, kind, metadata, spec })
    }

    fn encode(&self) -> (r: Struct) {
        let mut fields: Vec<(String, Value)> = Vec::new();
        let ghost start = fields.deep_view();
        write_str(&mut fields, "apiVersion", &self.api_version);
        write_str(&mut fields, "kind", &self.kind);
        write_model::<ObjectMeta>(&mut fields, "metadata", &self.metadata);
        write_model::<PodDisruptionBudgetSpec>(&mut fields, "spec", &self.spec);
        assert(start =~= Seq::<(Seq<char>, ValueView)>::empty());
        assert(fields.deep_view() =~= Self::to_fields(self.deep_view()));
        Struct { fields }
    }
}

impl PodDisruptionBudget {
    /// How an object reads as a `PodDisruptionBudget` depends on nothing but how each of
    /// its fields reads.
    pub proof fn lemma_reads_field_by_field(f: Fields, g: Fields)
        requires
            str_field(f, "apiVersion"@) == str_field(g, "apiVersion"@),
            str_field(f, "kind"@) == str_field(g, "kind"@),
            model_field::<ObjectMeta>(f, "metadata"@) == model_field::<ObjectMeta>(g, "metadata"@),
            model_field::<PodDisruptionBudgetSpec>(f, "spec"@) == model_field::<PodDisruptionBudgetSpec>(g, "spec"@),
        ensures
            Self::from_fields(f) == Self::from_fields(g),
    {
    }

    proof fn lemma_key_facts()
        ensures
            "apiVersion"@.len() == 10,
            "kind"@.len() == 4,
            "metadata"@.len() == 8,
            "spec"@.len() == 4,
            "kind"@[0] == 'k' && "spec"@[0] == 's',
    {
        reveal_strlit("apiVersion");
        reveal_strlit("kind");
        reveal_strlit("metadata");
        reveal_strlit("spec");
    }

    /// Field `apiVersion` reads back as written, and is written only when it is set.
    pub proof fn lemma_reads_back_api_version(m: PodDisruptionBudgetView)
        ensures
            str_field(Self::to_fields(m), "apiVersion"@) == Ok::<Option<Seq<char>>, DecodeErrorView>(m.api_version),
            (get_entry(Self::to_fields(m), "apiVersion"@) is Some) == (m.api_version is Some),
    {
        Self::lemma_key_facts();
        let p1 = str_entry("apiVersion"@, m.api_version);
        let p2 = p1 + str_entry("kind"@, m.kind);
        let p3 = p2 + model_entry::<ObjectMeta>("metadata"@, m.metadata);
        let p4 = p3 + model_entry::<PodDisruptionBudgetSpec>("spec"@, m.spec);
        assert(Self::to_fields(m) == p4);
    }

    /// Field `kind` reads back as written, and is written only when it is set.
    pub proof fn lemma_reads_back_kind(m: PodDisruptionBudgetView)
        ensures
            str_field(Self::to_fields(m), "kind"@) == Ok::<Option<Seq<char>>, DecodeErrorView>(m.kind),
            (get_entry(Self::to_fields(m), "kind"@) is Some) == (m.kind is Some),
    {
        Self::lemma_key_facts();
        let p1 = str_entry("apiVersion"@, m.api_version);
        let p2 = p1 + str_entry("kind"@, m.kind);
        let p3 = p2 + model_entry::<ObjectMeta>("metadata"@, m.metadata);
        let p4 = p3 + model_entry::<PodDisruptionBudgetSpec>("spec"@, m.spec);
        assert(Self::to_fields(m) == p4);
        assert(get_entry(p1, "kind"@) == None::<ValueView>);
    }

    /// Field `metadata` reads back as written, and is written only when it is set.
    pub proof fn lemma_reads_back_metadata(m: PodDisruptionBudgetView)
        ensures
            model_field::<ObjectMeta>(Self::to_fields(m), "metadata"@) == Ok::<Option<ObjectMetaView>, DecodeErrorView>(m.metadata),
            (get_entry(Self::to_fields(m), "metadata"@) is Some) == (m.metadata is Some),
    {
        Self::lemma_key_facts();
        let p1 = str_entry("apiVersion"@, m.api_version);
        let p2 = p1 + str_entry("kind"@, m.kind);
        let p3 = p2 + model_entry::<ObjectMeta>("metadata"@, m.metadata);
        let p4 = p3 + model_entry::<PodDisruptionBudgetSpec>("spec"@, m.spec);
        assert(Self::to_fields(m) == p4);
        assert(get_entry(p2, "metadata"@) == None::<ValueView>);
        if let Some(x) = m.metadata {
            ObjectMeta::lemma_round_trip(x);
        }
    }

    /// Field `spec` reads back as written, and is written only when it is set.
    pub proof fn lemma_reads_back_spec(m: PodDisruptionBudgetView)
        ensures
            model_field::<PodDisruptionBudgetSpec>(Self::to_fields(m), "spec"@) == Ok::<Option<PodDisruptionBudgetSpecView>, DecodeErrorView>(m.spec),
            (get_entry(Self::to_fields(m), "spec"@) is Some) == (m.spec is Some),
    {
        Self::lemma_key_facts();
        let p1 = str_entry("apiVersion"@, m.api_version);
        let p2 = p1 + str_entry("kind"@, m.kind);
        let p3 = p2 + model_entry::<ObjectMeta>("metadata"@, m.metadata);
        let p4 = p3 + model_entry::<PodDisruptionBudgetSpec>("spec"@, m.spec);
        assert(Self::to_fields(m) == p4);
        assert(get_entry(p3, "spec"@) == None::<ValueView>);
        if let Some(x) = m.spec {
            PodDisruptionBudgetSpec::lemma_round_trip(x);
        }
    }

}

}
