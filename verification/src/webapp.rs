//! The WebApp composite resource.

use vstd::prelude::*;
use crate::codec::{
    field_value, i32_list_entry, i32_list_field, i64_field, int_entry, lemma_i32_list_round_trip,
    lemma_push_entry, model_entry, model_field, opt_int, read_i32_list, read_i64, read_model,
    read_str, str_entry, str_field, write_i32_list, write_i64, write_model, write_str, DecodeError,
    DecodeErrorView, Fields, Model,
};
use crate::entries::{get_entry, group_entries};
use crate::meta::{ObjectMeta, ObjectMetaView};
use crate::value::{Struct, Value, ValueView};

verus! {

broadcast use {group_entries, vstd::string::group_string_axioms, crate::codec::lemma_get_entry_if};

/// What a WebApp asks for: an image, a number of replicas and ports.
pub struct WebAppSpec {
    pub image: Option<String>,
    pub replicas: Option<i64>,
    pub ports: Option<Vec<i32>>,
}

pub struct WebAppSpecView {
    pub image: Option<Seq<char>>,
    pub replicas: Option<i64>,
    pub ports: Option<Seq<i32>>,
}

impl DeepView for WebAppSpec {
    type V = WebAppSpecView;

    open spec fn deep_view(&self) -> WebAppSpecView {
        WebAppSpecView {
            image: self.image.deep_view(),
            replicas: self.replicas.deep_view(),
            ports: self.ports.deep_view(),
        }
    }
}

impl Model for WebAppSpec {
    open spec fn model_name() -> Seq<char> {
        "WebAppSpec"@
    }

    open spec fn keys() -> Set<Seq<char>> {
        set!["image"@, "replicas"@, "ports"@]
    }

    open spec fn from_fields(f: Fields) -> Result<WebAppSpecView, DecodeErrorView> {
        match str_field(f, "image"@) {
            Err(e) => Err(e),
            Ok(image) => match i32_list_field(f, "ports"@) {
                Err(e) => Err(e),
                Ok(ports) => match i64_field(f, "replicas"@) {
                    Err(e) => Err(e),
                    Ok(replicas) => Ok(WebAppSpecView { image, replicas, ports }),
                },
            },
        }
    }

    open spec fn to_fields(m: WebAppSpecView) -> Fields {
        str_entry("image"@, m.image)
            + int_entry("replicas"@, opt_int(m.replicas))
            + i32_list_entry("ports"@, m.ports)
    }

    proof fn lemma_round_trip(m: WebAppSpecView) {
        WebAppSpec::lemma_reads_back_image(m);
        WebAppSpec::lemma_reads_back_replicas(m);
        WebAppSpec::lemma_reads_back_ports(m);
    }

    proof fn lemma_reads_only_keys(f: Fields, g: Fields) {
        assert(field_value(f, "image"@) == field_value(g, "image"@));
        assert(str_field(f, "image"@) == str_field(g, "image"@));
        assert(field_value(f, "replicas"@) == field_value(g, "replicas"@));
        assert(i64_field(f, "replicas"@) == i64_field(g, "replicas"@));
        assert(field_value(f, "ports"@) == field_value(g, "ports"@));
        assert(i32_list_field(f, "ports"@) == i32_list_field(g, "ports"@));
    }

    proof fn lemma_writes_only_keys(m: WebAppSpecView) {
        reveal_strlit("image");
        reveal_strlit("replicas");
        reveal_strlit("ports");
        assert("image"@.len() == 5);
        assert("replicas"@.len() == 8);
        assert("ports"@.len() == 5);
        assert("image"@[0] == 'i' && "ports"@[0] == 'p');
        let p0 = Seq::<(Seq<char>, ValueView)>::empty();
        let a0 = Set::<Seq<char>>::empty();
        lemma_push_entry(p0, "image"@, str_entry("image"@, m.image), a0);
        let p1 = p0 + str_entry("image"@, m.image);
        let a1 = a0.insert("image"@);
        lemma_push_entry(p1, "replicas"@, int_entry("replicas"@, opt_int(m.replicas)), a1);
        let p2 = p1 + int_entry("replicas"@, opt_int(m.replicas));
        let a2 = a1.insert("replicas"@);
        lemma_push_entry(p2, "ports"@, i32_list_entry("ports"@, m.ports), a2);
        let p3 = p2 + i32_list_entry("ports"@, m.ports);
        let a3 = a2.insert("ports"@);
        assert(p3 =~= Self::to_fields(m));
        assert(a3 =~= Self::keys());
    }

    open spec fn key_seq() -> Seq<Seq<char>> {
        seq!["image"@, "ports"@, "replicas"@]
    }

    fn field_count() -> (r: usize) {
        3
    }

    fn field_key(i: usize) -> (r: Option<&'static str>) {
        if i == 0 {
            Some("image")
        } else if i == 1 {
            Some("ports")
        } else if i == 2 {
            Some("replicas")
        } else {
            None
        }
    }

    fn name() -> (r: &'static str) {
        "WebAppSpec"
    }

    fn decode(s: &Struct) -> (r: Result<WebAppSpec, DecodeError>) {
        let image = read_str(s, "image")?;
        let ports = read_i32_list(s, "ports")?;
        let replicas = read_i64(s, "replicas")?;
        Ok(WebAppSpec { image, replicas, ports })
    }

    fn encode(&self) -> (r: Struct) {
        let mut fields: Vec<(String, Value)> = Vec::new();
        let ghost start = fields.deep_view();
        write_str(&mut fields, "image", &self.image);
        write_i64(&mut fields, "replicas", &self.replicas);
        write_i32_list(&mut fields, "ports", &self.ports);
        assert(start =~= Seq::<(Seq<char>, ValueView)>::empty());
        assert(fields.deep_view() =~= Self::to_fields(self.deep_view()));
        Struct { fields }
    }
}

impl WebAppSpec {
    /// How an object reads as a `WebAppSpec` depends on nothing but how each of
    /// its fields reads.
    pub proof fn lemma_reads_field_by_field(f: Fields, g: Fields)
        requires
            str_field(f, "image"@) == str_field(g, "image"@),
            i64_field(f, "replicas"@) == i64_field(g, "replicas"@),
            i32_list_field(f, "ports"@) == i32_list_field(g, "ports"@),
        ensures
            Self::from_fields(f) == Self::from_fields(g),
    {
    }

    proof fn lemma_key_facts()
        ensures
            "image"@.len() == 5,
            "replicas"@.len() == 8,
            "ports"@.len() == 5,
            "image"@[0] == 'i' && "ports"@[0] == 'p',
    {
        reveal_strlit("image");
        reveal_strlit("replicas");
        reveal_strlit("ports");
    }

    /// Field `image` reads back as written, and is written only when it is set.
    pub proof fn lemma_reads_back_image(m: WebAppSpecView)
        ensures
            str_field(Self::to_fields(m), "image"@) == Ok::<Option<Seq<char>>, DecodeErrorView>(m.image),
            (get_entry(Self::to_fields(m), "image"@) is Some) == (m.image is Some),
    {
        Self::lemma_key_facts();
        let p1 = str_entry("image"@, m.image);
        let p2 = p1 + int_entry("replicas"@, opt_int(m.replicas));
        let p3 = p2 + i32_list_entry("ports"@, m.ports);
        assert(Self::to_fields(m) == p3);
    }

    /// Field `replicas` reads back as written, and is written only when it is set.
    pub proof fn lemma_reads_back_replicas(m: WebAppSpecView)
        ensures
            i64_field(Self::to_fields(m), "replicas"@) == Ok::<Option<i64>, DecodeErrorView>(m.replicas),
            (get_entry(Self::to_fields(m), "replicas"@) is Some) == (m.replicas is Some),
    {
        Self::lemma_key_facts();
        let p1 = str_entry("image"@, m.image);
        let p2 = p1 + int_entry("replicas"@, opt_int(m.replicas));
        let p3 = p2 + i32_list_entry("ports"@, m.ports);
        assert(Self::to_fields(m) == p3);
        assert(get_entry(p1, "replicas"@) == None::<ValueView>);
    }

    /// Field `ports` reads back as written, and is written only when it is set.
    pub proof fn lemma_reads_back_ports(m: WebAppSpecView)
        ensures
            i32_list_field(Self::to_fields(m), "ports"@) == Ok::<Option<Seq<i32>>, DecodeErrorView>(m.ports),
            (get_entry(Self::to_fields(m), "ports"@) is Some) == (m.ports is Some),
    {
        Self::lemma_key_facts();
        let p1 = str_entry("image"@, m.image);
        let p2 = p1 + int_entry("replicas"@, opt_int(m.replicas));
        let p3 = p2 + i32_list_entry("ports"@, m.ports);
        assert(Self::to_fields(m) == p3);
        assert(get_entry(p2, "ports"@) == None::<ValueView>);
        if let Some(x) = m.ports {
            lemma_i32_list_round_trip(x);
        }
    }

}

/// A `platform.example.com/v1alpha1` WebApp, the composite resource that the
/// composition function composes.
pub struct WebApp {
    pub api_version: Option<String>,
    pub kind: Option<String>,
    pub metadata: Option<ObjectMeta>,
    pub spec: Option<WebAppSpec>,
}

pub struct WebAppView {
    pub api_version: Option<Seq<char>>,
    pub kind: Option<Seq<char>>,
    pub metadata: Option<ObjectMetaView>,
    pub spec: Option<WebAppSpecView>,
}

impl DeepView for WebApp {
    type V = WebAppView;

    open spec fn deep_view(&self) -> WebAppView {
        WebAppView {
            api_version: self.api_version.deep_view(),
            kind: self.kind.deep_view(),
            metadata: self.metadata.deep_view(),
            spec: self.spec.deep_view(),
        }
    }
}

impl Model for WebApp {
    open spec fn model_name() -> Seq<char> {
        "WebApp"@
    }

    open spec fn keys() -> Set<Seq<char>> {
        set!["apiVersion"@, "kind"@, "metadata"@, "spec"@]
    }

    open spec fn from_fields(f: Fields) -> Result<WebAppView, DecodeErrorView> {
        match str_field(f, "apiVersion"@) {
            Err(e) => Err(e),
            Ok(api_version) => match str_field(f, "kind"@) {
                Err(e) => Err(e),
                Ok(kind) => match model_field::<ObjectMeta>(f, "metadata"@) {
                    Err(e) => Err(e),
                    Ok(metadata) => match model_field::<WebAppSpec>(f, "spec"@) {
                        Err(e) => Err(e),
                        Ok(spec) => Ok(WebAppView { api_version, kind, metadata, spec }),
                    },
                },
            },
        }
    }

    open spec fn to_fields(m: WebAppView) -> Fields {
        str_entry("apiVersion"@, m.api_version)
            + str_entry("kind"@, m.kind)
            + model_entry::<ObjectMeta>("metadata"@, m.metadata)
            + model_entry::<WebAppSpec>("spec"@, m.spec)
    }

    proof fn lemma_round_trip(m: WebAppView) {
        WebApp::lemma_reads_back_api_version(m);
        WebApp::lemma_reads_back_kind(m);
        WebApp::lemma_reads_back_metadata(m);
        WebApp::lemma_reads_back_spec(m);
    }

    proof fn lemma_reads_only_keys(f: Fields, g: Fields) {
        assert(field_value(f, "apiVersion"@) == field_value(g, "apiVersion"@));
        assert(str_field(f, "apiVersion"@) == str_field(g, "apiVersion"@));
        assert(field_value(f, "kind"@) == field_value(g, "kind"@));
        assert(str_field(f, "kind"@) == str_field(g, "kind"@));
        assert(field_value(f, "metadata"@) == field_value(g, "metadata"@));
        assert(model_field::<ObjectMeta>(f, "metadata"@) == model_field::<ObjectMeta>(g, "metadata"@));
        assert(field_value(f, "spec"@) == field_value(g, "spec"@));
        assert(model_field::<WebAppSpec>(f, "spec"@) == model_field::<WebAppSpec>(g, "spec"@));
    }

    proof fn lemma_writes_only_keys(m: WebAppView) {
        reveal_strlit("apiVersion");
        reveal_strlit("kind");
        reveal_strlit("metadata");
        reveal_strlit("spec");
        assert("apiVersion"@.len() == 10);
        assert("kind"@.len() == 4);
        assert("metadata"@.len() == 8);
        assert("spec"@.len() == 4);
        assert("kind"@[0] == 'k' && "spec"@[0] == 's');
        let p0 = Seq::<(Seq<char>, ValueView)>::empty();
        let a0 = Set::<Seq<char>>::empty();
        lemma_push_entry(p0, "apiVersion"@, str_entry("apiVersion"@, m.api_version), a0);
        let p1 = p0 + str_entry("apiVersion"@, m.api_version);
        let a1 = a0.insert("apiVersion"@);
        lemma_push_entry(p1, "kind"@, str_entry("kind"@, m.kind), a1);
        let p2 = p1 + str_entry("kind"@, m.kind);
        let a2 = a1.insert("kind"@);
        lemma_push_entry(p2, "metadata"@, model_entry::<ObjectMeta>("metadata"@, m.metadata), a2);
        let p3 = p2 + model_entry::<ObjectMeta>("metadata"@, m.metadata);
        let a3 = a2.insert("metadata"@);
        lemma_push_entry(p3, "spec"@, model_entry::<WebAppSpec>("spec"@, m.spec), a3);
        let p4 = p3 + model_entry::<WebAppSpec>("spec"@, m.spec);
        let a4 = a3.insert("spec"@);
        assert(p4 =~= Self::to_fields(m));
        assert(a4 =~= Self::keys());
    }

    open spec fn key_seq() -> Seq<Seq<char>> {
        seq!["apiVersion"@, "kind"@, "metadata"@, "spec"@]
    }

    fn field_count() -> (r: usize) {
        4
    }

    fn field_key(i: usize) -> (r: Option<&'static str>) {
        if i == 0 {
            Some("apiVersion")
        } else if i == 1 {
            Some("kind")
        } else if i == 2 {
            Some("metadata")
        } else if i == 3 {
            Some("spec")
        } else {
            None
        }
    }

    fn name() -> (r: &'static str) {
        "WebApp"
    }

    fn decode(s: &Struct) -> (r: Result<WebApp, DecodeError>) {
        let api_version = read_str(s, "apiVersion")?;
        let kind = read_str(s, "kind")?;
        let metadata = read_model::<ObjectMeta>(s, "metadata")?;
        let spec = read_model::<WebAppSpec>(s, "spec")?;
        Ok(WebApp { api_version, kind, metadata, spec })
    }

    fn encode(&self) -> (r: Struct) {
        let mut fields: Vec<(String, Value)> = Vec::new();
        let ghost start = fields.deep_view();
        write_str(&mut fields, "apiVersion", &self.api_version);
        write_str(&mut fields, "kind", &self.kind);
        write_model::<ObjectMeta>(&mut fields, "metadata", &self.metadata);
        write_model::<WebAppSpec>(&mut fields, "spec", &self.spec);
        assert(start =~= Seq::<(Seq<char>, ValueView)>::empty());
        assert(fields.deep_view() =~= Self::to_fields(self.deep_view()));
        Struct { fields }
    }
}

impl WebApp {
    /// How an object reads as a `WebApp` depends on nothing but how each of
    /// its fields reads.
    pub proof fn lemma_reads_field_by_field(f: Fields, g: Fields)
        requires
            str_field(f, "apiVersion"@) == str_field(g, "apiVersion"@),
            str_field(f, "kind"@) == str_field(g, "kind"@),
            model_field::<ObjectMeta>(f, "metadata"@) == model_field::<ObjectMeta>(g, "metadata"@),
            model_field::<WebAppSpec>(f, "spec"@) == model_field::<WebAppSpec>(g, "spec"@),
        ensures
            Self::from_fields(f) == Self::from_fields(g),
    {
    }

    proof fn lemma_key_facts()
        ensures
            "apiVersion"@.len() == 10,
            "kind"@.len() == 4,
            "metadata"@.len() == 8,
            "spec"@.len() == 4,
            "kind"@[0] == 'k' && "spec"@[0] == 's',
    {
        reveal_strlit("apiVersion");
        reveal_strlit("kind");
        reveal_strlit("metadata");
        reveal_strlit("spec");
    }

    /// Field `apiVersion` reads back as written, and is written only when it is set.
    pub proof fn lemma_reads_back_api_version(m: WebAppView)
        ensures
            str_field(Self::to_fields(m), "apiVersion"@) == Ok::<Option<Seq<char>>, DecodeErrorView>(m.api_version),
            (get_entry(Self::to_fields(m), "apiVersion"@) is Some) == (m.api_version is Some),
    {
        Self::lemma_key_facts();
        let p1 = str_entry("apiVersion"@, m.api_version);
        let p2 = p1 + str_entry("kind"@, m.kind);
        let p3 = p2 + model_entry::<ObjectMeta>("metadata"@, m.metadata);
        let p4 = p3 + model_entry::<WebAppSpec>("spec"@, m.spec);
        assert(Self::to_fields(m) == p4);
    }

    /// Field `kind` reads back as written, and is written only when it is set.
    pub proof fn lemma_reads_back_kind(m: WebAppView)
        ensures
            str_field(Self::to_fields(m), "kind"@) == Ok::<Option<Seq<char>>, DecodeErrorView>(m.kind),
            (get_entry(Self::to_fields(m), "kind"@) is Some) == (m.kind is Some),
    {
        Self::lemma_key_facts();
        let p1 = str_entry("apiVersion"@, m.api_version);
        let p2 = p1 + str_entry("kind"@, m.kind);
        let p3 = p2 + model_entry::<ObjectMeta>("metadata"@, m.metadata);
        let p4 = p3 + model_entry::<WebAppSpec>("spec"@, m.spec);
        assert(Self::to_fields(m) == p4);
        assert(get_entry(p1, "kind"@) == None::<ValueView>);
    }

    /// Field `metadata` reads back as written, and is written only when it is set.
    pub proof fn lemma_reads_back_metadata(m: WebAppView)
        ensures
            model_field::<ObjectMeta>(Self::to_fields(m), "metadata"@) == Ok::<Option<ObjectMetaView>, DecodeErrorView>(m.metadata),
            (get_entry(Self::to_fields(m), "metadata"@) is Some) == (m.metadata is Some),
    {
        Self::lemma_key_facts();
        let p1 = str_entry("apiVersion"@, m.api_version);
        let p2 = p1 + str_entry("kind"@, m.kind);
        let p3 = p2 + model_entry::<ObjectMeta>("metadata"@, m.metadata);
        let p4 = p3 + model_entry::<WebAppSpec>("spec"@, m.spec);
        assert(Self::to_fields(m) == p4);
        assert(get_entry(p2, "metadata"@) == None::<ValueView>);
        if let Some(x) = m.metadata {
            ObjectMeta::lemma_round_trip(x);
        }
    }

    /// Field `spec` reads back as written, and is written only when it is set.
    pub proof fn lemma_reads_back_spec(m: WebAppView)
        ensures
            model_field::<WebAppSpec>(Self::to_fields(m), "spec"@) == Ok::<Option<WebAppSpecView>, DecodeErrorView>(m.spec),
            (get_entry(Self::to_fields(m), "spec"@) is Some) == (m.spec is Some),
    {
        Self::lemma_key_facts();
        let p1 = str_entry("apiVersion"@, m.api_version);
        let p2 = p1 + str_entry("kind"@, m.kind);
        let p3 = p2 + model_entry::<ObjectMeta>("metadata"@, m.metadata);
        let p4 = p3 + model_entry::<WebAppSpec>("spec"@, m.spec);
        assert(Self::to_fields(m) == p4);
        assert(get_entry(p3, "spec"@) == None::<ValueView>);
        if let Some(x) = m.spec {
            WebAppSpec::lemma_round_trip(x);
        }
    }

}

}
