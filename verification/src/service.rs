//! Services in front of pods.

use vstd::prelude::*;
use crate::codec::{
    field_value, i32_field, int_entry, lemma_models_round_trip, lemma_push_entry,
    lemma_str_map_round_trip, model_entry, model_field, models_entry, models_field, opt_int,
    read_i32, read_model, read_models, read_str, read_str_map, str_entry, str_field, str_map_entry,
    str_map_field, write_i32, write_model, write_models, write_str, write_str_map, DecodeError,
    DecodeErrorView, Fields, Model,
};
use crate::entries::{get_entry, group_entries};
use crate::meta::{
    int_or_string_entry, int_or_string_field, read_int_or_string, write_int_or_string, IntOrString,
    IntOrStringView, ObjectMeta, ObjectMetaView,
};
use crate::value::{Struct, Value, ValueView};

verus! {

broadcast use {group_entries, vstd::string::group_string_axioms, crate::codec::lemma_get_entry_if};

/// A port that a Service exposes and the port of the pods it forwards to.
pub struct ServicePort {
    pub protocol: Option<String>,
    pub port: Option<i32>,
    pub target_port: Option<IntOrString>,
}

pub struct ServicePortView {
    pub protocol: Option<Seq<char>>,
    pub port: Option<i32>,
    pub target_port: Option<IntOrStringView>,
}

impl DeepView for ServicePort {
    type V = ServicePortView;

    open spec fn deep_view(&self) -> ServicePortView {
        ServicePortView {
            protocol: self.protocol.deep_view(),
            port: self.port.deep_view(),
            target_port: self.target_port.deep_view(),
        }
    }
}

impl Model for ServicePort {
    open spec fn model_name() -> Seq<char> {
        "ServicePort"@
    }

    open spec fn keys() -> Set<Seq<char>> {
        set!["protocol"@, "port"@, "targetPort"@]
    }

    open spec fn from_fields(f: Fields) -> Result<ServicePortView, DecodeErrorView> {
        match i32_field(f, "port"@) {
            Err(e) => Err(e),
            Ok(port) => match str_field(f, "protocol"@) {
                Err(e) => Err(e),
                Ok(protocol) => match int_or_string_field(f, "targetPort"@) {
                    Err(e) => Err(e),
                    Ok(target_port) => Ok(ServicePortView { protocol, port, target_port }),
                },
            },
        }
    }

    open spec fn to_fields(m: ServicePortView) -> Fields {
        str_entry("protocol"@, m.protocol)
            + int_entry("port"@, opt_int(m.port))
            + int_or_string_entry("targetPort"@, m.target_port)
    }

    proof fn lemma_round_trip(m: ServicePortView) {
        ServicePort::lemma_reads_back_protocol(m);
        ServicePort::lemma_reads_back_port(m);
        ServicePort::lemma_reads_back_target_port(m);
    }

    proof fn lemma_reads_only_keys(f: Fields, g: Fields) {
        assert(field_value(f, "protocol"@) == field_value(g, "protocol"@));
        assert(str_field(f, "protocol"@) == str_field(g, "protocol"@));
        assert(field_value(f, "port"@) == field_value(g, "port"@));
        assert(i32_field(f, "port"@) == i32_field(g, "port"@));
        assert(field_value(f, "targetPort"@) == field_value(g, "targetPort"@));
        assert(int_or_string_field(f, "targetPort"@) == int_or_string_field(g, "targetPort"@));
    }

    proof fn lemma_writes_only_keys(m: ServicePortView) {
        reveal_strlit("protocol");
        reveal_strlit("port");
        reveal_strlit("targetPort");
        assert("protocol"@.len() == 8);
        assert("port"@.len() == 4);
        assert("targetPort"@.len() == 10);
        let p0 = Seq::<(Seq<char>, ValueView)>::empty();
        let a0 = Set::<Seq<char>>::empty();
        lemma_push_entry(p0, "protocol"@, str_entry("protocol"@, m.protocol), a0);
        let p1 = p0 + str_entry("protocol"@, m.protocol);
        let a1 = a0.insert("protocol"@);
        lemma_push_entry(p1, "port"@, int_entry("port"@, opt_int(m.port)), a1);
        let p2 = p1 + int_entry("port"@, opt_int(m.port));
        let a2 = a1.insert("port"@);
        lemma_push_entry(p2, "targetPort"@, int_or_string_entry("targetPort"@, m.target_port), a2);
        let p3 = p2 + int_or_string_entry("targetPort"@, m.target_port);
        let a3 = a2.insert("targetPort"@);
        assert(p3 =~= Self::to_fields(m));
        assert(a3 =~= Self::keys());
    }

    open spec fn key_seq() -> Seq<Seq<char>> {
        seq!["port"@, "protocol"@, "targetPort"@]
    }

    fn field_count() -> (r: usize) {
        3
    }

    fn field_key(i: usize) -> (r: Option<&'static str>) {
        if i == 0 {
            Some("port")
        } else if i == 1 {
            Some("protocol")
        } else if i == 2 {
            Some("targetPort")
        } else {
            None
        }
    }

    fn name() -> (r: &'static str) {
        "ServicePort"
    }

    fn decode(s: &Struct) -> (r: Result<ServicePort, DecodeError>) {
        let port = read_i32(s, "port")?;
        let protocol = read_str(s, "protocol")?;
        let target_port = read_int_or_string(s, "targetPort")?;
        Ok(ServicePort { protocol, port, target_port })
    }

    fn encode(&self) -> (r: Struct) {
        let mut fields: Vec<(String, Value)> = Vec::new();
        let ghost start = fields.deep_view();
        write_str(&mut fields, "protocol", &self.protocol);
        write_i32(&mut fields, "port", &self.port);
        write_int_or_string(&mut fields, "targetPort", &self.target_port);
        assert(start =~= Seq::<(Seq<char>, ValueView)>::empty());
        assert(fields.deep_view() =~= Self::to_fields(self.deep_view()));
        Struct { fields }
    }
}

impl ServicePort {
    /// How an object reads as a `ServicePort` depends on nothing but how each of
    /// its fields reads.
    pub proof fn lemma_reads_field_by_field(f: Fields, g: Fields)
        requires
            str_field(f, "protocol"@) == str_field(g, "protocol"@),
            i32_field(f, "port"@) == i32_field(g, "port"@),
            int_or_string_field(f, "targetPort"@) == int_or_string_field(g, "targetPort"@),
        ensures
            Self::from_fields(f) == Self::from_fields(g),
    {
    }

    proof fn lemma_key_facts()
        ensures
            "protocol"@.len() == 8,
            "port"@.len() == 4,
            "targetPort"@.len() == 10,
    {
        reveal_strlit("protocol");
        reveal_strlit("port");
        reveal_strlit("targetPort");
    }

    /// Field `protocol` reads back as written, and is written only when it is set.
    pub proof fn lemma_reads_back_protocol(m: ServicePortView)
        ensures
            str_field(Self::to_fields(m), "protocol"@) == Ok::<Option<Seq<char>>, DecodeErrorView>(m.protocol),
            (get_entry(Self::to_fields(m), "protocol"@) is Some) == (m.protocol is Some),
    {
        Self::lemma_key_facts();
        let p1 = str_entry("protocol"@, m.protocol);
        let p2 = p1 + int_entry("port"@, opt_int(m.port));
        let p3 = p2 + int_or_string_entry("targetPort"@, m.target_port);
        assert(Self::to_fields(m) == p3);
    }

    /// Field `port` reads back as written, and is written only when it is set.
    pub proof fn lemma_reads_back_port(m: ServicePortView)
        ensures
            i32_field(Self::to_fields(m), "port"@) == Ok::<Option<i32>, DecodeErrorView>(m.port),
            (get_entry(Self::to_fields(m), "port"@) is Some) == (m.port is Some),
    {
        Self::lemma_key_facts();
        let p1 = str_entry("protocol"@, m.protocol);
        let p2 = p1 + int_entry("port"@, opt_int(m.port));
        let p3 = p2 + int_or_string_entry("targetPort"@, m.target_port);
        assert(Self::to_fields(m) == p3);
        assert(get_entry(p1, "port"@) == None::<ValueView>);
    }

    /// Field `targetPort` reads back as written, and is written only when it is set.
    pub proof fn lemma_reads_back_target_port(m: ServicePortView)
        ensures
            int_or_string_field(Self::to_fields(m), "targetPort"@) == Ok::<Option<IntOrStringView>, DecodeErrorView>(m.target_port),
            (get_entry(Self::to_fields(m), "targetPort"@) is Some) == (m.target_port is Some),
    {
        Self::lemma_key_facts();
        let p1 = str_entry("protocol"@, m.protocol);
        let p2 = p1 + int_entry("port"@, opt_int(m.port));
        let p3 = p2 + int_or_string_entry("targetPort"@, m.target_port);
        assert(Self::to_fields(m) == p3);
        assert(get_entry(p2, "targetPort"@) == None::<ValueView>);
    }

}

/// The desired state of a Service.
pub struct ServiceSpec {
    /// The labels of the pods that the Service routes to.
    pub selector: Option<Vec<(String, String)>>,
    pub ports: Option<Vec<ServicePort>>,
}

pub struct ServiceSpecView {
    pub selector: Option<Seq<(Seq<char>, Seq<char>)>>,
    pub ports: Option<Seq<ServicePortView>>,
}

impl DeepView for ServiceSpec {
    type V = ServiceSpecView;

    open spec fn deep_view(&self) -> ServiceSpecView {
        ServiceSpecView {
            selector: self.selector.deep_view(),
            ports: self.ports.deep_view(),
        }
    }
}

impl Model for ServiceSpec {
    open spec fn model_name() -> Seq<char> {
        "ServiceSpec"@
    }

    open spec fn keys() -> Set<Seq<char>> {
        set!["selector"@, "ports"@]
    }

    open spec fn from_fields(f: Fields) -> Result<ServiceSpecView, DecodeErrorView> {
        match models_field::<ServicePort>(f, "ports"@) {
            Err(e) => Err(e),
            Ok(ports) => match str_map_field(f, "selector"@) {
                Err(e) => Err(e),
                Ok(selector) => Ok(ServiceSpecView { selector, ports }),
            },
        }
    }

    open spec fn to_fields(m: ServiceSpecView) -> Fields {
        str_map_entry("selector"@, m.selector)
            + models_entry::<ServicePort>("ports"@, m.ports)
    }

    proof fn lemma_round_trip(m: ServiceSpecView) {
        ServiceSpec::lemma_reads_back_selector(m);
        ServiceSpec::lemma_reads_back_ports(m);
    }

    proof fn lemma_reads_only_keys(f: Fields, g: Fields) {
        assert(field_value(f, "selector"@) == field_value(g, "selector"@));
        assert(str_map_field(f, "selector"@) == str_map_field(g, "selector"@));
        assert(field_value(f, "ports"@) == field_value(g, "ports"@));
        assert(models_field::<ServicePort>(f, "ports"@) == models_field::<ServicePort>(g, "ports"@));
    }

    proof fn lemma_writes_only_keys(m: ServiceSpecView) {
        reveal_strlit("selector");
        reveal_strlit("ports");
        assert("selector"@.len() == 8);
        assert("ports"@.len() == 5);
        let p0 = Seq::<(Seq<char>, ValueView)>::empty();
        let a0 = Set::<Seq<char>>::empty();
        lemma_push_entry(p0, "selector"@, str_map_entry("selector"@, m.selector), a0);
        let p1 = p0 + str_map_entry("selector"@, m.selector);
        let a1 = a0.insert("selector"@);
        lemma_push_entry(p1, "ports"@, models_entry::<ServicePort>("ports"@, m.ports), a1);
        let p2 = p1 + models_entry::<ServicePort>("ports"@, m.ports);
        let a2 = a1.insert("ports"@);
        assert(p2 =~= Self::to_fields(m));
        assert(a2 =~= Self::keys());
    }

    open spec fn key_seq() -> Seq<Seq<char>> {
        seq!["ports"@, "selector"@]
    }

    fn field_count() -> (r: usize) {
        2
    }

    fn field_key(i: usize) -> (r: Option<&'static str>) {
        if i == 0 {
            Some("ports")
        } else if i == 1 {
            Some("selector")
        } else {
            None
        }
    }

    fn name() -> (r: &'static str) {
        "ServiceSpec"
    }

    fn decode(s: &Struct) -> (r: Result<ServiceSpec, DecodeError>) {
        let ports = read_models::<ServicePort>(s, "ports")?;
        let selector = read_str_map(s, "selector")?;
        Ok(ServiceSpec { selector, ports })
    }

    fn encode(&self) -> (r: Struct) {
        let mut fields: Vec<(String, Value)> = Vec::new();
        let ghost start = fields.deep_view();
        write_str_map(&mut fields, "selector", &self.selector);
        write_models::<ServicePort>(&mut fields, "ports", &self.ports);
        assert(start =~= Seq::<(Seq<char>, ValueView)>::empty());
        assert(fields.deep_view() =~= Self::to_fields(self.deep_view()));
        Struct { fields }
    }
}

impl ServiceSpec {
    /// How an object reads as a `ServiceSpec` depends on nothing but how each of
    /// its fields reads.
    pub proof fn lemma_reads_field_by_field(f: Fields, g: Fields)
        requires
            str_map_field(f, "selector"@) == str_map_field(g, "selector"@),
            models_field::<ServicePort>(f, "ports"@) == models_field::<ServicePort>(g, "ports"@),
        ensures
            Self::from_fields(f) == Self::from_fields(g),
    {
    }

    proof fn lemma_key_facts()
        ensures
            "selector"@.len() == 8,
            "ports"@.len() == 5,
    {
        reveal_strlit("selector");
        reveal_strlit("ports");
    }

    /// Field `selector` reads back as written, and is written only when it is set.
    pub proof fn lemma_reads_back_selector(m: ServiceSpecView)
        ensures
            str_map_field(Self::to_fields(m), "selector"@) == Ok::<Option<Seq<(Seq<char>, Seq<char>)>>, DecodeErrorView>(m.selector),
            (get_entry(Self::to_fields(m), "selector"@) is Some) == (m.selector is Some),
    {
        Self::lemma_key_facts();
        let p1 = str_map_entry("selector"@, m.selector);
        let p2 = p1 + models_entry::<ServicePort>("ports"@, m.ports);
        assert(Self::to_fields(m) == p2);
        if let Some(x) = m.selector {
            lemma_str_map_round_trip(x);
        }
    }

    /// Field `ports` reads back as written, and is written only when it is set.
    pub proof fn lemma_reads_back_ports(m: ServiceSpecView)
        ensures
            models_field::<ServicePort>(Self::to_fields(m), "ports"@) == Ok::<Option<Seq<ServicePortView>>, DecodeErrorView>(m.ports),
            (get_entry(Self::to_fields(m), "ports"@) is Some) == (m.ports is Some),
    {
        Self::lemma_key_facts();
        let p1 = str_map_entry("selector"@, m.selector);
        let p2 = p1 + models_entry::<ServicePort>("ports"@, m.ports);
        assert(Self::to_fields(m) == p2);
        assert(get_entry(p1, "ports"@) == None::<ValueView>);
        if let Some(x) = m.ports {
            lemma_models_round_trip::<ServicePort>(x);
        }
    }

}

/// A `v1` Service.
pub struct Service {
    pub api_version: Option<String>,
    pub kind: Option<String>,
    pub metadata: Option<ObjectMeta>,
    pub spec: Option<ServiceSpec>,
}

pub struct ServiceView {
    pub api_version: Option<Seq<char>>,
    pub kind: Option<Seq<char>>,
    pub metadata: Option<ObjectMetaView>,
    pub spec: Option<ServiceSpecView>,
}

impl DeepView for Service {
    type V = ServiceView;

    open spec fn deep_view(&self) -> ServiceView {
        ServiceView {
            api_version: self.api_version.deep_view(),
            kind: self.kind.deep_view(),
            metadata: self.metadata.deep_view(),
            spec: self.spec.deep_view(),
        }
    }
}

impl Model for Service {
    open spec fn model_name() -> Seq<char> {
        "Service"@
    }

    open spec fn keys() -> Set<Seq<char>> {
        set!["apiVersion"@, "kind"@, "metadata"@, "spec"@]
    }

    open spec fn from_fields(f: Fields) -> Result<ServiceView, DecodeErrorView> {
        match str_field(f, "apiVersion"@) {
            Err(e) => Err(e),
            Ok(api_version) => match str_field(f, "kind"@) {
                Err(e) => Err(e),
                Ok(kind) => match model_field::<ObjectMeta>(f, "metadata"@) {
                    Err(e) => Err(e),
                    Ok(metadata) => match model_field::<ServiceSpec>(f, "spec"@) {
                        Err(e) => Err(e),
                        Ok(spec) => Ok(ServiceView { api_version, kind, metadata, spec }),
                    },
                },
            },
        }
    }

    open spec fn to_fields(m: ServiceView) -> Fields {
        str_entry("apiVersion"@, m.api_version)
            + str_entry("kind"@, m.kind)
            + model_entry::<ObjectMeta>("metadata"@, m.metadata)
            + model_entry::<ServiceSpec>("spec"@, m.spec)
    }

    proof fn lemma_round_trip(m: ServiceView) {
        Service::lemma_reads_back_api_version(m);
        Service::lemma_reads_back_kind(m);
        Service::lemma_reads_back_metadata(m);
        Service::lemma_reads_back_spec(m);
    }

    proof fn lemma_reads_only_keys(f: Fields, g: Fields) {
        assert(field_value(f, "apiVersion"@) == field_value(g, "apiVersion"@));
        assert(str_field(f, "apiVersion"@) == str_field(g, "apiVersion"@));
        assert(field_value(f, "kind"@) == field_value(g, "kind"@));
        assert(str_field(f, "kind"@) == str_field(g, "kind"@));
        assert(field_value(f, "metadata"@) == field_value(g, "metadata"@));
        assert(model_field::<ObjectMeta>(f, "metadata"@) == model_field::<ObjectMeta>(g, "metadata"@));
        assert(field_value(f, "spec"@) == field_value(g, "spec"@));
        assert(model_field::<ServiceSpec>(f, "spec"@) == model_field::<ServiceSpec>(g, "spec"@));
    }

    proof fn lemma_writes_only_keys(m: ServiceView) {
        reveal_strlit("apiVersion");
        reveal_strlit("kind");
        reveal_strlit("metadata");
        reveal_strlit("spec");
        assert("apiVersion"@.len() == 10);
        assert("kind"@.len() == 4);
        assert("metadata"@.len() == 8);
        assert("spec"@.len() == 4);
        assert("kind"@[0] == 'k' && "spec"@[0] == 's');
        let p0 = Seq::<(Seq<char>, ValueView)>::empty();
        let a0 = Set::<Seq<char>>::empty();
        lemma_push_entry(p0, "apiVersion"@, str_entry("apiVersion"@, m.api_version), a0);
        let p1 = p0 + str_entry("apiVersion"@, m.api_version);
        let a1 = a0.insert("apiVersion"@);
        lemma_push_entry(p1, "kind"@, str_entry("kind"@, m.kind), a1);
        let p2 = p1 + str_entry("kind"@, m.kind);
        let a2 = a1.insert("kind"@);
        lemma_push_entry(p2, "metadata"@, model_entry::<ObjectMeta>("metadata"@, m.metadata), a2);
        let p3 = p2 + model_entry::<ObjectMeta>("metadata"@, m.metadata);
        let a3 = a2.insert("metadata"@);
        lemma_push_entry(p3, "spec"@, model_entry::<ServiceSpec>("spec"@, m.spec), a3);
        let p4 = p3 + model_entry::<ServiceSpec>("spec"@, m.spec);
        let a4 = a3.insert("spec"@);
        assert(p4 =~= Self::to_fields(m));
        assert(a4 =~= Self::keys());
    }

    open spec fn key_seq() -> Seq<Seq<char>> {
        seq!["apiVersion"@, "kind"@, "metadata"@, "spec"@]
    }

    fn field_count() -> (r: usize) {
        4
    }

    fn field_key(i: usize) -> (r: Option<&'static str>) {
        if i == 0 {
            Some("apiVersion")
        } else if i == 1 {
            Some("kind")
        } else if i == 2 {
            Some("metadata")
        } else if i == 3 {
            Some("spec")
        } else {
            None
        }
    }

    fn name() -> (r: &'static str) {
        "Service"
    }

    fn decode(s: &Struct) -> (r: Result<Service, DecodeError>) {
        let api_version = read_str(s, "apiVersion")?;
        let kind = read_str(s, "kind")?;
        let metadata = read_model::<ObjectMeta>(s, "metadata")?;
        let spec = read_model::<ServiceSpec>(s, "spec")?;
        Ok(Service { api_version, kind, metadata, spec })
    }

    fn encode(&self) -> (r: Struct) {
        let mut fields: Vec<(String, Value)> = Vec::new();
        let ghost start = fields.deep_view();
        write_str(&mut fields, "apiVersion", &self.api_version);
        write_str(&mut fields, "kind", &self.kind);
        write_model::<ObjectMeta>(&mut fields, "metadata", &self.metadata);
        write_model::<ServiceSpec>(&mut fields, "spec", &self.spec);
        assert(start =~= Seq::<(Seq<char>, ValueView)>::empty());
        assert(fields.deep_view() =~= Self::to_fields(self.deep_view()));
        Struct { fields }
    }
}

impl Service {
    /// How an object reads as a `Service` depends on nothing but how each of
    /// its fields reads.
    pub proof fn lemma_reads_field_by_field(f: Fields, g: Fields)
        requires
            str_field(f, "apiVersion"@) == str_field(g, "apiVersion"@),
            str_field(f, "kind"@) == str_field(g, "kind"@),
            model_field::<ObjectMeta>(f, "metadata"@) == model_field::<ObjectMeta>(g, "metadata"@),
            model_field::<ServiceSpec>(f, "spec"@) == model_field::<ServiceSpec>(g, "spec"@),
        ensures
            Self::from_fields(f) == Self::from_fields(g),
    {
    }

    proof fn lemma_key_facts()
        ensures
            "apiVersion"@.len() == 10,
            "kind"@.len() == 4,
            "metadata"@.len() == 8,
            "spec"@.len() == 4,
            "kind"@[0] == 'k' && "spec"@[0] == 's',
    {
        reveal_strlit("apiVersion");
        reveal_strlit("kind");
        reveal_strlit("metadata");
        reveal_strlit("spec");
    }

    /// Field `apiVersion` reads back as written, and is written only when it is set.
    pub proof fn lemma_reads_back_api_version(m: ServiceView)
        ensures
            str_field(Self::to_fields(m), "apiVersion"@) == Ok::<Option<Seq<char>>, DecodeErrorView>(m.api_version),
            (get_entry(Self::to_fields(m), "apiVersion"@) is Some) == (m.api_version is Some),
    {
        Self::lemma_key_facts();
        let p1 = str_entry("apiVersion"@, m.api_version);
        let p2 = p1 + str_entry("kind"@, m.kind);
        let p3 = p2 + model_entry::<ObjectMeta>("metadata"@, m.metadata);
        let p4 = p3 + model_entry::<ServiceSpec>("spec"@, m.spec);
        assert(Self::to_fields(m) == p4);
    }

    /// Field `kind` reads back as written, and is written only when it is set.
    pub proof fn lemma_reads_back_kind(m: ServiceView)
        ensures
            str_field(Self::to_fields(m), "kind"@) == Ok::<Option<Seq<char>>, DecodeErrorView>(m.kind),
            (get_entry(Self::to_fields(m), "kind"@) is Some) == (m.kind is Some),
    {
        Self::lemma_key_facts();
        let p1 = str_entry("apiVersion"@, m.api_version);
        let p2 = p1 + str_entry("kind"@, m.kind);
        let p3 = p2 + model_entry::<ObjectMeta>("metadata"@, m.metadata);
        let p4 = p3 + model_entry::<ServiceSpec>("spec"@, m.spec);
        assert(Self::to_fields(m) == p4);
        assert(get_entry(p1, "kind"@) == None::<ValueView>);
    }

    /// Field `metadata` reads back as written, and is written only when it is set.
    pub proof fn lemma_reads_back_metadata(m: ServiceView)
        ensures
            model_field::<ObjectMeta>(Self::to_fields(m), "metadata"@) == Ok::<Option<ObjectMetaView>, DecodeErrorView>(m.metadata),
            (get_entry(Self::to_fields(m), "metadata"@) is Some) == (m.metadata is Some),
    {
        Self::lemma_key_facts();
        let p1 = str_entry("apiVersion"@, m.api_version);
        let p2 = p1 + str_entry("kind"@, m.kind);
        let p3 = p2 + model_entry::<ObjectMeta>("metadata"@, m.metadata);
        let p4 = p3 + model_entry::<ServiceSpec>("spec"@, m.spec);
        assert(Self::to_fields(m) == p4);
        assert(get_entry(p2, "metadata"@) == None::<ValueView>);
        if let Some(x) = m.metadata {
            ObjectMeta::lemma_round_trip(x);
        }
    }

    /// Field `spec` reads back as written, and is written only when it is set.
    pub proof fn lemma_reads_back_spec(m: ServiceView)
        ensures
            model_field::<ServiceSpec>(Self::to_fields(m), "spec"@) == Ok::<Option<ServiceSpecView>, DecodeErrorView>(m.spec),
            (get_entry(Self::to_fields(m), "spec"@) is Some) == (m.spec is Some),
    {
        Self::lemma_key_facts();
        let p1 = str_entry("apiVersion"@, m.api_version);
        let p2 = p1 + str_entry("kind"@, m.kind);
        let p3 = p2 + model_entry::<ObjectMeta>("metadata"@, m.metadata);
        let p4 = p3 + model_entry::<ServiceSpec>("spec"@, m.spec);
        assert(Self::to_fields(m) == p4);
        assert(get_entry(p3, "spec"@) == None::<ValueView>);
        if let Some(x) = m.spec {
            ServiceSpec::lemma_round_trip(x);
        }
    }

}

}
