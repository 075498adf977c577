//! Deployments and the pods they run.

use vstd::prelude::*;
use crate::codec::{
    bool_entry, bool_field, field_value, i32_field, i64_field, int_entry, lemma_models_round_trip,
    lemma_push_entry, model_entry, model_field, models_entry, models_field, opt_int, read_bool,
    read_i32, read_i64, read_model, read_models, read_str, str_entry, str_field, write_bool,
    write_i32, write_i64, write_model, write_models, write_str, DecodeError, DecodeErrorView,
    Fields, Model,
};
use crate::entries::{get_entry, group_entries};
use crate::meta::{
    int_or_string_entry, int_or_string_field, read_int_or_string, write_int_or_string, IntOrString,
    IntOrStringView, LabelSelector, LabelSelectorView, ObjectMeta, ObjectMetaView,
};
use crate::value::{Struct, Value, ValueView};

verus! {

broadcast use {group_entries, vstd::string::group_string_axioms, crate::codec::lemma_get_entry_if};

/// A port that a container exposes.
pub struct ContainerPort {
    pub container_port: Option<i32>,
}

pub struct ContainerPortView {
    pub container_port: Option<i32>,
}

impl DeepView for ContainerPort {
    type V = ContainerPortView;

    open spec fn deep_view(&self) -> ContainerPortView {
        ContainerPortView {
            container_port: self.container_port.deep_view(),
        }
    }
}

impl Model for ContainerPort {
    open spec fn model_name() -> Seq<char> {
        "ContainerPort"@
    }

    open spec fn keys() -> Set<Seq<char>> {
        set!["containerPort"@]
    }

    open spec fn from_fields(f: Fields) -> Result<ContainerPortView, DecodeErrorView> {
        match i32_field(f, "containerPort"@) {
            Err(e) => Err(e),
            Ok(container_port) => Ok(ContainerPortView { container_port }),
        }
    }

    open spec fn to_fields(m: ContainerPortView) -> Fields {
        int_entry("containerPort"@, opt_int(m.container_port))
    }

    proof fn lemma_round_trip(m: ContainerPortView) {
        ContainerPort::lemma_reads_back_container_port(m);
    }

    proof fn lemma_reads_only_keys(f: Fields, g: Fields) {
        assert(field_value(f, "containerPort"@) == field_value(g, "containerPort"@));
        assert(i32_field(f, "containerPort"@) == i32_field(g, "containerPort"@));
    }

    proof fn lemma_writes_only_keys(m: ContainerPortView) {
        reveal_strlit("containerPort");
        assert("containerPort"@.len() == 13);
        let p0 = Seq::<(Seq<char>, ValueView)>::empty();
        let a0 = Set::<Seq<char>>::empty();
        lemma_push_entry(p0, "containerPort"@, int_entry("containerPort"@, opt_int(m.container_port)), a0);
        let p1 = p0 + int_entry("containerPort"@, opt_int(m.container_port));
        let a1 = a0.insert("containerPort"@);
        assert(p1 =~= Self::to_fields(m));
        assert(a1 =~= Self::keys());
    }

    open spec fn key_seq() -> Seq<Seq<char>> {
        seq!["containerPort"@]
    }

    fn field_count() -> (r: usize) {
        1
    }

    fn field_key(i: usize) -> (r: Option<&'static str>) {
        if i == 0 {
            Some("containerPort")
        } else {
            None
        }
    }

    fn name() -> (r: &'static str) {
        "ContainerPort"
    }

    fn decode(s: &Struct) -> (r: Result<ContainerPort, DecodeError>) {
        let container_port = read_i32(s, "containerPort")?;
        Ok(ContainerPort { container_port })
    }

    fn encode(&self) -> (r: Struct) {
        let mut fields: Vec<(String, Value)> = Vec::new();
        let ghost start = fields.deep_view();
        write_i32(&mut fields, "containerPort", &self.container_port);
        assert(start =~= Seq::<(Seq<char>, ValueView)>::empty());
        assert(fields.deep_view() =~= Self::to_fields(self.deep_view()));
        Struct { fields }
    }
}

impl ContainerPort {
    /// How an object reads as a `ContainerPort` depends on nothing but how each of
    /// its fields reads.
    pub proof fn lemma_reads_field_by_field(f: Fields, g: Fields)
        requires
            i32_field(f, "containerPort"@) == i32_field(g, "containerPort"@),
        ensures
            Self::from_fields(f) == Self::from_fields(g),
    {
    }

    proof fn lemma_key_facts()
        ensures
            "containerPort"@.len() == 13,
    {
        reveal_strlit("containerPort");
    }

    /// Field `containerPort` reads back as written, and is written only when it is set.
    pub proof fn lemma_reads_back_container_port(m: ContainerPortView)
        ensures
            i32_field(Self::to_fields(m), "containerPort"@) == Ok::<Option<i32>, DecodeErrorView>(m.container_port),
            (get_entry(Self::to_fields(m), "containerPort"@) is Some) == (m.container_port is Some),
    {
        Self::lemma_key_facts();
        let p1 = int_entry("containerPort"@, opt_int(m.container_port));
        assert(Self::to_fields(m) == p1);
    }

}

/// A container of a pod: its name, image and ports.
pub struct Container {
    pub name: Option<String>,
    pub image: Option<String>,
    pub ports: Option<Vec<ContainerPort>>,
}

pub struct ContainerView {
    pub name: Option<Seq<char>>,
    pub image: Option<Seq<char>>,
    pub ports: Option<Seq<ContainerPortView>>,
}

impl DeepView for Container {
    type V = ContainerView;

    open spec fn deep_view(&self) -> ContainerView {
        ContainerView {
            name: self.name.deep_view(),
            image: self.image.deep_view(),
            ports: self.ports.deep_view(),
        }
    }
}

impl Model for Container {
    open spec fn model_name() -> Seq<char> {
        "Container"@
    }

    open spec fn keys() -> Set<Seq<char>> {
        set!["name"@, "image"@, "ports"@]
    }

    open spec fn from_fields(f: Fields) -> Result<ContainerView, DecodeErrorView> {
        match str_field(f, "image"@) {
            Err(e) => Err(e),
            Ok(image) => match str_field(f, "name"@) {
                Err(e) => Err(e),
                Ok(name) => match models_field::<ContainerPort>(f, "ports"@) {
                    Err(e) => Err(e),
                    Ok(ports) => Ok(ContainerView { name, image, ports }),
                },
            },
        }
    }

    open spec fn to_fields(m: ContainerView) -> Fields {
        str_entry("name"@, m.name)
            + str_entry("image"@, m.image)
            + models_entry::<ContainerPort>("ports"@, m.ports)
    }

    proof fn lemma_round_trip(m: ContainerView) {
        Container::lemma_reads_back_name(m);
        Container::lemma_reads_back_image(m);
        Container::lemma_reads_back_ports(m);
    }

    proof fn lemma_reads_only_keys(f: Fields, g: Fields) {
        assert(field_value(f, "name"@) == field_value(g, "name"@));
        assert(str_field(f, "name"@) == str_field(g, "name"@));
        assert(field_value(f, "image"@) == field_value(g, "image"@));
        assert(str_field(f, "image"@) == str_field(g, "image"@));
        assert(field_value(f, "ports"@) == field_value(g, "ports"@));
        assert(models_field::<ContainerPort>(f, "ports"@) == models_field::<ContainerPort>(g, "ports"@));
    }

    proof fn lemma_writes_only_keys(m: ContainerView) {
        reveal_strlit("name");
        reveal_strlit("image");
        reveal_strlit("ports");
        assert("name"@.len() == 4);
        assert("image"@.len() == 5);
        assert("ports"@.len() == 5);
        assert("image"@[0] == 'i' && "ports"@[0] == 'p');
        let p0 = Seq::<(Seq<char>, ValueView)>::empty();
        let a0 = Set::<Seq<char>>::empty();
        lemma_push_entry(p0, "name"@, str_entry("name"@, m.name), a0);
        let p1 = p0 + str_entry("name"@, m.name);
        let a1 = a0.insert("name"@);
        lemma_push_entry(p1, "image"@, str_entry("image"@, m.image), a1);
        let p2 = p1 + str_entry("image"@, m.image);
        let a2 = a1.insert("image"@);
        lemma_push_entry(p2, "ports"@, models_entry::<ContainerPort>("ports"@, m.ports), a2);
        let p3 = p2 + models_entry::<ContainerPort>("ports"@, m.ports);
        let a3 = a2.insert("ports"@);
        assert(p3 =~= Self::to_fields(m));
        assert(a3 =~= Self::keys());
    }

    open spec fn key_seq() -> Seq<Seq<char>> {
        seq!["image"@, "name"@, "ports"@]
    }

    fn field_count() -> (r: usize) {
        3
    }

    fn field_key(i: usize) -> (r: Option<&'static str>) {
        if i == 0 {
            Some("image")
        } else if i == 1 {
            Some("name")
        } else if i == 2 {
            Some("ports")
        } else {
            None
        }
    }

    fn name() -> (r: &'static str) {
        "Container"
    }

    fn decode(s: &Struct) -> (r: Result<Container, DecodeError>) {
        let image = read_str(s, "image")?;
        let name = read_str(s, "name")?;
        let ports = read_models::<ContainerPort>(s, "ports")?;
        Ok(Container { name, image, ports })
    }

    fn encode(&self) -> (r: Struct) {
        let mut fields: Vec<(String, Value)> = Vec::new();
        let ghost start = fields.deep_view();
        write_str(&mut fields, "name", &self.name);
        write_str(&mut fields, "image", &self.image);
        write_models::<ContainerPort>(&mut fields, "ports", &self.ports);
        assert(start =~= Seq::<(Seq<char>, ValueView)>::empty());
        assert(fields.deep_view() =~= Self::to_fields(self.deep_view()));
        Struct { fields }
    }
}

impl Container {
    /// How an object reads as a `Container` depends on nothing but how each of
    /// its fields reads.
    pub proof fn lemma_reads_field_by_field(f: Fields, g: Fields)
        requires
            str_field(f, "name"@) == str_field(g, "name"@),
            str_field(f, "image"@) == str_field(g, "image"@),
            models_field::<ContainerPort>(f, "ports"@) == models_field::<ContainerPort>(g, "ports"@),
        ensures
            Self::from_fields(f) == Self::from_fields(g),
    {
    }

    proof fn lemma_key_facts()
        ensures
            "name"@.len() == 4,
            "image"@.len() == 5,
            "ports"@.len() == 5,
            "image"@[0] == 'i' && "ports"@[0] == 'p',
    {
        reveal_strlit("name");
        reveal_strlit("image");
        reveal_strlit("ports");
    }

    /// Field `name` reads back as written, and is written only when it is set.
    pub proof fn lemma_reads_back_name(m: ContainerView)
        ensures
            str_field(Self::to_fields(m), "name"@) == Ok::<Option<Seq<char>>, DecodeErrorView>(m.name),
            (get_entry(Self::to_fields(m), "name"@) is Some) == (m.name is Some),
    {
        Self::lemma_key_facts();
        let p1 = str_entry("name"@, m.name);
        let p2 = p1 + str_entry("image"@, m.image);
        let p3 = p2 + models_entry::<ContainerPort>("ports"@, m.ports);
        assert(Self::to_fields(m) == p3);
    }

    /// Field `image` reads back as written, and is written only when it is set.
    pub proof fn lemma_reads_back_image(m: ContainerView)
        ensures
            str_field(Self::to_fields(m), "image"@) == Ok::<Option<Seq<char>>, DecodeErrorView>(m.image),
            (get_entry(Self::to_fields(m), "image"@) is Some) == (m.image is Some),
    {
        Self::lemma_key_facts();
        let p1 = str_entry("name"@, m.name);
        let p2 = p1 + str_entry("image"@, m.image);
        let p3 = p2 + models_entry::<ContainerPort>("ports"@, m.ports);
        assert(Self::to_fields(m) == p3);
        assert(get_entry(p1, "image"@) == None::<ValueView>);
    }

    /// Field `ports` reads back as written, and is written only when it is set.
    pub proof fn lemma_reads_back_ports(m: ContainerView)
        ensures
            models_field::<ContainerPort>(Self::to_fields(m), "ports"@) == Ok::<Option<Seq<ContainerPortView>>, DecodeErrorView>(m.ports),
            (get_entry(Self::to_fields(m), "ports"@) is Some) == (m.ports is Some),
    {
        Self::lemma_key_facts();
        let p1 = str_entry("name"@, m.name);
        let p2 = p1 + str_entry("image"@, m.image);
        let p3 = p2 + models_entry::<ContainerPort>("ports"@, m.ports);
        assert(Self::to_fields(m) == p3);
        assert(get_entry(p2, "ports"@) == None::<ValueView>);
        if let Some(x) = m.ports {
            lemma_models_round_trip::<ContainerPort>(x);
        }
    }

}

/// What runs in a pod.
pub struct PodSpec {
    pub containers: Option<Vec<Container>>,
}

pub struct PodSpecView {
    pub containers: Option<Seq<ContainerView>>,
}

impl DeepView for PodSpec {
    type V = PodSpecView;

    open spec fn deep_view(&self) -> PodSpecView {
        PodSpecView {
            containers: self.containers.deep_view(),
        }
    }
}

impl Model for PodSpec {
    open spec fn model_name() -> Seq<char> {
        "PodSpec"@
    }

    open spec fn keys() -> Set<Seq<char>> {
        set!["containers"@]
    }

    open spec fn from_fields(f: Fields) -> Result<PodSpecView, DecodeErrorView> {
        match models_field::<Container>(f, "containers"@) {
            Err(e) => Err(e),
            Ok(containers) => Ok(PodSpecView { containers }),
        }
    }

    open spec fn to_fields(m: PodSpecView) -> Fields {
        models_entry::<Container>("containers"@, m.containers)
    }

    proof fn lemma_round_trip(m: PodSpecView) {
        PodSpec::lemma_reads_back_containers(m);
    }

    proof fn lemma_reads_only_keys(f: Fields, g: Fields) {
        assert(field_value(f, "containers"@) == field_value(g, "containers"@));
        assert(models_field::<Container>(f, "containers"@) == models_field::<Container>(g, "containers"@));
    }

    proof fn lemma_writes_only_keys(m: PodSpecView) {
        reveal_strlit("containers");
        assert("containers"@.len() == 10);
        let p0 = Seq::<(Seq<char>, ValueView)>::empty();
        let a0 = Set::<Seq<char>>::empty();
        lemma_push_entry(p0, "containers"@, models_entry::<Container>("containers"@, m.containers), a0);
        let p1 = p0 + models_entry::<Container>("containers"@, m.containers);
        let a1 = a0.insert("containers"@);
        assert(p1 =~= Self::to_fields(m));
        assert(a1 =~= Self::keys());
    }

    open spec fn key_seq() -> Seq<Seq<char>> {
        seq!["containers"@]
    }

    fn field_count() -> (r: usize) {
        1
    }

    fn field_key(i: usize) -> (r: Option<&'static str>) {
        if i == 0 {
            Some("containers")
        } else {
            None
        }
    }

    fn name() -> (r: &'static str) {
        "PodSpec"
    }

    fn decode(s: &Struct) -> (r: Result<PodSpec, DecodeError>) {
        let containers = read_models::<Container>(s, "containers")?;
        Ok(PodSpec { containers })
    }

    fn encode(&self) -> (r: Struct) {
        let mut fields: Vec<(String, Value)> = Vec::new();
        let ghost start = fields.deep_view();
        write_models::<Container>(&mut fields, "containers", &self.containers);
        assert(start =~= Seq::<(Seq<char>, ValueView)>::empty());
        assert(fields.deep_view() =~= Self::to_fields(self.deep_view()));
        Struct { fields }
    }
}

impl PodSpec {
    /// How an object reads as a `PodSpec` depends on nothing but how each of
    /// its fields reads.
    pub proof fn lemma_reads_field_by_field(f: Fields, g: Fields)
        requires
            models_field::<Container>(f, "containers"@) == models_field::<Container>(g, "containers"@),
        ensures
            Self::from_fields(f) == Self::from_fields(g),
    {
    }

    proof fn lemma_key_facts()
        ensures
            "containers"@.len() == 10,
    {
        reveal_strlit("containers");
    }

    /// Field `containers` reads back as written, and is written only when it is set.
    pub proof fn lemma_reads_back_containers(m: PodSpecView)
        ensures
            models_field::<Container>(Self::to_fields(m), "containers"@) == Ok::<Option<Seq<ContainerView>>, DecodeErrorView>(m.containers),
            (get_entry(Self::to_fields(m), "containers"@) is Some) == (m.containers is Some),
    {
        Self::lemma_key_facts();
        let p1 = models_entry::<Container>("containers"@, m.containers);
        assert(Self::to_fields(m) == p1);
        if let Some(x) = m.containers {
            lemma_models_round_trip::<Container>(x);
        }
    }

}

/// The pods that a workload creates: their metadata and spec.
pub struct PodTemplateSpec {
    pub metadata: Option<ObjectMeta>,
    pub spec: Option<PodSpec>,
}

pub struct PodTemplateSpecView {
    pub metadata: Option<ObjectMetaView>,
    pub spec: Option<PodSpecView>,
}

impl DeepView for PodTemplateSpec {
    type V = PodTemplateSpecView;

    open spec fn deep_view(&self) -> PodTemplateSpecView {
        PodTemplateSpecView {
            metadata: self.metadata.deep_view(),
            spec: self.spec.deep_view(),
        }
    }
}

impl Model for PodTemplateSpec {
    open spec fn model_name() -> Seq<char> {
        "PodTemplateSpec"@
    }

    open spec fn keys() -> Set<Seq<char>> {
        set!["metadata"@, "spec"@]
    }

    open spec fn from_fields(f: Fields) -> Result<PodTemplateSpecView, DecodeErrorView> {
        match model_field::<ObjectMeta>(f, "metadata"@) {
            Err(e) => Err(e),
            Ok(metadata) => match model_field::<PodSpec>(f, "spec"@) {
                Err(e) => Err(e),
                Ok(spec) => Ok(PodTemplateSpecView { metadata, spec }),
            },
        }
    }

    open spec fn to_fields(m: PodTemplateSpecView) -> Fields {
        model_entry::<ObjectMeta>("metadata"@, m.metadata)
            + model_entry::<PodSpec>("spec"@, m.spec)
    }

    proof fn lemma_round_trip(m: PodTemplateSpecView) {
        PodTemplateSpec::lemma_reads_back_metadata(m);
        PodTemplateSpec::lemma_reads_back_spec(m);
    }

    proof fn lemma_reads_only_keys(f: Fields, g: Fields) {
        assert(field_value(f, "metadata"@) == field_value(g, "metadata"@));
        assert(model_field::<ObjectMeta>(f, "metadata"@) == model_field::<ObjectMeta>(g, "metadata"@));
        assert(field_value(f, "spec"@) == field_value(g, "spec"@));
        assert(model_field::<PodSpec>(f, "spec"@) == model_field::<PodSpec>(g, "spec"@));
    }

    proof fn lemma_writes_only_keys(m: PodTemplateSpecView) {
        reveal_strlit("metadata");
        reveal_strlit("spec");
        assert("metadata"@.len() == 8);
        assert("spec"@.len() == 4);
        let p0 = Seq::<(Seq<char>, ValueView)>::empty();
        let a0 = Set::<Seq<char>>::empty();
        lemma_push_entry(p0, "metadata"@, model_entry::<ObjectMeta>("metadata"@, m.metadata), a0);
        let p1 = p0 + model_entry::<ObjectMeta>("metadata"@, m.metadata);
        let a1 = a0.insert("metadata"@);
        lemma_push_entry(p1, "spec"@, model_entry::<PodSpec>("spec"@, m.spec), a1);
        let p2 = p1 + model_entry::<PodSpec>("spec"@, m.spec);
        let a2 = a1.insert("spec"@);
        assert(p2 =~= Self::to_fields(m));
        assert(a2 =~= Self::keys());
    }

    open spec fn key_seq() -> Seq<Seq<char>> {
        seq!["metadata"@, "spec"@]
    }

    fn field_count() -> (r: usize) {
        2
    }

    fn field_key(i: usize) -> (r: Option<&'static str>) {
        if i == 0 {
            Some("metadata")
        } else if i == 1 {
            Some("spec")
        } else {
            None
        }
    }

    fn name() -> (r: &'static str) {
        "PodTemplateSpec"
    }

    fn decode(s: &Struct) -> (r: Result<PodTemplateSpec, DecodeError>) {
        let metadata = read_model::<ObjectMeta>(s, "metadata")?;
        let spec = read_model::<PodSpec>(s, "spec")?;
        Ok(PodTemplateSpec { metadata, spec })
    }

    fn encode(&self) -> (r: Struct) {
        let mut fields: Vec<(String, Value)> = Vec::new();
        let ghost start = fields.deep_view();
        write_model::<ObjectMeta>(&mut fields, "metadata", &self.metadata);
        write_model::<PodSpec>(&mut fields, "spec", &self.spec);
        assert(start =~= Seq::<(Seq<char>, ValueView)>::empty());
        assert(fields.deep_view() =~= Self::to_fields(self.deep_view()));
        Struct { fields }
    }
}

impl PodTemplateSpec {
    /// How an object reads as a `PodTemplateSpec` depends on nothing but how each of
    /// its fields reads.
    pub proof fn lemma_reads_field_by_field(f: Fields, g: Fields)
        requires
            model_field::<ObjectMeta>(f, "metadata"@) == model_field::<ObjectMeta>(g, "metadata"@),
            model_field::<PodSpec>(f, "spec"@) == model_field::<PodSpec>(g, "spec"@),
        ensures
            Self::from_fields(f) == Self::from_fields(g),
    {
    }

    proof fn lemma_key_facts()
        ensures
            "metadata"@.len() == 8,
            "spec"@.len() == 4,
    {
        reveal_strlit("metadata");
        reveal_strlit("spec");
    }

    /// Field `metadata` reads back as written, and is written only when it is set.
    pub proof fn lemma_reads_back_metadata(m: PodTemplateSpecView)
        ensures
            model_field::<ObjectMeta>(Self::to_fields(m), "metadata"@) == Ok::<Option<ObjectMetaView>, DecodeErrorView>(m.metadata),
            (get_entry(Self::to_fields(m), "metadata"@) is Some) == (m.metadata is Some),
    {
        Self::lemma_key_facts();
        let p1 = model_entry::<ObjectMeta>("metadata"@, m.metadata);
        let p2 = p1 + model_entry::<PodSpec>("spec"@, m.spec);
        assert(Self::to_fields(m) == p2);
        if let Some(x) = m.metadata {
            ObjectMeta::lemma_round_trip(x);
        }
    }

    /// Field `spec` reads back as written, and is written only when it is set.
    pub proof fn lemma_reads_back_spec(m: PodTemplateSpecView)
        ensures
            model_field::<PodSpec>(Self::to_fields(m), "spec"@) == Ok::<Option<PodSpecView>, DecodeErrorView>(m.spec),
            (get_entry(Self::to_fields(m), "spec"@) is Some) == (m.spec is Some),
    {
        Self::lemma_key_facts();
        let p1 = model_entry::<ObjectMeta>("metadata"@, m.metadata);
        let p2 = p1 + model_entry::<PodSpec>("spec"@, m.spec);
        assert(Self::to_fields(m) == p2);
        assert(get_entry(p1, "spec"@) == None::<ValueView>);
        if let Some(x) = m.spec {
            PodSpec::lemma_round_trip(x);
        }
    }

}

/// How a rolling update may go beyond, or below, the wanted number of pods.
pub struct RollingUpdateDeployment {
    pub max_surge: Option<IntOrString>,
    pub max_unavailable: Option<IntOrString>,
}

pub struct RollingUpdateDeploymentView {
    pub max_surge: Option<IntOrStringView>,
    pub max_unavailable: Option<IntOrStringView>,
}

impl DeepView for RollingUpdateDeployment {
    type V = RollingUpdateDeploymentView;

    open spec fn deep_view(&self) -> RollingUpdateDeploymentView {
        RollingUpdateDeploymentView {
            max_surge: self.max_surge.deep_view(),
            max_unavailable: self.max_unavailable.deep_view(),
        }
    }
}

impl Model for RollingUpdateDeployment {
    open spec fn model_name() -> Seq<char> {
        "RollingUpdateDeployment"@
    }

    open spec fn keys() -> Set<Seq<char>> {
        set!["maxSurge"@, "maxUnavailable"@]
    }

    open spec fn from_fields(f: Fields) -> Result<RollingUpdateDeploymentView, DecodeErrorView> {
        match int_or_string_field(f, "maxSurge"@) {
            Err(e) => Err(e),
            Ok(max_surge) => match int_or_string_field(f, "maxUnavailable"@) {
                Err(e) => Err(e),
                Ok(max_unavailable) => Ok(RollingUpdateDeploymentView { max_surge, max_unavailable }),
            },
        }
    }

    open spec fn to_fields(m: RollingUpdateDeploymentView) -> Fields {
        int_or_string_entry("maxSurge"@, m.max_surge)
            + int_or_string_entry("maxUnavailable"@, m.max_unavailable)
    }

    proof fn lemma_round_trip(m: RollingUpdateDeploymentView) {
        RollingUpdateDeployment::lemma_reads_back_max_surge(m);
        RollingUpdateDeployment::lemma_reads_back_max_unavailable(m);
    }

    proof fn lemma_reads_only_keys(f: Fields, g: Fields) {
        assert(field_value(f, "maxSurge"@) == field_value(g, "maxSurge"@));
        assert(int_or_string_field(f, "maxSurge"@) == int_or_string_field(g, "maxSurge"@));
        assert(field_value(f, "maxUnavailable"@) == field_value(g, "maxUnavailable"@));
        assert(int_or_string_field(f, "maxUnavailable"@) == int_or_string_field(g, "maxUnavailable"@));
    }

    proof fn lemma_writes_only_keys(m: RollingUpdateDeploymentView) {
        reveal_strlit("maxSurge");
        reveal_strlit("maxUnavailable");
        assert("maxSurge"@.len() == 8);
        assert("maxUnavailable"@.len() == 14);
        let p0 = Seq::<(Seq<char>, ValueView)>::empty();
        let a0 = Set::<Seq<char>>::empty();
        lemma_push_entry(p0, "maxSurge"@, int_or_string_entry("maxSurge"@, m.max_surge), a0);
        let p1 = p0 + int_or_string_entry("maxSurge"@, m.max_surge);
        let a1 = a0.insert("maxSurge"@);
        lemma_push_entry(p1, "maxUnavailable"@, int_or_string_entry("maxUnavailable"@, m.max_unavailable), a1);
        let p2 = p1 + int_or_string_entry("maxUnavailable"@, m.max_unavailable);
        let a2 = a1.insert("maxUnavailable"@);
        assert(p2 =~= Self::to_fields(m));
        assert(a2 =~= Self::keys());
    }

    open spec fn key_seq() -> Seq<Seq<char>> {
        seq!["maxSurge"@, "maxUnavailable"@]
    }

    fn field_count() -> (r: usize) {
        2
    }

    fn field_key(i: usize) -> (r: Option<&'static str>) {
        if i == 0 {
            Some("maxSurge")
        } else if i == 1 {
            Some("maxUnavailable")
        } else {
            None
        }
    }

    fn name() -> (r: &'static str) {
        "RollingUpdateDeployment"
    }

    fn decode(s: &Struct) -> (r: Result<RollingUpdateDeployment, DecodeError>) {
        let max_surge = read_int_or_string(s, "maxSurge")?;
        let max_unavailable = read_int_or_string(s, "maxUnavailable")?;
        Ok(RollingUpdateDeployment { max_surge, max_unavailable })
    }

    fn encode(&self) -> (r: Struct) {
        let mut fields: Vec<(String, Value)> = Vec::new();
        let ghost start = fields.deep_view();
        write_int_or_string(&mut fields, "maxSurge", &self.max_surge);
        write_int_or_string(&mut fields, "maxUnavailable", &self.max_unavailable);
        assert(start =~= Seq::<(Seq<char>, ValueView)>::empty());
        assert(fields.deep_view() =~= Self::to_fields(self.deep_view()));
        Struct { fields }
    }
}

impl RollingUpdateDeployment {
    /// How an object reads as a `RollingUpdateDeployment` depends on nothing but how each of
    /// its fields reads.
    pub proof fn lemma_reads_field_by_field(f: Fields, g: Fields)
        requires
            int_or_string_field(f, "maxSurge"@) == int_or_string_field(g, "maxSurge"@),
            int_or_string_field(f, "maxUnavailable"@) == int_or_string_field(g, "maxUnavailable"@),
        ensures
            Self::from_fields(f) == Self::from_fields(g),
    {
    }

    proof fn lemma_key_facts()
        ensures
            "maxSurge"@.len() == 8,
            "maxUnavailable"@.len() == 14,
    {
        reveal_strlit("maxSurge");
        reveal_strlit("maxUnavailable");
    }

    /// Field `maxSurge` reads back as written, and is written only when it is set.
    pub proof fn lemma_reads_back_max_surge(m: RollingUpdateDeploymentView)
        ensures
            int_or_string_field(Self::to_fields(m), "maxSurge"@) == Ok::<Option<IntOrStringView>, DecodeErrorView>(m.max_surge),
            (get_entry(Self::to_fields(m), "maxSurge"@) is Some) == (m.max_surge is Some),
    {
        Self::lemma_key_facts();
        let p1 = int_or_string_entry("maxSurge"@, m.max_surge);
        let p2 = p1 + int_or_string_entry("maxUnavailable"@, m.max_unavailable);
        assert(Self::to_fields(m) == p2);
    }

    /// Field `maxUnavailable` reads back as written, and is written only when it is set.
    pub proof fn lemma_reads_back_max_unavailable(m: RollingUpdateDeploymentView)
        ensures
            int_or_string_field(Self::to_fields(m), "maxUnavailable"@) == Ok::<Option<IntOrStringView>, DecodeErrorView>(m.max_unavailable),
            (get_entry(Self::to_fields(m), "maxUnavailable"@) is Some) == (m.max_unavailable is Some),
    {
        Self::lemma_key_facts();
        let p1 = int_or_string_entry("maxSurge"@, m.max_surge);
        let p2 = p1 + int_or_string_entry("maxUnavailable"@, m.max_unavailable);
        assert(Self::to_fields(m) == p2);
        assert(get_entry(p1, "maxUnavailable"@) == None::<ValueView>);
    }

}

/// How a Deployment replaces its pods.
pub struct DeploymentStrategy {
    pub rolling_update: Option<RollingUpdateDeployment>,
    pub strategy_type: Option<String>,
}

pub struct DeploymentStrategyView {
    pub rolling_update: Option<RollingUpdateDeploymentView>,
    pub strategy_type: Option<Seq<char>>,
}

impl DeepView for DeploymentStrategy {
    type V = DeploymentStrategyView;

    open spec fn deep_view(&self) -> DeploymentStrategyView {
        DeploymentStrategyView {
            rolling_update: self.rolling_update.deep_view(),
            strategy_type: self.strategy_type.deep_view(),
        }
    }
}

impl Model for DeploymentStrategy {
    open spec fn model_name() -> Seq<char> {
        "DeploymentStrategy"@
    }

    open spec fn keys() -> Set<Seq<char>> {
        set!["rollingUpdate"@, "type"@]
    }

    open spec fn from_fields(f: Fields) -> Result<DeploymentStrategyView, DecodeErrorView> {
        match model_field::<RollingUpdateDeployment>(f, "rollingUpdate"@) {
            Err(e) => Err(e),
            Ok(rolling_update) => match str_field(f, "type"@) {
                Err(e) => Err(e),
                Ok(strategy_type) => Ok(DeploymentStrategyView { rolling_update, strategy_type }),
            },
        }
    }

    open spec fn to_fields(m: DeploymentStrategyView) -> Fields {
        model_entry::<RollingUpdateDeployment>("rollingUpdate"@, m.rolling_update)
            + str_entry("type"@, m.strategy_type)
    }

    proof fn lemma_round_trip(m: DeploymentStrategyView) {
        DeploymentStrategy::lemma_reads_back_rolling_update(m);
        DeploymentStrategy::lemma_reads_back_strategy_type(m);
    }

    proof fn lemma_reads_only_keys(f: Fields, g: Fields) {
        assert(field_value(f, "rollingUpdate"@) == field_value(g, "rollingUpdate"@));
        assert(model_field::<RollingUpdateDeployment>(f, "rollingUpdate"@) == model_field::<RollingUpdateDeployment>(g, "rollingUpdate"@));
        assert(field_value(f, "type"@) == field_value(g, "type"@));
        assert(str_field(f, "type"@) == str_field(g, "type"@));
    }

    proof fn lemma_writes_only_keys(m: DeploymentStrategyView) {
        reveal_strlit("rollingUpdate");
        reveal_strlit("type");
        assert("rollingUpdate"@.len() == 13);
        assert("type"@.len() == 4);
        let p0 = Seq::<(Seq<char>, ValueView)>::empty();
        let a0 = Set::<Seq<char>>::empty();
        lemma_push_entry(p0, "rollingUpdate"@, model_entry::<RollingUpdateDeployment>("rollingUpdate"@, m.rolling_update), a0);
        let p1 = p0 + model_entry::<RollingUpdateDeployment>("rollingUpdate"@, m.rolling_update);
        let a1 = a0.insert("rollingUpdate"@);
        lemma_push_entry(p1, "type"@, str_entry("type"@, m.strategy_type), a1);
        let p2 = p1 + str_entry("type"@, m.strategy_type);
        let a2 = a1.insert("type"@);
        assert(p2 =~= Self::to_fields(m));
        assert(a2 =~= Self::keys());
    }

    open spec fn key_seq() -> Seq<Seq<char>> {
        seq!["rollingUpdate"@, "type"@]
    }

    fn field_count() -> (r: usize) {
        2
    }

    fn field_key(i: usize) -> (r: Option<&'static str>) {
        if i == 0 {
            Some("rollingUpdate")
        } else if i == 1 {
            Some("type")
        } else {
            None
        }
    }

    fn name() -> (r: &'static str) {
        "DeploymentStrategy"
    }

    fn decode(s: &Struct) -> (r: Result<DeploymentStrategy, DecodeError>) {
        let rolling_update = read_model::<RollingUpdateDeployment>(s, "rollingUpdate")?;
        let strategy_type = read_str(s, "type")?;
        Ok(DeploymentStrategy { rolling_update, strategy_type })
    }

    fn encode(&self) -> (r: Struct) {
        let mut fields: Vec<(String, Value)> = Vec::new();
        let ghost start = fields.deep_view();
        write_model::<RollingUpdateDeployment>(&mut fields, "rollingUpdate", &self.rolling_update);
        write_str(&mut fields, "type", &self.strategy_type);
        assert(start =~= Seq::<(Seq<char>, ValueView)>::empty());
        assert(fields.deep_view() =~= Self::to_fields(self.deep_view()));
        Struct { fields }
    }
}

impl DeploymentStrategy {
    /// How an object reads as a `DeploymentStrategy` depends on nothing but how each of
    /// its fields reads.
    pub proof fn lemma_reads_field_by_field(f: Fields, g: Fields)
        requires
            model_field::<RollingUpdateDeployment>(f, "rollingUpdate"@) == model_field::<RollingUpdateDeployment>(g, "rollingUpdate"@),
            str_field(f, "type"@) == str_field(g, "type"@),
        ensures
            Self::from_fields(f) == Self::from_fields(g),
    {
    }

    proof fn lemma_key_facts()
        ensures
            "rollingUpdate"@.len() == 13,
            "type"@.len() == 4,
    {
        reveal_strlit("rollingUpdate");
        reveal_strlit("type");
    }

    /// Field `rollingUpdate` reads back as written, and is written only when it is set.
    pub proof fn lemma_reads_back_rolling_update(m: DeploymentStrategyView)
        ensures
            model_field::<RollingUpdateDeployment>(Self::to_fields(m), "rollingUpdate"@) == Ok::<Option<RollingUpdateDeploymentView>, DecodeErrorView>(m.rolling_update),
            (get_entry(Self::to_fields(m), "rollingUpdate"@) is Some) == (m.rolling_update is Some),
    {
        Self::lemma_key_facts();
        let p1 = model_entry::<RollingUpdateDeployment>("rollingUpdate"@, m.rolling_update);
        let p2 = p1 + str_entry("type"@, m.strategy_type);
        assert(Self::to_fields(m) == p2);
        if let Some(x) = m.rolling_update {
            RollingUpdateDeployment::lemma_round_trip(x);
        }
    }

    /// Field `type` reads back as written, and is written only when it is set.
    pub proof fn lemma_reads_back_strategy_type(m: DeploymentStrategyView)
        ensures
            str_field(Self::to_fields(m), "type"@) == Ok::<Option<Seq<char>>, DecodeErrorView>(m.strategy_type),
            (get_entry(Self::to_fields(m), "type"@) is Some) == (m.strategy_type is Some),
    {
        Self::lemma_key_facts();
        let p1 = model_entry::<RollingUpdateDeployment>("rollingUpdate"@, m.rolling_update);
        let p2 = p1 + str_entry("type"@, m.strategy_type);
        assert(Self::to_fields(m) == p2);
        assert(get_entry(p1, "type"@) == None::<ValueView>);
    }

}

/// The desired state of a Deployment.
pub struct DeploymentSpec {
    pub min_ready_seconds: Option<i32>,
    pub paused: Option<bool>,
    pub progress_deadline_seconds: Option<i32>,
    pub replicas: Option<i32>,
    pub revision_history_limit: Option<i32>,
    /// Selects the pods that the Deployment manages.
    pub selector: Option<LabelSelector>,
    pub strategy: Option<DeploymentStrategy>,
    pub template: Option<PodTemplateSpec>,
}

pub struct DeploymentSpecView {
    pub min_ready_seconds: Option<i32>,
    pub paused: Option<bool>,
    pub progress_deadline_seconds: Option<i32>,
    pub replicas: Option<i32>,
    pub revision_history_limit: Option<i32>,
    pub selector: Option<LabelSelectorView>,
    pub strategy: Option<DeploymentStrategyView>,
    pub template: Option<PodTemplateSpecView>,
}

impl DeepView for DeploymentSpec {
    type V = DeploymentSpecView;

    open spec fn deep_view(&self) -> DeploymentSpecView {
        DeploymentSpecView {
            min_ready_seconds: self.min_ready_seconds.deep_view(),
            paused: self.paused.deep_view(),
            progress_deadline_seconds: self.progress_deadline_seconds.deep_view(),
            replicas: self.replicas.deep_view(),
            revision_history_limit: self.revision_history_limit.deep_view(),
            selector: self.selector.deep_view(),
            strategy: self.strategy.deep_view(),
            template: self.template.deep_view(),
        }
    }
}

impl Model for DeploymentSpec {
    open spec fn model_name() -> Seq<char> {
        "DeploymentSpec"@
    }

    open spec fn keys() -> Set<Seq<char>> {
        set!["minReadySeconds"@, "paused"@, "progressDeadlineSeconds"@, "replicas"@, "revisionHistoryLimit"@, "selector"@, "strategy"@, "template"@]
    }

    open spec fn from_fields(f: Fields) -> Result<DeploymentSpecView, DecodeErrorView> {
        match i32_field(f, "minReadySeconds"@) {
            Err(e) => Err(e),
            Ok(min_ready_seconds) => match bool_field(f, "paused"@) {
                Err(e) => Err(e),
                Ok(paused) => match i32_field(f, "progressDeadlineSeconds"@) {
                    Err(e) => Err(e),
                    Ok(progress_deadline_seconds) => match i32_field(f, "replicas"@) {
                        Err(e) => Err(e),
                        Ok(replicas) => match i32_field(f, "revisionHistoryLimit"@) {
                            Err(e) => Err(e),
                            Ok(revision_history_limit) => match model_field::<LabelSelector>(f, "selector"@) {
                                Err(e) => Err(e),
                                Ok(selector) => match model_field::<DeploymentStrategy>(f, "strategy"@) {
                                    Err(e) => Err(e),
                                    Ok(strategy) => match model_field::<PodTemplateSpec>(f, "template"@) {
                                        Err(e) => Err(e),
                                        Ok(template) => Ok(DeploymentSpecView { min_ready_seconds, paused, progress_deadline_seconds, replicas, revision_history_limit, selector, strategy, template }),
                                    },
                                },
                            },
                        },
                    },
                },
            },
        }
    }

    open spec fn to_fields(m: DeploymentSpecView) -> Fields {
        int_entry("minReadySeconds"@, opt_int(m.min_ready_seconds))
            + bool_entry("paused"@, m.paused)
            + int_entry("progressDeadlineSeconds"@, opt_int(m.progress_deadline_seconds))
            + int_entry("replicas"@, opt_int(m.replicas))
            + int_entry("revisionHistoryLimit"@, opt_int(m.revision_history_limit))
            + model_entry::<LabelSelector>("selector"@, m.selector)
            + model_entry::<DeploymentStrategy>("strategy"@, m.strategy)
            + model_entry::<PodTemplateSpec>("template"@, m.template)
    }

    proof fn lemma_round_trip(m: DeploymentSpecView) {
        DeploymentSpec::lemma_reads_back_min_ready_seconds(m);
        DeploymentSpec::lemma_reads_back_paused(m);
        DeploymentSpec::lemma_reads_back_progress_deadline_seconds(m);
        DeploymentSpec::lemma_reads_back_replicas(m);
        DeploymentSpec::lemma_reads_back_revision_history_limit(m);
        DeploymentSpec::lemma_reads_back_selector(m);
        DeploymentSpec::lemma_reads_back_strategy(m);
        DeploymentSpec::lemma_reads_back_template(m);
    }

    proof fn lemma_reads_only_keys(f: Fields, g: Fields) {
        assert(field_value(f, "minReadySeconds"@) == field_value(g, "minReadySeconds"@));
        assert(i32_field(f, "minReadySeconds"@) == i32_field(g, "minReadySeconds"@));
        assert(field_value(f, "paused"@) == field_value(g, "paused"@));
        assert(bool_field(f, "paused"@) == bool_field(g, "paused"@));
        assert(field_value(f, "progressDeadlineSeconds"@) == field_value(g, "progressDeadlineSeconds"@));
        assert(i32_field(f, "progressDeadlineSeconds"@) == i32_field(g, "progressDeadlineSeconds"@));
        assert(field_value(f, "replicas"@) == field_value(g, "replicas"@));
        assert(i32_field(f, "replicas"@) == i32_field(g, "replicas"@));
        assert(field_value(f, "revisionHistoryLimit"@) == field_value(g, "revisionHistoryLimit"@));
        assert(i32_field(f, "revisionHistoryLimit"@) == i32_field(g, "revisionHistoryLimit"@));
        assert(field_value(f, "selector"@) == field_value(g, "selector"@));
        assert(model_field::<LabelSelector>(f, "selector"@) == model_field::<LabelSelector>(g, "selector"@));
        assert(field_value(f, "strategy"@) == field_value(g, "strategy"@));
        assert(model_field::<DeploymentStrategy>(f, "strategy"@) == model_field::<DeploymentStrategy>(g, "strategy"@));
        assert(field_value(f, "template"@) == field_value(g, "template"@));
        assert(model_field::<PodTemplateSpec>(f, "template"@) == model_field::<PodTemplateSpec>(g, "template"@));
    }

    proof fn lemma_writes_only_keys(m: DeploymentSpecView) {
        reveal_strlit("minReadySeconds");
        reveal_strlit("paused");
        reveal_strlit("progressDeadlineSeconds");
        reveal_strlit("replicas");
        reveal_strlit("revisionHistoryLimit");
        reveal_strlit("selector");
        reveal_strlit("strategy");
        reveal_strlit("template");
        assert("minReadySeconds"@.len() == 15);
        assert("paused"@.len() == 6);
        assert("progressDeadlineSeconds"@.len() == 23);
        assert("replicas"@.len() == 8);
        assert("revisionHistoryLimit"@.len() == 20);
        assert("selector"@.len() == 8);
        assert("strategy"@.len() == 8);
        assert("template"@.len() == 8);
        assert("replicas"@[0] == 'r' && "selector"@[0] == 's');
        assert("replicas"@[0] == 'r' && "strategy"@[0] == 's');
        assert("replicas"@[0] == 'r' && "template"@[0] == 't');
        assert("selector"@[1] == 'e' && "strategy"@[1] == 't');
        assert("selector"@[0] == 's' && "template"@[0] == 't');
        assert("strategy"@[0] == 's' && "template"@[0] == 't');
        let p0 = Seq::<(Seq<char>, ValueView)>::empty();
        let a0 = Set::<Seq<char>>::empty();
        lemma_push_entry(p0, "minReadySeconds"@, int_entry("minReadySeconds"@, opt_int(m.min_ready_seconds)), a0);
        let p1 = p0 + int_entry("minReadySeconds"@, opt_int(m.min_ready_seconds));
        let a1 = a0.insert("minReadySeconds"@);
        lemma_push_entry(p1, "paused"@, bool_entry("paused"@, m.paused), a1);
        let p2 = p1 + bool_entry("paused"@, m.paused);
        let a2 = a1.insert("paused"@);
        lemma_push_entry(p2, "progressDeadlineSeconds"@, int_entry("progressDeadlineSeconds"@, opt_int(m.progress_deadline_seconds)), a2);
        let p3 = p2 + int_entry("progressDeadlineSeconds"@, opt_int(m.progress_deadline_seconds));
        let a3 = a2.insert("progressDeadlineSeconds"@);
        lemma_push_entry(p3, "replicas"@, int_entry("replicas"@, opt_int(m.replicas)), a3);
        let p4 = p3 + int_entry("replicas"@, opt_int(m.replicas));
        let a4 = a3.insert("replicas"@);
        lemma_push_entry(p4, "revisionHistoryLimit"@, int_entry("revisionHistoryLimit"@, opt_int(m.revision_history_limit)), a4);
        let p5 = p4 + int_entry("revisionHistoryLimit"@, opt_int(m.revision_history_limit));
        let a5 = a4.insert("revisionHistoryLimit"@);
        lemma_push_entry(p5, "selector"@, model_entry::<LabelSelector>("selector"@, m.selector), a5);
        let p6 = p5 + model_entry::<LabelSelector>("selector"@, m.selector);
        let a6 = a5.insert("selector"@);
        lemma_push_entry(p6, "strategy"@, model_entry::<DeploymentStrategy>("strategy"@, m.strategy), a6);
        let p7 = p6 + model_entry::<DeploymentStrategy>("strategy"@, m.strategy);
        let a7 = a6.insert("strategy"@);
        lemma_push_entry(p7, "template"@, model_entry::<PodTemplateSpec>("template"@, m.template), a7);
        let p8 = p7 + model_entry::<PodTemplateSpec>("template"@, m.template);
        let a8 = a7.insert("template"@);
        assert(p8 =~= Self::to_fields(m));
        assert(a8 =~= Self::keys());
    }

    open spec fn key_seq() -> Seq<Seq<char>> {
        seq!["minReadySeconds"@, "paused"@, "progressDeadlineSeconds"@, "replicas"@, "revisionHistoryLimit"@, "selector"@, "strategy"@, "template"@]
    }

    fn field_count() -> (r: usize) {
        8
    }

    fn field_key(i: usize) -> (r: Option<&'static str>) {
        if i == 0 {
            Some("minReadySeconds")
        } else if i == 1 {
            Some("paused")
        } else if i == 2 {
            Some("progressDeadlineSeconds")
        } else if i == 3 {
            Some("replicas")
        } else if i == 4 {
            Some("revisionHistoryLimit")
        } else if i == 5 {
            Some("selector")
        } else if i == 6 {
            Some("strategy")
        } else if i == 7 {
            Some("template")
        } else {
            None
        }
    }

    fn name() -> (r: &'static str) {
        "DeploymentSpec"
    }

    fn decode(s: &Struct) -> (r: Result<DeploymentSpec, DecodeError>) {
        let min_ready_seconds = read_i32(s, "minReadySeconds")?;
        let paused = read_bool(s, "paused")?;
        let progress_deadline_seconds = read_i32(s, "progressDeadlineSeconds")?;
        let replicas = read_i32(s, "replicas")?;
        let revision_history_limit = read_i32(s, "revisionHistoryLimit")?;
        let selector = read_model::<LabelSelector>(s, "selector")?;
        let strategy = read_model::<DeploymentStrategy>(s, "strategy")?;
        let template = read_model::<PodTemplateSpec>(s, "template")?;
        Ok(DeploymentSpec { min_ready_seconds, paused, progress_deadline_seconds, replicas, revision_history_limit, selector, strategy, template })
    }

    fn encode(&self) -> (r: Struct) {
        let mut fields: Vec<(String, Value)> = Vec::new();
        let ghost start = fields.deep_view();
        write_i32(&mut fields, "minReadySeconds", &self.min_ready_seconds);
        write_bool(&mut fields, "paused", &self.paused);
        write_i32(&mut fields, "progressDeadlineSeconds", &self.progress_deadline_seconds);
        write_i32(&mut fields, "replicas", &self.replicas);
        write_i32(&mut fields, "revisionHistoryLimit", &self.revision_history_limit);
        write_model::<LabelSelector>(&mut fields, "selector", &self.selector);
        write_model::<DeploymentStrategy>(&mut fields, "strategy", &self.strategy);
        write_model::<PodTemplateSpec>(&mut fields, "template", &self.template);
        assert(start =~= Seq::<(Seq<char>, ValueView)>::empty());
        assert(fields.deep_view() =~= Self::to_fields(self.deep_view()));
        Struct { fields }
    }
}

impl DeploymentSpec {
    /// How an object reads as a `DeploymentSpec` depends on nothing but how each of
    /// its fields reads.
    pub proof fn lemma_reads_field_by_field(f: Fields, g: Fields)
        requires
            i32_field(f, "minReadySeconds"@) == i32_field(g, "minReadySeconds"@),
            bool_field(f, "paused"@) == bool_field(g, "paused"@),
            i32_field(f, "progressDeadlineSeconds"@) == i32_field(g, "progressDeadlineSeconds"@),
            i32_field(f, "replicas"@) == i32_field(g, "replicas"@),
            i32_field(f, "revisionHistoryLimit"@) == i32_field(g, "revisionHistoryLimit"@),
            model_field::<LabelSelector>(f, "selector"@) == model_field::<LabelSelector>(g, "selector"@),
            model_field::<DeploymentStrategy>(f, "strategy"@) == model_field::<DeploymentStrategy>(g, "strategy"@),
            model_field::<PodTemplateSpec>(f, "template"@) == model_field::<PodTemplateSpec>(g, "template"@),
        ensures
            Self::from_fields(f) == Self::from_fields(g),
    {
    }

    proof fn lemma_key_facts()
        ensures
            "minReadySeconds"@.len() == 15,
            "paused"@.len() == 6,
            "progressDeadlineSeconds"@.len() == 23,
            "replicas"@.len() == 8,
            "revisionHistoryLimit"@.len() == 20,
            "selector"@.len() == 8,
            "strategy"@.len() == 8,
            "template"@.len() == 8,
            "replicas"@[0] == 'r' && "selector"@[0] == 's',
            "replicas"@[0] == 'r' && "strategy"@[0] == 's',
            "replicas"@[0] == 'r' && "template"@[0] == 't',
            "selector"@[1] == 'e' && "strategy"@[1] == 't',
            "selector"@[0] == 's' && "template"@[0] == 't',
            "strategy"@[0] == 's' && "template"@[0] == 't',
    {
        reveal_strlit("minReadySeconds");
        reveal_strlit("paused");
        reveal_strlit("progressDeadlineSeconds");
        reveal_strlit("replicas");
        reveal_strlit("revisionHistoryLimit");
        reveal_strlit("selector");
        reveal_strlit("strategy");
        reveal_strlit("template");
    }

    /// Field `minReadySeconds` reads back as written, and is written only when it is set.
    pub proof fn lemma_reads_back_min_ready_seconds(m: DeploymentSpecView)
        ensures
            i32_field(Self::to_fields(m), "minReadySeconds"@) == Ok::<Option<i32>, DecodeErrorView>(m.min_ready_seconds),
            (get_entry(Self::to_fields(m), "minReadySeconds"@) is Some) == (m.min_ready_seconds is Some),
    {
        Self::lemma_key_facts();
        let p1 = int_entry("minReadySeconds"@, opt_int(m.min_ready_seconds));
        let p2 = p1 + bool_entry("paused"@, m.paused);
        let p3 = p2 + int_entry("progressDeadlineSeconds"@, opt_int(m.progress_deadline_seconds));
        let p4 = p3 + int_entry("replicas"@, opt_int(m.replicas));
        let p5 = p4 + int_entry("revisionHistoryLimit"@, opt_int(m.revision_history_limit));
        let p6 = p5 + model_entry::<LabelSelector>("selector"@, m.selector);
        let p7 = p6 + model_entry::<DeploymentStrategy>("strategy"@, m.strategy);
        let p8 = p7 + model_entry::<PodTemplateSpec>("template"@, m.template);
        assert(Self::to_fields(m) == p8);
    }

    /// Field `paused` reads back as written, and is written only when it is set.
    pub proof fn lemma_reads_back_paused(m: DeploymentSpecView)
        ensures
            bool_field(Self::to_fields(m), "paused"@) == Ok::<Option<bool>, DecodeErrorView>(m.paused),
            (get_entry(Self::to_fields(m), "paused"@) is Some) == (m.paused is Some),
    {
        Self::lemma_key_facts();
        let p1 = int_entry("minReadySeconds"@, opt_int(m.min_ready_seconds));
        let p2 = p1 + bool_entry("paused"@, m.paused);
        let p3 = p2 + int_entry("progressDeadlineSeconds"@, opt_int(m.progress_deadline_seconds));
        let p4 = p3 + int_entry("replicas"@, opt_int(m.replicas));
        let p5 = p4 + int_entry("revisionHistoryLimit"@, opt_int(m.revision_history_limit));
        let p6 = p5 + model_entry::<LabelSelector>("selector"@, m.selector);
        let p7 = p6 + model_entry::<DeploymentStrategy>("strategy"@, m.strategy);
        let p8 = p7 + model_entry::<PodTemplateSpec>("template"@, m.template);
        assert(Self::to_fields(m) == p8);
        assert(get_entry(p1, "paused"@) == None::<ValueView>);
    }

    /// Field `progressDeadlineSeconds` reads back as written, and is written only when it is set.
    pub proof fn lemma_reads_back_progress_deadline_seconds(m: DeploymentSpecView)
        ensures
            i32_field(Self::to_fields(m), "progressDeadlineSeconds"@) == Ok::<Option<i32>, DecodeErrorView>(m.progress_deadline_seconds),
            (get_entry(Self::to_fields(m), "progressDeadlineSeconds"@) is Some) == (m.progress_deadline_seconds is Some),
    {
        Self::lemma_key_facts();
        let p1 = int_entry("minReadySeconds"@, opt_int(m.min_ready_seconds));
        let p2 = p1 + bool_entry("paused"@, m.paused);
        let p3 = p2 + int_entry("progressDeadlineSeconds"@, opt_int(m.progress_deadline_seconds));
        let p4 = p3 + int_entry("replicas"@, opt_int(m.replicas));
        let p5 = p4 + int_entry("revisionHistoryLimit"@, opt_int(m.revision_history_limit));
        let p6 = p5 + model_entry::<LabelSelector>("selector"@, m.selector);
        let p7 = p6 + model_entry::<DeploymentStrategy>("strategy"@, m.strategy);
        let p8 = p7 + model_entry::<PodTemplateSpec>("template"@, m.template);
        assert(Self::to_fields(m) == p8);
        assert(get_entry(p2, "progressDeadlineSeconds"@) == None::<ValueView>);
    }

    /// Field `replicas` reads back as written, and is written only when it is set.
    pub proof fn lemma_reads_back_replicas(m: DeploymentSpecView)
        ensures
            i32_field(Self::to_fields(m), "replicas"@) == Ok::<Option<i32>, DecodeErrorView>(m.replicas),
            (get_entry(Self::to_fields(m), "replicas"@) is Some) == (m.replicas is Some),
    {
        Self::lemma_key_facts();
        let p1 = int_entry("minReadySeconds"@, opt_int(m.min_ready_seconds));
        let p2 = p1 + bool_entry("paused"@, m.paused);
        let p3 = p2 + int_entry("progressDeadlineSeconds"@, opt_int(m.progress_deadline_seconds));
        let p4 = p3 + int_entry("replicas"@, opt_int(m.replicas));
        let p5 = p4 + int_entry("revisionHistoryLimit"@, opt_int(m.revision_history_limit));
        let p6 = p5 + model_entry::<LabelSelector>("selector"@, m.selector);
        let p7 = p6 + model_entry::<DeploymentStrategy>("strategy"@, m.strategy);
        let p8 = p7 + model_entry::<PodTemplateSpec>("template"@, m.template);
        assert(Self::to_fields(m) == p8);
        assert(get_entry(p3, "replicas"@) == None::<ValueView>);
    }

    /// Field `revisionHistoryLimit` reads back as written, and is written only when it is set.
    pub proof fn lemma_reads_back_revision_history_limit(m: DeploymentSpecView)
        ensures
            i32_field(Self::to_fields(m), "revisionHistoryLimit"@) == Ok::<Option<i32>, DecodeErrorView>(m.revision_history_limit),
            (get_entry(Self::to_fields(m), "revisionHistoryLimit"@) is Some) == (m.revision_history_limit is Some),
    {
        Self::lemma_key_facts();
        let p1 = int_entry("minReadySeconds"@, opt_int(m.min_ready_seconds));
        let p2 = p1 + bool_entry("paused"@, m.paused);
        let p3 = p2 + int_entry("progressDeadlineSeconds"@, opt_int(m.progress_deadline_seconds));
        let p4 = p3 + int_entry("replicas"@, opt_int(m.replicas));
        let p5 = p4 + int_entry("revisionHistoryLimit"@, opt_int(m.revision_history_limit));
        let p6 = p5 + model_entry::<LabelSelector>("selector"@, m.selector);
        let p7 = p6 + model_entry::<DeploymentStrategy>("strategy"@, m.strategy);
        let p8 = p7 + model_entry::<PodTemplateSpec>("template"@, m.template);
        assert(Self::to_fields(m) == p8);
        assert(get_entry(p4, "revisionHistoryLimit"@) == None::<ValueView>);
    }

    /// Field `selector` reads back as written, and is written only when it is set.
    pub proof fn lemma_reads_back_selector(m: DeploymentSpecView)
        ensures
            model_field::<LabelSelector>(Self::to_fields(m), "selector"@) == Ok::<Option<LabelSelectorView>, DecodeErrorView>(m.selector),
            (get_entry(Self::to_fields(m), "selector"@) is Some) == (m.selector is Some),
    {
        Self::lemma_key_facts();
        let p1 = int_entry("minReadySeconds"@, opt_int(m.min_ready_seconds));
        let p2 = p1 + bool_entry("paused"@, m.paused);
        let p3 = p2 + int_entry("progressDeadlineSeconds"@, opt_int(m.progress_deadline_seconds));
        let p4 = p3 + int_entry("replicas"@, opt_int(m.replicas));
        let p5 = p4 + int_entry("revisionHistoryLimit"@, opt_int(m.revision_history_limit));
        let p6 = p5 + model_entry::<LabelSelector>("selector"@, m.selector);
        let p7 = p6 + model_entry::<DeploymentStrategy>("strategy"@, m.strategy);
        let p8 = p7 + model_entry::<PodTemplateSpec>("template"@, m.template);
        assert(Self::to_fields(m) == p8);
        assert(get_entry(p5, "selector"@) == None::<ValueView>);
        if let Some(x) = m.selector {
            LabelSelector::lemma_round_trip(x);
        }
    }

    /// Field `strategy` reads back as written, and is written only when it is set.
    pub proof fn lemma_reads_back_strategy(m: DeploymentSpecView)
        ensures
            model_field::<DeploymentStrategy>(Self::to_fields(m), "strategy"@) == Ok::<Option<DeploymentStrategyView>, DecodeErrorView>(m.strategy),
            (get_entry(Self::to_fields(m), "strategy"@) is Some) == (m.strategy is Some),
    {
        Self::lemma_key_facts();
        let p1 = int_entry("minReadySeconds"@, opt_int(m.min_ready_seconds));
        let p2 = p1 + bool_entry("paused"@, m.paused);
        let p3 = p2 + int_entry("progressDeadlineSeconds"@, opt_int(m.progress_deadline_seconds));
        let p4 = p3 + int_entry("replicas"@, opt_int(m.replicas));
        let p5 = p4 + int_entry("revisionHistoryLimit"@, opt_int(m.revision_history_limit));
        let p6 = p5 + model_entry::<LabelSelector>("selector"@, m.selector);
        let p7 = p6 + model_entry::<DeploymentStrategy>("strategy"@, m.strategy);
        let p8 = p7 + model_entry::<PodTemplateSpec>("template"@, m.template);
        assert(Self::to_fields(m) == p8);
        assert(get_entry(p6, "strategy"@) == None::<ValueView>);
        if let Some(x) = m.strategy {
            DeploymentStrategy::lemma_round_trip(x);
        }
    }

    /// Field `template` reads back as written, and is written only when it is set.
    pub proof fn lemma_reads_back_template(m: DeploymentSpecView)
        ensures
            model_field::<PodTemplateSpec>(Self::to_fields(m), "template"@) == Ok::<Option<PodTemplateSpecView>, DecodeErrorView>(m.template),
            (get_entry(Self::to_fields(m), "template"@) is Some) == (m.template is Some),
    {
        Self::lemma_key_facts();
        let p1 = int_entry("minReadySeconds"@, opt_int(m.min_ready_seconds));
        let p2 = p1 + bool_entry("paused"@, m.paused);
        let p3 = p2 + int_entry("progressDeadlineSeconds"@, opt_int(m.progress_deadline_seconds));
        let p4 = p3 + int_entry("replicas"@, opt_int(m.replicas));
        let p5 = p4 + int_entry("revisionHistoryLimit"@, opt_int(m.revision_history_limit));
        let p6 = p5 + model_entry::<LabelSelector>("selector"@, m.selector);
        let p7 = p6 + model_entry::<DeploymentStrategy>("strategy"@, m.strategy);
        let p8 = p7 + model_entry::<PodTemplateSpec>("template"@, m.template);
        assert(Self::to_fields(m) == p8);
        assert(get_entry(p7, "template"@) == None::<ValueView>);
        if let Some(x) = m.template {
            PodTemplateSpec::lemma_round_trip(x);
        }
    }

}

/// One condition of a Deployment, as its status reports it.
pub struct DeploymentCondition {
    pub condition_type: Option<String>,
    pub status: Option<String>,
    pub reason: Option<String>,
    pub message: Option<String>,
    pub last_transition_time: Option<String>,
    pub last_update_time: Option<String>,
}

pub struct DeploymentConditionView {
    pub condition_type: Option<Seq<char>>,
    pub status: Option<Seq<char>>,
    pub reason: Option<Seq<char>>,
    pub message: Option<Seq<char>>,
    pub last_transition_time: Option<Seq<char>>,
    pub last_update_time: Option<Seq<char>>,
}

impl DeepView for DeploymentCondition {
    type V = DeploymentConditionView;

    open spec fn deep_view(&self) -> DeploymentConditionView {
        DeploymentConditionView {
            condition_type: self.condition_type.deep_view(),
            status: self.status.deep_view(),
            reason: self.reason.deep_view(),
            message: self.message.deep_view(),
            last_transition_time: self.last_transition_time.deep_view(),
            last_update_time: self.last_update_time.deep_view(),
        }
    }
}

impl Model for DeploymentCondition {
    open spec fn model_name() -> Seq<char> {
        "DeploymentCondition"@
    }

    open spec fn keys() -> Set<Seq<char>> {
        set!["type"@, "status"@, "reason"@, "message"@, "lastTransitionTime"@, "lastUpdateTime"@]
    }

    open spec fn from_fields(f: Fields) -> Result<DeploymentConditionView, DecodeErrorView> {
        match str_field(f, "lastTransitionTime"@) {
            Err(e) => Err(e),
            Ok(last_transition_time) => match str_field(f, "lastUpdateTime"@) {
                Err(e) => Err(e),
                Ok(last_update_time) => match str_field(f, "message"@) {
                    Err(e) => Err(e),
                    Ok(message) => match str_field(f, "reason"@) {
                        Err(e) => Err(e),
                        Ok(reason) => match str_field(f, "status"@) {
                            Err(e) => Err(e),
                            Ok(status) => match str_field(f, "type"@) {
                                Err(e) => Err(e),
                                Ok(condition_type) => Ok(DeploymentConditionView { condition_type, status, reason, message, last_transition_time, last_update_time }),
                            },
                        },
                    },
                },
            },
        }
    }

    open spec fn to_fields(m: DeploymentConditionView) -> Fields {
        str_entry("type"@, m.condition_type)
            + str_entry("status"@, m.status)
            + str_entry("reason"@, m.reason)
            + str_entry("message"@, m.message)
            + str_entry("lastTransitionTime"@, m.last_transition_time)
            + str_entry("lastUpdateTime"@, m.last_update_time)
    }

    proof fn lemma_round_trip(m: DeploymentConditionView) {
        DeploymentCondition::lemma_reads_back_condition_type(m);
        DeploymentCondition::lemma_reads_back_status(m);
        DeploymentCondition::lemma_reads_back_reason(m);
        DeploymentCondition::lemma_reads_back_message(m);
        DeploymentCondition::lemma_reads_back_last_transition_time(m);
        DeploymentCondition::lemma_reads_back_last_update_time(m);
    }

    proof fn lemma_reads_only_keys(f: Fields, g: Fields) {
        assert(field_value(f, "type"@) == field_value(g, "type"@));
        assert(str_field(f, "type"@) == str_field(g, "type"@));
        assert(field_value(f, "status"@) == field_value(g, "status"@));
        assert(str_field(f, "status"@) == str_field(g, "status"@));
        assert(field_value(f, "reason"@) == field_value(g, "reason"@));
        assert(str_field(f, "reason"@) == str_field(g, "reason"@));
        assert(field_value(f, "message"@) == field_value(g, "message"@));
        assert(str_field(f, "message"@) == str_field(g, "message"@));
        assert(field_value(f, "lastTransitionTime"@) == field_value(g, "lastTransitionTime"@));
        assert(str_field(f, "lastTransitionTime"@) == str_field(g, "lastTransitionTime"@));
        assert(field_value(f, "lastUpdateTime"@) == field_value(g, "lastUpdateTime"@));
        assert(str_field(f, "lastUpdateTime"@) == str_field(g, "lastUpdateTime"@));
    }

    proof fn lemma_writes_only_keys(m: DeploymentConditionView) {
        reveal_strlit("type");
        reveal_strlit("status");
        reveal_strlit("reason");
        reveal_strlit("message");
        reveal_strlit("lastTransitionTime");
        reveal_strlit("lastUpdateTime");
        assert("type"@.len() == 4);
        assert("status"@.len() == 6);
        assert("reason"@.len() == 6);
        assert("message"@.len() == 7);
        assert("lastTransitionTime"@.len() == 18);
        assert("lastUpdateTime"@.len() == 14);
        assert("status"@[0] == 's' && "reason"@[0] == 'r');
        let p0 = Seq::<(Seq<char>, ValueView)>::empty();
        let a0 = Set::<Seq<char>>::empty();
        lemma_push_entry(p0, "type"@, str_entry("type"@, m.condition_type), a0);
        let p1 = p0 + str_entry("type"@, m.condition_type);
        let a1 = a0.insert("type"@);
        lemma_push_entry(p1, "status"@, str_entry("status"@, m.status), a1);
        let p2 = p1 + str_entry("status"@, m.status);
        let a2 = a1.insert("status"@);
        lemma_push_entry(p2, "reason"@, str_entry("reason"@, m.reason), a2);
        let p3 = p2 + str_entry("reason"@, m.reason);
        let a3 = a2.insert("reason"@);
        lemma_push_entry(p3, "message"@, str_entry("message"@, m.message), a3);
        let p4 = p3 + str_entry("message"@, m.message);
        let a4 = a3.insert("message"@);
        lemma_push_entry(p4, "lastTransitionTime"@, str_entry("lastTransitionTime"@, m.last_transition_time), a4);
        let p5 = p4 + str_entry("lastTransitionTime"@, m.last_transition_time);
        let a5 = a4.insert("lastTransitionTime"@);
        lemma_push_entry(p5, "lastUpdateTime"@, str_entry("lastUpdateTime"@, m.last_update_time), a5);
        let p6 = p5 + str_entry("lastUpdateTime"@, m.last_update_time);
        let a6 = a5.insert("lastUpdateTime"@);
        assert(p6 =~= Self::to_fields(m));
        assert(a6 =~= Self::keys());
    }

    open spec fn key_seq() -> Seq<Seq<char>> {
        seq!["lastTransitionTime"@, "lastUpdateTime"@, "message"@, "reason"@, "status"@, "type"@]
    }

    fn field_count() -> (r: usize) {
        6
    }

    fn field_key(i: usize) -> (r: Option<&'static str>) {
        if i == 0 {
            Some("lastTransitionTime")
        } else if i == 1 {
            Some("lastUpdateTime")
        } else if i == 2 {
            Some("message")
        } else if i == 3 {
            Some("reason")
        } else if i == 4 {
            Some("status")
        } else if i == 5 {
            Some("type")
        } else {
            None
        }
    }

    fn name() -> (r: &'static str) {
        "DeploymentCondition"
    }

    fn decode(s: &Struct) -> (r: Result<DeploymentCondition, DecodeError>) {
        let last_transition_time = read_str(s, "lastTransitionTime")?;
        let last_update_time = read_str(s, "lastUpdateTime")?;
        let message = read_str(s, "message")?;
        let reason = read_str(s, "reason")?;
        let status = read_str(s, "status")?;
        let condition_type = read_str(s, "type")?;
        Ok(DeploymentCondition { condition_type, status, reason, message, last_transition_time, last_update_time })
    }

    fn encode(&self) -> (r: Struct) {
        let mut fields: Vec<(String, Value)> = Vec::new();
        let ghost start = fields.deep_view();
        write_str(&mut fields, "type", &self.condition_type);
        write_str(&mut fields, "status", &self.status);
        write_str(&mut fields, "reason", &self.reason);
        write_str(&mut fields, "message", &self.message);
        write_str(&mut fields, "lastTransitionTime", &self.last_transition_time);
        write_str(&mut fields, "lastUpdateTime", &self.last_update_time);
        assert(start =~= Seq::<(Seq<char>, ValueView)>::empty());
        assert(fields.deep_view() =~= Self::to_fields(self.deep_view()));
        Struct { fields }
    }
}

impl DeploymentCondition {
    /// How an object reads as a `DeploymentCondition` depends on nothing but how each of
    /// its fields reads.
    pub proof fn lemma_reads_field_by_field(f: Fields, g: Fields)
        requires
            str_field(f, "type"@) == str_field(g, "type"@),
            str_field(f, "status"@) == str_field(g, "status"@),
            str_field(f, "reason"@) == str_field(g, "reason"@),
            str_field(f, "message"@) == str_field(g, "message"@),
            str_field(f, "lastTransitionTime"@) == str_field(g, "lastTransitionTime"@),
            str_field(f, "lastUpdateTime"@) == str_field(g, "lastUpdateTime"@),
        ensures
            Self::from_fields(f) == Self::from_fields(g),
    {
    }

    proof fn lemma_key_facts()
        ensures
            "type"@.len() == 4,
            "status"@.len() == 6,
            "reason"@.len() == 6,
            "message"@.len() == 7,
            "lastTransitionTime"@.len() == 18,
            "lastUpdateTime"@.len() == 14,
            "status"@[0] == 's' && "reason"@[0] == 'r',
    {
        reveal_strlit("type");
        reveal_strlit("status");
        reveal_strlit("reason");
        reveal_strlit("message");
        reveal_strlit("lastTransitionTime");
        reveal_strlit("lastUpdateTime");
    }

    /// Field `type` reads back as written, and is written only when it is set.
    pub proof fn lemma_reads_back_condition_type(m: DeploymentConditionView)
        ensures
            str_field(Self::to_fields(m), "type"@) == Ok::<Option<Seq<char>>, DecodeErrorView>(m.condition_type),
            (get_entry(Self::to_fields(m), "type"@) is Some) == (m.condition_type is Some),
    {
        Self::lemma_key_facts();
        let p1 = str_entry("type"@, m.condition_type);
        let p2 = p1 + str_entry("status"@, m.status);
        let p3 = p2 + str_entry("reason"@, m.reason);
        let p4 = p3 + str_entry("message"@, m.message);
        let p5 = p4 + str_entry("lastTransitionTime"@, m.last_transition_time);
        let p6 = p5 + str_entry("lastUpdateTime"@, m.last_update_time);
        assert(Self::to_fields(m) == p6);
    }

    /// Field `status` reads back as written, and is written only when it is set.
    pub proof fn lemma_reads_back_status(m: DeploymentConditionView)
        ensures
            str_field(Self::to_fields(m), "status"@) == Ok::<Option<Seq<char>>, DecodeErrorView>(m.status),
            (get_entry(Self::to_fields(m), "status"@) is Some) == (m.status is Some),
    {
        Self::lemma_key_facts();
        let p1 = str_entry("type"@, m.condition_type);
        let p2 = p1 + str_entry("status"@, m.status);
        let p3 = p2 + str_entry("reason"@, m.reason);
        let p4 = p3 + str_entry("message"@, m.message);
        let p5 = p4 + str_entry("lastTransitionTime"@, m.last_transition_time);
        let p6 = p5 + str_entry("lastUpdateTime"@, m.last_update_time);
        assert(Self::to_fields(m) == p6);
        assert(get_entry(p1, "status"@) == None::<ValueView>);
    }

    /// Field `reason` reads back as written, and is written only when it is set.
    pub proof fn lemma_reads_back_reason(m: DeploymentConditionView)
        ensures
            str_field(Self::to_fields(m), "reason"@) == Ok::<Option<Seq<char>>, DecodeErrorView>(m.reason),
            (get_entry(Self::to_fields(m), "reason"@) is Some) == (m.reason is Some),
    {
        Self::lemma_key_facts();
        let p1 = str_entry("type"@, m.condition_type);
        let p2 = p1 + str_entry("status"@, m.status);
        let p3 = p2 + str_entry("reason"@, m.reason);
        let p4 = p3 + str_entry("message"@, m.message);
        let p5 = p4 + str_entry("lastTransitionTime"@, m.last_transition_time);
        let p6 = p5 + str_entry("lastUpdateTime"@, m.last_update_time);
        assert(Self::to_fields(m) == p6);
        assert(get_entry(p2, "reason"@) == None::<ValueView>);
    }

    /// Field `message` reads back as written, and is written only when it is set.
    pub proof fn lemma_reads_back_message(m: DeploymentConditionView)
        ensures
            str_field(Self::to_fields(m), "message"@) == Ok::<Option<Seq<char>>, DecodeErrorView>(m.message),
            (get_entry(Self::to_fields(m), "message"@) is Some) == (m.message is Some),
    {
        Self::lemma_key_facts();
        let p1 = str_entry("type"@, m.condition_type);
        let p2 = p1 + str_entry("status"@, m.status);
        let p3 = p2 + str_entry("reason"@, m.reason);
        let p4 = p3 + str_entry("message"@, m.message);
        let p5 = p4 + str_entry("lastTransitionTime"@, m.last_transition_time);
        let p6 = p5 + str_entry("lastUpdateTime"@, m.last_update_time);
        assert(Self::to_fields(m) == p6);
        assert(get_entry(p3, "message"@) == None::<ValueView>);
    }

    /// Field `lastTransitionTime` reads back as written, and is written only when it is set.
    pub proof fn lemma_reads_back_last_transition_time(m: DeploymentConditionView)
        ensures
            str_field(Self::to_fields(m), "lastTransitionTime"@) == Ok::<Option<Seq<char>>, DecodeErrorView>(m.last_transition_time),
            (get_entry(Self::to_fields(m), "lastTransitionTime"@) is Some) == (m.last_transition_time is Some),
    {
        Self::lemma_key_facts();
        let p1 = str_entry("type"@, m.condition_type);
        let p2 = p1 + str_entry("status"@, m.status);
        let p3 = p2 + str_entry("reason"@, m.reason);
        let p4 = p3 + str_entry("message"@, m.message);
        let p5 = p4 + str_entry("lastTransitionTime"@, m.last_transition_time);
        let p6 = p5 + str_entry("lastUpdateTime"@, m.last_update_time);
        assert(Self::to_fields(m) == p6);
        assert(get_entry(p4, "lastTransitionTime"@) == None::<ValueView>);
    }

    /// Field `lastUpdateTime` reads back as written, and is written only when it is set.
    pub proof fn lemma_reads_back_last_update_time(m: DeploymentConditionView)
        ensures
            str_field(Self::to_fields(m), "lastUpdateTime"@) == Ok::<Option<Seq<char>>, DecodeErrorView>(m.last_update_time),
            (get_entry(Self::to_fields(m), "lastUpdateTime"@) is Some) == (m.last_update_time is Some),
    {
        Self::lemma_key_facts();
        let p1 = str_entry("type"@, m.condition_type);
        let p2 = p1 + str_entry("status"@, m.status);
        let p3 = p2 + str_entry("reason"@, m.reason);
        let p4 = p3 + str_entry("message"@, m.message);
        let p5 = p4 + str_entry("lastTransitionTime"@, m.last_transition_time);
        let p6 = p5 + str_entry("lastUpdateTime"@, m.last_update_time);
        assert(Self::to_fields(m) == p6);
        assert(get_entry(p5, "lastUpdateTime"@) == None::<ValueView>);
    }

}

/// The observed state of a Deployment.
pub struct DeploymentStatus {
    pub replicas: Option<i32>,
    pub ready_replicas: Option<i32>,
    pub available_replicas: Option<i32>,
    pub unavailable_replicas: Option<i32>,
    pub updated_replicas: Option<i32>,
    pub terminating_replicas: Option<i32>,
    pub collision_count: Option<i32>,
    pub observed_generation: Option<i64>,
    pub conditions: Option<Vec<DeploymentCondition>>,
}

pub struct DeploymentStatusView {
    pub replicas: Option<i32>,
    pub ready_replicas: Option<i32>,
    pub available_replicas: Option<i32>,
    pub unavailable_replicas: Option<i32>,
    pub updated_replicas: Option<i32>,
    pub terminating_replicas: Option<i32>,
    pub collision_count: Option<i32>,
    pub observed_generation: Option<i64>,
    pub conditions: Option<Seq<DeploymentConditionView>>,
}

impl DeepView for DeploymentStatus {
    type V = DeploymentStatusView;

    open spec fn deep_view(&self) -> DeploymentStatusView {
        DeploymentStatusView {
            replicas: self.replicas.deep_view(),
            ready_replicas: self.ready_replicas.deep_view(),
            available_replicas: self.available_replicas.deep_view(),
            unavailable_replicas: self.unavailable_replicas.deep_view(),
            updated_replicas: self.updated_replicas.deep_view(),
            terminating_replicas: self.terminating_replicas.deep_view(),
            collision_count: self.collision_count.deep_view(),
            observed_generation: self.observed_generation.deep_view(),
            conditions: self.conditions.deep_view(),
        }
    }
}

impl Model for DeploymentStatus {
    open spec fn model_name() -> Seq<char> {
        "DeploymentStatus"@
    }

    open spec fn keys() -> Set<Seq<char>> {
        set!["replicas"@, "readyReplicas"@, "availableReplicas"@, "unavailableReplicas"@, "updatedReplicas"@, "terminatingReplicas"@, "collisionCount"@, "observedGeneration"@, "conditions"@]
    }

    open spec fn from_fields(f: Fields) -> Result<DeploymentStatusView, DecodeErrorView> {
        match i32_field(f, "availableReplicas"@) {
            Err(e) => Err(e),
            Ok(available_replicas) => match i32_field(f, "collisionCount"@) {
                Err(e) => Err(e),
                Ok(collision_count) => match models_field::<DeploymentCondition>(f, "conditions"@) {
                    Err(e) => Err(e),
                    Ok(conditions) => match i64_field(f, "observedGeneration"@) {
                        Err(e) => Err(e),
                        Ok(observed_generation) => match i32_field(f, "readyReplicas"@) {
                            Err(e) => Err(e),
                            Ok(ready_replicas) => match i32_field(f, "replicas"@) {
                                Err(e) => Err(e),
                                Ok(replicas) => match i32_field(f, "terminatingReplicas"@) {
                                    Err(e) => Err(e),
                                    Ok(terminating_replicas) => match i32_field(f, "unavailableReplicas"@) {
                                        Err(e) => Err(e),
                                        Ok(unavailable_replicas) => match i32_field(f, "updatedReplicas"@) {
                                            Err(e) => Err(e),
                                            Ok(updated_replicas) => Ok(DeploymentStatusView { replicas, ready_replicas, available_replicas, unavailable_replicas, updated_replicas, terminating_replicas, collision_count, observed_generation, conditions }),
                                        },
                                    },
                                },
                            },
                        },
                    },
                },
            },
        }
    }

    open spec fn to_fields(m: DeploymentStatusView) -> Fields {
        int_entry("replicas"@, opt_int(m.replicas))
            + int_entry("readyReplicas"@, opt_int(m.ready_replicas))
            + int_entry("availableReplicas"@, opt_int(m.available_replicas))
            + int_entry("unavailableReplicas"@, opt_int(m.unavailable_replicas))
            + int_entry("updatedReplicas"@, opt_int(m.updated_replicas))
            + int_entry("terminatingReplicas"@, opt_int(m.terminating_replicas))
            + int_entry("collisionCount"@, opt_int(m.collision_count))
            + int_entry("observedGeneration"@, opt_int(m.observed_generation))
            + models_entry::<DeploymentCondition>("conditions"@, m.conditions)
    }

    proof fn lemma_round_trip(m: DeploymentStatusView) {
        DeploymentStatus::lemma_reads_back_replicas(m);
        DeploymentStatus::lemma_reads_back_ready_replicas(m);
        DeploymentStatus::lemma_reads_back_available_replicas(m);
        DeploymentStatus::lemma_reads_back_unavailable_replicas(m);
        DeploymentStatus::lemma_reads_back_updated_replicas(m);
        DeploymentStatus::lemma_reads_back_terminating_replicas(m);
        DeploymentStatus::lemma_reads_back_collision_count(m);
        DeploymentStatus::lemma_reads_back_observed_generation(m);
        DeploymentStatus::lemma_reads_back_conditions(m);
    }

    proof fn lemma_reads_only_keys(f: Fields, g: Fields) {
        assert(field_value(f, "replicas"@) == field_value(g, "replicas"@));
        assert(i32_field(f, "replicas"@) == i32_field(g, "replicas"@));
        assert(field_value(f, "readyReplicas"@) == field_value(g, "readyReplicas"@));
        assert(i32_field(f, "readyReplicas"@) == i32_field(g, "readyReplicas"@));
        assert(field_value(f, "availableReplicas"@) == field_value(g, "availableReplicas"@));
        assert(i32_field(f, "availableReplicas"@) == i32_field(g, "availableReplicas"@));
        assert(field_value(f, "unavailableReplicas"@) == field_value(g, "unavailableReplicas"@));
        assert(i32_field(f, "unavailableReplicas"@) == i32_field(g, "unavailableReplicas"@));
        assert(field_value(f, "updatedReplicas"@) == field_value(g, "updatedReplicas"@));
        assert(i32_field(f, "updatedReplicas"@) == i32_field(g, "updatedReplicas"@));
        assert(field_value(f, "terminatingReplicas"@) == field_value(g, "terminatingReplicas"@));
        assert(i32_field(f, "terminatingReplicas"@) == i32_field(g, "terminatingReplicas"@));
        assert(field_value(f, "collisionCount"@) == field_value(g, "collisionCount"@));
        assert(i32_field(f, "collisionCount"@) == i32_field(g, "collisionCount"@));
        assert(field_value(f, "observedGeneration"@) == field_value(g, "observedGeneration"@));
        assert(i64_field(f, "observedGeneration"@) == i64_field(g, "observedGeneration"@));
        assert(field_value(f, "conditions"@) == field_value(g, "conditions"@));
        assert(models_field::<DeploymentCondition>(f, "conditions"@) == models_field::<DeploymentCondition>(g, "conditions"@));
    }

    proof fn lemma_writes_only_keys(m: DeploymentStatusView) {
        reveal_strlit("replicas");
        reveal_strlit("readyReplicas");
        reveal_strlit("availableReplicas");
        reveal_strlit("unavailableReplicas");
        reveal_strlit("updatedReplicas");
        reveal_strlit("terminatingReplicas");
        reveal_strlit("collisionCount");
        reveal_strlit("observedGeneration");
        reveal_strlit("conditions");
        assert("replicas"@.len() == 8);
        assert("readyReplicas"@.len() == 13);
        assert("availableReplicas"@.len() == 17);
        assert("unavailableReplicas"@.len() == 19);
        assert("updatedReplicas"@.len() == 15);
        assert("terminatingReplicas"@.len() == 19);
        assert("collisionCount"@.len() == 14);
        assert("observedGeneration"@.len() == 18);
        assert("conditions"@.len() == 10);
        assert("unavailableReplicas"@[0] == 'u' && "terminatingReplicas"@[0] == 't');
        let p0 = Seq::<(Seq<char>, ValueView)>::empty();
        let a0 = Set::<Seq<char>>::empty();
        lemma_push_entry(p0, "replicas"@, int_entry("replicas"@, opt_int(m.replicas)), a0);
        let p1 = p0 + int_entry("replicas"@, opt_int(m.replicas));
        let a1 = a0.insert("replicas"@);
        lemma_push_entry(p1, "readyReplicas"@, int_entry("readyReplicas"@, opt_int(m.ready_replicas)), a1);
        let p2 = p1 + int_entry("readyReplicas"@, opt_int(m.ready_replicas));
        let a2 = a1.insert("readyReplicas"@);
        lemma_push_entry(p2, "availableReplicas"@, int_entry("availableReplicas"@, opt_int(m.available_replicas)), a2);
        let p3 = p2 + int_entry("availableReplicas"@, opt_int(m.available_replicas));
        let a3 = a2.insert("availableReplicas"@);
        lemma_push_entry(p3, "unavailableReplicas"@, int_entry("unavailableReplicas"@, opt_int(m.unavailable_replicas)), a3);
        let p4 = p3 + int_entry("unavailableReplicas"@, opt_int(m.unavailable_replicas));
        let a4 = a3.insert("unavailableReplicas"@);
        lemma_push_entry(p4, "updatedReplicas"@, int_entry("updatedReplicas"@, opt_int(m.updated_replicas)), a4);
        let p5 = p4 + int_entry("updatedReplicas"@, opt_int(m.updated_replicas));
        let a5 = a4.insert("updatedReplicas"@);
        lemma_push_entry(p5, "terminatingReplicas"@, int_entry("terminatingReplicas"@, opt_int(m.terminating_replicas)), a5);
        let p6 = p5 + int_entry("terminatingReplicas"@, opt_int(m.terminating_replicas));
        let a6 = a5.insert("terminatingReplicas"@);
        lemma_push_entry(p6, "collisionCount"@, int_entry("collisionCount"@, opt_int(m.collision_count)), a6);
        let p7 = p6 + int_entry("collisionCount"@, opt_int(m.collision_count));
        let a7 = a6.insert("collisionCount"@);
        lemma_push_entry(p7, "observedGeneration"@, int_entry("observedGeneration"@, opt_int(m.observed_generation)), a7);
        let p8 = p7 + int_entry("observedGeneration"@, opt_int(m.observed_generation));
        let a8 = a7.insert("observedGeneration"@);
        lemma_push_entry(p8, "conditions"@, models_entry::<DeploymentCondition>("conditions"@, m.conditions), a8);
        let p9 = p8 + models_entry::<DeploymentCondition>("conditions"@, m.conditions);
        let a9 = a8.insert("conditions"@);
        assert(p9 =~= Self::to_fields(m));
        assert(a9 =~= Self::keys());
    }

    open spec fn key_seq() -> Seq<Seq<char>> {
        seq!["availableReplicas"@, "collisionCount"@, "conditions"@, "observedGeneration"@, "readyReplicas"@, "replicas"@, "terminatingReplicas"@, "unavailableReplicas"@, "updatedReplicas"@]
    }

    fn field_count() -> (r: usize) {
        9
    }

    fn field_key(i: usize) -> (r: Option<&'static str>) {
        if i == 0 {
            Some("availableReplicas")
        } else if i == 1 {
            Some("collisionCount")
        } else if i == 2 {
            Some("conditions")
        } else if i == 3 {
            Some("observedGeneration")
        } else if i == 4 {
            Some("readyReplicas")
        } else if i == 5 {
            Some("replicas")
        } else if i == 6 {
            Some("terminatingReplicas")
        } else if i == 7 {
            Some("unavailableReplicas")
        } else if i == 8 {
            Some("updatedReplicas")
        } else {
            None
        }
    }

    fn name() -> (r: &'static str) {
        "DeploymentStatus"
    }

    fn decode(s: &Struct) -> (r: Result<DeploymentStatus, DecodeError>) {
        let available_replicas = read_i32(s, "availableReplicas")?;
        let collision_count = read_i32(s, "collisionCount")?;
        let conditions = read_models::<DeploymentCondition>(s, "conditions")?;
        let observed_generation = read_i64(s, "observedGeneration")?;
        let ready_replicas = read_i32(s, "readyReplicas")?;
        let replicas = read_i32(s, "replicas")?;
        let terminating_replicas = read_i32(s, "terminatingReplicas")?;
        let unavailable_replicas = read_i32(s, "unavailableReplicas")?;
        let updated_replicas = read_i32(s, "updatedReplicas")?;
        Ok(DeploymentStatus { replicas, ready_replicas, available_replicas, unavailable_replicas, updated_replicas, terminating_replicas, collision_count, observed_generation, conditions })
    }

    fn encode(&self) -> (r: Struct) {
        let mut fields: Vec<(String, Value)> = Vec::new();
        let ghost start = fields.deep_view();
        write_i32(&mut fields, "replicas", &self.replicas);
        write_i32(&mut fields, "readyReplicas", &self.ready_replicas);
        write_i32(&mut fields, "availableReplicas", &self.available_replicas);
        write_i32(&mut fields, "unavailableReplicas", &self.unavailable_replicas);
        write_i32(&mut fields, "updatedReplicas", &self.updated_replicas);
        write_i32(&mut fields, "terminatingReplicas", &self.terminating_replicas);
        write_i32(&mut fields, "collisionCount", &self.collision_count);
        write_i64(&mut fields, "observedGeneration", &self.observed_generation);
        write_models::<DeploymentCondition>(&mut fields, "conditions", &self.conditions);
        assert(start =~= Seq::<(Seq<char>, ValueView)>::empty());
        assert(fields.deep_view() =~= Self::to_fields(self.deep_view()));
        Struct { fields }
    }
}

impl DeploymentStatus {
    /// How an object reads as a `DeploymentStatus` depends on nothing but how each of
    /// its fields reads.
    pub proof fn lemma_reads_field_by_field(f: Fields, g: Fields)
        requires
            i32_field(f, "replicas"@) == i32_field(g, "replicas"@),
            i32_field(f, "readyReplicas"@) == i32_field(g, "readyReplicas"@),
            i32_field(f, "availableReplicas"@) == i32_field(g, "availableReplicas"@),
            i32_field(f, "unavailableReplicas"@) == i32_field(g, "unavailableReplicas"@),
            i32_field(f, "updatedReplicas"@) == i32_field(g, "updatedReplicas"@),
            i32_field(f, "terminatingReplicas"@) == i32_field(g, "terminatingReplicas"@),
            i32_field(f, "collisionCount"@) == i32_field(g, "collisionCount"@),
            i64_field(f, "observedGeneration"@) == i64_field(g, "observedGeneration"@),
            models_field::<DeploymentCondition>(f, "conditions"@) == models_field::<DeploymentCondition>(g, "conditions"@),
        ensures
            Self::from_fields(f) == Self::from_fields(g),
    {
    }

    proof fn lemma_key_facts()
        ensures
            "replicas"@.len() == 8,
            "readyReplicas"@.len() == 13,
            "availableReplicas"@.len() == 17,
            "unavailableReplicas"@.len() == 19,
            "updatedReplicas"@.len() == 15,
            "terminatingReplicas"@.len() == 19,
            "collisionCount"@.len() == 14,
            "observedGeneration"@.len() == 18,
            "conditions"@.len() == 10,
            "unavailableReplicas"@[0] == 'u' && "terminatingReplicas"@[0] == 't',
    {
        reveal_strlit("replicas");
        reveal_strlit("readyReplicas");
        reveal_strlit("availableReplicas");
        reveal_strlit("unavailableReplicas");
        reveal_strlit("updatedReplicas");
        reveal_strlit("terminatingReplicas");
        reveal_strlit("collisionCount");
        reveal_strlit("observedGeneration");
        reveal_strlit("conditions");
    }

    /// Field `replicas` reads back as written, and is written only when it is set.
    pub proof fn lemma_reads_back_replicas(m: DeploymentStatusView)
        ensures
            i32_field(Self::to_fields(m), "replicas"@) == Ok::<Option<i32>, DecodeErrorView>(m.replicas),
            (get_entry(Self::to_fields(m), "replicas"@) is Some) == (m.replicas is Some),
    {
        Self::lemma_key_facts();
        let p1 = int_entry("replicas"@, opt_int(m.replicas));
        let p2 = p1 + int_entry("readyReplicas"@, opt_int(m.ready_replicas));
        let p3 = p2 + int_entry("availableReplicas"@, opt_int(m.available_replicas));
        let p4 = p3 + int_entry("unavailableReplicas"@, opt_int(m.unavailable_replicas));
        let p5 = p4 + int_entry("updatedReplicas"@, opt_int(m.updated_replicas));
        let p6 = p5 + int_entry("terminatingReplicas"@, opt_int(m.terminating_replicas));
        let p7 = p6 + int_entry("collisionCount"@, opt_int(m.collision_count));
        let p8 = p7 + int_entry("observedGeneration"@, opt_int(m.observed_generation));
        let p9 = p8 + models_entry::<DeploymentCondition>("conditions"@, m.conditions);
        assert(Self::to_fields(m) == p9);
    }

    /// Field `readyReplicas` reads back as written, and is written only when it is set.
    pub proof fn lemma_reads_back_ready_replicas(m: DeploymentStatusView)
        ensures
            i32_field(Self::to_fields(m), "readyReplicas"@) == Ok::<Option<i32>, DecodeErrorView>(m.ready_replicas),
            (get_entry(Self::to_fields(m), "readyReplicas"@) is Some) == (m.ready_replicas is Some),
    {
        Self::lemma_key_facts();
        let p1 = int_entry("replicas"@, opt_int(m.replicas));
        let p2 = p1 + int_entry("readyReplicas"@, opt_int(m.ready_replicas));
        let p3 = p2 + int_entry("availableReplicas"@, opt_int(m.available_replicas));
        let p4 = p3 + int_entry("unavailableReplicas"@, opt_int(m.unavailable_replicas));
        let p5 = p4 + int_entry("updatedReplicas"@, opt_int(m.updated_replicas));
        let p6 = p5 + int_entry("terminatingReplicas"@, opt_int(m.terminating_replicas));
        let p7 = p6 + int_entry("collisionCount"@, opt_int(m.collision_count));
        let p8 = p7 + int_entry("observedGeneration"@, opt_int(m.observed_generation));
        let p9 = p8 + models_entry::<DeploymentCondition>("conditions"@, m.conditions);
        assert(Self::to_fields(m) == p9);
        assert(get_entry(p1, "readyReplicas"@) == None::<ValueView>);
    }

    /// Field `availableReplicas` reads back as written, and is written only when it is set.
    pub proof fn lemma_reads_back_available_replicas(m: DeploymentStatusView)
        ensures
            i32_field(Self::to_fields(m), "availableReplicas"@) == Ok::<Option<i32>, DecodeErrorView>(m.available_replicas),
            (get_entry(Self::to_fields(m), "availableReplicas"@) is Some) == (m.available_replicas is Some),
    {
        Self::lemma_key_facts();
        let p1 = int_entry("replicas"@, opt_int(m.replicas));
        let p2 = p1 + int_entry("readyReplicas"@, opt_int(m.ready_replicas));
        let p3 = p2 + int_entry("availableReplicas"@, opt_int(m.available_replicas));
        let p4 = p3 + int_entry("unavailableReplicas"@, opt_int(m.unavailable_replicas));
        let p5 = p4 + int_entry("updatedReplicas"@, opt_int(m.updated_replicas));
        let p6 = p5 + int_entry("terminatingReplicas"@, opt_int(m.terminating_replicas));
        let p7 = p6 + int_entry("collisionCount"@, opt_int(m.collision_count));
        let p8 = p7 + int_entry("observedGeneration"@, opt_int(m.observed_generation));
        let p9 = p8 + models_entry::<DeploymentCondition>("conditions"@, m.conditions);
        assert(Self::to_fields(m) == p9);
        assert(get_entry(p2, "availableReplicas"@) == None::<ValueView>);
    }

    /// Field `unavailableReplicas` reads back as written, and is written only when it is set.
    pub proof fn lemma_reads_back_unavailable_replicas(m: DeploymentStatusView)
        ensures
            i32_field(Self::to_fields(m), "unavailableReplicas"@) == Ok::<Option<i32>, DecodeErrorView>(m.unavailable_replicas),
            (get_entry(Self::to_fields(m), "unavailableReplicas"@) is Some) == (m.unavailable_replicas is Some),
    {
        Self::lemma_key_facts();
        let p1 = int_entry("replicas"@, opt_int(m.replicas));
        let p2 = p1 + int_entry("readyReplicas"@, opt_int(m.ready_replicas));
        let p3 = p2 + int_entry("availableReplicas"@, opt_int(m.available_replicas));
        let p4 = p3 + int_entry("unavailableReplicas"@, opt_int(m.unavailable_replicas));
        let p5 = p4 + int_entry("updatedReplicas"@, opt_int(m.updated_replicas));
        let p6 = p5 + int_entry("terminatingReplicas"@, opt_int(m.terminating_replicas));
        let p7 = p6 + int_entry("collisionCount"@, opt_int(m.collision_count));
        let p8 = p7 + int_entry("observedGeneration"@, opt_int(m.observed_generation));
        let p9 = p8 + models_entry::<DeploymentCondition>("conditions"@, m.conditions);
        assert(Self::to_fields(m) == p9);
        assert(get_entry(p3, "unavailableReplicas"@) == None::<ValueView>);
    }

    /// Field `updatedReplicas` reads back as written, and is written only when it is set.
    pub proof fn lemma_reads_back_updated_replicas(m: DeploymentStatusView)
        ensures
            i32_field(Self::to_fields(m), "updatedReplicas"@) == Ok::<Option<i32>, DecodeErrorView>(m.updated_replicas),
            (get_entry(Self::to_fields(m), "updatedReplicas"@) is Some) == (m.updated_replicas is Some),
    {
        Self::lemma_key_facts();
        let p1 = int_entry("replicas"@, opt_int(m.replicas));
        let p2 = p1 + int_entry("readyReplicas"@, opt_int(m.ready_replicas));
        let p3 = p2 + int_entry("availableReplicas"@, opt_int(m.available_replicas));
        let p4 = p3 + int_entry("unavailableReplicas"@, opt_int(m.unavailable_replicas));
        let p5 = p4 + int_entry("updatedReplicas"@, opt_int(m.updated_replicas));
        let p6 = p5 + int_entry("terminatingReplicas"@, opt_int(m.terminating_replicas));
        let p7 = p6 + int_entry("collisionCount"@, opt_int(m.collision_count));
        let p8 = p7 + int_entry("observedGeneration"@, opt_int(m.observed_generation));
        let p9 = p8 + models_entry::<DeploymentCondition>("conditions"@, m.conditions);
        assert(Self::to_fields(m) == p9);
        assert(get_entry(p4, "updatedReplicas"@) == None::<ValueView>);
    }

    /// Field `terminatingReplicas` reads back as written, and is written only when it is set.
    pub proof fn lemma_reads_back_terminating_replicas(m: DeploymentStatusView)
        ensures
            i32_field(Self::to_fields(m), "terminatingReplicas"@) == Ok::<Option<i32>, DecodeErrorView>(m.terminating_replicas),
            (get_entry(Self::to_fields(m), "terminatingReplicas"@) is Some) == (m.terminating_replicas is Some),
    {
        Self::lemma_key_facts();
        let p1 = int_entry("replicas"@, opt_int(m.replicas));
        let p2 = p1 + int_entry("readyReplicas"@, opt_int(m.ready_replicas));
        let p3 = p2 + int_entry("availableReplicas"@, opt_int(m.available_replicas));
        let p4 = p3 + int_entry("unavailableReplicas"@, opt_int(m.unavailable_replicas));
        let p5 = p4 + int_entry("updatedReplicas"@, opt_int(m.updated_replicas));
        let p6 = p5 + int_entry("terminatingReplicas"@, opt_int(m.terminating_replicas));
        let p7 = p6 + int_entry("collisionCount"@, opt_int(m.collision_count));
        let p8 = p7 + int_entry("observedGeneration"@, opt_int(m.observed_generation));
        let p9 = p8 + models_entry::<DeploymentCondition>("conditions"@, m.conditions);
        assert(Self::to_fields(m) == p9);
        assert(get_entry(p5, "terminatingReplicas"@) == None::<ValueView>);
    }

    /// Field `collisionCount` reads back as written, and is written only when it is set.
    pub proof fn lemma_reads_back_collision_count(m: DeploymentStatusView)
        ensures
            i32_field(Self::to_fields(m), "collisionCount"@) == Ok::<Option<i32>, DecodeErrorView>(m.collision_count),
            (get_entry(Self::to_fields(m), "collisionCount"@) is Some) == (m.collision_count is Some),
    {
        Self::lemma_key_facts();
        let p1 = int_entry("replicas"@, opt_int(m.replicas));
        let p2 = p1 + int_entry("readyReplicas"@, opt_int(m.ready_replicas));
        let p3 = p2 + int_entry("availableReplicas"@, opt_int(m.available_replicas));
        let p4 = p3 + int_entry("unavailableReplicas"@, opt_int(m.unavailable_replicas));
        let p5 = p4 + int_entry("updatedReplicas"@, opt_int(m.updated_replicas));
        let p6 = p5 + int_entry("terminatingReplicas"@, opt_int(m.terminating_replicas));
        let p7 = p6 + int_entry("collisionCount"@, opt_int(m.collision_count));
        let p8 = p7 + int_entry("observedGeneration"@, opt_int(m.observed_generation));
        let p9 = p8 + models_entry::<DeploymentCondition>("conditions"@, m.conditions);
        assert(Self::to_fields(m) == p9);
        assert(get_entry(p6, "collisionCount"@) == None::<ValueView>);
    }

    /// Field `observedGeneration` reads back as written, and is written only when it is set.
    pub proof fn lemma_reads_back_observed_generation(m: DeploymentStatusView)
        ensures
            i64_field(Self::to_fields(m), "observedGeneration"@) == Ok::<Option<i64>, DecodeErrorView>(m.observed_generation),
            (get_entry(Self::to_fields(m), "observedGeneration"@) is Some) == (m.observed_generation is Some),
    {
        Self::lemma_key_facts();
        let p1 = int_entry("replicas"@, opt_int(m.replicas));
        let p2 = p1 + int_entry("readyReplicas"@, opt_int(m.ready_replicas));
        let p3 = p2 + int_entry("availableReplicas"@, opt_int(m.available_replicas));
        let p4 = p3 + int_entry("unavailableReplicas"@, opt_int(m.unavailable_replicas));
        let p5 = p4 + int_entry("updatedReplicas"@, opt_int(m.updated_replicas));
        let p6 = p5 + int_entry("terminatingReplicas"@, opt_int(m.terminating_replicas));
        let p7 = p6 + int_entry("collisionCount"@, opt_int(m.collision_count));
        let p8 = p7 + int_entry("observedGeneration"@, opt_int(m.observed_generation));
        let p9 = p8 + models_entry::<DeploymentCondition>("conditions"@, m.conditions);
        assert(Self::to_fields(m) == p9);
        assert(get_entry(p7, "observedGeneration"@) == None::<ValueView>);
    }

    /// Field `conditions` reads back as written, and is written only when it is set.
    pub proof fn lemma_reads_back_conditions(m: DeploymentStatusView)
        ensures
            models_field::<DeploymentCondition>(Self::to_fields(m), "conditions"@) == Ok::<Option<Seq<DeploymentConditionView>>, DecodeErrorView>(m.conditions),
            (get_entry(Self::to_fields(m), "conditions"@) is Some) == (m.conditions is Some),
    {
        Self::lemma_key_facts();
        let p1 = int_entry("replicas"@, opt_int(m.replicas));
        let p2 = p1 + int_entry("readyReplicas"@, opt_int(m.ready_replicas));
        let p3 = p2 + int_entry("availableReplicas"@, opt_int(m.available_replicas));
        let p4 = p3 + int_entry("unavailableReplicas"@, opt_int(m.unavailable_replicas));
        let p5 = p4 + int_entry("updatedReplicas"@, opt_int(m.updated_replicas));
        let p6 = p5 + int_entry("terminatingReplicas"@, opt_int(m.terminating_replicas));
        let p7 = p6 + int_entry("collisionCount"@, opt_int(m.collision_count));
        let p8 = p7 + int_entry("observedGeneration"@, opt_int(m.observed_generation));
        let p9 = p8 + models_entry::<DeploymentCondition>("conditions"@, m.conditions);
        assert(Self::to_fields(m) == p9);
        assert(get_entry(p8, "conditions"@) == None::<ValueView>);
        if let Some(x) = m.conditions {
            lemma_models_round_trip::<DeploymentCondition>(x);
        }
    }

}

/// An `apps/v1` Deployment.
pub struct Deployment {
    pub api_version: Option<String>,
    pub kind: Option<String>,
    pub metadata: Option<ObjectMeta>,
    pub spec: Option<DeploymentSpec>,
    pub status: Option<DeploymentStatus>,
}

pub struct DeploymentView {
    pub api_version: Option<Seq<char>>,
    pub kind: Option<Seq<char>>,
    pub metadata: Option<ObjectMetaView>,
    pub spec: Option<DeploymentSpecView>,
    pub status: Option<DeploymentStatusView>,
}

impl DeepView for Deployment {
    type V = DeploymentView;

    open spec fn deep_view(&self) -> DeploymentView {
        DeploymentView {
            api_version: self.api_version.deep_view(),
            kind: self.kind.deep_view(),
            metadata: self.metadata.deep_view(),
            spec: self.spec.deep_view(),
            status: self.status.deep_view(),
        }
    }
}

impl Model for Deployment {
    open spec fn model_name() -> Seq<char> {
        "Deployment"@
    }

    open spec fn keys() -> Set<Seq<char>> {
        set!["apiVersion"@, "kind"@, "metadata"@, "spec"@, "status"@]
    }

    open spec fn from_fields(f: Fields) -> Result<DeploymentView, DecodeErrorView> {
        match str_field(f, "apiVersion"@) {
            Err(e) => Err(e),
            Ok(api_version) => match str_field(f, "kind"@) {
                Err(e) => Err(e),
                Ok(kind) => match model_field::<ObjectMeta>(f, "metadata"@) {
                    Err(e) => Err(e),
                    Ok(metadata) => match model_field::<DeploymentSpec>(f, "spec"@) {
                        Err(e) => Err(e),
                        Ok(spec) => match model_field::<DeploymentStatus>(f, "status"@) {
                            Err(e) => Err(e),
                            Ok(status) => Ok(DeploymentView { api_version, kind, metadata, spec, status }),
                        },
                    },
                },
            },
        }
    }

    open spec fn to_fields(m: DeploymentView) -> Fields {
        str_entry("apiVersion"@, m.api_version)
            + str_entry("kind"@, m.kind)
            + model_entry::<ObjectMeta>("metadata"@, m.metadata)
            + model_entry::<DeploymentSpec>("spec"@, m.spec)
            + model_entry::<DeploymentStatus>("status"@, m.status)
    }

    proof fn lemma_round_trip(m: DeploymentView) {
        Deployment::lemma_reads_back_api_version(m);
        Deployment::lemma_reads_back_kind(m);
        Deployment::lemma_reads_back_metadata(m);
        Deployment::lemma_reads_back_spec(m);
        Deployment::lemma_reads_back_status(m);
    }

    proof fn lemma_reads_only_keys(f: Fields, g: Fields) {
        assert(field_value(f, "apiVersion"@) == field_value(g, "apiVersion"@));
        assert(str_field(f, "apiVersion"@) == str_field(g, "apiVersion"@));
        assert(field_value(f, "kind"@) == field_value(g, "kind"@));
        assert(str_field(f, "kind"@) == str_field(g, "kind"@));
        assert(field_value(f, "metadata"@) == field_value(g, "metadata"@));
        assert(model_field::<ObjectMeta>(f, "metadata"@) == model_field::<ObjectMeta>(g, "metadata"@));
        assert(field_value(f, "spec"@) == field_value(g, "spec"@));
        assert(model_field::<DeploymentSpec>(f, "spec"@) == model_field::<DeploymentSpec>(g, "spec"@));
        assert(field_value(f, "status"@) == field_value(g, "status"@));
        assert(model_field::<DeploymentStatus>(f, "status"@) == model_field::<DeploymentStatus>(g, "status"@));
    }

    proof fn lemma_writes_only_keys(m: DeploymentView) {
        reveal_strlit("apiVersion");
        reveal_strlit("kind");
        reveal_strlit("metadata");
        reveal_strlit("spec");
        reveal_strlit("status");
        assert("apiVersion"@.len() == 10);
        assert("kind"@.len() == 4);
        assert("metadata"@.len() == 8);
        assert("spec"@.len() == 4);
        assert("status"@.len() == 6);
        assert("kind"@[0] == 'k' && "spec"@[0] == 's');
        let p0 = Seq::<(Seq<char>, ValueView)>::empty();
        let a0 = Set::<Seq<char>>::empty();
        lemma_push_entry(p0, "apiVersion"@, str_entry("apiVersion"@, m.api_version), a0);
        let p1 = p0 + str_entry("apiVersion"@, m.api_version);
        let a1 = a0.insert("apiVersion"@);
        lemma_push_entry(p1, "kind"@, str_entry("kind"@, m.kind), a1);
        let p2 = p1 + str_entry("kind"@, m.kind);
        let a2 = a1.insert("kind"@);
        lemma_push_entry(p2, "metadata"@, model_entry::<ObjectMeta>("metadata"@, m.metadata), a2);
        let p3 = p2 + model_entry::<ObjectMeta>("metadata"@, m.metadata);
        let a3 = a2.insert("metadata"@);
        lemma_push_entry(p3, "spec"@, model_entry::<DeploymentSpec>("spec"@, m.spec), a3);
        let p4 = p3 + model_entry::<DeploymentSpec>("spec"@, m.spec);
        let a4 = a3.insert("spec"@);
        lemma_push_entry(p4, "status"@, model_entry::<DeploymentStatus>("status"@, m.status), a4);
        let p5 = p4 + model_entry::<DeploymentStatus>("status"@, m.status);
        let a5 = a4.insert("status"@);
        assert(p5 =~= Self::to_fields(m));
        assert(a5 =~= Self::keys());
    }

    open spec fn key_seq() -> Seq<Seq<char>> {
        seq!["apiVersion"@, "kind"@, "metadata"@, "spec"@, "status"@]
    }

    fn field_count() -> (r: usize) {
        5
    }

    fn field_key(i: usize) -> (r: Option<&'static str>) {
        if i == 0 {
            Some("apiVersion")
        } else if i == 1 {
            Some("kind")
        } else if i == 2 {
            Some("metadata")
        } else if i == 3 {
            Some("spec")
        } else if i == 4 {
            Some("status")
        } else {
            None
        }
    }

    fn name() -> (r: &'static str) {
        "Deployment"
    }

    fn decode(s: &Struct) -> (r: Result<Deployment, DecodeError>) {
        let api_version = read_str(s, "apiVersion")?;
        let kind = read_str(s, "kind")?;
        let metadata = read_model::<ObjectMeta>(s, "metadata")?;
        let spec = read_model::<DeploymentSpec>(s, "spec")?;
        let status = read_model::<DeploymentStatus>(s, "status")?;
        Ok(Deployment { api_version, kind, metadata, spec, status })
    }

    fn encode(&self) -> (r: Struct) {
        let mut fields: Vec<(String, Value)> = Vec::new();
        let ghost start = fields.deep_view();
        write_str(&mut fields, "apiVersion", &self.api_version);
        write_str(&mut fields, "kind", &self.kind);
        write_model::<ObjectMeta>(&mut fields, "metadata", &self.metadata);
        write_model::<DeploymentSpec>(&mut fields, "spec", &self.spec);
        write_model::<DeploymentStatus>(&mut fields, "status", &self.status);
        assert(start =~= Seq::<(Seq<char>, ValueView)>::empty());
        assert(fields.deep_view() =~= Self::to_fields(self.deep_view()));
        Struct { fields }
    }
}

impl Deployment {
    /// How an object reads as a `Deployment` depends on nothing but how each of
    /// its fields reads.
    pub proof fn lemma_reads_field_by_field(f: Fields, g: Fields)
        requires
            str_field(f, "apiVersion"@) == str_field(g, "apiVersion"@),
            str_field(f, "kind"@) == str_field(g, "kind"@),
            model_field::<ObjectMeta>(f, "metadata"@) == model_field::<ObjectMeta>(g, "metadata"@),
            model_field::<DeploymentSpec>(f, "spec"@) == model_field::<DeploymentSpec>(g, "spec"@),
            model_field::<DeploymentStatus>(f, "status"@) == model_field::<DeploymentStatus>(g, "status"@),
        ensures
            Self::from_fields(f) == Self::from_fields(g),
    {
    }

    proof fn lemma_key_facts()
        ensures
            "apiVersion"@.len() == 10,
            "kind"@.len() == 4,
            "metadata"@.len() == 8,
            "spec"@.len() == 4,
            "status"@.len() == 6,
            "kind"@[0] == 'k' && "spec"@[0] == 's',
    {
        reveal_strlit("apiVersion");
        reveal_strlit("kind");
        reveal_strlit("metadata");
        reveal_strlit("spec");
        reveal_strlit("status");
    }

    /// Field `apiVersion` reads back as written, and is written only when it is set.
    pub proof fn lemma_reads_back_api_version(m: DeploymentView)
        ensures
            str_field(Self::to_fields(m), "apiVersion"@) == Ok::<Option<Seq<char>>, DecodeErrorView>(m.api_version),
            (get_entry(Self::to_fields(m), "apiVersion"@) is Some) == (m.api_version is Some),
    {
        Self::lemma_key_facts();
        let p1 = str_entry("apiVersion"@, m.api_version);
        let p2 = p1 + str_entry("kind"@, m.kind);
        let p3 = p2 + model_entry::<ObjectMeta>("metadata"@, m.metadata);
        let p4 = p3 + model_entry::<DeploymentSpec>("spec"@, m.spec);
        let p5 = p4 + model_entry::<DeploymentStatus>("status"@, m.status);
        assert(Self::to_fields(m) == p5);
    }

    /// Field `kind` reads back as written, and is written only when it is set.
    pub proof fn lemma_reads_back_kind(m: DeploymentView)
        ensures
            str_field(Self::to_fields(m), "kind"@) == Ok::<Option<Seq<char>>, DecodeErrorView>(m.kind),
            (get_entry(Self::to_fields(m), "kind"@) is Some) == (m.kind is Some),
    {
        Self::lemma_key_facts();
        let p1 = str_entry("apiVersion"@, m.api_version);
        let p2 = p1 + str_entry("kind"@, m.kind);
        let p3 = p2 + model_entry::<ObjectMeta>("metadata"@, m.metadata);
        let p4 = p3 + model_entry::<DeploymentSpec>("spec"@, m.spec);
        let p5 = p4 + model_entry::<DeploymentStatus>("status"@, m.status);
        assert(Self::to_fields(m) == p5);
        assert(get_entry(p1, "kind"@) == None::<ValueView>);
    }

    /// Field `metadata` reads back as written, and is written only when it is set.
    pub proof fn lemma_reads_back_metadata(m: DeploymentView)
        ensures
            model_field::<ObjectMeta>(Self::to_fields(m), "metadata"@) == Ok::<Option<ObjectMetaView>, DecodeErrorView>(m.metadata),
            (get_entry(Self::to_fields(m), "metadata"@) is Some) == (m.metadata is Some),
    {
        Self::lemma_key_facts();
        let p1 = str_entry("apiVersion"@, m.api_version);
        let p2 = p1 + str_entry("kind"@, m.kind);
        let p3 = p2 + model_entry::<ObjectMeta>("metadata"@, m.metadata);
        let p4 = p3 + model_entry::<DeploymentSpec>("spec"@, m.spec);
        let p5 = p4 + model_entry::<DeploymentStatus>("status"@, m.status);
        assert(Self::to_fields(m) == p5);
        assert(get_entry(p2, "metadata"@) == None::<ValueView>);
        if let Some(x) = m.metadata {
            ObjectMeta::lemma_round_trip(x);
        }
    }

    /// Field `spec` reads back as written, and is written only when it is set.
    pub proof fn lemma_reads_back_spec(m: DeploymentView)
        ensures
            model_field::<DeploymentSpec>(Self::to_fields(m), "spec"@) == Ok::<Option<DeploymentSpecView>, DecodeErrorView>(m.spec),
            (get_entry(Self::to_fields(m), "spec"@) is Some) == (m.spec is Some),
    {
        Self::lemma_key_facts();
        let p1 = str_entry("apiVersion"@, m.api_version);
        let p2 = p1 + str_entry("kind"@, m.kind);
        let p3 = p2 + model_entry::<ObjectMeta>("metadata"@, m.metadata);
        let p4 = p3 + model_entry::<DeploymentSpec>("spec"@, m.spec);
        let p5 = p4 + model_entry::<DeploymentStatus>("status"@, m.status);
        assert(Self::to_fields(m) == p5);
        assert(get_entry(p3, "spec"@) == None::<ValueView>);
        if let Some(x) = m.spec {
            DeploymentSpec::lemma_round_trip(x);
        }
    }

    /// Field `status` reads back as written, and is written only when it is set.
    pub proof fn lemma_reads_back_status(m: DeploymentView)
        ensures
            model_field::<DeploymentStatus>(Self::to_fields(m), "status"@) == Ok::<Option<DeploymentStatusView>, DecodeErrorView>(m.status),
            (get_entry(Self::to_fields(m), "status"@) is Some) == (m.status is Some),
    {
        Self::lemma_key_facts();
        let p1 = str_entry("apiVersion"@, m.api_version);
        let p2 = p1 + str_entry("kind"@, m.kind);
        let p3 = p2 + model_entry::<ObjectMeta>("metadata"@, m.metadata);
        let p4 = p3 + model_entry::<DeploymentSpec>("spec"@, m.spec);
        let p5 = p4 + model_entry::<DeploymentStatus>("status"@, m.status);
        assert(Self::to_fields(m) == p5);
        assert(get_entry(p4, "status"@) == None::<ValueView>);
        if let Some(x) = m.status {
            DeploymentStatus::lemma_round_trip(x);
        }
    }

}

}
