//! What holds of the functions across all their inputs.

use vstd::prelude::*;
use crate::apps::{Deployment, DeploymentView};
use crate::codec::{field_value, Model};
use crate::compose::{
    app_labels, cannot_get_xr_message, compose_spec, composed_deployment, composed_service,
    composes, container_ports, missing_fields_message, observed_composite, service_ports,
};
use crate::entries::{
    get_entry, group_entries, keys_distinct, lemma_get_put_other, lemma_get_put_same,
    lemma_put_keeps_distinct, lemma_put_put_same, put_entry,
};
use crate::messages::{
    empty_resource, empty_state, request_tag, DurationView, ResourceView, RunFunctionRequestView,
    StructView, SEVERITY_FATAL, SEVERITY_NORMAL, TARGET_COMPOSITE,
};
use crate::meta::{IntOrStringView, ObjectMeta, ObjectMetaView};
use crate::pdb::{
    budget_for, decode_failure_message, desired_deployment, desired_of, handle_spec,
    metadata_of, plugin_outcome, selector_of,
};
use crate::policy::PodDisruptionBudget;
use crate::sdk::{
    get_error_message, merge_fields, updated_resource, with_composed, DEFAULT_TTL_SECONDS,
};
use crate::service::{Service, ServiceView};
use crate::value::ValueView;
use crate::webapp::{WebApp, WebAppSpec};

verus! {

broadcast use vstd::string::group_string_axioms;

/// Setting top-level fields on an object works like a map update: a field
/// that is set reads as the value set, any other field as it was.
pub proof fn lemma_merge_fields(target: StructView, fields: StructView, key: Seq<char>)
    requires
        keys_distinct(fields),
    ensures
        get_entry(merge_fields(target, fields), key) == match get_entry(fields, key) {
            Some(v) => Some(v),
            None => get_entry(target, key),
        },
    decreases fields.len(),
{
    broadcast use group_entries;

    if fields.len() > 0 {
        let rest = fields.drop_first();
        let next = put_entry(target, fields[0].0, fields[0].1);
        assert(keys_distinct(rest));
        lemma_merge_fields(next, rest, key);
        assert(fields =~= seq![fields[0]] + rest);
        if key == fields[0].0 {
            lemma_get_put_same(target, key, fields[0].1);
            assert forall|j: int| 0 <= j < rest.len() implies rest[j].0 != key by {
                assert(rest[j] == fields[j + 1]);
            }
            crate::entries::lemma_find_key_absent(rest, key);
        } else {
            lemma_get_put_other(target, fields[0].0, fields[0].1, key);
        }
    }
}

/// Setting top-level fields on an object whose keys are distinct gives an
/// object whose keys are distinct.
pub proof fn lemma_merge_keeps_distinct(target: StructView, fields: StructView)
    requires
        keys_distinct(target),
    ensures
        keys_distinct(merge_fields(target, fields)),
    decreases fields.len(),
{
    if fields.len() > 0 {
        lemma_put_keeps_distinct(target, fields[0].0, fields[0].1);
        lemma_merge_keeps_distinct(put_entry(target, fields[0].0, fields[0].1), fields.drop_first());
    }
}

// ---- the PodDisruptionBudget plugin ----

/// The plugin passes the rest of the desired state and the context through
/// unchanged: every desired resource but the budget reads as it did, and
/// the desired composite resource and the context are those of the request.
pub proof fn lemma_plugin_passes_through(req: RunFunctionRequestView, key: Seq<char>)
    requires
        plugin_outcome(req) is Ok,
        key != "pod-disruption-budget"@,
    ensures
        get_entry(plugin_outcome(req)->Ok_0.desired->Some_0.resources, key) == get_entry(
            desired_of(req).resources,
            key,
        ),
        plugin_outcome(req)->Ok_0.desired->Some_0.composite == desired_of(req).composite,
        plugin_outcome(req)->Ok_0.context == req.context,
        plugin_outcome(req)->Ok_0.meta->Some_0.tag == request_tag(req),
{
    let d = desired_deployment(req)->Ok_0;
    lemma_get_put_other(
        desired_of(req).resources,
        "pod-disruption-budget"@,
        crate::pdb::budget_resource(budget_for(metadata_of(d), selector_of(d)->Some_0)),
        key,
    );
}

/// The budget that the plugin adds reads back as a `policy/v1`
/// PodDisruptionBudget named and namespaced as the Deployment, selecting
/// exactly the pods the Deployment selects, with at most one of them
/// unavailable and no minimum available set (the two cannot both be set);
/// and the Deployment stays desired as it was.
pub proof fn lemma_plugin_budget_selects_deployment(req: RunFunctionRequestView)
    requires
        plugin_outcome(req) is Ok,
    ensures
        ({
            let d = desired_deployment(req)->Ok_0;
            let resources = plugin_outcome(req)->Ok_0.desired->Some_0.resources;
            let b = budget_for(metadata_of(d), selector_of(d)->Some_0);
            &&& get_entry(resources, "pod-disruption-budget"@) matches Some(r)
            &&& r.resource matches Some(obj)
            &&& PodDisruptionBudget::from_fields(obj) == Ok::<_, crate::codec::DecodeErrorView>(b)
            &&& b.api_version == Some("policy/v1"@)
            &&& b.kind == Some("PodDisruptionBudget"@)
            &&& b.metadata->Some_0.name == metadata_of(d).name
            &&& b.metadata->Some_0.namespace == metadata_of(d).namespace
            &&& b.spec->Some_0.selector == selector_of(d)
            &&& b.spec->Some_0.max_unavailable == Some(IntOrStringView::Int(1))
            &&& b.spec->Some_0.min_available == None::<IntOrStringView>
            &&& get_entry(resources, "deployment"@) == get_entry(desired_of(req).resources, "deployment"@)
        }),
{
    let d = desired_deployment(req)->Ok_0;
    let b = budget_for(metadata_of(d), selector_of(d)->Some_0);
    lemma_get_put_same(desired_of(req).resources, "pod-disruption-budget"@, crate::pdb::budget_resource(b));
    PodDisruptionBudget::lemma_round_trip(b);
    reveal_strlit("deployment");
    reveal_strlit("pod-disruption-budget");
    assert("deployment"@.len() == 10);
    assert("pod-disruption-budget"@.len() == 21);
    lemma_plugin_passes_through(req, "deployment"@);
}

/// The plugin names each desired resource once: where no name occurs twice
/// among the request's desired resources, none occurs twice in the answer,
/// and the budget's object holds each of its keys once.
pub proof fn lemma_plugin_keeps_names_distinct(req: RunFunctionRequestView)
    requires
        plugin_outcome(req) is Ok,
        keys_distinct(desired_of(req).resources),
    ensures
        keys_distinct(plugin_outcome(req)->Ok_0.desired->Some_0.resources),
        get_entry(plugin_outcome(req)->Ok_0.desired->Some_0.resources, "pod-disruption-budget"@)
            matches Some(r) && r.resource matches Some(obj) && keys_distinct(obj),
{
    broadcast use group_entries;

    let d = desired_deployment(req)->Ok_0;
    let b = budget_for(metadata_of(d), selector_of(d)->Some_0);
    lemma_put_keeps_distinct(desired_of(req).resources, "pod-disruption-budget"@, crate::pdb::budget_resource(b));
    lemma_get_put_same(desired_of(req).resources, "pod-disruption-budget"@, crate::pdb::budget_resource(b));
    PodDisruptionBudget::lemma_writes_only_keys(b);
}

/// Running the plugin again on the desired state it answered with answers
/// with that same desired state: a second run adds nothing.
pub proof fn lemma_plugin_is_idempotent(req: RunFunctionRequestView)
    requires
        plugin_outcome(req) is Ok,
    ensures
        ({
            let out = plugin_outcome(req)->Ok_0;
            let again = RunFunctionRequestView { desired: out.desired, ..req };
            &&& plugin_outcome(again) is Ok
            &&& plugin_outcome(again)->Ok_0.desired == out.desired
        }),
{
    broadcast use group_entries;

    let out = plugin_outcome(req)->Ok_0;
    let again = RunFunctionRequestView { desired: out.desired, ..req };
    let d = desired_deployment(req)->Ok_0;
    let b = crate::pdb::budget_resource(budget_for(metadata_of(d), selector_of(d)->Some_0));
    reveal_strlit("deployment");
    reveal_strlit("pod-disruption-budget");
    assert("deployment"@.len() == 10);
    assert("pod-disruption-budget"@.len() == 21);
    lemma_get_put_other(desired_of(req).resources, "pod-disruption-budget"@, b, "deployment"@);
    assert(desired_deployment(again) == desired_deployment(req));
    lemma_put_put_same(desired_of(req).resources, "pod-disruption-budget"@, b);
}

/// Every answer of the plugin carries exactly one result for the composite
/// resource: a normal one when the run succeeded, a fatal one with the
/// reason when it failed.
pub proof fn lemma_handle_one_result(decoded: Result<RunFunctionRequestView, Seq<char>>)
    ensures
        handle_spec(decoded).results.len() == 1,
        handle_spec(decoded).results[0].target == Some(TARGET_COMPOSITE),
        handle_spec(decoded).results[0].severity == if decoded is Ok && plugin_outcome(
            decoded->Ok_0,
        ) is Ok {
            SEVERITY_NORMAL
        } else {
            SEVERITY_FATAL
        },
        decoded is Ok && plugin_outcome(decoded->Ok_0) is Err ==> handle_spec(decoded).results[0].message
            == plugin_outcome(decoded->Ok_0)->Err_0,
        decoded is Err ==> handle_spec(decoded).results[0].message == decode_failure_message(
            decoded->Err_0,
        ),
        decoded is Err ==> handle_spec(decoded).meta is None,
{
}

// ---- the composition function ----

/// The composed resources select the WebApp's pods alike: the Deployment's
/// selector, its pod template's labels and the Service's selector are all
/// the app label with the WebApp's name; the Deployment asks for the
/// WebApp's replica count cut to 32 bits (zero included), and for none when
/// the WebApp sets none; and each of the WebApp's ports, in order, is a port
/// of the one container, named as the WebApp and running its image, and a
/// TCP port of the Service forwarding to it. The Deployment is an `apps/v1`
/// Deployment carrying the app label and no status; the Service a `v1`
/// Service with no labels.
pub proof fn lemma_composed_resources_agree(
    name: Seq<char>,
    namespace: Option<Seq<char>>,
    image: Seq<char>,
    replicas: Option<i64>,
    ports: Seq<i32>,
)
    ensures
        ({
            let d = composed_deployment(name, namespace, image, replicas, ports);
            let s = composed_service(name, namespace, ports);
            let spec = d.spec->Some_0;
            let pods = spec.template->Some_0;
            &&& spec.selector->Some_0.match_labels == Some(app_labels(name))
            &&& pods.metadata->Some_0.labels == Some(app_labels(name))
            &&& s.spec->Some_0.selector == Some(app_labels(name))
            &&& d.metadata->Some_0.name == Some(name) && s.metadata->Some_0.name == Some(name)
            &&& d.metadata->Some_0.namespace == namespace && s.metadata->Some_0.namespace == namespace
            &&& pods.spec->Some_0.containers->Some_0.len() == 1
            &&& pods.spec->Some_0.containers->Some_0[0].image == Some(image)
            &&& pods.spec->Some_0.containers->Some_0[0].name == Some(name)
            &&& d.api_version == Some("apps/v1"@) && d.kind == Some("Deployment"@)
            &&& s.api_version == Some("v1"@) && s.kind == Some("Service"@)
            &&& d.metadata->Some_0.labels == Some(app_labels(name))
            &&& s.metadata->Some_0.labels == None::<Seq<(Seq<char>, Seq<char>)>>
            &&& d.status == None::<crate::apps::DeploymentStatusView>
            &&& pods.spec->Some_0.containers->Some_0[0].ports == Some(container_ports(ports))
            &&& s.spec->Some_0.ports == Some(service_ports(ports))
            &&& spec.replicas == match replicas {
                Some(r) => Some(r as i32),
                None => None,
            }
            &&& forall|i: int|
                0 <= i < ports.len() ==> {
                    &&& #[trigger] container_ports(ports)[i].container_port == Some(ports[i])
                    &&& service_ports(ports)[i].protocol == Some("TCP"@)
                    &&& service_ports(ports)[i].port == Some(ports[i])
                    &&& service_ports(ports)[i].target_port == Some(IntOrStringView::Int(ports[i]))
                }
            &&& container_ports(ports).len() == ports.len()
            &&& service_ports(ports).len() == ports.len()
        }),
{
}

/// The object of a resource, empty when it has none.
pub open spec fn object_of(r: ResourceView) -> StructView {
    match r.resource {
        Some(s) => s,
        None => Seq::empty(),
    }
}

/// A model's fields set on a resource's object read back as that model,
/// provided the object does not already hold a field of the model that the
/// model leaves unset.
pub proof fn lemma_update_reads_back<T: Model>(current: ResourceView, m: T::V)
    requires
        forall|k: Seq<char>|
            T::keys().contains(k) && get_entry(T::to_fields(m), k) is None ==> field_value(
                object_of(current),
                k,
            ) is None,
    ensures
        updated_resource(current, T::to_fields(m)).resource matches Some(obj)
            && T::from_fields(obj) == Ok::<_, crate::codec::DecodeErrorView>(m),
{
    broadcast use group_entries;

    let f = T::to_fields(m);
    let t = object_of(current);
    let obj = merge_fields(t, f);
    T::lemma_writes_only_keys(m);
    assert forall|k: Seq<char>| T::keys().contains(k) implies field_value(obj, k) == field_value(
        f,
        k,
    ) by {
        lemma_merge_fields(t, f, k);
    }
    T::lemma_reads_only_keys(obj, f);
    T::lemma_round_trip(m);
}

/// When the function composes, the desired `deployment` and `service` read
/// back as the composed Deployment and Service, whatever earlier steps had
/// desired for them, save a `status` that an earlier step gave the
/// Deployment (the composed Deployment sets none, so such a status stays);
/// every other desired resource, the desired composite resource and the
/// context pass through from the request; and the response carries the
/// request's tag and no results.
pub proof fn lemma_compose_desires_composed(req: RunFunctionRequestView, key: Seq<char>)
    requires
        composes(req),
        key != "deployment"@,
        key != "service"@,
        match get_entry(
            match req.desired {
                Some(d) => d,
                None => empty_state(),
            }.resources,
            "deployment"@,
        ) {
            Some(r) => field_value(object_of(r), "status"@) is None,
            None => true,
        },
    ensures
        ({
            let xr = crate::sdk::get_resource_spec::<crate::webapp::WebApp>(
                observed_composite(req),
            )->Ok_0;
            let m = xr.metadata->Some_0;
            let s = xr.spec->Some_0;
            let ports = match s.ports {
                Some(p) => p,
                None => Seq::empty(),
            };
            let rsp = compose_spec(req);
            let desired = rsp.desired->Some_0;
            &&& get_entry(desired.resources, "deployment"@) matches Some(r) && r.resource matches Some(
                obj,
            ) && Deployment::from_fields(obj) == Ok::<_, crate::codec::DecodeErrorView>(
                composed_deployment(
                    m.name->Some_0,
                    m.namespace,
                    s.image->Some_0,
                    s.replicas,
                    ports,
                ),
            )
            &&& get_entry(desired.resources, "service"@) matches Some(r) && r.resource matches Some(
                obj,
            ) && Service::from_fields(obj) == Ok::<_, crate::codec::DecodeErrorView>(
                composed_service(m.name->Some_0, m.namespace, ports),
            )
            &&& get_entry(desired.resources, key) == get_entry(
                match req.desired {
                    Some(d) => d,
                    None => empty_state(),
                }.resources,
                key,
            )
            &&& desired.composite == match req.desired {
                Some(d) => d.composite,
                None => None,
            }
            &&& rsp.context == req.context
            &&& rsp.meta == Some(
                crate::messages::ResponseMetaView {
                    tag: request_tag(req),
                    ttl: Some(DurationView { seconds: DEFAULT_TTL_SECONDS, nanos: 0 }),
                },
            )
            &&& rsp.results.len() == 0
        }),
{
    broadcast use group_entries;

    let xr = crate::sdk::get_resource_spec::<crate::webapp::WebApp>(observed_composite(req))->Ok_0;
    let m = xr.metadata->Some_0;
    let s = xr.spec->Some_0;
    let ports = match s.ports {
        Some(p) => p,
        None => Seq::empty(),
    };
    let d = composed_deployment(m.name->Some_0, m.namespace, s.image->Some_0, s.replicas, ports);
    let sv = composed_service(m.name->Some_0, m.namespace, ports);
    let rsp0 = crate::sdk::response_to_spec(req, DEFAULT_TTL_SECONDS);
    let rsp1 = with_composed(rsp0, "deployment"@, Deployment::to_fields(d));
    let start = match req.desired {
        Some(x) => x,
        None => empty_state(),
    };
    let cur_d = match get_entry(start.resources, "deployment"@) {
        Some(r) => r,
        None => empty_resource(),
    };
    let r1 = put_entry(start.resources, "deployment"@, updated_resource(cur_d, Deployment::to_fields(d)));
    let cur_s = match get_entry(r1, "service"@) {
        Some(r) => r,
        None => empty_resource(),
    };
    let r2 = put_entry(r1, "service"@, updated_resource(cur_s, Service::to_fields(sv)));
    reveal_strlit("deployment");
    reveal_strlit("service");
    assert("deployment"@.len() == 10);
    assert("service"@.len() == 7);
    assert(compose_spec(req).desired->Some_0.resources == r2);
    lemma_get_put_same(r1, "service"@, updated_resource(cur_s, Service::to_fields(sv)));
    lemma_get_put_other(r1, "service"@, updated_resource(cur_s, Service::to_fields(sv)), "deployment"@);
    lemma_get_put_same(start.resources, "deployment"@, updated_resource(cur_d, Deployment::to_fields(d)));
    lemma_get_put_other(r1, "service"@, updated_resource(cur_s, Service::to_fields(sv)), key);
    lemma_get_put_other(start.resources, "deployment"@, updated_resource(cur_d, Deployment::to_fields(d)), key);
    reveal_strlit("apiVersion");
    reveal_strlit("kind");
    reveal_strlit("metadata");
    reveal_strlit("spec");
    reveal_strlit("status");
    assert("apiVersion"@.len() == 10);
    assert("kind"@.len() == 4);
    assert("metadata"@.len() == 8);
    assert("spec"@.len() == 4);
    assert("status"@.len() == 6);
    assert("kind"@[0] == 'k' && "spec"@[0] == 's');
    Deployment::lemma_reads_back_api_version(d);
    Deployment::lemma_reads_back_kind(d);
    Deployment::lemma_reads_back_metadata(d);
    Deployment::lemma_reads_back_spec(d);
    assert forall|k: Seq<char>|
        Deployment::keys().contains(k) && get_entry(Deployment::to_fields(d), k) is None implies field_value(
            object_of(cur_d),
            k,
        ) is None by {
        assert(k == "status"@);
    }
    lemma_update_reads_back::<Deployment>(cur_d, d);
    Service::lemma_reads_back_api_version(sv);
    Service::lemma_reads_back_kind(sv);
    Service::lemma_reads_back_metadata(sv);
    Service::lemma_reads_back_spec(sv);
    lemma_update_reads_back::<Service>(cur_s, sv);
}

/// The composition function names each desired resource once and sets
/// each top-level field of a desired object once: where no name occurs
/// twice among the request's desired resources, and no key twice in any of
/// their objects, the same holds of the answer.
pub proof fn lemma_compose_keeps_keys_distinct(req: RunFunctionRequestView)
    requires
        composes(req),
        keys_distinct(desired_of(req).resources),
        forall|name: Seq<char>|
            #[trigger] get_entry(desired_of(req).resources, name) matches Some(r) ==> keys_distinct(
                object_of(r),
            ),
    ensures
        keys_distinct(compose_spec(req).desired->Some_0.resources),
        forall|name: Seq<char>|
            #[trigger] get_entry(compose_spec(req).desired->Some_0.resources, name) matches Some(r)
                ==> keys_distinct(object_of(r)),
{
    broadcast use group_entries;

    let xr = crate::sdk::get_resource_spec::<crate::webapp::WebApp>(observed_composite(req))->Ok_0;
    let m = xr.metadata->Some_0;
    let s = xr.spec->Some_0;
    let ports = match s.ports {
        Some(p) => p,
        None => Seq::empty(),
    };
    let d = composed_deployment(m.name->Some_0, m.namespace, s.image->Some_0, s.replicas, ports);
    let sv = composed_service(m.name->Some_0, m.namespace, ports);
    let start = desired_of(req);
    let cur_d = match get_entry(start.resources, "deployment"@) {
        Some(r) => r,
        None => empty_resource(),
    };
    let up_d = updated_resource(cur_d, Deployment::to_fields(d));
    let r1 = put_entry(start.resources, "deployment"@, up_d);
    let cur_s = match get_entry(r1, "service"@) {
        Some(r) => r,
        None => empty_resource(),
    };
    let up_s = updated_resource(cur_s, Service::to_fields(sv));
    let r2 = put_entry(r1, "service"@, up_s);
    reveal_strlit("deployment");
    reveal_strlit("service");
    assert("deployment"@.len() == 10);
    assert("service"@.len() == 7);
    assert(compose_spec(req).desired->Some_0.resources == r2);
    lemma_put_keeps_distinct(start.resources, "deployment"@, up_d);
    lemma_put_keeps_distinct(r1, "service"@, up_s);
    assert(keys_distinct(object_of(cur_d)));
    lemma_merge_keeps_distinct(object_of(cur_d), Deployment::to_fields(d));
    lemma_get_put_other(start.resources, "deployment"@, up_d, "service"@);
    assert(keys_distinct(object_of(cur_s)));
    lemma_merge_keeps_distinct(object_of(cur_s), Service::to_fields(sv));
    assert forall|name: Seq<char>| #[trigger]
        get_entry(r2, name) is Some implies keys_distinct(object_of(get_entry(r2, name)->Some_0)) by {
        if name == "service"@ {
            lemma_get_put_same(r1, "service"@, up_s);
        } else {
            lemma_get_put_other(r1, "service"@, up_s, name);
            if name == "deployment"@ {
                lemma_get_put_same(start.resources, "deployment"@, up_d);
            } else {
                lemma_get_put_other(start.resources, "deployment"@, up_d, name);
            }
        }
    }
}

/// The composition function sets only the objects of the resources it
/// composes: a `deployment` or `service` that an earlier step desired keeps
/// its readiness and connection details, and one that no earlier step
/// desired is created with its readiness unspecified (0) and no connection
/// details.
pub proof fn lemma_compose_keeps_readiness(req: RunFunctionRequestView, name: Seq<char>)
    requires
        composes(req),
        name == "deployment"@ || name == "service"@,
    ensures
        get_entry(compose_spec(req).desired->Some_0.resources, name) matches Some(r) && match get_entry(
            desired_of(req).resources,
            name,
        ) {
            Some(old) => r.ready == old.ready && r.connection_details == old.connection_details,
            None => r.ready == 0 && r.connection_details == Seq::<(Seq<char>, Seq<u8>)>::empty(),
        },
{
    broadcast use group_entries;

    let xr = crate::sdk::get_resource_spec::<crate::webapp::WebApp>(observed_composite(req))->Ok_0;
    let m = xr.metadata->Some_0;
    let s = xr.spec->Some_0;
    let ports = match s.ports {
        Some(p) => p,
        None => Seq::empty(),
    };
    let d = composed_deployment(m.name->Some_0, m.namespace, s.image->Some_0, s.replicas, ports);
    let sv = composed_service(m.name->Some_0, m.namespace, ports);
    let start = desired_of(req);
    let cur_d = match get_entry(start.resources, "deployment"@) {
        Some(r) => r,
        None => empty_resource(),
    };
    let up_d = updated_resource(cur_d, Deployment::to_fields(d));
    let r1 = put_entry(start.resources, "deployment"@, up_d);
    let cur_s = match get_entry(r1, "service"@) {
        Some(r) => r,
        None => empty_resource(),
    };
    let up_s = updated_resource(cur_s, Service::to_fields(sv));
    let r2 = put_entry(r1, "service"@, up_s);
    reveal_strlit("deployment");
    reveal_strlit("service");
    assert("deployment"@.len() == 10);
    assert("service"@.len() == 7);
    assert(compose_spec(req).desired->Some_0.resources == r2);
    lemma_get_put_other(start.resources, "deployment"@, up_d, "service"@);
    lemma_get_put_same(r1, "service"@, up_s);
    lemma_get_put_other(r1, "service"@, up_s, "deployment"@);
    lemma_get_put_same(start.resources, "deployment"@, up_d);
}

/// Reading a model ignores fields it does not know: entries under keys that
/// are not the model's, added after an object's own, change nothing.
pub proof fn lemma_unknown_fields_are_ignored<T: Model>(f: StructView, extra: StructView)
    requires
        forall|i: int| 0 <= i < extra.len() ==> !T::keys().contains(#[trigger] extra[i].0),
    ensures
        T::from_fields(f + extra) == T::from_fields(f),
{
    broadcast use group_entries;

    assert forall|k: Seq<char>| T::keys().contains(k) implies field_value(f + extra, k)
        == field_value(f, k) by {
        crate::entries::lemma_find_key_absent(extra, k);
    }
    T::lemma_reads_only_keys(f + extra, f);
}

/// Fields a WebApp does not know are ignored at every depth: two objects
/// that agree on `apiVersion`, `kind` and `metadata`, and whose `spec`
/// objects read as the same WebApp spec, whatever other keys those hold,
/// read as the same WebApp.
pub proof fn lemma_webapp_ignores_unknown_spec_fields(
    f: StructView,
    g: StructView,
    sf: StructView,
    sg: StructView,
)
    requires
        field_value(f, "apiVersion"@) == field_value(g, "apiVersion"@),
        field_value(f, "kind"@) == field_value(g, "kind"@),
        field_value(f, "metadata"@) == field_value(g, "metadata"@),
        field_value(f, "spec"@) == Some(ValueView::Object(sf)),
        field_value(g, "spec"@) == Some(ValueView::Object(sg)),
        WebAppSpec::from_fields(sf) == WebAppSpec::from_fields(sg),
    ensures
        WebApp::from_fields(f) == WebApp::from_fields(g),
{
    WebApp::lemma_reads_field_by_field(f, g);
}

/// A WebApp spec with keys of its own beside the WebApp's, such as those
/// Crossplane manages, reads as the spec without them.
pub proof fn lemma_webapp_spec_ignores_extra_keys(spec: StructView, extra: StructView)
    requires
        forall|i: int| 0 <= i < extra.len() ==> !WebAppSpec::keys().contains(#[trigger] extra[i].0),
    ensures
        WebAppSpec::from_fields(spec + extra) == WebAppSpec::from_fields(spec),
{
    lemma_unknown_fields_are_ignored::<WebAppSpec>(spec, extra);
}

/// When the function cannot compose, it answers with one fatal result that
/// says why, and passes the desired state and the context through unchanged.
pub proof fn lemma_compose_failure_is_fatal(req: RunFunctionRequestView)
    requires
        !composes(req),
    ensures
        compose_spec(req).results.len() == 1,
        compose_spec(req).results[0].severity == SEVERITY_FATAL,
        compose_spec(req).results[0].target == Some(TARGET_COMPOSITE),
        compose_spec(req).results[0].message == match crate::sdk::get_resource_spec::<
            crate::webapp::WebApp,
        >(observed_composite(req)) {
            Err(e) => cannot_get_xr_message(get_error_message(e)),
            Ok(_) => missing_fields_message(),
        },
        compose_spec(req).desired == req.desired,
        compose_spec(req).context == req.context,
{
    broadcast use group_entries;

}

/// Writing a model leaves out the fields it does not set: the metadata of
/// a resource is written with an entry for each field that is present, and
/// for no other.
pub proof fn lemma_unset_fields_are_left_out(m: ObjectMetaView)
    ensures
        (get_entry(ObjectMeta::to_fields(m), "name"@) is Some) == (m.name is Some),
        (get_entry(ObjectMeta::to_fields(m), "namespace"@) is Some) == (m.namespace is Some),
        (get_entry(ObjectMeta::to_fields(m), "labels"@) is Some) == (m.labels is Some),
        (get_entry(ObjectMeta::to_fields(m), "annotations"@) is Some) == (m.annotations is Some),
        (get_entry(ObjectMeta::to_fields(m), "creationTimestamp"@) is Some) == (m.creation_timestamp is Some),
        (get_entry(ObjectMeta::to_fields(m), "deletionGracePeriodSeconds"@) is Some) == (m.deletion_grace_period_seconds is Some),
        (get_entry(ObjectMeta::to_fields(m), "deletionTimestamp"@) is Some) == (m.deletion_timestamp is Some),
        (get_entry(ObjectMeta::to_fields(m), "finalizers"@) is Some) == (m.finalizers is Some),
        (get_entry(ObjectMeta::to_fields(m), "generateName"@) is Some) == (m.generate_name is Some),
        (get_entry(ObjectMeta::to_fields(m), "generation"@) is Some) == (m.generation is Some),
        (get_entry(ObjectMeta::to_fields(m), "ownerReferences"@) is Some) == (m.owner_references is Some),
        (get_entry(ObjectMeta::to_fields(m), "resourceVersion"@) is Some) == (m.resource_version is Some),
        (get_entry(ObjectMeta::to_fields(m), "selfLink"@) is Some) == (m.self_link is Some),
        (get_entry(ObjectMeta::to_fields(m), "uid"@) is Some) == (m.uid is Some),
        keys_distinct(ObjectMeta::to_fields(m)),
        forall|i: int|
            0 <= i < ObjectMeta::to_fields(m).len() ==> ObjectMeta::keys().contains(
                #[trigger] ObjectMeta::to_fields(m)[i].0,
            ),
{
    ObjectMeta::lemma_writes_only_keys(m);
    ObjectMeta::lemma_reads_back_name(m);
    ObjectMeta::lemma_reads_back_namespace(m);
    ObjectMeta::lemma_reads_back_labels(m);
    ObjectMeta::lemma_reads_back_annotations(m);
    ObjectMeta::lemma_reads_back_creation_timestamp(m);
    ObjectMeta::lemma_reads_back_deletion_grace_period_seconds(m);
    ObjectMeta::lemma_reads_back_deletion_timestamp(m);
    ObjectMeta::lemma_reads_back_finalizers(m);
    ObjectMeta::lemma_reads_back_generate_name(m);
    ObjectMeta::lemma_reads_back_generation(m);
    ObjectMeta::lemma_reads_back_owner_references(m);
    ObjectMeta::lemma_reads_back_resource_version(m);
    ObjectMeta::lemma_reads_back_self_link(m);
    ObjectMeta::lemma_reads_back_uid(m);
}

}
