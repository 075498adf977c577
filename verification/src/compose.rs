//! The composition function: it composes a Deployment and a Service for a
//! `WebApp`.

use vstd::prelude::*;
use crate::apps::{
    Container, ContainerPort, ContainerPortView, ContainerView, Deployment, DeploymentSpec,
    DeploymentSpecView, DeploymentView, PodSpec, PodSpecView, PodTemplateSpec, PodTemplateSpecView,
};
use crate::codec::Model;
use crate::messages::{
    RunFunctionRequest, RunFunctionRequestView, RunFunctionResponse, RunFunctionResponseView,
    SEVERITY_FATAL,
};
use crate::meta::{
    empty_meta, IntOrString, IntOrStringView, LabelSelector, LabelSelectorView, ObjectMeta,
    ObjectMetaView,
};
use crate::sdk::{
    add_fatal, get_error_message, get_resource, get_resource_spec, response_to, response_to_spec,
    update_composed, with_composed, with_result, DEFAULT_TTL_SECONDS,
};
use crate::service::{
    Service, ServicePort, ServicePortView, ServiceSpec, ServiceSpecView, ServiceView,
};
use crate::webapp::{WebApp, WebAppSpecView, WebAppView};

verus! {

/// The labels that tie the composed resources to their WebApp.
pub open spec fn app_labels(name: Seq<char>) -> Seq<(Seq<char>, Seq<char>)> {
    seq![("app.kubernetes.io/name"@, name)]
}

/// The container ports for the WebApp's ports, in order.
pub open spec fn container_ports(ports: Seq<i32>) -> Seq<ContainerPortView> {
    Seq::new(ports.len(), |i: int| ContainerPortView { container_port: Some(ports[i]) })
}

/// The Service ports for the WebApp's ports, in order: each TCP, forwarding
/// to the same port of the pods.
pub open spec fn service_ports(ports: Seq<i32>) -> Seq<ServicePortView> {
    Seq::new(
        ports.len(),
        |i: int|
            ServicePortView {
                protocol: Some("TCP"@),
                port: Some(ports[i]),
                target_port: Some(IntOrStringView::Int(ports[i])),
            },
    )
}

/// The replica count of the Deployment, the WebApp's count cut to 32 bits.
pub open spec fn replica_count(replicas: Option<i64>) -> Option<i32> {
    match replicas {
        Some(r) => Some(#[verifier::truncate] (r as i32)),
        None => None,
    }
}

/// The Deployment composed for a WebApp: one container running the image,
/// and the app label on the Deployment, its selector and its pods.
pub open spec fn composed_deployment(
    name: Seq<char>,
    namespace: Option<Seq<char>>,
    image: Seq<char>,
    replicas: Option<i64>,
    ports: Seq<i32>,
) -> DeploymentView {
    DeploymentView {
        api_version: Some("apps/v1"@),
        kind: Some("Deployment"@),
        metadata: Some(
            ObjectMetaView { name: Some(name), namespace, labels: Some(app_labels(name)), ..empty_meta() },
        ),
        spec: Some(
            DeploymentSpecView {
                min_ready_seconds: None,
                paused: None,
                progress_deadline_seconds: None,
                replicas: replica_count(replicas),
                revision_history_limit: None,
                strategy: None,
                selector: Some(
                    LabelSelectorView { match_labels: Some(app_labels(name)), match_expressions: None },
                ),
                template: Some(
                    PodTemplateSpecView {
                        metadata: Some(
                            ObjectMetaView { labels: Some(app_labels(name)), ..empty_meta() },
                        ),
                        spec: Some(
                            PodSpecView {
                                containers: Some(
                                    seq![
                                        ContainerView {
                                            name: Some(name),
                                            image: Some(image),
                                            ports: Some(container_ports(ports)),
                                        },
                                    ],
                                ),
                            },
                        ),
                    },
                ),
            },
        ),
        status: None,
    }
}

/// The Service composed for a WebApp: it selects the WebApp's pods by the
/// app label and exposes its ports.
pub open spec fn composed_service(
    name: Seq<char>,
    namespace: Option<Seq<char>>,
    ports: Seq<i32>,
) -> ServiceView {
    ServiceView {
        api_version: Some("v1"@),
        kind: Some("Service"@),
        metadata: Some(ObjectMetaView { name: Some(name), namespace, ..empty_meta() }),
        spec: Some(
            ServiceSpecView { selector: Some(app_labels(name)), ports: Some(service_ports(ports)) },
        ),
    }
}

pub open spec fn cannot_get_xr_message(e: Seq<char>) -> Seq<char> {
    "cannot get xr: "@ + e
}

pub open spec fn missing_fields_message() -> Seq<char> {
    "xr is missing metadata.name or spec.image"@
}

/// The observed composite resource of a request, if there is one.
pub open spec fn observed_composite(req: RunFunctionRequestView) -> Option<crate::messages::ResourceView> {
    match req.observed {
        Some(s) => s.composite,
        None => None,
    }
}

/// Whether the function composes resources for a request: its observed
/// WebApp reads, and has a name and an image.
pub open spec fn composes(req: RunFunctionRequestView) -> bool {
    match get_resource_spec::<WebApp>(observed_composite(req)) {
        Ok(xr) => {
            &&& xr.metadata is Some
            &&& xr.metadata->Some_0.name is Some
            &&& xr.spec is Some
            &&& xr.spec->Some_0.image is Some
        },
        Err(_) => false,
    }
}

/// What the function answers a request with.
pub open spec fn compose_spec(req: RunFunctionRequestView) -> RunFunctionResponseView {
    let rsp = response_to_spec(req, DEFAULT_TTL_SECONDS);
    match get_resource_spec::<WebApp>(observed_composite(req)) {
        Err(e) => with_result(rsp, SEVERITY_FATAL, cannot_get_xr_message(get_error_message(e))),
        Ok(xr) => {
            let meta = match xr.metadata {
                Some(m) => m,
                None => empty_meta(),
            };
            let spec = match xr.spec {
                Some(s) => s,
                None => WebAppSpecView { image: None, replicas: None, ports: None },
            };
            if meta.name is Some && spec.image is Some {
                let name = meta.name->Some_0;
                let ports = match spec.ports {
                    Some(p) => p,
                    None => Seq::empty(),
                };
                let deployment = composed_deployment(
                    name,
                    meta.namespace,
                    spec.image->Some_0,
                    spec.replicas,
                    ports,
                );
                let service = composed_service(name, meta.namespace, ports);
                with_composed(
                    with_composed(rsp, "deployment"@, Deployment::to_fields(deployment)),
                    "service"@,
                    Service::to_fields(service),
                )
            } else {
                with_result(rsp, SEVERITY_FATAL, missing_fields_message())
            }
        },
    }
}

fn app_labels_of(name: &String) -> (r: Vec<(String, String)>)
    ensures
        r.deep_view() == app_labels(name@),
{
    let r = vec![(String::from_str("app.kubernetes.io/name"), name.clone())];
    assert(r.deep_view() =~= app_labels(name@));
    r
}

/// The composition function.
#[derive(Debug, Default)]
pub struct Function;

impl Function {
    /// Composes a Deployment and a Service for the observed WebApp, on top of
    /// what earlier pipeline steps desired. A WebApp that cannot be read, or
    /// that has no name or no image, gets a fatal result instead.
    pub fn run_function(&self, req: &RunFunctionRequest) -> (r: RunFunctionResponse)
        ensures
            r.deep_view() == compose_spec(req.deep_view()),
    {
        let mut rsp = response_to(req, DEFAULT_TTL_SECONDS);
        let observed = match &req.observed {
            Some(s) => match &s.composite {
                Some(c) => Some(c),
                None => None,
            },
            None => None,
        };
        let xr: WebApp = match get_resource::<WebApp>(observed) {
            Ok(xr) => xr,
            Err(e) => {
                let mut msg = String::from_str("cannot get xr: ");
                msg.append(e.message().as_str());
                add_fatal(&mut rsp, msg);
                return rsp;
            },
        };
        let ghost xrv = xr.deep_view();
        let metadata = match xr.metadata {
            Some(m) => m,
            None => ObjectMeta::empty(),
        };
        let spec = match xr.spec {
            Some(s) => s,
            None => crate::webapp::WebAppSpec { image: None, replicas: None, ports: None },
        };
        let ghost meta_v = metadata.deep_view();
        let ghost spec_v = spec.deep_view();
        let (name, image) = match (metadata.name, spec.image) {
            (Some(n), Some(i)) => (n, i),
            _ => {
                add_fatal(&mut rsp, String::from_str("xr is missing metadata.name or spec.image"));
                return rsp;
            },
        };
        let ports: Vec<i32> = match spec.ports {
            Some(p) => p,
            None => Vec::new(),
        };
        let mut container_port_list: Vec<ContainerPort> = Vec::new();
        let mut service_port_list: Vec<ServicePort> = Vec::new();
        let mut i: usize = 0;
        while i < ports.len()
            invariant
                i <= ports.len(),
                container_port_list.deep_view() =~= container_ports(ports@).take(i as int),
                service_port_list.deep_view() =~= service_ports(ports@).take(i as int),
            decreases ports.len() - i,
        {
            let p = ports[i];
            let ghost cp_before = container_port_list.deep_view();
            let ghost sp_before = service_port_list.deep_view();
            container_port_list.push(ContainerPort { container_port: Some(p) });
            service_port_list.push(
                ServicePort {
                    protocol: Some(String::from_str("TCP")),
                    port: Some(p),
                    target_port: Some(IntOrString::Int(p)),
                },
            );
            assert(container_port_list.deep_view() =~= cp_before.push(container_ports(ports@)[i as int]));
            assert(service_port_list.deep_view() =~= sp_before.push(service_ports(ports@)[i as int]));
            i = i + 1;
        }
        assert(container_ports(ports@).take(i as int) =~= container_ports(ports@));
        assert(service_ports(ports@).take(i as int) =~= service_ports(ports@));
        let replicas = match spec.replicas {
            Some(r) => Some(#[verifier::truncate] (r as i32)),
            None => None,
        };
        let containers = vec![
            Container {
                name: Some(name.clone()),
                image: Some(image),
                ports: Some(container_port_list),
            },
        ];
        let deployment = Deployment {
            api_version: Some(String::from_str("apps/v1")),
            kind: Some(String::from_str("Deployment")),
            metadata: Some(
                ObjectMeta {
                    name: Some(name.clone()),
                    namespace: metadata.namespace.clone(),
                    labels: Some(app_labels_of(&name)),
                    ..ObjectMeta::empty()
                },
            ),
            spec: Some(
                DeploymentSpec {
                    min_ready_seconds: None,
                    paused: None,
                    progress_deadline_seconds: None,
                    replicas,
                    revision_history_limit: None,
                    strategy: None,
                    selector: Some(
                        LabelSelector { match_labels: Some(app_labels_of(&name)), match_expressions: None },
                    ),
                    template: Some(
                        PodTemplateSpec {
                            metadata: Some(
                                ObjectMeta { labels: Some(app_labels_of(&name)), ..ObjectMeta::empty() },
                            ),
                            spec: Some(PodSpec { containers: Some(containers) }),
                        },
                    ),
                },
            ),
            status: None,
        };
        let service = Service {
            api_version: Some(String::from_str("v1")),
            kind: Some(String::from_str("Service")),
            metadata: Some(
                ObjectMeta {
                    name: Some(name.clone()),
                    namespace: metadata.namespace,
                    ..ObjectMeta::empty()
                },
            ),
            spec: Some(
                ServiceSpec { selector: Some(app_labels_of(&name)), ports: Some(service_port_list) },
            ),
        };
        assert(deployment.deep_view().spec->Some_0.template->Some_0.spec->Some_0.containers->Some_0
            =~= seq![
            ContainerView {
                name: Some(name@),
                image: Some(spec_v.image->Some_0),
                ports: Some(container_ports(ports@)),
            },
        ]);
        assert(deployment.deep_view() == composed_deployment(
            name@,
            meta_v.namespace,
            spec_v.image->Some_0,
            spec_v.replicas,
            ports@,
        ));
        assert(service.deep_view() == composed_service(name@, meta_v.namespace, ports@));
        assert(get_resource_spec::<WebApp>(observed_composite(req.deep_view())) == Ok::<
            WebAppView,
            crate::sdk::GetErrorView,
        >(xrv));
        assert(rsp.deep_view() == response_to_spec(req.deep_view(), DEFAULT_TTL_SECONDS));
        assert(meta_v.name == Some(name@));
        assert(ports@ == match spec_v.ports {
            Some(p) => p,
            None => Seq::<i32>::empty(),
        });
        update_composed(&mut rsp, "deployment", &deployment);
        update_composed(&mut rsp, "service", &service);
        rsp
    }
}

}
