use pluggable_composition::apps::Deployment;
use pluggable_composition::compose::Function;
use pluggable_composition::messages::{
    Resource, RequestMeta, RunFunctionRequest, RunFunctionResponse, State, SEVERITY_FATAL,
};
use pluggable_composition::meta::{IntOrString, ObjectMeta};
use pluggable_composition::pdb::{from_struct, to_struct};
use pluggable_composition::service::Service;
use pluggable_composition::value::{Struct, Value};
use pluggable_composition::webapp::{WebApp, WebAppSpec};

fn webapp(name: Option<&str>, image: Option<&str>, replicas: Option<i64>, ports: Option<Vec<i32>>) -> WebApp {
    WebApp {
        api_version: Some("platform.example.com/v1alpha1".to_string()),
        kind: Some("WebApp".to_string()),
        metadata: Some(ObjectMeta {
            name: name.map(|n| n.to_string()),
            namespace: Some("apps".to_string()),
            ..ObjectMeta::empty()
        }),
        spec: Some(WebAppSpec {
            image: image.map(|i| i.to_string()),
            replicas,
            ports,
        }),
    }
}

fn request_for(xr: Option<Struct>, desired: Option<State>) -> RunFunctionRequest {
    RunFunctionRequest {
        meta: Some(RequestMeta { tag: "tag-7".to_string() }),
        observed: Some(State {
            composite: Some(Resource { resource: xr, connection_details: Vec::new(), ready: 0 }),
            resources: Vec::new(),
        }),
        desired,
        context: None,
    }
}

fn desired_object<'a>(rsp: &'a RunFunctionResponse, name: &str) -> &'a Struct {
    rsp.desired
        .as_ref()
        .unwrap()
        .resources
        .iter()
        .find(|(k, _)| k == name)
        .unwrap()
        .1
        .resource
        .as_ref()
        .unwrap()
}

fn labels(name: &str) -> Option<Vec<(String, String)>> {
    Some(vec![("app.kubernetes.io/name".to_string(), name.to_string())])
}

#[test]
fn composes_a_deployment_and_a_service() {
    let xr = webapp(Some("podinfo"), Some("stefanprodan/podinfo:6"), Some(2), Some(vec![9898, 8080]));
    let req = request_for(Some(to_struct(&xr).unwrap()), None);
    let rsp = Function.run_function(&req);
    assert!(rsp.results.is_empty());
    assert_eq!(rsp.meta.as_ref().unwrap().tag, "tag-7");
    assert_eq!(rsp.meta.as_ref().unwrap().ttl.as_ref().unwrap().seconds, 60);

    let d: Deployment = from_struct(desired_object(&rsp, "deployment")).ok().unwrap();
    assert_eq!(d.api_version.as_deref(), Some("apps/v1"));
    assert_eq!(d.kind.as_deref(), Some("Deployment"));
    let meta = d.metadata.unwrap();
    assert_eq!(meta.name.as_deref(), Some("podinfo"));
    assert_eq!(meta.namespace.as_deref(), Some("apps"));
    assert_eq!(meta.labels, labels("podinfo"));
    let spec = d.spec.unwrap();
    assert_eq!(spec.replicas, Some(2));
    assert_eq!(spec.selector.unwrap().match_labels, labels("podinfo"));
    let template = spec.template.unwrap();
    assert_eq!(template.metadata.unwrap().labels, labels("podinfo"));
    let containers = template.spec.unwrap().containers.unwrap();
    assert_eq!(containers.len(), 1);
    assert_eq!(containers[0].name.as_deref(), Some("podinfo"));
    assert_eq!(containers[0].image.as_deref(), Some("stefanprodan/podinfo:6"));
    let ports = containers[0].ports.as_ref().unwrap();
    assert_eq!(ports.len(), 2);
    assert_eq!(ports[0].container_port, Some(9898));
    assert_eq!(ports[1].container_port, Some(8080));

    let s: Service = from_struct(desired_object(&rsp, "service")).ok().unwrap();
    assert_eq!(s.api_version.as_deref(), Some("v1"));
    assert_eq!(s.kind.as_deref(), Some("Service"));
    let smeta = s.metadata.unwrap();
    assert_eq!(smeta.name.as_deref(), Some("podinfo"));
    assert_eq!(smeta.namespace.as_deref(), Some("apps"));
    assert!(smeta.labels.is_none());
    let sspec = s.spec.unwrap();
    assert_eq!(sspec.selector, labels("podinfo"));
    let sports = sspec.ports.unwrap();
    assert_eq!(sports.len(), 2);
    assert_eq!(sports[0].protocol.as_deref(), Some("TCP"));
    assert_eq!(sports[0].port, Some(9898));
    assert!(matches!(sports[0].target_port, Some(IntOrString::Int(9898))));
    assert!(matches!(sports[1].target_port, Some(IntOrString::Int(8080))));
}

#[test]
fn replicas_are_cut_to_thirty_two_bits() {
    let xr = webapp(Some("a"), Some("img"), Some(4_294_967_298), None);
    let rsp = Function.run_function(&request_for(Some(to_struct(&xr).unwrap()), None));
    let d: Deployment = from_struct(desired_object(&rsp, "deployment")).ok().unwrap();
    assert_eq!(d.spec.unwrap().replicas, Some(2));
}

#[test]
fn without_replicas_or_ports_none_are_set() {
    let xr = webapp(Some("a"), Some("img"), None, None);
    let rsp = Function.run_function(&request_for(Some(to_struct(&xr).unwrap()), None));
    let obj = desired_object(&rsp, "deployment");
    let d: Deployment = from_struct(obj).ok().unwrap();
    let spec = d.spec.unwrap();
    assert_eq!(spec.replicas, None);
    let containers = spec.template.unwrap().spec.unwrap().containers.unwrap();
    assert_eq!(containers[0].ports.as_ref().unwrap().len(), 0);
    let s: Service = from_struct(desired_object(&rsp, "service")).ok().unwrap();
    assert_eq!(s.spec.unwrap().ports.unwrap().len(), 0);
}

#[test]
fn earlier_desired_resources_and_fields_are_kept() {
    let mut other = Struct::new();
    other.put("kind".to_string(), Value::Str("Bucket".to_string()));
    let mut old_deployment = Struct::new();
    let mut old_status = Struct::new();
    old_status.put("replicas".to_string(), Value::Int(1));
    old_deployment.put("status".to_string(), Value::Object(old_status));
    old_deployment.put("spec".to_string(), Value::Str("replaced".to_string()));
    let desired = State {
        composite: None,
        resources: vec![
            ("bucket".to_string(), Resource { resource: Some(other), connection_details: Vec::new(), ready: 1 }),
            (
                "deployment".to_string(),
                Resource { resource: Some(old_deployment), connection_details: Vec::new(), ready: 2 },
            ),
        ],
    };
    let xr = webapp(Some("web"), Some("nginx"), None, Some(vec![80]));
    let rsp = Function.run_function(&request_for(Some(to_struct(&xr).unwrap()), Some(desired)));
    let resources = &rsp.desired.as_ref().unwrap().resources;
    assert_eq!(resources.len(), 3);
    assert_eq!(resources[0].0, "bucket");
    assert_eq!(resources[0].1.ready, 1);
    assert_eq!(resources[1].0, "deployment");
    assert_eq!(resources[1].1.ready, 2);
    assert_eq!(resources[2].0, "service");
    let obj = desired_object(&rsp, "deployment");
    let d: Deployment = from_struct(obj).ok().unwrap();
    assert_eq!(d.status.unwrap().replicas, Some(1));
    assert_eq!(d.metadata.unwrap().name.as_deref(), Some("web"));
}

#[test]
fn an_xr_without_a_name_or_image_is_fatal() {
    for (name, image) in [(None, Some("img")), (Some("a"), None)] {
        let xr = webapp(name, image, None, None);
        let rsp = Function.run_function(&request_for(Some(to_struct(&xr).unwrap()), None));
        assert_eq!(rsp.results.len(), 1);
        assert_eq!(rsp.results[0].severity, SEVERITY_FATAL);
        assert_eq!(rsp.results[0].message, "xr is missing metadata.name or spec.image");
        assert!(rsp.desired.is_none());
    }
}

#[test]
fn a_missing_xr_is_fatal() {
    let rsp = Function.run_function(&request_for(None, None));
    assert_eq!(rsp.results[0].severity, SEVERITY_FATAL);
    assert_eq!(rsp.results[0].message, "cannot get xr: the resource has no JSON representation");
}

#[test]
fn an_xr_that_does_not_read_is_fatal() {
    let mut xr = Struct::new();
    let mut spec = Struct::new();
    spec.put("replicas".to_string(), Value::Str("three".to_string()));
    xr.put("spec".to_string(), Value::Object(spec));
    let rsp = Function.run_function(&request_for(Some(xr), None));
    assert_eq!(rsp.results[0].severity, SEVERITY_FATAL);
    assert_eq!(
        rsp.results[0].message,
        "cannot get xr: JSON conversion failed: invalid type: string \"three\", expected i64"
    );
}
