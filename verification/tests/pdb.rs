use pluggable_composition::apps::{Deployment, DeploymentSpec};
use pluggable_composition::messages::{
    Resource, RunFunctionRequest, RequestMeta, State, SEVERITY_FATAL, SEVERITY_NORMAL,
    TARGET_COMPOSITE,
};
use pluggable_composition::meta::{IntOrString, LabelSelector, ObjectMeta};
use pluggable_composition::pdb::{fatal, from_struct, handle, info, response_meta, run_function, to_struct};
use pluggable_composition::policy::PodDisruptionBudget;
use pluggable_composition::value::{Struct, Value};

const DEPLOYMENT: &str = "deployment";
const BUDGET: &str = "pod-disruption-budget";

fn request_with(resources: Vec<(&str, Struct)>) -> RunFunctionRequest {
    RunFunctionRequest {
        meta: None,
        observed: None,
        desired: Some(State {
            composite: None,
            resources: resources
                .into_iter()
                .map(|(name, s)| {
                    let resource = Resource {
                        resource: Some(s),
                        connection_details: Vec::new(),
                        ready: 0,
                    };
                    (name.to_string(), resource)
                })
                .collect(),
        }),
        context: None,
    }
}

fn resource<'a>(state: &'a State, name: &str) -> Option<&'a Resource> {
    state.resources.iter().find(|(k, _)| k == name).map(|(_, r)| r)
}

fn labels() -> Vec<(String, String)> {
    vec![("app.kubernetes.io/name".to_string(), "podinfo".to_string())]
}

fn podinfo_deployment() -> Deployment {
    Deployment {
        api_version: Some("apps/v1".to_string()),
        kind: Some("Deployment".to_string()),
        metadata: Some(ObjectMeta {
            name: Some("podinfo".to_string()),
            namespace: Some("default".to_string()),
            ..ObjectMeta::empty()
        }),
        spec: Some(DeploymentSpec {
            min_ready_seconds: None,
            paused: None,
            progress_deadline_seconds: None,
            revision_history_limit: None,
            strategy: None,
            replicas: Some(3),
            selector: Some(LabelSelector {
                match_labels: Some(labels()),
                match_expressions: None,
            }),
            template: None,
        }),
        status: None,
    }
}

#[test]
fn adds_a_budget_selecting_the_deployment() {
    let deployment = podinfo_deployment();
    let req = request_with(vec![(DEPLOYMENT, to_struct(&deployment).unwrap())]);

    let (rsp, _log) = run_function(&req).ok().unwrap();
    let desired = rsp.desired.unwrap();
    assert!(resource(&desired, DEPLOYMENT).is_some());

    let got = resource(&desired, BUDGET).unwrap().resource.as_ref().unwrap();
    let budget: PodDisruptionBudget = from_struct(got).ok().unwrap();
    assert_eq!(budget.api_version.as_deref(), Some("policy/v1"));
    assert_eq!(budget.kind.as_deref(), Some("PodDisruptionBudget"));
    let metadata = budget.metadata.unwrap();
    assert_eq!(metadata.name.as_deref(), Some("podinfo"));
    assert_eq!(metadata.namespace.as_deref(), Some("default"));
    let spec = budget.spec.unwrap();
    assert_eq!(spec.selector.unwrap().match_labels, Some(labels()));
    assert!(matches!(spec.max_unavailable, Some(IntOrString::Int(1))));
}

#[test]
fn without_a_deployment_the_result_is_fatal() {
    let req = request_with(vec![]);
    let (rsp, log) = handle(Ok(req));
    assert_eq!(rsp.results[0].severity, SEVERITY_FATAL);
    assert!(rsp.results[0].message.contains("no \"deployment\""));
    assert!(log.is_none());
}

#[test]
fn success_reports_a_normal_result_and_logs_the_name() {
    let req = request_with(vec![(DEPLOYMENT, to_struct(&podinfo_deployment()).unwrap())]);
    let (rsp, log) = handle(Ok(req));
    assert_eq!(rsp.results.len(), 1);
    assert_eq!(rsp.results[0].severity, SEVERITY_NORMAL);
    assert_eq!(rsp.results[0].target, Some(TARGET_COMPOSITE));
    assert_eq!(rsp.results[0].message, "added a PodDisruptionBudget for Deployment podinfo");
    let log = log.unwrap();
    assert_eq!(log.message, "Added PodDisruptionBudget");
    assert_eq!(log.fields, vec![("deployment".to_string(), "podinfo".to_string())]);
}

#[test]
fn the_rest_of_the_desired_state_and_the_context_pass_through() {
    let mut other = Struct::new();
    other.put("kind".to_string(), Value::Str("ConfigMap".to_string()));
    let mut context = Struct::new();
    context.put("answer".to_string(), Value::Int(42));
    let mut req = request_with(vec![
        ("config", other),
        (DEPLOYMENT, to_struct(&podinfo_deployment()).unwrap()),
    ]);
    req.context = Some(context);
    req.meta = Some(RequestMeta { tag: "t-1".to_string() });
    let (rsp, _) = run_function(&req).ok().unwrap();
    let desired = rsp.desired.unwrap();
    assert_eq!(desired.resources.len(), 3);
    assert_eq!(desired.resources[0].0, "config");
    let config = resource(&desired, "config").unwrap().resource.as_ref().unwrap();
    assert!(matches!(config.fields[0].1, Value::Str(ref s) if s == "ConfigMap"));
    let ctx = rsp.context.unwrap();
    assert!(matches!(ctx.fields[0].1, Value::Int(42)));
    let meta = rsp.meta.unwrap();
    assert_eq!(meta.tag, "t-1");
    assert_eq!(meta.ttl.unwrap().seconds, 60);
}

#[test]
fn an_existing_budget_is_replaced() {
    let mut stale = Struct::new();
    stale.put("kind".to_string(), Value::Str("Stale".to_string()));
    let req = request_with(vec![
        (BUDGET, stale),
        (DEPLOYMENT, to_struct(&podinfo_deployment()).unwrap()),
    ]);
    let (rsp, _) = run_function(&req).ok().unwrap();
    let desired = rsp.desired.unwrap();
    assert_eq!(desired.resources.len(), 2);
    assert_eq!(desired.resources[0].0, BUDGET);
    let got = desired.resources[0].1.resource.as_ref().unwrap();
    let budget: PodDisruptionBudget = from_struct(got).ok().unwrap();
    assert_eq!(budget.kind.as_deref(), Some("PodDisruptionBudget"));
}

#[test]
fn a_deployment_without_a_selector_is_an_error() {
    let mut deployment = podinfo_deployment();
    deployment.spec.as_mut().unwrap().selector = None;
    let req = request_with(vec![(DEPLOYMENT, to_struct(&deployment).unwrap())]);
    let err = run_function(&req).err().unwrap();
    assert_eq!(err, "desired \"deployment\" has no spec.selector");

    deployment.spec = None;
    let req = request_with(vec![(DEPLOYMENT, to_struct(&deployment).unwrap())]);
    let err = run_function(&req).err().unwrap();
    assert_eq!(err, "desired \"deployment\" has no spec.selector");
}

#[test]
fn a_deployment_that_does_not_read_is_an_error() {
    let mut bad = Struct::new();
    bad.put("metadata".to_string(), Value::Str("podinfo".to_string()));
    let req = request_with(vec![(DEPLOYMENT, bad)]);
    let err = run_function(&req).err().unwrap();
    assert_eq!(err, "invalid type: string \"podinfo\", expected struct ObjectMeta");
    let (rsp, _) = handle(Ok(request_with(vec![(DEPLOYMENT, {
        let mut s = Struct::new();
        s.put("metadata".to_string(), Value::Str("podinfo".to_string()));
        s
    })])));
    assert_eq!(rsp.results[0].severity, SEVERITY_FATAL);
    assert_eq!(rsp.results[0].message, err);
    assert!(rsp.desired.is_none());
}

#[test]
fn a_deployment_resource_without_an_object_is_missing() {
    let mut req = request_with(vec![]);
    req.desired.as_mut().unwrap().resources.push((
        DEPLOYMENT.to_string(),
        Resource { resource: None, connection_details: Vec::new(), ready: 0 },
    ));
    let err = run_function(&req).err().unwrap();
    assert!(err.starts_with("no \"deployment\" in the desired state"));
}

#[test]
fn a_request_that_does_not_decode_is_fatal() {
    let (rsp, log) = handle(Err("buffer underflow".to_string()));
    assert!(log.is_none());
    assert!(rsp.meta.is_none());
    assert_eq!(rsp.results.len(), 1);
    assert_eq!(rsp.results[0].severity, SEVERITY_FATAL);
    assert_eq!(rsp.results[0].message, "cannot decode RunFunctionRequest: buffer underflow");
}

#[test]
fn fatal_keeps_the_tag_of_the_request() {
    let mut req = request_with(vec![]);
    req.meta = Some(RequestMeta { tag: "abc".to_string() });
    let rsp = fatal(Some(&req), "boom");
    let meta = rsp.meta.unwrap();
    assert_eq!(meta.tag, "abc");
    let ttl = meta.ttl.unwrap();
    assert_eq!((ttl.seconds, ttl.nanos), (60, 0));
    assert_eq!(rsp.results[0].message, "boom");
    assert_eq!(rsp.results[0].target, Some(TARGET_COMPOSITE));
    assert!(rsp.results[0].reason.is_none());
    assert!(fatal(None, "x").meta.is_none());
}

#[test]
fn response_meta_without_request_meta_has_an_empty_tag() {
    let req = request_with(vec![]);
    let meta = response_meta(&req);
    assert_eq!(meta.tag, "");
    assert_eq!(meta.ttl.unwrap().seconds, 60);
}

#[test]
fn info_copies_the_message_and_pairs() {
    let r = info("hello", &[("a", "1"), ("b", "2")]);
    assert_eq!(r.message, "hello");
    assert_eq!(
        r.fields,
        vec![("a".to_string(), "1".to_string()), ("b".to_string(), "2".to_string())]
    );
}

#[test]
fn a_second_run_adds_nothing() {
    let req = request_with(vec![(DEPLOYMENT, to_struct(&podinfo_deployment()).unwrap())]);
    let (first, _) = run_function(&req).ok().unwrap();
    let again = RunFunctionRequest { desired: first.desired.as_ref().map(|s| s.copy()), ..req };
    let (second, _) = run_function(&again).ok().unwrap();
    let a = first.desired.unwrap();
    let b = second.desired.unwrap();
    assert_eq!(a.resources.len(), 2);
    assert_eq!(b.resources.len(), 2);
    for ((ka, ra), (kb, rb)) in a.resources.iter().zip(b.resources.iter()) {
        assert_eq!(ka, kb);
        let oa = ra.resource.as_ref().unwrap();
        let ob = rb.resource.as_ref().unwrap();
        assert_eq!(oa.fields.len(), ob.fields.len());
        for ((fa, _), (fb, _)) in oa.fields.iter().zip(ob.fields.iter()) {
            assert_eq!(fa, fb);
        }
    }
    let budget: PodDisruptionBudget = from_struct(resource(&b, BUDGET).unwrap().resource.as_ref().unwrap()).ok().unwrap();
    assert_eq!(budget.metadata.unwrap().name.as_deref(), Some("podinfo"));
}

#[test]
fn a_deployment_with_a_status_of_the_wrong_shape_is_an_error() {
    let mut bad = to_struct(&podinfo_deployment()).unwrap();
    bad.put("status".to_string(), Value::Int(5));
    let req = request_with(vec![(DEPLOYMENT, bad)]);
    let err = run_function(&req).err().unwrap();
    assert_eq!(err, "invalid type: integer `5`, expected struct DeploymentStatus");
}

#[test]
fn metadata_given_as_a_list_reads_item_by_item() {
    let mut d = to_struct(&podinfo_deployment()).unwrap();
    let mut items = vec![Value::Null; 14];
    items[8] = Value::Str("podinfo".to_string());
    items[9] = Value::Str("default".to_string());
    d.put("metadata".to_string(), Value::List(items));
    let req = request_with(vec![(DEPLOYMENT, d)]);
    let (rsp, _) = run_function(&req).ok().unwrap();
    let desired = rsp.desired.unwrap();
    let got = resource(&desired, BUDGET).unwrap().resource.as_ref().unwrap();
    let budget: PodDisruptionBudget = from_struct(got).ok().unwrap();
    let metadata = budget.metadata.unwrap();
    assert_eq!(metadata.name.as_deref(), Some("podinfo"));
    assert_eq!(metadata.namespace.as_deref(), Some("default"));
}
