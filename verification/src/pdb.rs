//! The PodDisruptionBudget plugin: it adds a PodDisruptionBudget for the
//! Deployment that an earlier pipeline step put in the desired state. The
//! rest of the desired state and the context pass through unchanged.

use vstd::prelude::*;
use crate::apps::{Deployment, DeploymentView};
use crate::codec::{decode_message, Model};
use crate::entries::{find_index, get_entry, lemma_find_key, put, put_entry};
use crate::messages::{
    copy_struct, empty_state, request_tag, tag_of, Duration, DurationView, Resource,
    ResourceView, ResponseMeta, ResponseMetaView, RunFunctionRequest, RunFunctionRequestView,
    RunFunctionResponse, RunFunctionResponseView, State, StateView, StructView, SEVERITY_FATAL,
    SEVERITY_NORMAL,
};
use crate::meta::{
    empty_meta, IntOrString, IntOrStringView, LabelSelectorView, ObjectMeta, ObjectMetaView,
};
use crate::policy::{
    PodDisruptionBudget, PodDisruptionBudgetSpec, PodDisruptionBudgetSpecView,
    PodDisruptionBudgetView,
};
use crate::sdk::{composite_result, result_for_composite};
use crate::value::Struct;

verus! {

/// How long, in seconds, the plugin's responses may be cached.
pub const TTL_SECONDS: i64 = 60;

/// A structured log line: a message and its key-value pairs.
pub struct LogRecord {
    pub message: String,
    pub fields: Vec<(String, String)>,
}

pub struct LogRecordView {
    pub message: Seq<char>,
    pub fields: Seq<(Seq<char>, Seq<char>)>,
}

impl DeepView for LogRecord {
    type V = LogRecordView;

    open spec fn deep_view(&self) -> LogRecordView {
        LogRecordView { message: self.message@, fields: self.fields.deep_view() }
    }
}

/// Builds an info-level log line for the host to write.
pub fn info(msg: &str, kv: &[(&str, &str)]) -> (r: LogRecord)
    ensures
        r.message@ == msg@,
        r.fields.deep_view() == Seq::new(kv@.len(), |i: int| (kv@[i].0@, kv@[i].1@)),
{
    let mut fields: Vec<(String, String)> = Vec::new();
    let mut i: usize = 0;
    while i < kv.len()
        invariant
            i <= kv@.len(),
            fields.deep_view() =~= Seq::new(i as nat, |j: int| (kv@[j].0@, kv@[j].1@)),
        decreases kv@.len() - i,
    {
        let ghost before = fields.deep_view();
        let (k, v) = kv[i];
        fields.push((String::from_str(k), String::from_str(v)));
        assert(fields.deep_view() =~= before.push((kv@[i as int].0@, kv@[i as int].1@)));
        i = i + 1;
    }
    LogRecord { message: String::from_str(msg), fields }
}

pub open spec fn no_deployment_message() -> Seq<char> {
    "no \"deployment\" in the desired state: run this plugin after the step that composes it"@
}

pub open spec fn no_selector_message() -> Seq<char> {
    "desired \"deployment\" has no spec.selector"@
}

pub open spec fn added_message(name: Seq<char>) -> Seq<char> {
    "added a PodDisruptionBudget for Deployment "@ + name
}

pub open spec fn decode_failure_message(e: Seq<char>) -> Seq<char> {
    "cannot decode RunFunctionRequest: "@ + e
}

/// The metadata of a response to a request.
pub open spec fn response_meta_spec(req: RunFunctionRequestView) -> ResponseMetaView {
    ResponseMetaView {
        tag: request_tag(req),
        ttl: Some(DurationView { seconds: TTL_SECONDS, nanos: 0 }),
    }
}

/// What the request desires, an empty state when it desires nothing.
pub open spec fn desired_of(req: RunFunctionRequestView) -> StateView {
    match req.desired {
        Some(d) => d,
        None => empty_state(),
    }
}

/// The object of the desired Deployment, if there is one.
pub open spec fn deployment_object(req: RunFunctionRequestView) -> Option<StructView> {
    match get_entry(desired_of(req).resources, "deployment"@) {
        Some(r) => r.resource,
        None => None,
    }
}

/// The desired Deployment, or why there is none to read.
pub open spec fn desired_deployment(req: RunFunctionRequestView) -> Result<DeploymentView, Seq<char>> {
    match deployment_object(req) {
        None => Err(no_deployment_message()),
        Some(f) => match Deployment::from_fields(f) {
            Ok(d) => Ok(d),
            Err(e) => Err(decode_message(e)),
        },
    }
}

/// The metadata of a Deployment, empty when it has none.
pub open spec fn metadata_of(d: DeploymentView) -> ObjectMetaView {
    match d.metadata {
        Some(m) => m,
        None => empty_meta(),
    }
}

/// The pod selector of a Deployment, if it has one.
pub open spec fn selector_of(d: DeploymentView) -> Option<LabelSelectorView> {
    match d.spec {
        Some(s) => s.selector,
        None => None,
    }
}

/// The budget for a Deployment: named and namespaced as the Deployment,
/// selecting the pods it selects, and letting at most one of them be
/// unavailable.
pub open spec fn budget_for(meta: ObjectMetaView, selector: LabelSelectorView) -> PodDisruptionBudgetView {
    PodDisruptionBudgetView {
        api_version: Some("policy/v1"@),
        kind: Some("PodDisruptionBudget"@),
        metadata: Some(ObjectMetaView { name: meta.name, namespace: meta.namespace, ..empty_meta() }),
        spec: Some(
            PodDisruptionBudgetSpecView {
                max_unavailable: Some(IntOrStringView::Int(1)),
                min_available: None,
                selector: Some(selector),
            },
        ),
    }
}

/// The desired resource that holds a budget.
pub open spec fn budget_resource(b: PodDisruptionBudgetView) -> ResourceView {
    ResourceView {
        resource: Some(PodDisruptionBudget::to_fields(b)),
        connection_details: Seq::empty(),
        ready: 0,
    }
}

/// The name of a Deployment as the messages give it, empty when it has none.
pub open spec fn name_of(meta: ObjectMetaView) -> Seq<char> {
    match meta.name {
        Some(n) => n,
        None => Seq::empty(),
    }
}

/// What the plugin answers a request with, or why it fails.
pub open spec fn plugin_outcome(req: RunFunctionRequestView) -> Result<RunFunctionResponseView, Seq<char>> {
    match desired_deployment(req) {
        Err(m) => Err(m),
        Ok(d) => match selector_of(d) {
            None => Err(no_selector_message()),
            Some(selector) => {
                let meta = metadata_of(d);
                let desired = desired_of(req);
                Ok(
                    RunFunctionResponseView {
                        meta: Some(response_meta_spec(req)),
                        desired: Some(
                            StateView {
                                resources: put_entry(
                                    desired.resources,
                                    "pod-disruption-budget"@,
                                    budget_resource(budget_for(meta, selector)),
                                ),
                                ..desired
                            },
                        ),
                        results: seq![composite_result(SEVERITY_NORMAL, added_message(name_of(meta)))],
                        context: req.context,
                    },
                )
            },
        },
    }
}

/// The fatal response for a failed run.
pub open spec fn fatal_spec(req: Option<RunFunctionRequestView>, msg: Seq<char>) -> RunFunctionResponseView {
    RunFunctionResponseView {
        meta: match req {
            Some(r) => Some(response_meta_spec(r)),
            None => None,
        },
        desired: None,
        results: seq![composite_result(SEVERITY_FATAL, msg)],
        context: None,
    }
}

/// Reads an object as a model; a field that does not fit is an error that
/// names it.
pub fn from_struct<T: Model>(s: &Struct) -> (r: Result<T, String>)
    ensures
        match T::from_fields(s.deep_view()) {
            Ok(m) => r is Ok && r->Ok_0.deep_view() == m,
            Err(e) => r is Err && r->Err_0@ == decode_message(e),
        },
{
    match T::decode(s) {
        Ok(m) => Ok(m),
        Err(e) => Err(e.message()),
    }
}

/// Writes a model as an object. Every model writes as an object, so this
/// always succeeds.
pub fn to_struct<T: Model>(model: &T) -> (r: Result<Struct, String>)
    ensures
        r is Ok,
        r->Ok_0.deep_view() == T::to_fields(model.deep_view()),
{
    Ok(model.encode())
}

/// The metadata of the response to a request: its tag, and how long the
/// response may be cached.
pub fn response_meta(req: &RunFunctionRequest) -> (r: ResponseMeta)
    ensures
        r.deep_view() == response_meta_spec(req.deep_view()),
{
    ResponseMeta { tag: tag_of(req), ttl: Some(Duration { seconds: TTL_SECONDS, nanos: 0 }) }
}

/// The response for a failed run: one fatal result for the composite
/// resource, and nothing desired.
pub fn fatal(req: Option<&RunFunctionRequest>, msg: &str) -> (r: RunFunctionResponse)
    ensures
        r.deep_view() == fatal_spec(
            match req {
                Some(x) => Some(x.deep_view()),
                None => None,
            },
            msg@,
        ),
{
    let meta = match req {
        Some(x) => Some(response_meta(x)),
        None => None,
    };
    let results = vec![result_for_composite(SEVERITY_FATAL, String::from_str(msg))];
    let r = RunFunctionResponse { meta, desired: None, results, context: None };
    assert(r.deep_view().results =~= seq![composite_result(SEVERITY_FATAL, msg@)]);
    r
}

/// Adds a PodDisruptionBudget selecting the desired Deployment's pods, and
/// gives back the line to log. The rest of the desired state and the
/// context pass through unchanged.
pub fn run_function(req: &RunFunctionRequest) -> (r: Result<(RunFunctionResponse, LogRecord), String>)
    ensures
        match r {
            Ok((rsp, log)) => {
                &&& plugin_outcome(req.deep_view()) == Ok::<RunFunctionResponseView, Seq<char>>(
                    rsp.deep_view(),
                )
                &&& log.message@ == "Added PodDisruptionBudget"@
                &&& log.fields.deep_view() == seq![
                    ("deployment"@, name_of(metadata_of(desired_deployment(req.deep_view())->Ok_0))),
                ]
            },
            Err(m) => plugin_outcome(req.deep_view()) == Err::<RunFunctionResponseView, Seq<char>>(
                m@,
            ),
        },
{
    let mut desired = match &req.desired {
        Some(d) => d.copy(),
        None => State::empty(),
    };
    let key = String::from_str("deployment");
    proof {
        lemma_find_key(desired.resources.deep_view(), key@);
    }
    let deployment: Deployment = match find_index(&desired.resources, &key) {
        Some(i) => match &desired.resources[i].1.resource {
            Some(s) => from_struct(s)?,
            None => {
                return Err(String::from_str(
                    "no \"deployment\" in the desired state: run this plugin after the step that composes it",
                ));
            },
        },
        None => {
            return Err(String::from_str(
                "no \"deployment\" in the desired state: run this plugin after the step that composes it",
            ));
        },
    };
    let metadata = match deployment.metadata {
        Some(m) => m,
        None => ObjectMeta::empty(),
    };
    let selector = match deployment.spec {
        Some(spec) => match spec.selector {
            Some(s) => s,
            None => {
                return Err(String::from_str("desired \"deployment\" has no spec.selector"));
            },
        },
        None => {
            return Err(String::from_str("desired \"deployment\" has no spec.selector"));
        },
    };
    let name = match &metadata.name {
        Some(n) => n.clone(),
        None => String::new(),
    };
    let budget = PodDisruptionBudget {
        api_version: Some(String::from_str("policy/v1")),
        kind: Some(String::from_str("PodDisruptionBudget")),
        metadata: Some(
            ObjectMeta { name: metadata.name, namespace: metadata.namespace, ..ObjectMeta::empty() },
        ),
        spec: Some(
            PodDisruptionBudgetSpec {
                max_unavailable: Some(IntOrString::Int(1)),
                min_available: None,
                selector: Some(selector),
            },
        ),
    };
    let object = to_struct(&budget)?;
    let resource = Resource { resource: Some(object), connection_details: Vec::new(), ready: 0 };
    assert(resource.deep_view().connection_details =~= Seq::<(Seq<char>, Seq<u8>)>::empty());
    put(&mut desired.resources, String::from_str("pod-disruption-budget"), resource);
    let log = info("Added PodDisruptionBudget", &[("deployment", name.as_str())]);
    let mut message = String::from_str("added a PodDisruptionBudget for Deployment ");
    message.append(name.as_str());
    let rsp = RunFunctionResponse {
        meta: Some(response_meta(req)),
        desired: Some(desired),
        results: vec![result_for_composite(SEVERITY_NORMAL, message)],
        context: copy_struct(&req.context),
    };
    assert(rsp.deep_view().results =~= seq![
        composite_result(SEVERITY_NORMAL, added_message(name@)),
    ]);
    assert(log.fields.deep_view() =~= seq![("deployment"@, name@)]);
    Ok((rsp, log))
}

/// What the plugin answers a decoded request with, or a request that could
/// not be decoded: the response to send, and the line to log when there is
/// one. A failure becomes a fatal result.
pub open spec fn handle_spec(decoded: Result<RunFunctionRequestView, Seq<char>>) -> RunFunctionResponseView {
    match decoded {
        Ok(req) => match plugin_outcome(req) {
            Ok(rsp) => rsp,
            Err(m) => fatal_spec(Some(req), m),
        },
        Err(e) => fatal_spec(None, decode_failure_message(e)),
    }
}

/// Runs the plugin on a request as it came off the wire: decoded, or the
/// reason it could not be. A failure becomes a fatal result. Gives back the
/// response to encode and the line to log, if any.
pub fn handle(decoded: Result<RunFunctionRequest, String>) -> (r: (RunFunctionResponse, Option<LogRecord>))
    ensures
        r.0.deep_view() == handle_spec(
            match decoded {
                Ok(req) => Ok(req.deep_view()),
                Err(e) => Err(e@),
            },
        ),
        r.1 is Some <==> (decoded is Ok && plugin_outcome(decoded->Ok_0.deep_view()) is Ok),
        r.1 matches Some(log) ==> {
            &&& log.message@ == "Added PodDisruptionBudget"@
            &&& log.fields.deep_view() == seq![
                (
                    "deployment"@,
                    name_of(metadata_of(desired_deployment(decoded->Ok_0.deep_view())->Ok_0)),
                ),
            ]
        },
{
    match decoded {
        Ok(req) => match run_function(&req) {
            Ok((rsp, log)) => (rsp, Some(log)),
            Err(e) => (fatal(Some(&req), e.as_str()), None),
        },
        Err(e) => {
            let mut msg = String::from_str("cannot decode RunFunctionRequest: ");
            msg.append(e.as_str());
            (fatal(None, msg.as_str()), None)
        },
    }
}

}
