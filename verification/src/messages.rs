//! The messages of a composition function run: the request that Crossplane
//! sends and the response that the function returns, with the parts of them
//! that the functions here read or write.

use vstd::prelude::*;
use crate::value::{Struct, ValueView};

verus! {

/// `Severity` of a result: the run failed, and the pipeline stops.
pub const SEVERITY_FATAL: i32 = 1;

/// `Severity` of a result: a normal event.
pub const SEVERITY_NORMAL: i32 = 3;

/// `Target` of a result: the composite resource.
pub const TARGET_COMPOSITE: i32 = 1;

/// Metadata of a request.
pub struct RequestMeta {
    /// An opaque string that identifies the request's content.
    pub tag: String,
}

/// A composite or composed resource.
pub struct Resource {
    /// The resource itself, as a structured object.
    pub resource: Option<Struct>,
    /// Connection details of the resource.
    pub connection_details: Vec<(String, Vec<u8>)>,
    /// Whether the resource is ready, as the protocol's `Ready` number.
    pub ready: i32,
}

/// The observed or desired state: the composite resource and the composed
/// resources by name.
pub struct State {
    pub composite: Option<Resource>,
    pub resources: Vec<(String, Resource)>,
}

/// A request to run a function.
pub struct RunFunctionRequest {
    pub meta: Option<RequestMeta>,
    pub observed: Option<State>,
    pub desired: Option<State>,
    pub context: Option<Struct>,
}

/// A span of time, as the protocol's `Duration`.
pub struct Duration {
    pub seconds: i64,
    pub nanos: i32,
}

/// Metadata of a response.
pub struct ResponseMeta {
    /// The tag of the request answered.
    pub tag: String,
    /// How long the response may be cached.
    pub ttl: Option<Duration>,
}

/// A result of a function run: an event for the composite resource.
pub struct FnResult {
    pub severity: i32,
    pub message: String,
    pub reason: Option<String>,
    pub target: Option<i32>,
}

/// The response to a request to run a function.
pub struct RunFunctionResponse {
    pub meta: Option<ResponseMeta>,
    pub desired: Option<State>,
    pub results: Vec<FnResult>,
    pub context: Option<Struct>,
}

pub type StructView = Seq<(Seq<char>, ValueView)>;

pub struct ResourceView {
    pub resource: Option<StructView>,
    pub connection_details: Seq<(Seq<char>, Seq<u8>)>,
    pub ready: i32,
}

pub struct StateView {
    pub composite: Option<ResourceView>,
    pub resources: Seq<(Seq<char>, ResourceView)>,
}

pub struct RunFunctionRequestView {
    pub tag: Option<Seq<char>>,
    pub observed: Option<StateView>,
    pub desired: Option<StateView>,
    pub context: Option<StructView>,
}

pub struct DurationView {
    pub seconds: i64,
    pub nanos: i32,
}

pub struct ResponseMetaView {
    pub tag: Seq<char>,
    pub ttl: Option<DurationView>,
}

pub struct FnResultView {
    pub severity: i32,
    pub message: Seq<char>,
    pub reason: Option<Seq<char>>,
    pub target: Option<i32>,
}

pub struct RunFunctionResponseView {
    pub meta: Option<ResponseMetaView>,
    pub desired: Option<StateView>,
    pub results: Seq<FnResultView>,
    pub context: Option<StructView>,
}

impl DeepView for Resource {
    type V = ResourceView;

    open spec fn deep_view(&self) -> ResourceView {
        ResourceView {
            resource: self.resource.deep_view(),
            connection_details: self.connection_details.deep_view(),
            ready: self.ready,
        }
    }
}

impl DeepView for State {
    type V = StateView;

    open spec fn deep_view(&self) -> StateView {
        StateView {
            composite: self.composite.deep_view(),
            resources: self.resources.deep_view(),
        }
    }
}

impl DeepView for RunFunctionRequest {
    type V = RunFunctionRequestView;

    open spec fn deep_view(&self) -> RunFunctionRequestView {
        RunFunctionRequestView {
            tag: match self.meta {
                Some(m) => Some(m.tag@),
                None => None,
            },
            observed: self.observed.deep_view(),
            desired: self.desired.deep_view(),
            context: self.context.deep_view(),
        }
    }
}

impl DeepView for Duration {
    type V = DurationView;

    open spec fn deep_view(&self) -> DurationView {
        DurationView { seconds: self.seconds, nanos: self.nanos }
    }
}

impl DeepView for ResponseMeta {
    type V = ResponseMetaView;

    open spec fn deep_view(&self) -> ResponseMetaView {
        ResponseMetaView { tag: self.tag@, ttl: self.ttl.deep_view() }
    }
}

impl DeepView for FnResult {
    type V = FnResultView;

    open spec fn deep_view(&self) -> FnResultView {
        FnResultView {
            severity: self.severity,
            message: self.message@,
            reason: self.reason.deep_view(),
            target: self.target,
        }
    }
}

impl DeepView for RunFunctionResponse {
    type V = RunFunctionResponseView;

    open spec fn deep_view(&self) -> RunFunctionResponseView {
        RunFunctionResponseView {
            meta: self.meta.deep_view(),
            desired: self.desired.deep_view(),
            results: self.results.deep_view(),
            context: self.context.deep_view(),
        }
    }
}

/// A copy of an optional object.
pub fn copy_struct(s: &Option<Struct>) -> (r: Option<Struct>)
    ensures
        r.deep_view() == s.deep_view(),
{
    match s {
        Some(x) => Some(x.clone()),
        None => None,
    }
}

fn copy_details(d: &Vec<(String, Vec<u8>)>) -> (r: Vec<(String, Vec<u8>)>)
    ensures
        r.deep_view() == d.deep_view(),
{
    let mut out: Vec<(String, Vec<u8>)> = Vec::new();
    let mut i: usize = 0;
    while i < d.len()
        invariant
            i <= d.len(),
            out.deep_view() =~= d.deep_view().take(i as int),
        decreases d.len() - i,
    {
        let bytes = d[i].1.clone();
        assert(bytes@ == d[i as int].1@);
        let ghost before = out.deep_view();
        out.push((d[i].0.clone(), bytes));
        assert(out.deep_view() =~= before.push(d.deep_view()[i as int]));
        i = i + 1;
    }
    out
}

impl Resource {
    /// A resource with nothing set.
    pub fn empty() -> (r: Resource)
        ensures
            r.deep_view() == empty_resource(),
    {
        let r = Resource { resource: None, connection_details: Vec::new(), ready: 0 };
        assert(r.deep_view().connection_details =~= Seq::<(Seq<char>, Seq<u8>)>::empty());
        r
    }

    /// A copy of the resource.
    pub fn copy(&self) -> (r: Resource)
        ensures
            r.deep_view() == self.deep_view(),
    {
        Resource {
            resource: copy_struct(&self.resource),
            connection_details: copy_details(&self.connection_details),
            ready: self.ready,
        }
    }
}

pub open spec fn empty_resource() -> ResourceView {
    ResourceView { resource: None, connection_details: Seq::empty(), ready: 0 }
}

pub open spec fn empty_state() -> StateView {
    StateView { composite: None, resources: Seq::empty() }
}

impl State {
    /// A state with no resources.
    pub fn empty() -> (r: State)
        ensures
            r.deep_view() == empty_state(),
    {
        let r = State { composite: None, resources: Vec::new() };
        assert(r.deep_view().resources =~= Seq::<(Seq<char>, ResourceView)>::empty());
        r
    }

    /// A copy of the state.
    pub fn copy(&self) -> (r: State)
        ensures
            r.deep_view() == self.deep_view(),
    {
        let composite = match &self.composite {
            Some(c) => Some(c.copy()),
            None => None,
        };
        let mut resources: Vec<(String, Resource)> = Vec::new();
        let mut i: usize = 0;
        while i < self.resources.len()
            invariant
                i <= self.resources.len(),
                resources.deep_view() =~= self.resources.deep_view().take(i as int),
            decreases self.resources.len() - i,
        {
            let ghost before = resources.deep_view();
            resources.push((self.resources[i].0.clone(), self.resources[i].1.copy()));
            assert(resources.deep_view() =~= before.push(self.resources.deep_view()[i as int]));
            i = i + 1;
        }
        assert(self.resources.deep_view().take(i as int) =~= self.resources.deep_view());
        State { composite, resources }
    }
}

/// A copy of an optional state.
pub fn copy_state(s: &Option<State>) -> (r: Option<State>)
    ensures
        r.deep_view() == s.deep_view(),
{
    match s {
        Some(x) => Some(x.copy()),
        None => None,
    }
}

/// The tag of a request, empty when it has no metadata.
pub open spec fn request_tag(req: RunFunctionRequestView) -> Seq<char> {
    match req.tag {
        Some(t) => t,
        None => Seq::empty(),
    }
}

/// Reads the tag of a request.
pub fn tag_of(req: &RunFunctionRequest) -> (r: String)
    ensures
        r@ == request_tag(req.deep_view()),
{
    match &req.meta {
        Some(m) => m.tag.clone(),
        None => String::new(),
    }
}

}
