//! Building responses and reading and writing resources, the way the
//! Crossplane function SDK does: a response starts as a copy of what the
//! request desired, results are appended, and a resource is updated by
//! setting its top-level fields.

use vstd::prelude::*;
use crate::codec::{decode_message, DecodeError, DecodeErrorView, Model};
use crate::entries::{get_entry, lemma_find_key, put, put_entry};
use crate::messages::{
    copy_state, copy_struct, empty_resource, empty_state, request_tag, tag_of, Duration,
    DurationView, FnResult, FnResultView, Resource, ResourceView, ResponseMeta, ResponseMetaView,
    RunFunctionRequest, RunFunctionRequestView, RunFunctionResponse, RunFunctionResponseView,
    State, StructView, SEVERITY_FATAL, TARGET_COMPOSITE,
};
use crate::value::{Struct, Value};

verus! {

/// How long, in seconds, a response may be cached unless a function says
/// otherwise.
pub const DEFAULT_TTL_SECONDS: i64 = 60;

/// The response that a request starts: the request's tag, desired state and
/// context, copied forward, and no results.
pub open spec fn response_to_spec(req: RunFunctionRequestView, ttl_seconds: i64) -> RunFunctionResponseView {
    RunFunctionResponseView {
        meta: Some(
            ResponseMetaView {
                tag: request_tag(req),
                ttl: Some(DurationView { seconds: ttl_seconds, nanos: 0 }),
            },
        ),
        desired: req.desired,
        results: Seq::empty(),
        context: req.context,
    }
}

/// Starts the response to a request.
pub fn response_to(req: &RunFunctionRequest, ttl_seconds: i64) -> (r: RunFunctionResponse)
    ensures
        r.deep_view() == response_to_spec(req.deep_view(), ttl_seconds),
{
    let r = RunFunctionResponse {
        meta: Some(
            ResponseMeta {
                tag: tag_of(req),
                ttl: Some(Duration { seconds: ttl_seconds, nanos: 0 }),
            },
        ),
        desired: copy_state(&req.desired),
        results: Vec::new(),
        context: copy_struct(&req.context),
    };
    assert(r.deep_view().results =~= Seq::<FnResultView>::empty());
    r
}

/// A result for the composite resource.
pub open spec fn composite_result(severity: i32, message: Seq<char>) -> FnResultView {
    FnResultView { severity, message, reason: None, target: Some(TARGET_COMPOSITE) }
}

/// The response with one more result.
pub open spec fn with_result(rsp: RunFunctionResponseView, severity: i32, message: Seq<char>) -> RunFunctionResponseView {
    RunFunctionResponseView { results: rsp.results.push(composite_result(severity, message)), ..rsp }
}

/// Builds a result for the composite resource.
pub fn result_for_composite(severity: i32, message: String) -> (r: FnResult)
    ensures
        r.deep_view() == composite_result(severity, message@),
{
    FnResult { severity, message, reason: None, target: Some(TARGET_COMPOSITE) }
}

fn add_result(rsp: &mut RunFunctionResponse, severity: i32, message: String)
    ensures
        final(rsp).deep_view() == with_result(old(rsp).deep_view(), severity, message@),
{
    let ghost before = rsp.results.deep_view();
    rsp.results.push(result_for_composite(severity, message));
    assert(rsp.results.deep_view() =~= before.push(composite_result(severity, message@)));
}

/// Adds a fatal result: the run failed.
pub fn add_fatal(rsp: &mut RunFunctionResponse, message: String)
    ensures
        final(rsp).deep_view() == with_result(old(rsp).deep_view(), SEVERITY_FATAL, message@),
{
    add_result(rsp, SEVERITY_FATAL, message)
}

/// An object with the given fields set, one after the other.
pub open spec fn merge_fields(target: StructView, fields: StructView) -> StructView
    decreases fields.len(),
{
    if fields.len() == 0 {
        target
    } else {
        merge_fields(put_entry(target, fields[0].0, fields[0].1), fields.drop_first())
    }
}

/// A resource with the given top-level fields set on its object, which is
/// created empty when the resource has none.
pub open spec fn updated_resource(r: ResourceView, fields: StructView) -> ResourceView {
    ResourceView {
        resource: Some(
            merge_fields(
                match r.resource {
                    Some(s) => s,
                    None => Seq::empty(),
                },
                fields,
            ),
        ),
        ..r
    }
}

/// Sets every top-level field of a model on a resource's object, leaving
/// the object's other fields as they were.
pub fn update_resource<T: Model>(r: &mut Resource, source: &T)
    ensures
        final(r).deep_view() == updated_resource(old(r).deep_view(), T::to_fields(source.deep_view())),
{
    let fields = source.encode();
    let mut target = match &r.resource {
        Some(s) => s.clone(),
        None => Struct::new(),
    };
    let ghost all = fields.deep_view();
    let mut i: usize = 0;
    assert(all.skip(0) =~= all);
    while i < fields.fields.len()
        invariant
            i <= fields.fields.len(),
            all == fields.deep_view(),
            merge_fields(target.deep_view(), all.skip(i as int)) == merge_fields(
                match old(r).deep_view().resource {
                    Some(s) => s,
                    None => Seq::empty(),
                },
                all,
            ),
        decreases fields.fields.len() - i,
    {
        assert(all.skip(i as int).drop_first() =~= all.skip(i + 1));
        let v: Value = fields.fields[i].1.clone();
        target.put(fields.fields[i].0.clone(), v);
        i = i + 1;
    }
    assert(all.skip(i as int) =~= Seq::<(Seq<char>, crate::value::ValueView)>::empty());
    r.resource = Some(target);
}

/// The response with a composed resource updated from a model's fields; a
/// resource of that name is created empty when the desired state has none.
pub open spec fn with_composed(
    rsp: RunFunctionResponseView,
    name: Seq<char>,
    fields: StructView,
) -> RunFunctionResponseView {
    let desired = match rsp.desired {
        Some(d) => d,
        None => empty_state(),
    };
    let current = match get_entry(desired.resources, name) {
        Some(r) => r,
        None => empty_resource(),
    };
    RunFunctionResponseView {
        desired: Some(
            crate::messages::StateView {
                resources: put_entry(desired.resources, name, updated_resource(current, fields)),
                ..desired
            },
        ),
        ..rsp
    }
}

/// Updates the desired composed resource `name` from a model.
pub fn update_composed<T: Model>(rsp: &mut RunFunctionResponse, name: &str, source: &T)
    ensures
        final(rsp).deep_view() == with_composed(
            old(rsp).deep_view(),
            name@,
            T::to_fields(source.deep_view()),
        ),
{
    let key = String::from_str(name);
    let mut desired = match &rsp.desired {
        Some(d) => d.copy(),
        None => State::empty(),
    };
    let mut r = match crate::entries::find_index(&desired.resources, &key) {
        Some(i) => {
            proof {
                lemma_find_key(desired.resources.deep_view(), key@);
            }
            desired.resources[i].1.copy()
        },
        None => Resource::empty(),
    };
    update_resource(&mut r, source);
    put(&mut desired.resources, key, r);
    rsp.desired = Some(desired);
}

/// Why a resource could not be read as a model.
pub enum GetError {
    /// There is no resource, or it has no object.
    MissingResource,
    /// The object does not read as the model.
    Json(DecodeError),
}

pub enum GetErrorView {
    MissingResource,
    Json(DecodeErrorView),
}

impl DeepView for GetError {
    type V = GetErrorView;

    open spec fn deep_view(&self) -> GetErrorView {
        match self {
            GetError::MissingResource => GetErrorView::MissingResource,
            GetError::Json(e) => GetErrorView::Json(e.deep_view()),
        }
    }
}

/// The model that a resource reads as.
pub open spec fn get_resource_spec<T: Model>(r: Option<ResourceView>) -> Result<T::V, GetErrorView> {
    match r {
        Some(ResourceView { resource: Some(s), .. }) => match T::from_fields(s) {
            Ok(m) => Ok(m),
            Err(e) => Err(GetErrorView::Json(e)),
        },
        _ => Err(GetErrorView::MissingResource),
    }
}

/// The message of a [`GetError`].
pub open spec fn get_error_message(e: GetErrorView) -> Seq<char> {
    match e {
        GetErrorView::MissingResource => "the resource has no JSON representation"@,
        GetErrorView::Json(d) => "JSON conversion failed: "@ + decode_message(d),
    }
}

impl GetError {
    /// Describes the error.
    pub fn message(&self) -> (r: String)
        ensures
            r@ == get_error_message(self.deep_view()),
    {
        match self {
            GetError::MissingResource => String::from_str("the resource has no JSON representation"),
            GetError::Json(d) => {
                let mut m = String::from_str("JSON conversion failed: ");
                m.append(d.message().as_str());
                m
            },
        }
    }
}

/// Reads a resource as a model.
pub fn get_resource<T: Model>(r: Option<&Resource>) -> (res: Result<T, GetError>)
    ensures
        match res {
            Ok(m) => get_resource_spec::<T>(match r {
                Some(x) => Some(x.deep_view()),
                None => None,
            }) == Ok::<T::V, GetErrorView>(m.deep_view()),
            Err(e) => get_resource_spec::<T>(match r {
                Some(x) => Some(x.deep_view()),
                None => None,
            }) == Err::<T::V, GetErrorView>(e.deep_view()),
        },
{
    match r {
        Some(x) => match &x.resource {
            Some(s) => match T::decode(s) {
                Ok(m) => Ok(m),
                Err(e) => Err(GetError::Json(e)),
            },
            None => Err(GetError::MissingResource),
        },
        None => Err(GetError::MissingResource),
    }
}

}
