use pluggable_composition::apps::{
    Container, ContainerPort, Deployment, DeploymentSpec, PodSpec, PodTemplateSpec,
};
use std::collections::BTreeMap;

use pluggable_composition::codec::{found_string, DecodeError, Model};
use pluggable_composition::text::int_to_string;
use pluggable_composition::meta::{IntOrString, LabelSelector, LabelSelectorRequirement, ObjectMeta};
use pluggable_composition::policy::{PodDisruptionBudget, PodDisruptionBudgetSpec};
use pluggable_composition::service::{Service, ServicePort, ServiceSpec};
use pluggable_composition::value::{Struct, Value};
use pluggable_composition::webapp::WebApp;

fn obj(fields: Vec<(&str, Value)>) -> Struct {
    let mut s = Struct::new();
    for (k, v) in fields {
        s.put(k.to_string(), v);
    }
    s
}

fn err_of<T: Model>(s: &Struct) -> DecodeError {
    match T::decode(s) {
        Ok(_) => panic!("expected a decoding error"),
        Err(e) => e,
    }
}

#[test]
fn a_deployment_reads_back_as_written() {
    let d = Deployment {
        api_version: Some("apps/v1".to_string()),
        kind: Some("Deployment".to_string()),
        metadata: Some(ObjectMeta {
            name: Some("n".to_string()),
            labels: Some(vec![("a".to_string(), "1".to_string()), ("b".to_string(), "2".to_string())]),
            ..ObjectMeta::empty()
        }),
        spec: Some(DeploymentSpec {
            min_ready_seconds: None,
            paused: None,
            progress_deadline_seconds: None,
            revision_history_limit: None,
            strategy: None,
            replicas: Some(-5),
            selector: Some(LabelSelector {
                match_labels: None,
                match_expressions: Some(vec![LabelSelectorRequirement {
                    key: Some("tier".to_string()),
                    operator: Some("In".to_string()),
                    values: Some(vec!["web".to_string(), "api".to_string()]),
                }]),
            }),
            template: Some(PodTemplateSpec {
                metadata: None,
                spec: Some(PodSpec {
                    containers: Some(vec![Container {
                        name: Some("c".to_string()),
                        image: None,
                        ports: Some(vec![ContainerPort { container_port: Some(i32::MAX) }]),
                    }]),
                }),
            }),
        }),
        status: None,
    };
    let s = d.encode();
    assert_eq!(s.fields.len(), 4);
    let back = Deployment::decode(&s).ok().unwrap();
    let meta = back.metadata.unwrap();
    assert_eq!(meta.name.as_deref(), Some("n"));
    assert!(meta.namespace.is_none());
    assert_eq!(meta.labels.unwrap().len(), 2);
    let spec = back.spec.unwrap();
    assert_eq!(spec.replicas, Some(-5));
    let req = &spec.selector.unwrap().match_expressions.unwrap()[0];
    assert_eq!(req.key.as_deref(), Some("tier"));
    assert_eq!(req.operator.as_deref(), Some("In"));
    assert_eq!(req.values, Some(vec!["web".to_string(), "api".to_string()]));
    let c = &spec.template.unwrap().spec.unwrap().containers.unwrap()[0];
    assert_eq!(c.ports.as_ref().unwrap()[0].container_port, Some(i32::MAX));
}

#[test]
fn absent_fields_are_left_out_and_nulls_read_as_absent() {
    let m = ObjectMeta::empty();
    assert!(m.encode().fields.is_empty());
    let m = ObjectMeta { name: Some("n".to_string()), ..ObjectMeta::empty() };
    let s = m.encode();
    assert_eq!(s.fields.len(), 1);
    assert_eq!(s.fields[0].0, "name");
    let s = obj(vec![("name", Value::Null), ("labels", Value::Null)]);
    let m = ObjectMeta::decode(&s).ok().unwrap();
    assert!(m.name.is_none() && m.labels.is_none());
}

#[test]
fn unknown_fields_are_ignored() {
    let s = obj(vec![("name", Value::Str("x".to_string())), ("notAField", Value::Bool(true))]);
    let m = ObjectMeta::decode(&s).ok().unwrap();
    assert_eq!(m.name.as_deref(), Some("x"));
}

#[test]
fn each_wrong_shape_is_reported_as_serde_json_reports_it() {
    let e = err_of::<ObjectMeta>(&obj(vec![("name", Value::Int(1))]));
    assert_eq!(e.message(), "invalid type: integer `1`, expected a string");
    assert_eq!(e.message(), serde_json::from_value::<String>(serde_json::Value::from(1)).unwrap_err().to_string());

    let e = err_of::<ObjectMeta>(&obj(vec![("labels", Value::Str("a".to_string()))]));
    assert_eq!(e.message, "invalid type: string \"a\", expected a map");
    assert_eq!(
        e.message,
        serde_json::from_value::<BTreeMap<String, String>>(serde_json::Value::from("a")).unwrap_err().to_string()
    );
    let e = err_of::<ObjectMeta>(&obj(vec![("labels", Value::Object(obj(vec![("a", Value::Int(1))])))]));
    assert_eq!(e.message, "invalid type: integer `1`, expected a string");

    let e = err_of::<DeploymentSpec>(&obj(vec![("replicas", Value::Int(1 << 40))]));
    assert_eq!(e.message, "invalid value: integer `1099511627776`, expected i32");
    assert_eq!(e.message, serde_json::from_value::<i32>(serde_json::Value::from(1i64 << 40)).unwrap_err().to_string());
    let e = err_of::<DeploymentSpec>(&obj(vec![("replicas", Value::Float(1.5f64.to_bits(), "1.5".to_string()))]));
    assert_eq!(e.message, "invalid type: floating point `1.5`, expected i32");
    assert_eq!(e.message, serde_json::from_value::<i32>(serde_json::Value::from(1.5)).unwrap_err().to_string());

    let e = err_of::<PodSpec>(&obj(vec![("containers", Value::Bool(true))]));
    assert_eq!(e.message, "invalid type: boolean `true`, expected a sequence");
    assert_eq!(e.message, serde_json::from_value::<Vec<String>>(serde_json::Value::from(true)).unwrap_err().to_string());
    let e = err_of::<PodSpec>(&obj(vec![("containers", Value::List(vec![Value::Int(1)]))]));
    assert_eq!(e.message, "invalid type: integer `1`, expected struct Container");

    let e = err_of::<Container>(&obj(vec![(
        "ports",
        Value::List(vec![Value::Object(obj(vec![("containerPort", Value::Str("80".to_string()))]))]),
    )]));
    assert_eq!(e.message, "invalid type: string \"80\", expected i32");

    let e = err_of::<ServicePort>(&obj(vec![("targetPort", Value::Bool(false))]));
    assert_eq!(e.message, "invalid type: boolean `false`, expected IntOrString");

    let e = err_of::<LabelSelectorRequirement>(&obj(vec![(
        "values",
        Value::List(vec![Value::Str("a".to_string()), Value::Null]),
    )]));
    assert_eq!(e.message, "invalid type: null, expected a string");
    assert_eq!(
        e.message,
        serde_json::from_value::<Vec<String>>(serde_json::Value::Array(vec![
            serde_json::Value::from("a"),
            serde_json::Value::Null,
        ])).unwrap_err().to_string()
    );

    let e = err_of::<WebApp>(&obj(vec![("spec", Value::List(vec![]))]));
    assert_eq!(e.message, "invalid length 0, expected struct WebAppSpec with 3 elements");
    let e = err_of::<WebApp>(&obj(vec![("metadata", Value::Str("podinfo".to_string()))]));
    assert_eq!(e.message(), "invalid type: string \"podinfo\", expected struct ObjectMeta");
}

#[test]
fn quotes_in_a_found_string_are_escaped() {
    let e = err_of::<DeploymentSpec>(&obj(vec![("replicas", Value::Str("a\"b\\c\n".to_string()))]));
    assert_eq!(e.message, "invalid type: string \"a\\\"b\\\\c\\n\", expected i32");
    assert_eq!(e.message, serde_json::from_value::<i32>(serde_json::Value::from("a\"b\\c\n")).unwrap_err().to_string());
}

#[test]
fn the_first_bad_field_in_key_order_is_reported() {
    let e = err_of::<ObjectMeta>(&obj(vec![
        ("name", Value::Int(1)),
        ("labels", Value::Str("x".to_string())),
    ]));
    assert_eq!(e.message, "invalid type: string \"x\", expected a map");
    let e = err_of::<ObjectMeta>(&obj(vec![
        ("uid", Value::Bool(true)),
        ("generation", Value::Str("1".to_string())),
    ]));
    assert_eq!(e.message, "invalid type: string \"1\", expected i64");
}

#[test]
fn the_first_bad_item_of_a_list_is_reported() {
    let s = obj(vec![(
        "ports",
        Value::List(vec![
            Value::Object(obj(vec![("containerPort", Value::Int(1))])),
            Value::Object(obj(vec![("containerPort", Value::Int(1 << 33))])),
            Value::Int(3),
        ]),
    )]);
    let e = err_of::<Container>(&s);
    assert_eq!(e.message, "invalid value: integer `8589934592`, expected i32");
}

#[test]
fn a_status_of_the_wrong_shape_does_not_read() {
    let e = err_of::<Deployment>(&obj(vec![("status", Value::Int(5))]));
    assert_eq!(e.message, "invalid type: integer `5`, expected struct DeploymentStatus");
    let e = err_of::<ObjectMeta>(&obj(vec![(
        "annotations",
        Value::Object(obj(vec![("a", Value::Bool(false))])),
    )]));
    assert_eq!(e.message, "invalid type: boolean `false`, expected a string");
}

#[test]
fn int_or_string_reads_both_shapes() {
    let s = obj(vec![
        ("maxUnavailable", Value::Str("25%".to_string())),
        ("minAvailable", Value::Int(2)),
    ]);
    let spec = PodDisruptionBudgetSpec::decode(&s).ok().unwrap();
    assert!(matches!(spec.max_unavailable, Some(IntOrString::Str(ref x)) if x == "25%"));
    assert!(matches!(spec.min_available, Some(IntOrString::Int(2))));
}

#[test]
fn a_service_and_a_budget_read_back_as_written() {
    let svc = Service {
        api_version: Some("v1".to_string()),
        kind: Some("Service".to_string()),
        metadata: None,
        spec: Some(ServiceSpec {
            selector: Some(vec![("k".to_string(), "v".to_string())]),
            ports: Some(vec![ServicePort {
                protocol: Some("UDP".to_string()),
                port: Some(53),
                target_port: Some(IntOrString::Str("dns".to_string())),
            }]),
        }),
    };
    let back = Service::decode(&svc.encode()).ok().unwrap();
    let p = &back.spec.unwrap().ports.unwrap()[0];
    assert_eq!(p.port, Some(53));
    assert!(matches!(p.target_port, Some(IntOrString::Str(ref x)) if x == "dns"));

    let b = PodDisruptionBudget {
        api_version: None,
        kind: None,
        metadata: None,
        spec: Some(PodDisruptionBudgetSpec {
            max_unavailable: None,
            min_available: Some(IntOrString::Int(1)),
            selector: None,
        }),
    };
    let back = PodDisruptionBudget::decode(&b.encode()).ok().unwrap();
    assert!(back.api_version.is_none());
    assert!(matches!(back.spec.unwrap().min_available, Some(IntOrString::Int(1))));
}

#[test]
fn struct_put_replaces_in_place_and_appends_new_keys() {
    let mut s = obj(vec![("a", Value::Int(1)), ("b", Value::Int(2))]);
    s.put("a".to_string(), Value::Int(3));
    s.put("c".to_string(), Value::Bool(true));
    assert_eq!(s.fields.len(), 3);
    assert_eq!(s.fields[0].0, "a");
    assert!(matches!(s.get(&"a".to_string()), Some(Value::Int(3))));
    assert!(matches!(s.get(&"b".to_string()), Some(Value::Int(2))));
    assert!(matches!(s.get(&"c".to_string()), Some(Value::Bool(true))));
    assert!(s.get(&"d".to_string()).is_none());
}

#[test]
fn clone_copies_nested_values() {
    let inner = obj(vec![("x", Value::List(vec![Value::Float(2.5f64.to_bits(), "2.5".to_string()), Value::Null]))]);
    let v = Value::Object(obj(vec![("o", Value::Object(inner)), ("s", Value::Str("t".to_string()))]));
    let c = v.clone();
    match c {
        Value::Object(s) => {
            assert_eq!(s.fields.len(), 2);
            match &s.fields[0].1 {
                Value::Object(i) => match &i.fields[0].1 {
                    Value::List(items) => {
                        assert!(matches!(items[0], Value::Float(b, ref t) if b == 2.5f64.to_bits() && t == "2.5"));
                        assert!(matches!(items[1], Value::Null));
                    },
                    _ => panic!("not a list"),
                },
                _ => panic!("not an object"),
            }
        },
        _ => panic!("not an object"),
    }
}

#[test]
fn integers_are_written_in_decimal() {
    assert_eq!(int_to_string(0), "0");
    assert_eq!(int_to_string(-42), "-42");
    assert_eq!(int_to_string(i64::MIN), i64::MIN.to_string());
    assert_eq!(int_to_string(i64::MAX), i64::MAX.to_string());
}

#[test]
fn a_found_string_is_named_with_its_quotes() {
    assert_eq!(found_string("\"x\""), "string \"x\"");
}

#[test]
fn a_list_in_place_of_an_object_reads_item_by_item() {
    let c = Container::decode(&obj(vec![("ports", Value::List(vec![Value::List(vec![Value::Int(80)])]))]))
        .ok()
        .unwrap();
    assert_eq!(c.ports.unwrap()[0].container_port, Some(80));

    let sel = LabelSelector::decode(&obj(vec![(
        "matchExpressions",
        Value::List(vec![Value::List(vec![
            Value::Str("tier".to_string()),
            Value::Str("In".to_string()),
            Value::List(vec![Value::Str("web".to_string())]),
        ])]),
    )]))
    .ok()
    .unwrap();
    let req = &sel.match_expressions.unwrap()[0];
    assert_eq!(req.key.as_deref(), Some("tier"));
    assert_eq!(req.operator.as_deref(), Some("In"));
    assert_eq!(req.values, Some(vec!["web".to_string()]));

    let p = ServicePort::decode(&obj(vec![])).ok().unwrap();
    assert!(p.port.is_none());
    let spec = ServiceSpec::decode(&obj(vec![(
        "ports",
        Value::List(vec![Value::List(vec![Value::Null, Value::Str("TCP".to_string()), Value::Int(80)])]),
    )]))
    .ok()
    .unwrap();
    let p = &spec.ports.unwrap()[0];
    assert!(p.port.is_none());
    assert_eq!(p.protocol.as_deref(), Some("TCP"));
    assert!(matches!(p.target_port, Some(IntOrString::Int(80))));
}

#[test]
fn a_list_of_the_wrong_length_does_not_read() {
    let e = err_of::<Container>(&obj(vec![("ports", Value::List(vec![Value::List(vec![])]))]));
    assert_eq!(e.message, "invalid length 0, expected struct ContainerPort with 1 element");
    let e = err_of::<Container>(&obj(vec![(
        "ports",
        Value::List(vec![Value::List(vec![Value::Int(80), Value::Int(1)])]),
    )]));
    assert_eq!(e.message, "invalid length 2, expected fewer elements in array");
    let e = err_of::<ServiceSpec>(&obj(vec![(
        "ports",
        Value::List(vec![Value::List(vec![Value::Str("80".to_string())])]),
    )]));
    assert_eq!(e.message, "invalid type: string \"80\", expected i32");
}

#[test]
fn every_field_of_a_deployment_spec_is_checked() {
    let e = err_of::<DeploymentSpec>(&obj(vec![("strategy", Value::Str("Recreate".to_string()))]));
    assert_eq!(e.message, "invalid type: string \"Recreate\", expected struct DeploymentStrategy");
    let e = err_of::<DeploymentSpec>(&obj(vec![("paused", Value::Str("yes".to_string()))]));
    assert_eq!(e.message, "invalid type: string \"yes\", expected a boolean");
    assert_eq!(e.message, serde_json::from_value::<bool>(serde_json::Value::from("yes")).unwrap_err().to_string());
    let e = err_of::<DeploymentSpec>(&obj(vec![(
        "strategy",
        Value::Object(obj(vec![("rollingUpdate", Value::Object(obj(vec![("maxSurge", Value::Bool(true))])))])),
    )]));
    assert_eq!(e.message, "invalid type: boolean `true`, expected IntOrString");
    let spec = DeploymentSpec::decode(&obj(vec![
        ("paused", Value::Bool(true)),
        ("strategy", Value::Object(obj(vec![("type", Value::Str("Recreate".to_string()))]))),
    ]))
    .ok()
    .unwrap();
    assert_eq!(spec.paused, Some(true));
    assert_eq!(spec.strategy.unwrap().strategy_type.as_deref(), Some("Recreate"));
    let back = DeploymentSpec::decode(&DeploymentSpec::decode(&obj(vec![("paused", Value::Bool(false))])).ok().unwrap().encode())
        .ok()
        .unwrap();
    assert_eq!(back.paused, Some(false));
}

#[test]
fn owner_references_are_read() {
    let m = ObjectMeta::decode(&obj(vec![(
        "ownerReferences",
        Value::List(vec![Value::Object(obj(vec![
            ("kind", Value::Str("WebApp".to_string())),
            ("controller", Value::Bool(true)),
        ]))]),
    )]))
    .ok()
    .unwrap();
    let owner = &m.owner_references.unwrap()[0];
    assert_eq!(owner.kind.as_deref(), Some("WebApp"));
    assert_eq!(owner.controller, Some(true));
    let e = err_of::<ObjectMeta>(&obj(vec![("ownerReferences", Value::Str("x".to_string()))]));
    assert_eq!(e.message, "invalid type: string \"x\", expected a sequence");
}
