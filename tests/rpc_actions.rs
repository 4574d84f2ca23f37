use iot_orchid::dispatch::{ActionOutcome, ErrorReason};
use iot_orchid::json::JsonValue;
use iot_orchid::rpc_actions::{JrpcExample, MicrodeviceActions, Topic};

fn s(x: &str) -> String {
    x.to_string()
}

fn obj(fields: Vec<(&str, JsonValue)>) -> JsonValue {
    JsonValue::object(fields.into_iter().map(|(k, v)| (s(k), v)).collect())
}

#[test]
fn method_names() {
    assert_eq!(MicrodeviceActions::from_name(&s("power_on")), Some(MicrodeviceActions::PowerOn));
    assert_eq!(MicrodeviceActions::from_name(&s("user_defined")), Some(MicrodeviceActions::UserDefined));
    assert_eq!(MicrodeviceActions::from_name(&s("start")), Some(MicrodeviceActions::Start));
    assert_eq!(MicrodeviceActions::from_name(&s("power-on")), None);
}

#[test]
fn execute_checks_params_then_reports_not_implemented() {
    let good = obj(vec![
        ("cluster_wide", JsonValue::Bool(false)),
        ("device_id", JsonValue::array(vec![JsonValue::Text(s("a"))])),
    ]);
    assert_eq!(
        MicrodeviceActions::Stop.execute(JsonValue::Int(1), &good),
        ActionOutcome::Failure {
            id: JsonValue::Int(1),
            reason: ErrorReason::MethodNotFound,
            message: s("Method not implemented"),
            data: JsonValue::Null,
        }
    );
    let bad = obj(vec![("device_id", JsonValue::Text(s("a")))]);
    assert_eq!(
        MicrodeviceActions::Stop.execute(JsonValue::Int(2), &bad),
        ActionOutcome::Failure {
            id: JsonValue::Int(2),
            reason: ErrorReason::InvalidParams,
            message: s("params need a boolean `cluster_wide` and an optional `device_id`"),
            data: JsonValue::Null,
        }
    );
    let bad_list = obj(vec![
        ("cluster_wide", JsonValue::Bool(true)),
        ("device_id", JsonValue::array(vec![JsonValue::Int(1)])),
    ]);
    assert!(matches!(
        MicrodeviceActions::Reset.execute(JsonValue::Null, &bad_list),
        ActionOutcome::Failure { reason: ErrorReason::InvalidParams, .. }
    ));
}

#[test]
fn documentation_shapes() {
    let e = JrpcExample { jsonrpc: s("2.0"), id: s("<id>"), method: s("<method>"), params: vec![] };
    assert_eq!(e.jsonrpc, "2.0");
    let t = Topic { topic: s("/temperature") };
    assert_eq!(t.topic, "/temperature");
}

#[test]
fn json_values() {
    let v = obj(vec![("a", JsonValue::Int(1)), ("a", JsonValue::Int(2)), ("b", JsonValue::Decimal(s("1.5")))]);
    assert_eq!(v.member("a"), Some(JsonValue::Int(1)));
    assert_eq!(v.member("b"), Some(JsonValue::Decimal(s("1.5"))));
    assert_eq!(v.member("c"), None);
    assert_eq!(JsonValue::Int(1).member("a"), None);
    assert_eq!(v.deep_copy(), v);
    assert!(JsonValue::Null.is_scalar());
    assert!(!JsonValue::array(vec![]).is_scalar());
}
