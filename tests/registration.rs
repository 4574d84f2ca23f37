use iot_orchid::action::MicrodeviceRecord;
use iot_orchid::context::Ctx;
use iot_orchid::json::JsonValue;
use iot_orchid::registration::{
    finish_registration, get_microdevice_id, parse_i32, plan_registration, record_to_json, ContextError, RegistrarDelivery,
    RegistrationReply, RegistrationStep,
};

fn s(x: &str) -> String {
    x.to_string()
}

fn obj(fields: Vec<(&str, JsonValue)>) -> JsonValue {
    JsonValue::object(fields.into_iter().map(|(k, v)| (s(k), v)).collect())
}

fn delivery(content: Option<Result<JsonValue, String>>, tag: Option<u64>, reply_to: Option<&str>) -> RegistrarDelivery {
    RegistrarDelivery { content, delivery_tag: tag, reply_to: reply_to.map(s) }
}

#[test]
fn registration_steps() {
    assert_eq!(plan_registration(&None), RegistrationStep::Ignore);
    assert_eq!(plan_registration(&Some(delivery(None, Some(1), None))), RegistrationStep::Ignore);
    let announce = |id: &str| Some(Ok(obj(vec![("device_id", JsonValue::Text(s(id)))])));
    assert_eq!(plan_registration(&Some(delivery(announce("42"), Some(1), None))), RegistrationStep::Lookup(42));
    assert_eq!(plan_registration(&Some(delivery(announce("-7"), None, None))), RegistrationStep::Lookup(-7));
    assert_eq!(plan_registration(&Some(delivery(announce("abc"), Some(1), None))), RegistrationStep::Abandon);
    assert_eq!(plan_registration(&Some(delivery(announce("99999999999"), Some(1), None))), RegistrationStep::Abandon);
    assert_eq!(
        plan_registration(&Some(delivery(Some(Ok(obj(vec![("device", JsonValue::Int(1))]))), Some(5), None))),
        RegistrationStep::Nack(5)
    );
    assert_eq!(plan_registration(&Some(delivery(Some(Err(s("eof"))), Some(6), None))), RegistrationStep::Nack(6));
    assert_eq!(plan_registration(&Some(delivery(Some(Err(s("eof"))), None, None))), RegistrationStep::Ignore);
}

#[test]
fn context_device_ids() {
    let ctx = Ctx::MicrodeviceCtx { device_id: s("+12"), cluster_id: s("c") };
    assert_eq!(get_microdevice_id(&ctx), Ok(12));
    let ctx = Ctx::MicrodeviceCtx { device_id: s(" 12"), cluster_id: s("c") };
    assert_eq!(get_microdevice_id(&ctx), Err(ContextError::InvalidDeviceId));
    let ctx = Ctx::MicrodeviceCtx { device_id: s("-"), cluster_id: s("c") };
    assert_eq!(get_microdevice_id(&ctx), Err(ContextError::InvalidDeviceId));
    assert_eq!(get_microdevice_id(&Ctx::new_user(s("u"))), Err(ContextError::ExpectedMicrodevice));
}

#[test]
fn registration_replies() {
    let rec = MicrodeviceRecord {
        id: 3,
        name: s("probe"),
        cluster_id: s("c1"),
        description: None,
        topics: Some(vec![s("temp-read")]),
    };
    let expected = obj(vec![
        ("cluster_id", JsonValue::Text(s("c1"))),
        ("id", JsonValue::Int(3)),
        ("name", JsonValue::Text(s("probe"))),
        ("topics", JsonValue::array(vec![JsonValue::Text(s("temp-read"))])),
    ]);
    assert_eq!(record_to_json(&Some(rec.duplicate())), expected);
    assert_eq!(record_to_json(&None), JsonValue::Null);
    let d = delivery(None, Some(9), Some("reply-q"));
    assert_eq!(
        finish_registration(&d, &Ok(Some(rec))),
        RegistrationReply { publish: Some((s("reply-q"), expected)), ack: Some(9) }
    );
    assert_eq!(finish_registration(&d, &Err(s("db down"))), RegistrationReply { publish: None, ack: None });
    let quiet = delivery(None, Some(2), None);
    assert_eq!(finish_registration(&quiet, &Ok(None)), RegistrationReply { publish: None, ack: Some(2) });
}

#[test]
fn record_with_description() {
    let rec = MicrodeviceRecord {
        id: 1,
        name: s("n"),
        cluster_id: s("c"),
        description: Some(s("d")),
        topics: None,
    };
    assert_eq!(
        record_to_json(&Some(rec)),
        obj(vec![
            ("cluster_id", JsonValue::Text(s("c"))),
            ("id", JsonValue::Int(1)),
            ("name", JsonValue::Text(s("n"))),
            ("description", JsonValue::Text(s("d"))),
        ])
    );
}

#[test]
fn decimal_i32_parsing() {
    assert_eq!(parse_i32("0"), Some(0));
    assert_eq!(parse_i32("+17"), Some(17));
    assert_eq!(parse_i32("-2147483648"), Some(i32::MIN));
    assert_eq!(parse_i32("2147483647"), Some(i32::MAX));
    assert_eq!(parse_i32("2147483648"), None);
    assert_eq!(parse_i32("-2147483649"), None);
    assert_eq!(parse_i32("000000000000000000042"), Some(42));
    assert_eq!(parse_i32(""), None);
    assert_eq!(parse_i32("-"), None);
    assert_eq!(parse_i32("+-1"), None);
    assert_eq!(parse_i32("12a"), None);
    assert_eq!(parse_i32("99999999999x"), None);
    assert_eq!(parse_i32("\u{661}\u{662}"), None);
}
