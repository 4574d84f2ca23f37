//! Registration of microdevices: a microdevice announces itself on the
//! registrar queue with its id, and gets its stored record back on the queue
//! it names.
//!
//! Whoever consumes the queue reads each delivery into a
//! [`RegistrarDelivery`], does what [`plan_registration`] says, and, after
//! the lookup, what [`finish_registration`] says.
use vstd::prelude::*;
use crate::action::MicrodeviceRecord;
use crate::context::Ctx;
use crate::json::{copy_string, field_entries, list_items, member, JsonValue};

verus! {

/// A delivery on the registrar queue, as far as registration reads it.
#[derive(Debug, PartialEq)]
pub struct RegistrarDelivery {
    /// The body read as JSON (or why it could not be); `None` when there was
    /// no body.
    pub content: Option<Result<JsonValue, String>>,
    /// The broker's tag for the delivery, to acknowledge it by.
    pub delivery_tag: Option<u64>,
    /// Where the announcing microdevice waits for its record.
    pub reply_to: Option<String>,
}

/// What to do with a delivery before any lookup.
#[derive(Debug, PartialEq)]
pub enum RegistrationStep {
    /// Nothing to answer: no delivery, or one without a body, or one without
    /// a tag to refuse it by.
    Ignore,
    /// The body is not a registration: refuse the delivery, without requeueing.
    Nack(u64),
    /// The announced id is not a microdevice id: leave the delivery be.
    Abandon,
    /// Look up the microdevice with this id.
    Lookup(i32),
}

/// Why a context does not name a stored microdevice.
#[derive(Debug, Clone, Copy, PartialEq, Eq, Structural)]
pub enum ContextError {
    ExpectedMicrodevice,
    InvalidDeviceId,
}

/// What to do once the lookup is over.
#[derive(Debug, PartialEq)]
pub struct RegistrationReply {
    /// The queue to publish to, and the body to publish.
    pub publish: Option<(String, JsonValue)>,
    /// The delivery tag to acknowledge.
    pub ack: Option<u64>,
}

/// The value of a string of ASCII digits.
pub open spec fn digits_value(s: Seq<char>) -> int
    decreases s.len(),
{
    if s.len() == 0 {
        0
    } else {
        digits_value(s.drop_last()) * 10 + (s.last() as int - '0' as int)
    }
}

pub open spec fn all_digits(s: Seq<char>) -> bool {
    s.len() > 0 && forall|i: int| 0 <= i < s.len() ==> '0' <= #[trigger] s[i] <= '9'
}

/// The `i32` that `s` writes in decimal: an optional `+` or `-`, then one
/// or more digits, with a value in range.
pub open spec fn decimal_i32(s: Seq<char>) -> Option<i32> {
    let neg = s.len() > 0 && s[0] == '-';
    let body = if s.len() > 0 && (s[0] == '-' || s[0] == '+') {
        s.drop_first()
    } else {
        s
    };
    let v = if neg {
        -digits_value(body)
    } else {
        digits_value(body)
    };
    if all_digits(body) && i32::MIN <= v <= i32::MAX {
        Some(v as i32)
    } else {
        None
    }
}

proof fn lemma_digits_nonneg(s: Seq<char>)
    requires
        forall|i: int| 0 <= i < s.len() ==> '0' <= #[trigger] s[i] <= '9',
    ensures
        digits_value(s) >= 0,
    decreases s.len(),
{
    if s.len() > 0 {
        lemma_digits_nonneg(s.drop_last());
    }
}

/// A string of digits is worth at least any of its prefixes.
proof fn lemma_digits_grow(s: Seq<char>, k: int)
    requires
        forall|i: int| 0 <= i < s.len() ==> '0' <= #[trigger] s[i] <= '9',
        0 <= k <= s.len(),
    ensures
        digits_value(s) >= digits_value(s.subrange(0, k)),
    decreases s.len(),
{
    if k < s.len() {
        let t = s.drop_last();
        lemma_digits_grow(t, k);
        lemma_digits_nonneg(t);
        assert(t.subrange(0, k) =~= s.subrange(0, k));
    } else {
        assert(s.subrange(0, k) =~= s);
    }
}

/// Reads a decimal `i32` as `i32::from_str` does: an optional sign, then
/// digits, and nothing else; `None` on anything else or on overflow.
pub fn parse_i32(s: &str) -> (r: Option<i32>)
    ensures
        r == decimal_i32(s@),
{
    let n = s.unicode_len();
    if n == 0 {
        return None;
    }
    let first = s.get_char(0);
    let neg = first == '-';
    let start: usize = if first == '-' || first == '+' {
        1
    } else {
        0
    };
    let ghost body = if start == 1 {
        s@.drop_first()
    } else {
        s@
    };
    assert(body =~= s@.subrange(start as int, n as int));
    if start == n {
        return None;
    }
    let mut acc: i64 = 0;
    let mut i: usize = start;
    while i < n
        invariant
            start <= i <= n,
            n == s@.len(),
            neg == (s@.len() > 0 && s@[0] == '-'),
            body == (if s@.len() > 0 && (s@[0] == '-' || s@[0] == '+') {
                s@.drop_first()
            } else {
                s@
            }),
            body == s@.subrange(start as int, n as int),
            forall|j: int| start <= j < i ==> '0' <= #[trigger] s@[j] <= '9',
            acc == digits_value(s@.subrange(start as int, i as int)),
            0 <= acc <= 2147483648,
        decreases n - i,
    {
        let c = s.get_char(i);
        if !('0' <= c && c <= '9') {
            assert(body[i - start] == c);
            assert(!all_digits(body));
            return None;
        }
        let d = (c as u32 - '0' as u32) as i64;
        assert(s@.subrange(start as int, i + 1).drop_last() =~= s@.subrange(start as int, i as int));
        assert(s@.subrange(start as int, i + 1).last() == c);
        assert(d == c as int - '0' as int);
        let next = acc * 10 + d;
        if next > 2147483648 {
            proof {
                if all_digits(body) {
                    lemma_digits_grow(body, i + 1 - start);
                    assert(body.subrange(0, i + 1 - start) =~= s@.subrange(start as int, i + 1));
                    assert(digits_value(body) > 2147483648);
                }
            }
            return None;
        }
        acc = next;
        i = i + 1;
    }
    assert(s@.subrange(start as int, i as int) == body);
    if neg {
        Some((-acc) as i32)
    } else if acc <= 2147483647 {
        Some(acc as i32)
    } else {
        None
    }
}

/// The id a registration announces: the string member `device_id`.
pub open spec fn announced_id(v: JsonValue) -> Option<String> {
    match member(v, "device_id"@) {
        Some(JsonValue::Text(s)) => Some(s),
        _ => None,
    }
}

/// The stored id of the microdevice a context speaks for.
pub open spec fn context_device_id(ctx: Ctx) -> Result<i32, ContextError> {
    match ctx {
        Ctx::MicrodeviceCtx { device_id, .. } => match decimal_i32(device_id@) {
            Some(n) => Ok(n),
            None => Err(ContextError::InvalidDeviceId),
        },
        _ => Err(ContextError::ExpectedMicrodevice),
    }
}

/// The stored id of the microdevice a context speaks for.
pub fn get_microdevice_id(ctx: &Ctx) -> (r: Result<i32, ContextError>)
    ensures
        r == context_device_id(*ctx),
{
    match ctx.get_microdevice_ids() {
        Some((device_id, _)) => match parse_i32(device_id.as_str()) {
            Some(n) => Ok(n),
            None => Err(ContextError::InvalidDeviceId),
        },
        None => Err(ContextError::ExpectedMicrodevice),
    }
}

/// What a delivery calls for before any lookup.
pub open spec fn registration_step(d: Option<RegistrarDelivery>) -> RegistrationStep {
    match d {
        None => RegistrationStep::Ignore,
        Some(d) => match d.content {
            None => RegistrationStep::Ignore,
            Some(body) => {
                let id = match body {
                    Ok(v) => announced_id(v),
                    Err(_) => None,
                };
                match id {
                    None => match d.delivery_tag {
                        Some(t) => RegistrationStep::Nack(t),
                        None => RegistrationStep::Ignore,
                    },
                    Some(device_id) => match decimal_i32(device_id@) {
                        Some(n) => RegistrationStep::Lookup(n),
                        None => RegistrationStep::Abandon,
                    },
                }
            },
        },
    }
}

/// Decides what a delivery on the registrar queue calls for.
pub fn plan_registration(d: &Option<RegistrarDelivery>) -> (r: RegistrationStep)
    ensures
        r == registration_step(*d),
{
    let d = match d {
        None => return RegistrationStep::Ignore,
        Some(d) => d,
    };
    let id = match &d.content {
        None => return RegistrationStep::Ignore,
        Some(Ok(v)) => match v.member("device_id") {
            Some(JsonValue::Text(s)) => Some(s),
            _ => None,
        },
        Some(Err(_)) => None,
    };
    match id {
        None => match d.delivery_tag {
            Some(t) => RegistrationStep::Nack(t),
            None => RegistrationStep::Ignore,
        },
        Some(device_id) => {
            let ctx = Ctx::MicrodeviceCtx { device_id, cluster_id: String::new() };
            match get_microdevice_id(&ctx) {
                Ok(n) => RegistrationStep::Lookup(n),
                Err(_) => RegistrationStep::Abandon,
            }
        },
    }
}

/// `j` is a list of these strings, in order.
pub open spec fn texts(j: JsonValue, items: Seq<String>) -> bool {
    match j {
        JsonValue::Array(l) => list_items(l).len() == items.len() && forall|i: int|
            0 <= i < items.len() ==> #[trigger] list_items(l)[i] == JsonValue::Text(items[i]),
        _ => false,
    }
}

/// `j` is the wire form of a looked-up record: null when there is none, else
/// `cluster_id`, `id` and `name`, then `description` and `topics` when they
/// are there, in this order.
pub open spec fn record_json(rec: Option<MicrodeviceRecord>, j: JsonValue) -> bool {
    match rec {
        None => j == JsonValue::Null,
        Some(r) => match j {
            JsonValue::Object(f) => {
                let e = field_entries(f);
                let k = if r.description is Some {
                    4int
                } else {
                    3int
                };
                &&& e.len() == k + if r.topics is Some {
                    1int
                } else {
                    0int
                }
                &&& e[0].0@ == "cluster_id"@ && e[0].1 == JsonValue::Text(r.cluster_id)
                &&& e[1].0@ == "id"@ && e[1].1 == JsonValue::Int(r.id as i64)
                &&& e[2].0@ == "name"@ && e[2].1 == JsonValue::Text(r.name)
                &&& r.description is Some ==> e[3].0@ == "description"@ && e[3].1 == JsonValue::Text(
                    r.description.unwrap(),
                )
                &&& r.topics is Some ==> e[k].0@ == "topics"@ && texts(e[k].1, r.topics.unwrap()@)
            },
            _ => false,
        },
    }
}

fn texts_json(items: &Vec<String>) -> (r: JsonValue)
    ensures
        texts(r, items@),
{
    let mut v: Vec<JsonValue> = Vec::new();
    let mut i: usize = 0;
    while i < items.len()
        invariant
            i <= items@.len(),
            v@.len() == i,
            forall|j: int| 0 <= j < i ==> #[trigger] v@[j] == JsonValue::Text(items@[j]),
        decreases items@.len() - i,
    {
        v.push(JsonValue::Text(copy_string(&items[i])));
        i = i + 1;
    }
    JsonValue::array(v)
}

/// The wire form of a looked-up record.
pub fn record_to_json(rec: &Option<MicrodeviceRecord>) -> (r: JsonValue)
    ensures
        record_json(*rec, r),
{
    match rec {
        None => JsonValue::Null,
        Some(r) => {
            let mut fields: Vec<(String, JsonValue)> = Vec::new();
            fields.push((String::from_str("cluster_id"), JsonValue::Text(copy_string(&r.cluster_id))));
            fields.push((String::from_str("id"), JsonValue::Int(r.id as i64)));
            fields.push((String::from_str("name"), JsonValue::Text(copy_string(&r.name))));
            match &r.description {
                Some(d) => fields.push((String::from_str("description"), JsonValue::Text(copy_string(d)))),
                None => {},
            }
            match &r.topics {
                Some(t) => fields.push((String::from_str("topics"), texts_json(t))),
                None => {},
            }
            JsonValue::object(fields)
        },
    }
}

/// What a delivery calls for once the lookup is over: the record goes back
/// to the queue the microdevice named, if it named one, and the delivery is
/// acknowledged; a failed lookup does neither.
pub fn finish_registration(
    d: &RegistrarDelivery,
    lookup: &Result<Option<MicrodeviceRecord>, String>,
) -> (r: RegistrationReply)
    ensures
        lookup is Err ==> r.publish is None && r.ack is None,
        lookup is Ok ==> r.ack == d.delivery_tag,
        lookup is Ok ==> (r.publish is Some <==> d.reply_to is Some),
        lookup is Ok && d.reply_to is Some ==> r.publish.unwrap().0 == d.reply_to.unwrap()
            && record_json(lookup->Ok_0, r.publish.unwrap().1),
{
    match lookup {
        Err(_) => RegistrationReply { publish: None, ack: None },
        Ok(rec) => {
            let publish = match &d.reply_to {
                Some(q) => Some((copy_string(q), record_to_json(rec))),
                None => None,
            };
            RegistrationReply { publish, ack: d.delivery_tag }
        },
    }
}

} // verus!
