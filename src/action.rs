//! Actions on microdevices, and which microdevice supports which action.
use vstd::prelude::*;
use crate::json::{copy_string, field_entries, JsonValue};

verus! {

/// How a request names a microdevice: by its number or by its name.
#[derive(Debug, PartialEq)]
pub enum MicrodeviceId {
    Id(i32),
    Name(String),
}

/// An action: one of the built-in ones, or one that a microdevice declares
/// among its topics.
#[derive(Debug, PartialEq)]
pub enum MicrodeviceAction {
    Start,
    Stop,
    Restart,
    Reset,
    PowerOn,
    PowerOff,
    UserDefined(String),
}

/// What a dispatch needs to know of a microdevice found in a cluster.
#[derive(Debug, PartialEq)]
pub struct MicrodeviceRecord {
    pub id: i32,
    pub name: String,
    pub cluster_id: String,
    pub description: Option<String>,
    /// The topics it declares; `None` when it declares none.
    pub topics: Option<Vec<String>>,
}

/// The answer for one microdevice of an action request.
#[derive(Debug, PartialEq)]
pub struct MicrodeviceActionResponse {
    pub microdevice_id: MicrodeviceId,
    pub status: String,
    pub message: String,
    pub payload: JsonValue,
}

/// The message published for one microdevice.
#[derive(Debug, PartialEq)]
pub struct MicrodeviceActionMessage {
    pub cluster_id: String,
    pub microdevice_id: MicrodeviceId,
    pub action: MicrodeviceAction,
    pub payload: JsonValue,
}

/// The action that a method name stands for. Unknown names are user-defined.
pub open spec fn action_of(s: String) -> MicrodeviceAction {
    if s@ == "start"@ {
        MicrodeviceAction::Start
    } else if s@ == "stop"@ {
        MicrodeviceAction::Stop
    } else if s@ == "restart"@ {
        MicrodeviceAction::Restart
    } else if s@ == "reset"@ {
        MicrodeviceAction::Reset
    } else if s@ == "power-on"@ {
        MicrodeviceAction::PowerOn
    } else if s@ == "power-off"@ {
        MicrodeviceAction::PowerOff
    } else {
        MicrodeviceAction::UserDefined(s)
    }
}

/// The name of an action on the wire.
pub open spec fn action_name(a: MicrodeviceAction) -> Seq<char> {
    match a {
        MicrodeviceAction::Start => "start"@,
        MicrodeviceAction::Stop => "stop"@,
        MicrodeviceAction::Restart => "restart"@,
        MicrodeviceAction::Reset => "reset"@,
        MicrodeviceAction::PowerOn => "power-on"@,
        MicrodeviceAction::PowerOff => "power-off"@,
        MicrodeviceAction::UserDefined(s) => s@,
    }
}

/// Whether `name` is one of `topics`.
pub open spec fn lists(topics: Seq<String>, name: Seq<char>) -> bool {
    exists|i: int| 0 <= i < topics.len() && (#[trigger] topics[i])@ == name
}

/// Built-in actions are always supported; a user-defined one only by a
/// microdevice that lists it among its topics.
pub open spec fn supports(rec: MicrodeviceRecord, a: MicrodeviceAction) -> bool {
    match a {
        MicrodeviceAction::UserDefined(name) => match rec.topics {
            Some(topics) => lists(topics@, name@),
            None => false,
        },
        _ => true,
    }
}

/// Why a microdevice does not support an action.
pub open spec fn unsupported_message(rec: MicrodeviceRecord, a: MicrodeviceAction) -> Seq<char> {
    if rec.topics.is_none() {
        "microdevice `"@ + rec.name@ + "` has no user-defined topics"@
    } else {
        "microdevice `"@ + rec.name@ + "` does not support action `"@ + action_name(a) + "`"@
    }
}

/// The microdevices of `recs` that support `a`, in order.
pub open spec fn supported_of(recs: Seq<MicrodeviceRecord>, a: MicrodeviceAction) -> Seq<MicrodeviceRecord>
    decreases recs.len(),
{
    if recs.len() == 0 {
        Seq::empty()
    } else if supports(recs.last(), a) {
        supported_of(recs.drop_last(), a).push(recs.last())
    } else {
        supported_of(recs.drop_last(), a)
    }
}

/// The microdevices of `recs` that do not support `a`, in order.
pub open spec fn unsupported_of(recs: Seq<MicrodeviceRecord>, a: MicrodeviceAction) -> Seq<MicrodeviceRecord>
    decreases recs.len(),
{
    if recs.len() == 0 {
        Seq::empty()
    } else if supports(recs.last(), a) {
        unsupported_of(recs.drop_last(), a)
    } else {
        unsupported_of(recs.drop_last(), a).push(recs.last())
    }
}

/// Two records that hold the same values.
pub open spec fn same_record(a: MicrodeviceRecord, b: MicrodeviceRecord) -> bool {
    &&& a.id == b.id
    &&& a.name == b.name
    &&& a.cluster_id == b.cluster_id
    &&& a.description == b.description
    &&& match (a.topics, b.topics) {
        (None, None) => true,
        (Some(x), Some(y)) => x@ == y@,
        _ => false,
    }
}

/// A microdevice id as JSON.
pub open spec fn id_json(t: MicrodeviceId) -> JsonValue {
    match t {
        MicrodeviceId::Id(n) => JsonValue::Int(n as i64),
        MicrodeviceId::Name(s) => JsonValue::Text(s),
    }
}

/// `j` is the wire form of message `m`: its members `cluster_id`,
/// `microdevice_id`, `action` and `payload`, in this order.
pub open spec fn message_json(m: MicrodeviceActionMessage, j: JsonValue) -> bool {
    match j {
        JsonValue::Object(f) => {
            let e = field_entries(f);
            &&& e.len() == 4
            &&& e[0].0@ == "cluster_id"@ && e[0].1 == JsonValue::Text(m.cluster_id)
            &&& e[1].0@ == "microdevice_id"@ && e[1].1 == id_json(m.microdevice_id)
            &&& e[2].0@ == "action"@ && (e[2].1 matches JsonValue::Text(a) && a@ == action_name(m.action))
            &&& e[3].0@ == "payload"@ && e[3].1 == m.payload
        },
        _ => false,
    }
}

/// The rejection reported for a microdevice that does not support `a`.
pub open spec fn rejection(rec: MicrodeviceRecord, a: MicrodeviceAction, r: MicrodeviceActionResponse) -> bool {
    &&& r.microdevice_id == MicrodeviceId::Id(rec.id)
    &&& r.status@ == "error"@
    &&& r.message@ == unsupported_message(rec, a)
    &&& r.payload == JsonValue::Null
}

impl From<String> for MicrodeviceAction {
    fn from(action: String) -> Self {
        if action == String::from_str("start") {
            MicrodeviceAction::Start
        } else if action == String::from_str("stop") {
            MicrodeviceAction::Stop
        } else if action == String::from_str("restart") {
            MicrodeviceAction::Restart
        } else if action == String::from_str("reset") {
            MicrodeviceAction::Reset
        } else if action == String::from_str("power-on") {
            MicrodeviceAction::PowerOn
        } else if action == String::from_str("power-off") {
            MicrodeviceAction::PowerOff
        } else {
            MicrodeviceAction::UserDefined(action)
        }
    }
}

impl vstd::std_specs::convert::FromSpecImpl<String> for MicrodeviceAction {
    open spec fn obeys_from_spec() -> bool {
        true
    }

    open spec fn from_spec(v: String) -> Self {
        action_of(v)
    }
}

impl MicrodeviceId {
    pub fn duplicate(&self) -> (r: MicrodeviceId)
        ensures
            r == *self,
    {
        match self {
            MicrodeviceId::Id(n) => MicrodeviceId::Id(*n),
            MicrodeviceId::Name(s) => MicrodeviceId::Name(copy_string(s)),
        }
    }
}

impl MicrodeviceAction {
    pub fn duplicate(&self) -> (r: MicrodeviceAction)
        ensures
            r == *self,
    {
        match self {
            MicrodeviceAction::Start => MicrodeviceAction::Start,
            MicrodeviceAction::Stop => MicrodeviceAction::Stop,
            MicrodeviceAction::Restart => MicrodeviceAction::Restart,
            MicrodeviceAction::Reset => MicrodeviceAction::Reset,
            MicrodeviceAction::PowerOn => MicrodeviceAction::PowerOn,
            MicrodeviceAction::PowerOff => MicrodeviceAction::PowerOff,
            MicrodeviceAction::UserDefined(s) => MicrodeviceAction::UserDefined(copy_string(s)),
        }
    }

    /// The action's name on the wire.
    pub fn name(&self) -> (r: String)
        ensures
            r@ == action_name(*self),
    {
        match self {
            MicrodeviceAction::Start => String::from_str("start"),
            MicrodeviceAction::Stop => String::from_str("stop"),
            MicrodeviceAction::Restart => String::from_str("restart"),
            MicrodeviceAction::Reset => String::from_str("reset"),
            MicrodeviceAction::PowerOn => String::from_str("power-on"),
            MicrodeviceAction::PowerOff => String::from_str("power-off"),
            MicrodeviceAction::UserDefined(s) => copy_string(s),
        }
    }
}

impl MicrodeviceRecord {
    pub fn duplicate(&self) -> (r: MicrodeviceRecord)
        ensures
            same_record(r, *self),
    {
        let topics = match &self.topics {
            None => None,
            Some(v) => Some(copy_strings(v)),
        };
        MicrodeviceRecord {
            id: self.id,
            name: copy_string(&self.name),
            cluster_id: copy_string(&self.cluster_id),
            description: match &self.description {
                None => None,
                Some(d) => Some(copy_string(d)),
            },
            topics,
        }
    }
}

fn copy_strings(v: &Vec<String>) -> (r: Vec<String>)
    ensures
        r@ == v@,
{
    let mut r: Vec<String> = Vec::new();
    let mut i: usize = 0;
    while i < v.len()
        invariant
            i <= v@.len(),
            r@ == v@.subrange(0, i as int),
        decreases v@.len() - i,
    {
        r.push(copy_string(&v[i]));
        i = i + 1;
        assert(r@ =~= v@.subrange(0, i as int));
    }
    assert(v@.subrange(0, i as int) =~= v@);
    r
}

/// A microdevice id as JSON.
pub fn id_to_json(t: &MicrodeviceId) -> (r: JsonValue)
    ensures
        r == id_json(*t),
{
    match t {
        MicrodeviceId::Id(n) => JsonValue::Int(*n as i64),
        MicrodeviceId::Name(s) => JsonValue::Text(copy_string(s)),
    }
}

impl MicrodeviceActionMessage {
    /// The message's wire form.
    pub fn to_json(&self) -> (r: JsonValue)
        ensures
            message_json(*self, r),
    {
        JsonValue::object(
            vec![
                (String::from_str("cluster_id"), JsonValue::Text(copy_string(&self.cluster_id))),
                (String::from_str("microdevice_id"), id_to_json(&self.microdevice_id)),
                (String::from_str("action"), JsonValue::Text(self.action.name())),
                (String::from_str("payload"), self.payload.deep_copy()),
            ],
        )
    }
}

/// Whether `rec` supports `action`.
pub fn is_action_supported(rec: &MicrodeviceRecord, action: &MicrodeviceAction) -> (r: bool)
    ensures
        r == supports(*rec, *action),
{
    match action {
        MicrodeviceAction::UserDefined(name) => match &rec.topics {
            Some(topics) => {
                let mut i: usize = 0;
                while i < topics.len()
                    invariant
                        i <= topics@.len(),
                        rec.topics == Some(*topics),
                        *action == MicrodeviceAction::UserDefined(*name),
                        forall|j: int| 0 <= j < i ==> (#[trigger] topics@[j])@ != name@,
                    decreases topics@.len() - i,
                {
                    if topics[i] == *name {
                        let ghost k = i as int;
                        assert(0 <= k < topics@.len() && topics@[k]@ == name@);
                        assert(lists(topics@, name@));
                        return true;
                    }
                    i = i + 1;
                }
                false
            },
            None => false,
        },
        _ => true,
    }
}

/// The rejection for a microdevice that does not support `action`.
pub fn unsupported_action_response(
    rec: &MicrodeviceRecord,
    action: &MicrodeviceAction,
) -> (r: MicrodeviceActionResponse)
    requires
        !supports(*rec, *action),
    ensures
        rejection(*rec, *action, r),
{
    let head = String::from_str("microdevice `").concat(rec.name.as_str());
    let message = if rec.topics.is_none() {
        head.concat("` has no user-defined topics")
    } else {
        let name = action.name();
        head.concat("` does not support action `").concat(name.as_str()).concat("`")
    };
    MicrodeviceActionResponse {
        microdevice_id: MicrodeviceId::Id(rec.id),
        status: String::from_str("error"),
        message,
        payload: JsonValue::Null,
    }
}

/// Splits `recs` into those that support `action` and the rejections of the
/// others, each in the order of `recs`.
pub fn partition_supported_microdevices(
    recs: &Vec<MicrodeviceRecord>,
    action: &MicrodeviceAction,
) -> (r: (Vec<MicrodeviceRecord>, Vec<MicrodeviceActionResponse>))
    ensures
        r.0@.len() == supported_of(recs@, *action).len(),
        forall|i: int|
            0 <= i < r.0@.len() ==> same_record(#[trigger] r.0@[i], supported_of(recs@, *action)[i]),
        r.1@.len() == unsupported_of(recs@, *action).len(),
        forall|i: int|
            0 <= i < r.1@.len() ==> rejection(
                unsupported_of(recs@, *action)[i],
                *action,
                #[trigger] r.1@[i],
            ),
{
    let mut to_process: Vec<MicrodeviceRecord> = Vec::new();
    let mut not_supported: Vec<MicrodeviceActionResponse> = Vec::new();
    let mut i: usize = 0;
    while i < recs.len()
        invariant
            i <= recs@.len(),
            to_process@.len() == supported_of(recs@.subrange(0, i as int), *action).len(),
            forall|j: int|
                0 <= j < to_process@.len() ==> same_record(
                    #[trigger] to_process@[j],
                    supported_of(recs@.subrange(0, i as int), *action)[j],
                ),
            not_supported@.len() == unsupported_of(recs@.subrange(0, i as int), *action).len(),
            forall|j: int|
                0 <= j < not_supported@.len() ==> rejection(
                    unsupported_of(recs@.subrange(0, i as int), *action)[j],
                    *action,
                    #[trigger] not_supported@[j],
                ),
        decreases recs@.len() - i,
    {
        let ghost prefix = recs@.subrange(0, i as int + 1);
        assert(prefix.drop_last() =~= recs@.subrange(0, i as int));
        assert(prefix.last() == recs@[i as int]);
        if is_action_supported(&recs[i], action) {
            to_process.push(recs[i].duplicate());
        } else {
            not_supported.push(unsupported_action_response(&recs[i], action));
        }
        i = i + 1;
    }
    assert(recs@.subrange(0, i as int) =~= recs@);
    (to_process, not_supported)
}

} // verus!
