//! The action dispatcher: a JSON-RPC shaped request, or a batch of them, is
//! read element by element, each element is resolved to an action on one or
//! more microdevices, and the answers are put back together, one outcome per
//! element, each keyed by the element's id.
//!
//! The lookups of microdevices and the correlated calls are made by the
//! caller between the steps here; each step is a plain function of what came
//! back.
use vstd::prelude::*;
use crate::action::{
    action_of, id_json, id_to_json, is_action_supported, supports, unsupported_action_response,
    unsupported_message,
    MicrodeviceAction, MicrodeviceActionMessage, MicrodeviceActionResponse, MicrodeviceId,
    MicrodeviceRecord,
};
use crate::bridge::{bridge_message, BridgeError};
use crate::json::{
    copy_string, field_entries, is_scalar, list_items, member, JsonList, JsonValue,
};

verus! {

/// The error classes of an outcome, as the caller sees them.
#[derive(Debug, Clone, Copy, PartialEq, Eq, Structural)]
pub enum ErrorReason {
    InvalidParams,
    MethodNotFound,
    InvalidRequest,
    InternalError,
    Timeout,
    NotFound,
    Unauthorized,
}

/// The answer to one element of a request.
#[derive(Debug, PartialEq)]
pub enum ActionOutcome {
    Success { id: JsonValue, result: JsonValue },
    Failure { id: JsonValue, reason: ErrorReason, message: String, data: JsonValue },
}

/// An element read as a request.
#[derive(Debug, PartialEq)]
pub struct ActionRequest {
    pub id: JsonValue,
    pub method: String,
    pub params: JsonValue,
}

/// An element of a request, read or rejected.
#[derive(Debug, PartialEq)]
pub enum RequestProcessingState {
    Error(ActionOutcome),
    Parsed(ActionRequest),
}

/// The id an outcome is keyed by.
pub open spec fn outcome_id(o: ActionOutcome) -> JsonValue {
    match o {
        ActionOutcome::Success { id, .. } => id,
        ActionOutcome::Failure { id, .. } => id,
    }
}

/// A failure with this id, reason and message, and no data.
pub open spec fn is_failure(o: ActionOutcome, id: JsonValue, reason: ErrorReason, message: Seq<char>) -> bool {
    match o {
        ActionOutcome::Failure { id: i, reason: r, message: m, data } => i == id && r == reason
            && m@ == message && data == JsonValue::Null,
        _ => false,
    }
}

/// The id of an element: its `id` member when that is a scalar, else null.
pub open spec fn element_id(v: JsonValue) -> JsonValue {
    match member(v, "id"@) {
        Some(i) => if is_scalar(i) {
            i
        } else {
            JsonValue::Null
        },
        None => JsonValue::Null,
    }
}

/// The `jsonrpc` member, when there is one, names version 2.0.
pub open spec fn version_ok(v: JsonValue) -> bool {
    match member(v, "jsonrpc"@) {
        None => true,
        Some(JsonValue::Text(s)) => s@ == "2.0"@,
        Some(_) => false,
    }
}

/// The `method` member is a string.
pub open spec fn has_method(v: JsonValue) -> bool {
    match member(v, "method"@) {
        Some(JsonValue::Text(_)) => true,
        _ => false,
    }
}

/// The `id` member is there and is a scalar.
pub open spec fn has_id(v: JsonValue) -> bool {
    match member(v, "id"@) {
        Some(i) => is_scalar(i),
        None => false,
    }
}

/// Why an element is not a request, if it is not one.
pub open spec fn malformed_reason(v: JsonValue) -> Option<Seq<char>> {
    if !(v is Object) {
        Some("a request must be a JSON object"@)
    } else if !has_id(v) {
        Some("a request needs an `id` that is a string, a number, a boolean or null"@)
    } else if !version_ok(v) {
        Some("unknown jsonrpc version"@)
    } else if !has_method(v) {
        Some("a request needs a string `method`"@)
    } else {
        None
    }
}

/// How an element is read: rejected as an invalid request with the reason
/// above, or read into its id, method and params (null when absent).
pub open spec fn parsed_as(v: JsonValue, r: RequestProcessingState) -> bool {
    match malformed_reason(v) {
        Some(why) => match r {
            RequestProcessingState::Error(o) => is_failure(o, element_id(v), ErrorReason::InvalidRequest, why),
            _ => false,
        },
        None => match r {
            RequestProcessingState::Parsed(req) => {
                &&& req.id == element_id(v)
                &&& JsonValue::Text(req.method) == member(v, "method"@).unwrap()
                &&& req.params == match member(v, "params"@) {
                    Some(p) => p,
                    None => JsonValue::Null,
                }
            },
            _ => false,
        },
    }
}

pub fn invalid_request(id: JsonValue, message: &str) -> (r: ActionOutcome)
    ensures
        is_failure(r, id, ErrorReason::InvalidRequest, message@),
{
    ActionOutcome::Failure {
        id,
        reason: ErrorReason::InvalidRequest,
        message: String::from_str(message),
        data: JsonValue::Null,
    }
}

/// Reads one element of a request.
pub fn parse_request(v: &JsonValue) -> (r: RequestProcessingState)
    ensures
        parsed_as(*v, r),
{
    let id_member = v.member("id");
    let id = match &id_member {
        Some(i) => if i.is_scalar() {
            i.deep_copy()
        } else {
            JsonValue::Null
        },
        None => JsonValue::Null,
    };
    let is_object = match v {
        JsonValue::Object(_) => true,
        _ => false,
    };
    if !is_object {
        return RequestProcessingState::Error(invalid_request(id, "a request must be a JSON object"));
    }
    let id_ok = match &id_member {
        Some(i) => i.is_scalar(),
        None => false,
    };
    if !id_ok {
        return RequestProcessingState::Error(
            invalid_request(
                id,
                "a request needs an `id` that is a string, a number, a boolean or null",
            ),
        );
    }
    let version_ok = match v.member("jsonrpc") {
        None => true,
        Some(JsonValue::Text(s)) => s == String::from_str("2.0"),
        Some(_) => false,
    };
    if !version_ok {
        return RequestProcessingState::Error(invalid_request(id, "unknown jsonrpc version"));
    }
    match v.member("method") {
        Some(JsonValue::Text(method)) => {
            let params = match v.member("params") {
                Some(p) => p,
                None => JsonValue::Null,
            };
            RequestProcessingState::Parsed(ActionRequest { id, method, params })
        },
        _ => RequestProcessingState::Error(invalid_request(id, "a request needs a string `method`")),
    }
}


/// The elements of a request body: those of an array, or the body itself.
pub open spec fn elements(body: JsonValue) -> Seq<JsonValue> {
    match body {
        JsonValue::Array(l) => list_items(l),
        _ => seq![body],
    }
}

fn parse_list(l: &JsonList, out: &mut Vec<RequestProcessingState>)
    ensures
        final(out)@.len() == old(out)@.len() + list_items(*l).len(),
        forall|i: int| 0 <= i < old(out)@.len() ==> final(out)@[i] == old(out)@[i],
        forall|i: int|
            0 <= i < list_items(*l).len() ==> parsed_as(
                list_items(*l)[i],
                #[trigger] final(out)@[old(out)@.len() + i],
            ),
    decreases l,
{
    match l {
        JsonList::Nil => {},
        JsonList::Cons(h, t) => {
            out.push(parse_request(&**h));
            parse_list(&**t, out);
            assert(list_items(*l) =~= seq![**h].add(list_items(**t)));
            assert forall|i: int| 0 <= i < list_items(*l).len() implies parsed_as(
                list_items(*l)[i],
                #[trigger] out@[old(out)@.len() + i],
            ) by {
                if i > 0 {
                    assert(list_items(*l)[i] == list_items(**t)[i - 1]);
                    assert(out@[old(out)@.len() + i] == out@[(old(out)@.len() + 1) + (i - 1)]);
                }
            }
        },
    }
}

/// Reads every element of a body, in order; the flag says whether the body
/// was an array.
pub fn parse_batch(body: &JsonValue) -> (r: (Vec<RequestProcessingState>, bool))
    ensures
        r.1 == body is Array,
        r.0@.len() == elements(*body).len(),
        forall|i: int| 0 <= i < r.0@.len() ==> parsed_as(elements(*body)[i], #[trigger] r.0@[i]),
{
    let mut out: Vec<RequestProcessingState> = Vec::new();
    match body {
        JsonValue::Array(l) => {
            parse_list(l, &mut out);
            assert forall|i: int| 0 <= i < out@.len() implies parsed_as(
                elements(*body)[i],
                #[trigger] out@[i],
            ) by {
                assert(out@[0 + i] == out@[i]);
            }
            (out, true)
        },
        _ => {
            out.push(parse_request(body));
            (out, false)
        },
    }
}

/// A request resolved to an action on named microdevices, waiting for them
/// to be looked up.
#[derive(Debug, PartialEq)]
pub struct PendingAction {
    pub id: JsonValue,
    pub action: MicrodeviceAction,
    /// The request named one microdevice rather than a list.
    pub single: bool,
    pub targets: Vec<MicrodeviceId>,
    pub payload: JsonValue,
}

/// A request either answered already or waiting for its microdevices.
#[derive(Debug, PartialEq)]
pub enum Resolution {
    Settled(ActionOutcome),
    Pending(PendingAction),
}

/// A character of Unicode's White_Space property, the characters that
/// `str::trim` removes.
pub open spec fn is_blank_char(c: char) -> bool {
    ('\u{9}' <= c <= '\u{d}') || c == ' ' || c == '\u{85}' || c == '\u{a0}' || c == '\u{1680}'
        || ('\u{2000}' <= c <= '\u{200a}') || c == '\u{2028}' || c == '\u{2029}' || c == '\u{202f}'
        || c == '\u{205f}' || c == '\u{3000}'
}

fn blank_char(c: char) -> (r: bool)
    ensures
        r == is_blank_char(c),
{
    ('\u{9}' <= c && c <= '\u{d}') || c == ' ' || c == '\u{85}' || c == '\u{a0}' || c == '\u{1680}'
        || ('\u{2000}' <= c && c <= '\u{200a}') || c == '\u{2028}' || c == '\u{2029}' || c == '\u{202f}'
        || c == '\u{205f}' || c == '\u{3000}'
}

/// Empty, or nothing but white space.
pub open spec fn is_blank(s: Seq<char>) -> bool {
    forall|i: int| 0 <= i < s.len() ==> is_blank_char(#[trigger] s[i])
}

/// A microdevice id: an integer that fits in 32 bits, or a name.
pub open spec fn target_of(x: JsonValue) -> Option<MicrodeviceId> {
    match x {
        JsonValue::Int(n) => if i32::MIN <= n <= i32::MAX {
            Some(MicrodeviceId::Id(n as i32))
        } else {
            None
        },
        JsonValue::Text(s) => Some(MicrodeviceId::Name(s)),
        _ => None,
    }
}

/// The microdevice ids of a list, when every item is one.
pub open spec fn targets_of_items(items: Seq<JsonValue>) -> Option<Seq<MicrodeviceId>>
    decreases items.len(),
{
    if items.len() == 0 {
        Some(Seq::empty())
    } else {
        match (target_of(items[0]), targets_of_items(items.drop_first())) {
            (Some(t), Some(rest)) => Some(seq![t].add(rest)),
            _ => None,
        }
    }
}

/// What `target_id` names: one microdevice (flag set), or a non-empty list.
pub open spec fn selection_of(x: JsonValue) -> Option<(bool, Seq<MicrodeviceId>)> {
    match x {
        JsonValue::Array(l) => match targets_of_items(list_items(l)) {
            Some(ts) => if ts.len() > 0 {
                Some((false, ts))
            } else {
                None
            },
            None => None,
        },
        _ => match target_of(x) {
            Some(t) => Some((true, seq![t])),
            None => None,
        },
    }
}

/// A member that is absent or null.
pub open spec fn absent(m: Option<JsonValue>) -> bool {
    m is None || m == Some(JsonValue::Null)
}

/// Why a request is refused before any microdevice is looked up, if it is.
pub open spec fn refusal(req: ActionRequest) -> Option<(ErrorReason, Seq<char>)> {
    let p = req.params;
    let cw = member(p, "cluster_wide"@);
    let t = member(p, "target_id"@);
    if is_blank(req.method@) {
        Some((ErrorReason::InvalidRequest, "the method must not be empty"@))
    } else if !(p is Object) {
        Some((ErrorReason::InvalidParams, "params must be an object"@))
    } else if !(absent(cw) || cw.unwrap() is Bool) {
        Some((ErrorReason::InvalidParams, "`cluster_wide` must be a boolean"@))
    } else if !absent(t) && selection_of(t.unwrap()) is None {
        Some((ErrorReason::InvalidParams, "`target_id` must be a microdevice id or a non-empty list of them"@))
    } else if cw == Some(JsonValue::Bool(true)) {
        Some((ErrorReason::InvalidParams, "cluster wide action is not supported"@))
    } else if absent(t) {
        Some((ErrorReason::InvalidParams, "`target_id` is required"@))
    } else {
        None
    }
}

/// How a request is resolved: refused as above, or waiting for the
/// microdevices it names, with the action its method stands for and its
/// payload (null when absent).
pub open spec fn resolved_as(req: ActionRequest, r: Resolution) -> bool {
    match refusal(req) {
        Some((reason, why)) => match r {
            Resolution::Settled(o) => is_failure(o, req.id, reason, why),
            _ => false,
        },
        None => match r {
            Resolution::Pending(p) => {
                let sel = selection_of(member(req.params, "target_id"@).unwrap()).unwrap();
                &&& p.id == req.id
                &&& p.action == action_of(req.method)
                &&& p.single == sel.0
                &&& p.targets@ == sel.1
                &&& p.payload == match member(req.params, "payload"@) {
                    Some(v) => v,
                    None => JsonValue::Null,
                }
            },
            _ => false,
        },
    }
}

fn is_blank_string(s: &String) -> (r: bool)
    ensures
        r == is_blank(s@),
{
    let t = s.as_str();
    let n = t.unicode_len();
    let mut i: usize = 0;
    while i < n
        invariant
            n == s@.len(),
            t@ == s@,
            i <= n,
            forall|j: int| 0 <= j < i ==> is_blank_char(#[trigger] s@[j]),
        decreases n - i,
    {
        let c = t.get_char(i);
        if !blank_char(c) {
            return false;
        }
        i = i + 1;
    }
    true
}

fn target_from(x: &JsonValue) -> (r: Option<MicrodeviceId>)
    ensures
        r == target_of(*x),
{
    match x {
        JsonValue::Int(n) => if i32::MIN as i64 <= *n && *n <= i32::MAX as i64 {
            Some(MicrodeviceId::Id(*n as i32))
        } else {
            None
        },
        JsonValue::Text(s) => Some(MicrodeviceId::Name(copy_string(s))),
        _ => None,
    }
}

fn targets_from_list(l: &JsonList, out: &mut Vec<MicrodeviceId>) -> (ok: bool)
    ensures
        ok == targets_of_items(list_items(*l)) is Some,
        ok ==> final(out)@ == old(out)@ + targets_of_items(list_items(*l)).unwrap(),
    decreases l,
{
    match l {
        JsonList::Nil => {
            assert(old(out)@ + Seq::<MicrodeviceId>::empty() =~= old(out)@);
            true
        },
        JsonList::Cons(h, t) => {
            let items = Ghost(list_items(*l));
            assert(items@.drop_first() =~= list_items(**t));
            match target_from(&**h) {
                Some(id) => {
                    out.push(id);
                    let ok = targets_from_list(&**t, out);
                    if ok {
                        assert(final(out)@ =~= old(out)@ + targets_of_items(items@).unwrap());
                    }
                    ok
                },
                None => false,
            }
        },
    }
}

fn selection_from(x: &JsonValue) -> (r: Option<(bool, Vec<MicrodeviceId>)>)
    ensures
        r is Some == selection_of(*x) is Some,
        r is Some ==> r.unwrap().0 == selection_of(*x).unwrap().0 && r.unwrap().1@ == selection_of(
            *x,
        ).unwrap().1,
{
    match x {
        JsonValue::Array(l) => {
            let mut out: Vec<MicrodeviceId> = Vec::new();
            let ok = targets_from_list(l, &mut out);
            assert(Seq::<MicrodeviceId>::empty() + targets_of_items(list_items(*l)).unwrap()
                =~= targets_of_items(list_items(*l)).unwrap());
            if ok && out.len() > 0 {
                Some((false, out))
            } else {
                None
            }
        },
        _ => match target_from(x) {
            Some(t) => {
                let v = vec![t];
                assert(v@ =~= seq![t]);
                Some((true, v))
            },
            None => None,
        },
    }
}

fn refuse(id: JsonValue, reason: ErrorReason, message: &str) -> (r: Resolution)
    ensures
        r matches Resolution::Settled(o) && is_failure(o, id, reason, message@),
{
    Resolution::Settled(
        ActionOutcome::Failure {
            id,
            reason,
            message: String::from_str(message),
            data: JsonValue::Null,
        },
    )
}

/// Resolves a request to its action and the microdevices it names, or
/// refuses it.
pub fn resolve_request(req: &ActionRequest) -> (r: Resolution)
    ensures
        resolved_as(*req, r),
{
    let id = req.id.deep_copy();
    let method = copy_string(&req.method);
    let params = &req.params;
    if is_blank_string(&method) {
        return refuse(id, ErrorReason::InvalidRequest, "the method must not be empty");
    }
    let is_object = match params {
        JsonValue::Object(_) => true,
        _ => false,
    };
    if !is_object {
        return refuse(id, ErrorReason::InvalidParams, "params must be an object");
    }
    let cw = params.member("cluster_wide");
    let cw_ok = match &cw {
        None | Some(JsonValue::Null) | Some(JsonValue::Bool(_)) => true,
        _ => false,
    };
    if !cw_ok {
        return refuse(id, ErrorReason::InvalidParams, "`cluster_wide` must be a boolean");
    }
    let t = params.member("target_id");
    let t_absent = match &t {
        None | Some(JsonValue::Null) => true,
        _ => false,
    };
    let sel = match &t {
        Some(x) => selection_from(x),
        None => None,
    };
    if !t_absent && sel.is_none() {
        return refuse(
            id,
            ErrorReason::InvalidParams,
            "`target_id` must be a microdevice id or a non-empty list of them",
        );
    }
    let cw_true = match &cw {
        Some(JsonValue::Bool(b)) => *b,
        _ => false,
    };
    if cw_true {
        return refuse(id, ErrorReason::InvalidParams, "cluster wide action is not supported");
    }
    if t_absent {
        return refuse(id, ErrorReason::InvalidParams, "`target_id` is required");
    }
    let payload = match params.member("payload") {
        Some(v) => v,
        None => JsonValue::Null,
    };
    match sel {
        Some((single, targets)) => Resolution::Pending(
            PendingAction { id, action: MicrodeviceAction::from(method), single, targets, payload },
        ),
        None => refuse(id, ErrorReason::InvalidParams, "`target_id` is required"),
    }
}


/// A lookup that the caller could not make (the cluster is not the caller's,
/// the store failed): passed on to the request's outcome unchanged.
#[derive(Debug, PartialEq)]
pub struct LookupError {
    pub reason: ErrorReason,
    pub message: String,
}

/// What becomes of one named microdevice.
#[derive(Debug, PartialEq)]
pub enum SlotPlan {
    /// Not found in the cluster.
    Missing(MicrodeviceId),
    /// Found, but it does not support the action: no message is sent.
    Rejected(MicrodeviceActionResponse),
    /// Found and supporting the action: this message is to be sent.
    Send(MicrodeviceActionMessage),
}

/// A request after its lookup: answered, or one slot per named microdevice.
#[derive(Debug, PartialEq)]
pub enum RequestPlan {
    Settled(ActionOutcome),
    Fanout(Vec<SlotPlan>),
}

/// The plan for a named microdevice, given what its lookup found. The
/// message and the rejection carry the id the request named it by, and the
/// message goes to the cluster of the record found.
pub open spec fn slot_planned(
    target: MicrodeviceId,
    found: Option<MicrodeviceRecord>,
    action: MicrodeviceAction,
    payload: JsonValue,
    s: SlotPlan,
) -> bool {
    match found {
        None => s == SlotPlan::Missing(target),
        Some(rec) => if supports(rec, action) {
            match s {
                SlotPlan::Send(m) => {
                    &&& m.cluster_id == rec.cluster_id
                    &&& m.microdevice_id == target
                    &&& m.action == action
                    &&& m.payload == payload
                },
                _ => false,
            }
        } else {
            match s {
                SlotPlan::Rejected(r) => {
                    &&& r.microdevice_id == target
                    &&& r.status@ == "error"@
                    &&& r.message@ == unsupported_message(rec, action)
                    &&& r.payload == JsonValue::Null
                },
                _ => false,
            }
        },
    }
}

/// How a request is planned from its lookup: a failed lookup is its outcome;
/// a lookup that does not answer every name is an internal error; otherwise
/// one slot per name, in order. A name that was not found does not stop the
/// others.
pub open spec fn planned_as(
    p: PendingAction,
    lookup: Result<Vec<Option<MicrodeviceRecord>>, LookupError>,
    r: RequestPlan,
) -> bool {
    match lookup {
        Err(e) => match r {
            RequestPlan::Settled(o) => is_failure(o, p.id, e.reason, e.message@),
            _ => false,
        },
        Ok(found) => if found@.len() != p.targets@.len() {
            match r {
                RequestPlan::Settled(o) => is_failure(
                    o,
                    p.id,
                    ErrorReason::InternalError,
                    "the lookup does not answer every microdevice of the request"@,
                ),
                _ => false,
            }
        } else {
            match r {
                RequestPlan::Fanout(slots) => {
                    &&& slots@.len() == p.targets@.len()
                    &&& forall|i: int|
                        0 <= i < slots@.len() ==> slot_planned(
                            p.targets@[i],
                            found@[i],
                            p.action,
                            p.payload,
                            #[trigger] slots@[i],
                        )
                },
                _ => false,
            }
        },
    }
}

fn plan_slot(
    target: &MicrodeviceId,
    found: &Option<MicrodeviceRecord>,
    action: &MicrodeviceAction,
    payload: &JsonValue,
) -> (s: SlotPlan)
    ensures
        slot_planned(*target, *found, *action, *payload, s),
{
    match found {
        None => SlotPlan::Missing(target.duplicate()),
        Some(rec) => if is_action_supported(rec, action) {
            SlotPlan::Send(
                MicrodeviceActionMessage {
                    cluster_id: copy_string(&rec.cluster_id),
                    microdevice_id: target.duplicate(),
                    action: action.duplicate(),
                    payload: payload.deep_copy(),
                },
            )
        } else {
            let mut r = unsupported_action_response(rec, action);
            r.microdevice_id = target.duplicate();
            SlotPlan::Rejected(r)
        },
    }
}

/// Plans a pending request from the lookup of the microdevices it names
/// (`found[i]` answers `p.targets[i]`).
pub fn plan_request(
    p: &PendingAction,
    lookup: Result<Vec<Option<MicrodeviceRecord>>, LookupError>,
) -> (r: RequestPlan)
    ensures
        planned_as(*p, lookup, r),
{
    match lookup {
        Err(e) => RequestPlan::Settled(
            ActionOutcome::Failure {
                id: p.id.deep_copy(),
                reason: e.reason,
                message: e.message,
                data: JsonValue::Null,
            },
        ),
        Ok(found) => {
            if found.len() != p.targets.len() {
                return RequestPlan::Settled(
                    ActionOutcome::Failure {
                        id: p.id.deep_copy(),
                        reason: ErrorReason::InternalError,
                        message: String::from_str(
                            "the lookup does not answer every microdevice of the request",
                        ),
                        data: JsonValue::Null,
                    },
                );
            }
            let mut slots: Vec<SlotPlan> = Vec::new();
            let mut i: usize = 0;
            while i < found.len()
                invariant
                    found@.len() == p.targets@.len(),
                    i <= found@.len(),
                    slots@.len() == i,
                    forall|j: int|
                        0 <= j < i ==> slot_planned(
                            p.targets@[j],
                            found@[j],
                            p.action,
                            p.payload,
                            #[trigger] slots@[j],
                        ),
                decreases found@.len() - i,
            {
                slots.push(plan_slot(&p.targets[i], &found[i], &p.action, &p.payload));
                i = i + 1;
            }
            RequestPlan::Fanout(slots)
        },
    }
}


/// What one slot came to: a reply, or a failure with its reason and text.
pub enum SlotResult {
    Replied(JsonValue),
    Failed(ErrorReason, Seq<char>),
}

/// The error class under which a failed call is reported.
pub open spec fn bridge_reason(e: BridgeError) -> ErrorReason {
    match e {
        BridgeError::ResponseTimeout => ErrorReason::Timeout,
        _ => ErrorReason::InternalError,
    }
}

/// The result recorded for slot `i`, if any.
pub open spec fn result_at(results: Seq<Option<Result<JsonValue, BridgeError>>>, i: int) -> Option<
    Result<JsonValue, BridgeError>,
> {
    if 0 <= i < results.len() {
        results[i]
    } else {
        None
    }
}

/// What a slot came to, given the result of its call (for a slot that sent one).
pub open spec fn slot_result(s: SlotPlan, res: Option<Result<JsonValue, BridgeError>>) -> SlotResult {
    match s {
        SlotPlan::Missing(_) => SlotResult::Failed(ErrorReason::NotFound, "microdevice was not found"@),
        SlotPlan::Rejected(r) => SlotResult::Failed(ErrorReason::MethodNotFound, r.message@),
        SlotPlan::Send(_) => match res {
            Some(Ok(v)) => SlotResult::Replied(v),
            Some(Err(e)) => SlotResult::Failed(bridge_reason(e), bridge_message(e)),
            None => SlotResult::Failed(
                ErrorReason::InternalError,
                "no reply was collected for this microdevice"@,
            ),
        },
    }
}

/// The microdevice a slot is about.
pub open spec fn slot_target(s: SlotPlan) -> MicrodeviceId {
    match s {
        SlotPlan::Missing(t) => t,
        SlotPlan::Rejected(r) => r.microdevice_id,
        SlotPlan::Send(m) => m.microdevice_id,
    }
}

/// `v` is the string `s`.
pub open spec fn text_is(v: JsonValue, s: Seq<char>) -> bool {
    match v {
        JsonValue::Text(t) => t@ == s,
        _ => false,
    }
}

/// The members of `j` are, in this order, `microdevice_id`, `status`,
/// `reason`, `message` and `payload`, for microdevice `t` whose slot came to
/// `sr`. The reason of a failed slot is named as in an outcome; a slot that
/// was answered has a null reason.
pub open spec fn is_entry(j: JsonValue, t: MicrodeviceId, sr: SlotResult) -> bool {
    match j {
        JsonValue::Object(f) => {
            let e = field_entries(f);
            &&& e.len() == 5
            &&& e[0].0@ == "microdevice_id"@ && e[0].1 == id_json(t)
            &&& e[1].0@ == "status"@
            &&& e[2].0@ == "reason"@
            &&& e[3].0@ == "message"@
            &&& e[4].0@ == "payload"@
            &&& match sr {
                SlotResult::Replied(v) => text_is(e[1].1, "success"@) && e[2].1 == JsonValue::Null
                    && text_is(e[3].1, "action was successfully transmitted"@) && e[4].1 == v,
                SlotResult::Failed(reason, m) => text_is(e[1].1, "error"@) && text_is(
                    e[2].1,
                    reason_name(reason),
                ) && text_is(e[3].1, m) && e[4].1 == JsonValue::Null,
            }
        },
        _ => false,
    }
}

/// The outcome of a planned request once its calls are over: for a request
/// that named one microdevice, that microdevice's reply or failure; for a
/// list, a success holding one entry per named microdevice, in order.
pub open spec fn settled_as(
    p: PendingAction,
    slots: Seq<SlotPlan>,
    results: Seq<Option<Result<JsonValue, BridgeError>>>,
    o: ActionOutcome,
) -> bool {
    if p.single && slots.len() == 1 {
        match slot_result(slots[0], result_at(results, 0)) {
            SlotResult::Replied(v) => o == ActionOutcome::Success { id: p.id, result: v },
            SlotResult::Failed(reason, m) => is_failure(o, p.id, reason, m),
        }
    } else {
        match o {
            ActionOutcome::Success { id, result: JsonValue::Array(l) } => {
                &&& id == p.id
                &&& list_items(l).len() == slots.len()
                &&& forall|i: int|
                    0 <= i < slots.len() ==> is_entry(
                        #[trigger] list_items(l)[i],
                        slot_target(slots[i]),
                        slot_result(slots[i], result_at(results, i)),
                    )
            },
            _ => false,
        }
    }
}

/// What a slot came to, as values.
struct SlotReport {
    ok: bool,
    payload: JsonValue,
    reason: ErrorReason,
    message: String,
}

spec fn reports(sr: SlotResult, r: SlotReport) -> bool {
    match sr {
        SlotResult::Replied(v) => r.ok && r.payload == v,
        SlotResult::Failed(reason, m) => !r.ok && r.reason == reason && r.message@ == m,
    }
}

fn failed_report(reason: ErrorReason, message: String) -> (r: SlotReport)
    ensures
        !r.ok && r.reason == reason && r.message == message,
{
    SlotReport { ok: false, payload: JsonValue::Null, reason, message }
}

fn result_from(results: &Vec<Option<Result<JsonValue, BridgeError>>>, i: usize) -> (r: Option<
    Result<JsonValue, BridgeError>,
>)
    ensures
        r == result_at(results@, i as int),
{
    if i < results.len() {
        match &results[i] {
            None => None,
            Some(Ok(v)) => Some(Ok(v.deep_copy())),
            Some(Err(e)) => Some(Err(e.duplicate())),
        }
    } else {
        None
    }
}

fn report_slot(s: &SlotPlan, res: Option<Result<JsonValue, BridgeError>>) -> (r: SlotReport)
    ensures
        reports(slot_result(*s, res), r),
{
    match s {
        SlotPlan::Missing(_) => failed_report(
            ErrorReason::NotFound,
            String::from_str("microdevice was not found"),
        ),
        SlotPlan::Rejected(rej) => failed_report(ErrorReason::MethodNotFound, copy_string(&rej.message)),
        SlotPlan::Send(_) => match res {
            Some(Ok(v)) => SlotReport {
                ok: true,
                payload: v,
                reason: ErrorReason::InternalError,
                message: String::new(),
            },
            Some(Err(e)) => {
                let reason = match &e {
                    BridgeError::ResponseTimeout => ErrorReason::Timeout,
                    _ => ErrorReason::InternalError,
                };
                failed_report(reason, e.message())
            },
            None => failed_report(
                ErrorReason::InternalError,
                String::from_str("no reply was collected for this microdevice"),
            ),
        },
    }
}

fn slot_target_of(s: &SlotPlan) -> (r: MicrodeviceId)
    ensures
        r == slot_target(*s),
{
    match s {
        SlotPlan::Missing(t) => t.duplicate(),
        SlotPlan::Rejected(r) => r.microdevice_id.duplicate(),
        SlotPlan::Send(m) => m.microdevice_id.duplicate(),
    }
}

fn entry_json(t: &MicrodeviceId, rep: SlotReport) -> (r: JsonValue)
    ensures
        forall|sr: SlotResult| reports(sr, rep) ==> is_entry(r, *t, sr),
{
    let (status, reason, message) = if rep.ok {
        (
            String::from_str("success"),
            JsonValue::Null,
            String::from_str("action was successfully transmitted"),
        )
    } else {
        (String::from_str("error"), JsonValue::Text(rep.reason.name()), rep.message)
    };
    let payload = if rep.ok {
        rep.payload
    } else {
        JsonValue::Null
    };
    let fields = vec![
        (String::from_str("microdevice_id"), id_to_json(t)),
        (String::from_str("status"), JsonValue::Text(status)),
        (String::from_str("reason"), reason),
        (String::from_str("message"), JsonValue::Text(message)),
        (String::from_str("payload"), payload),
    ];
    JsonValue::object(fields)
}

/// The outcome of a planned request, from the results of its calls
/// (`results[i]` answers slot `i`; slots that sent nothing are not read).
pub fn settle_request(
    p: &PendingAction,
    slots: &Vec<SlotPlan>,
    results: &Vec<Option<Result<JsonValue, BridgeError>>>,
) -> (o: ActionOutcome)
    ensures
        settled_as(*p, slots@, results@, o),
{
    if p.single && slots.len() == 1 {
        let rep = report_slot(&slots[0], result_from(results, 0));
        if rep.ok {
            ActionOutcome::Success { id: p.id.deep_copy(), result: rep.payload }
        } else {
            ActionOutcome::Failure {
                id: p.id.deep_copy(),
                reason: rep.reason,
                message: rep.message,
                data: JsonValue::Null,
            }
        }
    } else {
        let mut entries: Vec<JsonValue> = Vec::new();
        let mut i: usize = 0;
        while i < slots.len()
            invariant
                i <= slots@.len(),
                entries@.len() == i,
                forall|j: int|
                    0 <= j < i ==> is_entry(
                        #[trigger] entries@[j],
                        slot_target(slots@[j]),
                        slot_result(slots@[j], result_at(results@, j)),
                    ),
            decreases slots@.len() - i,
        {
            let t = slot_target_of(&slots[i]);
            let rep = report_slot(&slots[i], result_from(results, i));
            entries.push(entry_json(&t, rep));
            i = i + 1;
        }
        ActionOutcome::Success { id: p.id.deep_copy(), result: JsonValue::array(entries) }
    }
}


/// The name of an error class on the wire.
pub open spec fn reason_name(r: ErrorReason) -> Seq<char> {
    match r {
        ErrorReason::InvalidParams => "invalid-params"@,
        ErrorReason::MethodNotFound => "method-not-found"@,
        ErrorReason::InvalidRequest => "invalid-request"@,
        ErrorReason::InternalError => "internal-error"@,
        ErrorReason::Timeout => "timeout"@,
        ErrorReason::NotFound => "not-found"@,
        ErrorReason::Unauthorized => "unauthorized"@,
    }
}

impl ErrorReason {
    /// The name of the error class on the wire.
    pub fn name(&self) -> (r: String)
        ensures
            r@ == reason_name(*self),
    {
        match self {
            ErrorReason::InvalidParams => String::from_str("invalid-params"),
            ErrorReason::MethodNotFound => String::from_str("method-not-found"),
            ErrorReason::InvalidRequest => String::from_str("invalid-request"),
            ErrorReason::InternalError => String::from_str("internal-error"),
            ErrorReason::Timeout => String::from_str("timeout"),
            ErrorReason::NotFound => String::from_str("not-found"),
            ErrorReason::Unauthorized => String::from_str("unauthorized"),
        }
    }
}

/// `j` is the wire form of outcome `o`: `{"id", "result"}` for a success,
/// `{"id", "error": {"reason", "message", "data"}}` for a failure.
pub open spec fn renders(o: ActionOutcome, j: JsonValue) -> bool {
    match j {
        JsonValue::Object(f) => {
            let e = field_entries(f);
            &&& e.len() == 2
            &&& e[0].0@ == "id"@ && e[0].1 == outcome_id(o)
            &&& match o {
                ActionOutcome::Success { result, .. } => e[1].0@ == "result"@ && e[1].1 == result,
                ActionOutcome::Failure { reason, message, data, .. } => {
                    &&& e[1].0@ == "error"@
                    &&& match e[1].1 {
                        JsonValue::Object(g) => {
                            let d = field_entries(g);
                            &&& d.len() == 3
                            &&& d[0].0@ == "reason"@ && text_is(d[0].1, reason_name(reason))
                            &&& d[1].0@ == "message"@ && text_is(d[1].1, message@)
                            &&& d[2].0@ == "data"@ && d[2].1 == data
                        },
                        _ => false,
                    }
                },
            }
        },
        _ => false,
    }
}

impl ActionOutcome {
    /// The outcome's wire form.
    pub fn to_json(&self) -> (r: JsonValue)
        ensures
            renders(*self, r),
    {
        match self {
            ActionOutcome::Success { id, result } => JsonValue::object(
                vec![
                    (String::from_str("id"), id.deep_copy()),
                    (String::from_str("result"), result.deep_copy()),
                ],
            ),
            ActionOutcome::Failure { id, reason, message, data } => {
                let error = JsonValue::object(
                    vec![
                        (String::from_str("reason"), JsonValue::Text(reason.name())),
                        (String::from_str("message"), JsonValue::Text(copy_string(message))),
                        (String::from_str("data"), data.deep_copy()),
                    ],
                );
                JsonValue::object(
                    vec![(String::from_str("id"), id.deep_copy()), (String::from_str("error"), error)],
                )
            },
        }
    }
}

/// `j` is the wire form of these outcomes: the one object when the body was
/// not an array (and so gave one outcome), else an array of them in order.
pub open spec fn response_renders(outcomes: Seq<ActionOutcome>, batch: bool, j: JsonValue) -> bool {
    if !batch && outcomes.len() == 1 {
        renders(outcomes[0], j)
    } else {
        match j {
            JsonValue::Array(l) => list_items(l).len() == outcomes.len() && forall|i: int|
                0 <= i < outcomes.len() ==> renders(outcomes[i], #[trigger] list_items(l)[i]),
            _ => false,
        }
    }
}

/// The response body for these outcomes.
pub fn render_response(outcomes: &Vec<ActionOutcome>, batch: bool) -> (r: JsonValue)
    ensures
        response_renders(outcomes@, batch, r),
{
    if !batch && outcomes.len() == 1 {
        return outcomes[0].to_json();
    }
    let mut items: Vec<JsonValue> = Vec::new();
    let mut i: usize = 0;
    while i < outcomes.len()
        invariant
            i <= outcomes@.len(),
            items@.len() == i,
            forall|j: int| 0 <= j < i ==> renders(outcomes@[j], #[trigger] items@[j]),
        decreases outcomes@.len() - i,
    {
        items.push(outcomes[i].to_json());
        i = i + 1;
    }
    JsonValue::array(items)
}

/// The answer found for element `i`, if any.
pub open spec fn answer_at(answers: Seq<Option<ActionOutcome>>, i: int) -> Option<ActionOutcome> {
    if 0 <= i < answers.len() {
        answers[i]
    } else {
        None
    }
}

/// The outcome that stands for an element: its rejection, the answer found
/// for it, or, when none was found, an internal error keyed by its id.
pub open spec fn assembled_as(st: RequestProcessingState, answer: Option<ActionOutcome>, o: ActionOutcome) -> bool {
    match st {
        RequestProcessingState::Error(e) => o == e,
        RequestProcessingState::Parsed(req) => match answer {
            Some(a) => o == a,
            None => is_failure(o, req.id, ErrorReason::InternalError, "the request was not answered"@),
        },
    }
}

/// One outcome per element, in the order of the elements (`answers[i]`
/// answers element `i` when it was read as a request).
pub fn assemble(
    states: Vec<RequestProcessingState>,
    answers: Vec<Option<ActionOutcome>>,
) -> (r: Vec<ActionOutcome>)
    ensures
        r@.len() == states@.len(),
        forall|i: int|
            0 <= i < r@.len() ==> assembled_as(states@[i], answer_at(answers@, i), #[trigger] r@[i]),
{
    let ghost st0 = states@;
    let ghost an0 = answers@;
    let mut states = states;
    let mut answers = answers;
    while answers.len() > states.len()
        invariant
            states@ == st0,
            answers@ == an0.subrange(0, answers@.len() as int),
            answers@.len() <= an0.len(),
            answers@.len() == an0.len() || answers@.len() >= states@.len(),
        decreases answers@.len(),
    {
        answers.pop();
        assert(answers@ =~= an0.subrange(0, answers@.len() as int));
    }
    let mut out: Vec<ActionOutcome> = Vec::new();
    while states.len() > 0
        invariant
            st0.len() == states@.len() + out@.len(),
            states@ == st0.subrange(0, states@.len() as int),
            answers@.len() <= states@.len(),
            answers@.len() == an0.len() || answers@.len() == states@.len(),
            forall|i: int| 0 <= i < answers@.len() ==> answers@[i] == answer_at(an0, i),
            forall|i: int|
                0 <= i < out@.len() ==> assembled_as(
                    st0[st0.len() - 1 - i],
                    answer_at(an0, st0.len() - 1 - i),
                    #[trigger] out@[i],
                ),
        decreases states@.len(),
    {
        let k = states.len() - 1;
        let answer = if answers.len() == states.len() {
            answers.pop().unwrap()
        } else {
            None
        };
        assert(answer == answer_at(an0, k as int));
        let st = states.pop().unwrap();
        assert(st == st0[k as int]);
        let o = match st {
            RequestProcessingState::Error(e) => e,
            RequestProcessingState::Parsed(req) => match answer {
                Some(a) => a,
                None => ActionOutcome::Failure {
                    id: req.id,
                    reason: ErrorReason::InternalError,
                    message: String::from_str("the request was not answered"),
                    data: JsonValue::Null,
                },
            },
        };
        out.push(o);
        assert(states@ =~= st0.subrange(0, states@.len() as int));
    }
    let mut r: Vec<ActionOutcome> = Vec::new();
    let ghost rev = out@;
    while out.len() > 0
        invariant
            st0.len() == rev.len(),
            out@ == rev.subrange(0, out@.len() as int),
            r@.len() + out@.len() == rev.len(),
            forall|i: int| 0 <= i < r@.len() ==> r@[i] == rev[rev.len() - 1 - i],
        decreases out@.len(),
    {
        let x = out.pop().unwrap();
        r.push(x);
        assert(out@ =~= rev.subrange(0, out@.len() as int));
    }
    assert forall|i: int| 0 <= i < r@.len() implies assembled_as(
        st0[i],
        answer_at(an0, i),
        #[trigger] r@[i],
    ) by {
        assert(r@[i] == rev[rev.len() - 1 - i]);
        assert(st0.len() - 1 - (rev.len() - 1 - i) == i);
    }
    r
}


/// Room for the results of `n` slots, none in yet.
pub fn empty_results(n: usize) -> (r: Vec<Option<Result<JsonValue, BridgeError>>>)
    ensures
        r@.len() == n,
        forall|i: int| 0 <= i < n ==> (#[trigger] r@[i]) is None,
{
    let mut r: Vec<Option<Result<JsonValue, BridgeError>>> = Vec::new();
    let mut i: usize = 0;
    while i < n
        invariant
            i <= n,
            r@.len() == i,
            forall|j: int| 0 <= j < i ==> (#[trigger] r@[j]) is None,
        decreases n - i,
    {
        r.push(None);
        i = i + 1;
    }
    r
}

/// The results after the call of `slot` came back with `res`; a slot out of
/// range changes nothing.
pub open spec fn recorded(
    results: Seq<Option<Result<JsonValue, BridgeError>>>,
    slot: int,
    res: Result<JsonValue, BridgeError>,
) -> Seq<Option<Result<JsonValue, BridgeError>>> {
    if 0 <= slot < results.len() {
        results.update(slot, Some(res))
    } else {
        results
    }
}

/// Files the result of the call made for `slot`, whenever it comes back.
pub fn record_result(
    results: &mut Vec<Option<Result<JsonValue, BridgeError>>>,
    slot: usize,
    res: Result<JsonValue, BridgeError>,
)
    ensures
        final(results)@ == recorded(old(results)@, slot as int, res),
{
    if slot < results.len() {
        results.set(slot, Some(res));
    }
}

/// The results after completions arrive in the order given.
pub open spec fn completed(
    results: Seq<Option<Result<JsonValue, BridgeError>>>,
    arrivals: Seq<(int, Result<JsonValue, BridgeError>)>,
) -> Seq<Option<Result<JsonValue, BridgeError>>>
    decreases arrivals.len(),
{
    if arrivals.len() == 0 {
        results
    } else {
        completed(recorded(results, arrivals[0].0, arrivals[0].1), arrivals.drop_first())
    }
}

/// No two arrivals are for the same slot.
pub open spec fn distinct_slots(arrivals: Seq<(int, Result<JsonValue, BridgeError>)>) -> bool {
    forall|i: int, j: int|
        0 <= i < arrivals.len() && 0 <= j < arrivals.len() && i != j ==> #[trigger] arrivals[i].0
            != #[trigger] arrivals[j].0
}

/// Each slot ends with the result of the call made for it, whatever the
/// order in which the calls came back; slots that no call answered keep what
/// they held.
pub proof fn lemma_completion_fills_own_slot(
    results: Seq<Option<Result<JsonValue, BridgeError>>>,
    arrivals: Seq<(int, Result<JsonValue, BridgeError>)>,
)
    requires
        distinct_slots(arrivals),
    ensures
        completed(results, arrivals).len() == results.len(),
        forall|i: int|
            0 <= i < arrivals.len() && 0 <= #[trigger] arrivals[i].0 < results.len() ==> completed(
                results,
                arrivals,
            )[arrivals[i].0] == Some(arrivals[i].1),
        forall|k: int|
            0 <= k < results.len() && (forall|i: int| 0 <= i < arrivals.len() ==> #[trigger] arrivals[i].0 != k)
                ==> completed(results, arrivals)[k] == results[k],
    decreases arrivals.len(),
{
    if arrivals.len() > 0 {
        let first = arrivals[0];
        let rest = arrivals.drop_first();
        let mid = recorded(results, first.0, first.1);
        assert forall|i: int, j: int|
            0 <= i < rest.len() && 0 <= j < rest.len() && i != j implies #[trigger] rest[i].0
            != #[trigger] rest[j].0 by {
            assert(rest[i] == arrivals[i + 1] && rest[j] == arrivals[j + 1]);
        }
        lemma_completion_fills_own_slot(mid, rest);
        assert(completed(results, arrivals) == completed(mid, rest));
        assert(mid.len() == results.len());
        assert forall|i: int|
            0 <= i < arrivals.len() && 0 <= #[trigger] arrivals[i].0 < results.len() implies completed(
                results,
                arrivals,
            )[arrivals[i].0] == Some(arrivals[i].1) by {
            if i == 0 {
                assert forall|j: int| 0 <= j < rest.len() implies #[trigger] rest[j].0 != first.0 by {
                    assert(rest[j] == arrivals[j + 1]);
                }
                assert(mid[first.0] == Some(first.1));
            } else {
                assert(rest[i - 1] == arrivals[i]);
                assert(rest[i - 1].0 == arrivals[i].0);
            }
        }
        assert forall|k: int|
            0 <= k < results.len() && (forall|i: int| 0 <= i < arrivals.len() ==> #[trigger] arrivals[i].0 != k)
                implies completed(results, arrivals)[k] == results[k] by {
            assert(arrivals[0].0 != k);
            assert forall|j: int| 0 <= j < rest.len() implies #[trigger] rest[j].0 != k by {
                assert(rest[j] == arrivals[j + 1]);
                assert(arrivals[j + 1].0 != k);
            }
            assert(mid[k] == results[k]);
        }
    }
}

/// Order independence: two orders in which the same calls come back (`b` is
/// `a` rearranged by the bijection `to`, with inverse `from`) leave the same
/// results, so every outcome built from them is the same.
pub proof fn lemma_completion_order_irrelevant(
    results: Seq<Option<Result<JsonValue, BridgeError>>>,
    a: Seq<(int, Result<JsonValue, BridgeError>)>,
    b: Seq<(int, Result<JsonValue, BridgeError>)>,
    to: Seq<int>,
    from: Seq<int>,
)
    requires
        distinct_slots(a),
        a.len() == b.len(),
        to.len() == b.len(),
        from.len() == a.len(),
        forall|i: int|
            0 <= i < b.len() ==> 0 <= #[trigger] to[i] < a.len() && b[i] == a[to[i]] && from[to[i]] == i,
        forall|i: int| 0 <= i < a.len() ==> 0 <= #[trigger] from[i] < b.len() && to[from[i]] == i,
    ensures
        completed(results, a) == completed(results, b),
{
    assert forall|i: int, j: int|
        0 <= i < b.len() && 0 <= j < b.len() && i != j implies #[trigger] b[i].0 != #[trigger] b[j].0 by {
        assert(from[to[i]] == i && from[to[j]] == j);
        assert(b[i] == a[to[i]] && b[j] == a[to[j]]);
    }
    lemma_completion_fills_own_slot(results, a);
    lemma_completion_fills_own_slot(results, b);
    let ca = completed(results, a);
    let cb = completed(results, b);
    assert forall|k: int| 0 <= k < results.len() implies ca[k] == cb[k] by {
        if exists|i: int| 0 <= i < a.len() && #[trigger] a[i].0 == k {
            let i = choose|i: int| 0 <= i < a.len() && #[trigger] a[i].0 == k;
            let j = from[i];
            assert(b[j] == a[to[j]]);
            assert(to[j] == i);
            assert(b[j].0 == k);
            assert(ca[a[i].0] == Some(a[i].1));
            assert(cb[b[j].0] == Some(b[j].1));
        } else {
            assert forall|j: int| 0 <= j < b.len() implies #[trigger] b[j].0 != k by {
                assert(b[j] == a[to[j]]);
                assert(a[to[j]].0 != k);
            }
            assert forall|i: int| 0 <= i < a.len() implies #[trigger] a[i].0 != k by {}
            assert(ca[k] == results[k]);
            assert(cb[k] == results[k]);
        }
    }
    assert(ca =~= cb);
}


/// Every answer a request can get is keyed by the request's id: its refusal,
/// the id it waits with, its failed lookup and its settled outcome.
pub proof fn lemma_answers_keep_id(
    req: ActionRequest,
    res: Resolution,
    lookup: Result<Vec<Option<MicrodeviceRecord>>, LookupError>,
    plan: RequestPlan,
    results: Seq<Option<Result<JsonValue, BridgeError>>>,
    o: ActionOutcome,
)
    requires
        resolved_as(req, res),
    ensures
        res is Settled ==> outcome_id(res->Settled_0) == req.id,
        res is Pending ==> res->Pending_0.id == req.id,
        res is Pending && planned_as(res->Pending_0, lookup, plan) && plan is Settled ==> outcome_id(
            plan->Settled_0,
        ) == req.id,
        res is Pending && planned_as(res->Pending_0, lookup, plan) && plan is Fanout && settled_as(
            res->Pending_0,
            plan->Fanout_0@,
            results,
            o,
        ) ==> outcome_id(o) == req.id,
{
}

/// `a` is what a planned request comes to, for some results of its calls.
pub open spec fn plan_answers(p: PendingAction, plan: RequestPlan, a: ActionOutcome) -> bool {
    match plan {
        RequestPlan::Settled(o) => a == o,
        RequestPlan::Fanout(slots) => exists|results: Seq<Option<Result<JsonValue, BridgeError>>>|
            #[trigger] settled_as(p, slots@, results, a),
    }
}

/// `a` is what a pending request comes to, for some lookup.
pub open spec fn pending_answers(p: PendingAction, a: ActionOutcome) -> bool {
    exists|lookup: Result<Vec<Option<MicrodeviceRecord>>, LookupError>, plan: RequestPlan|
        #[trigger] planned_as(p, lookup, plan) && plan_answers(p, plan, a)
}

/// `a` is what a request comes to through the steps above: its refusal, its
/// failed lookup, or its settled outcome.
pub open spec fn request_answers(req: ActionRequest, a: ActionOutcome) -> bool {
    exists|res: Resolution|
        #[trigger] resolved_as(req, res) && match res {
            Resolution::Settled(o) => a == o,
            Resolution::Pending(p) => pending_answers(p, a),
        }
}

/// Every answer a request can come to is keyed by the request's id.
pub proof fn lemma_answer_keyed_by_request(req: ActionRequest, a: ActionOutcome)
    requires
        request_answers(req, a),
    ensures
        outcome_id(a) == req.id,
{
    let res = choose|res: Resolution|
        #[trigger] resolved_as(req, res) && match res {
            Resolution::Settled(o) => a == o,
            Resolution::Pending(p) => pending_answers(p, a),
        };
    let none: Result<Vec<Option<MicrodeviceRecord>>, LookupError> = arbitrary();
    match res {
        Resolution::Settled(o) => {
            lemma_answers_keep_id(req, res, none, RequestPlan::Settled(a), Seq::empty(), a);
        },
        Resolution::Pending(p) => {
            let (lookup, plan) = choose|
                lookup: Result<Vec<Option<MicrodeviceRecord>>, LookupError>,
                plan: RequestPlan,
            | #[trigger] planned_as(p, lookup, plan) && plan_answers(p, plan, a);
            match plan {
                RequestPlan::Settled(o) => {
                    lemma_answers_keep_id(req, res, lookup, plan, Seq::empty(), a);
                },
                RequestPlan::Fanout(slots) => {
                    let results = choose|results: Seq<Option<Result<JsonValue, BridgeError>>>|
                        #[trigger] settled_as(p, slots@, results, a);
                    lemma_answers_keep_id(req, res, lookup, plan, results, a);
                },
            }
        },
    }
}

/// Batch cardinality: whatever becomes of each element, a body of N elements
/// is answered by exactly N outcomes, the i-th keyed by the i-th element's id.
pub proof fn lemma_batch_cardinality(
    body: JsonValue,
    states: Seq<RequestProcessingState>,
    answers: Seq<Option<ActionOutcome>>,
    out: Seq<ActionOutcome>,
)
    requires
        states.len() == elements(body).len(),
        forall|i: int| 0 <= i < states.len() ==> parsed_as(elements(body)[i], #[trigger] states[i]),
        forall|i: int|
            0 <= i < states.len() && (#[trigger] states[i]) is Parsed && answer_at(answers, i) is Some
                ==> request_answers(states[i]->Parsed_0, answer_at(answers, i).unwrap()),
        out.len() == states.len(),
        forall|i: int| 0 <= i < out.len() ==> assembled_as(states[i], answer_at(answers, i), #[trigger] out[i]),
    ensures
        out.len() == elements(body).len(),
        forall|i: int| 0 <= i < out.len() ==> outcome_id(#[trigger] out[i]) == element_id(elements(body)[i]),
{
    assert forall|i: int| 0 <= i < out.len() implies outcome_id(#[trigger] out[i]) == element_id(
        elements(body)[i],
    ) by {
        assert(parsed_as(elements(body)[i], states[i]));
        assert(assembled_as(states[i], answer_at(answers, i), out[i]));
        if states[i] is Parsed && answer_at(answers, i) is Some {
            lemma_answer_keyed_by_request(states[i]->Parsed_0, answer_at(answers, i).unwrap());
        }
    }
}

/// No message is sent for a microdevice that does not support the action:
/// its slot is a rejection, and the request's answer for it is a
/// method-not-found failure (or a failed entry when it named a list).
pub proof fn lemma_unsupported_not_sent(
    p: PendingAction,
    found: Vec<Option<MicrodeviceRecord>>,
    slots: Vec<SlotPlan>,
    results: Seq<Option<Result<JsonValue, BridgeError>>>,
    i: int,
)
    requires
        planned_as(p, Ok::<Vec<Option<MicrodeviceRecord>>, LookupError>(found), RequestPlan::Fanout(slots)),
        0 <= i < found@.len(),
        found@[i] is Some,
        !supports(found@[i].unwrap(), p.action),
    ensures
        slots@[i] is Rejected,
        slot_result(slots@[i], result_at(results, i)) == SlotResult::Failed(
            ErrorReason::MethodNotFound,
            unsupported_message(found@[i].unwrap(), p.action),
        ),
{
    assert(slot_planned(p.targets@[i], found@[i], p.action, p.payload, slots@[i]));
}

} // verus!
