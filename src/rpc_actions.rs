//! The action methods of the RPC surface by name, and the shapes that its
//! documentation shows.
use vstd::prelude::*;
use crate::dispatch::{is_failure, ActionOutcome, ErrorReason};
use crate::json::{list_items, member, JsonList, JsonValue};

verus! {

/// The action methods, by their snake_case names.
#[derive(Debug, Clone, Copy, PartialEq, Eq, Structural)]
pub enum MicrodeviceActions {
    Start,
    Stop,
    Restart,
    Reset,
    PowerOn,
    PowerOff,
    UserDefined,
}

/// An example request, as the API documentation shows it.
#[derive(Debug, PartialEq)]
pub struct JrpcExample {
    pub jsonrpc: String,
    pub id: String,
    pub method: String,
    pub params: Vec<String>,
}

/// A topic to add to a microdevice.
#[derive(Debug, PartialEq)]
pub struct Topic {
    pub topic: String,
}

/// The method that a snake_case name stands for, if any.
pub open spec fn method_of(s: Seq<char>) -> Option<MicrodeviceActions> {
    if s == "start"@ {
        Some(MicrodeviceActions::Start)
    } else if s == "stop"@ {
        Some(MicrodeviceActions::Stop)
    } else if s == "restart"@ {
        Some(MicrodeviceActions::Restart)
    } else if s == "reset"@ {
        Some(MicrodeviceActions::Reset)
    } else if s == "power_on"@ {
        Some(MicrodeviceActions::PowerOn)
    } else if s == "power_off"@ {
        Some(MicrodeviceActions::PowerOff)
    } else if s == "user_defined"@ {
        Some(MicrodeviceActions::UserDefined)
    } else {
        None
    }
}

/// Every item of the list is a string.
pub open spec fn all_text(items: Seq<JsonValue>) -> bool {
    forall|i: int| 0 <= i < items.len() ==> (#[trigger] items[i]) is Text
}

/// The params of an action method: an object with a boolean `cluster_wide`
/// and, optionally, a `device_id` that is a string or a list of strings.
pub open spec fn action_params_ok(p: JsonValue) -> bool {
    &&& p is Object
    &&& member(p, "cluster_wide"@) matches Some(JsonValue::Bool(_))
    &&& match member(p, "device_id"@) {
        None => true,
        Some(JsonValue::Null) => true,
        Some(JsonValue::Text(_)) => true,
        Some(JsonValue::Array(l)) => all_text(list_items(l)),
        Some(_) => false,
    }
}

fn all_text_list(l: &JsonList) -> (r: bool)
    ensures
        r == all_text(list_items(*l)),
    decreases l,
{
    match l {
        JsonList::Nil => true,
        JsonList::Cons(h, t) => {
            let rest = all_text_list(&**t);
            let items = Ghost(list_items(*l));
            assert(items@ =~= seq![**h].add(list_items(**t)));
            if !rest {
                let ghost tl = list_items(**t);
                let ghost k = choose|k: int| 0 <= k < tl.len() && !((#[trigger] tl[k]) is Text);
                assert(items@[k + 1] == tl[k]);
            } else {
                assert forall|i: int| 0 <= i < items@.len() && i > 0 implies (#[trigger] items@[i]) is Text by {
                    assert(items@[i] == list_items(**t)[i - 1]);
                }
            }
            match &**h {
                JsonValue::Text(_) => rest,
                _ => {
                    assert(!(items@[0] is Text));
                    false
                },
            }
        },
    }
}

impl MicrodeviceActions {
    /// The method named `s`, if any.
    pub fn from_name(s: &String) -> (r: Option<MicrodeviceActions>)
        ensures
            r == method_of(s@),
    {
        if *s == String::from_str("start") {
            Some(MicrodeviceActions::Start)
        } else if *s == String::from_str("stop") {
            Some(MicrodeviceActions::Stop)
        } else if *s == String::from_str("restart") {
            Some(MicrodeviceActions::Restart)
        } else if *s == String::from_str("reset") {
            Some(MicrodeviceActions::Reset)
        } else if *s == String::from_str("power_on") {
            Some(MicrodeviceActions::PowerOn)
        } else if *s == String::from_str("power_off") {
            Some(MicrodeviceActions::PowerOff)
        } else if *s == String::from_str("user_defined") {
            Some(MicrodeviceActions::UserDefined)
        } else {
            None
        }
    }

    /// Runs the method: params of the wrong shape are invalid params; with
    /// the right shape, no method has an implementation yet.
    pub fn execute(&self, id: JsonValue, params: &JsonValue) -> (r: ActionOutcome)
        ensures
            !action_params_ok(*params) ==> is_failure(
                r,
                id,
                ErrorReason::InvalidParams,
                "params need a boolean `cluster_wide` and an optional `device_id`"@,
            ),
            action_params_ok(*params) ==> is_failure(
                r,
                id,
                ErrorReason::MethodNotFound,
                "Method not implemented"@,
            ),
    {
        let is_object = match params {
            JsonValue::Object(_) => true,
            _ => false,
        };
        let cw_ok = match params.member("cluster_wide") {
            Some(JsonValue::Bool(_)) => true,
            _ => false,
        };
        let dev_ok = match params.member("device_id") {
            None => true,
            Some(JsonValue::Null) => true,
            Some(JsonValue::Text(_)) => true,
            Some(JsonValue::Array(l)) => all_text_list(&l),
            Some(_) => false,
        };
        if !(is_object && cw_ok && dev_ok) {
            return ActionOutcome::Failure {
                id,
                reason: ErrorReason::InvalidParams,
                message: String::from_str(
                    "params need a boolean `cluster_wide` and an optional `device_id`",
                ),
                data: JsonValue::Null,
            };
        }
        ActionOutcome::Failure {
            id,
            reason: ErrorReason::MethodNotFound,
            message: String::from_str("Method not implemented"),
            data: JsonValue::Null,
        }
    }
}

} // verus!
