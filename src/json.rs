//! A JSON document as plain values.
//!
//! Arrays and objects are singly linked lists, so that two documents with the
//! same shape and the same text are equal in specifications and a copy is
//! provably the document it was taken from.
use vstd::prelude::*;

verus! {

/// A JSON value. An integer that fits in 64 bits is held as one; any other
/// number keeps its literal text, so no precision is lost.
#[derive(Debug, PartialEq)]
pub enum JsonValue {
    Null,
    Bool(bool),
    Int(i64),
    Decimal(String),
    Text(String),
    Array(JsonList),
    Object(JsonFields),
}

/// The elements of a JSON array, first to last.
#[derive(Debug, PartialEq)]
pub enum JsonList {
    Nil,
    Cons(Box<JsonValue>, Box<JsonList>),
}

/// The members of a JSON object, in document order.
#[derive(Debug, PartialEq)]
pub enum JsonFields {
    Nil,
    Cons(String, Box<JsonValue>, Box<JsonFields>),
}

/// The elements of a list as a sequence.
pub open spec fn list_items(l: JsonList) -> Seq<JsonValue>
    decreases l,
{
    match l {
        JsonList::Nil => Seq::empty(),
        JsonList::Cons(h, t) => seq![*h].add(list_items(*t)),
    }
}

/// The value of the first member named `key`, if any.
pub open spec fn field_of(f: JsonFields, key: Seq<char>) -> Option<JsonValue>
    decreases f,
{
    match f {
        JsonFields::Nil => None,
        JsonFields::Cons(k, v, rest) => if k@ == key {
            Some(*v)
        } else {
            field_of(*rest, key)
        },
    }
}

/// The members of an object as (key, value) pairs, in document order.
pub open spec fn field_entries(f: JsonFields) -> Seq<(String, JsonValue)>
    decreases f,
{
    match f {
        JsonFields::Nil => Seq::empty(),
        JsonFields::Cons(k, v, rest) => seq![(k, *v)].add(field_entries(*rest)),
    }
}

/// The member `key` of an object; `None` for anything that is not an object.
pub open spec fn member(v: JsonValue, key: Seq<char>) -> Option<JsonValue> {
    match v {
        JsonValue::Object(f) => field_of(f, key),
        _ => None,
    }
}

/// Null, a boolean, a number or a string.
pub open spec fn is_scalar(v: JsonValue) -> bool {
    match v {
        JsonValue::Array(_) | JsonValue::Object(_) => false,
        _ => true,
    }
}

/// A copy of a string, equal to it.
pub fn copy_string(s: &String) -> (r: String)
    ensures
        r == *s,
{
    s.clone()
}

impl JsonValue {
    /// A copy of the member `key`, when this is an object that has one.
    pub fn member(&self, key: &str) -> (r: Option<JsonValue>)
        ensures
            r == member(*self, key@),
    {
        match self {
            JsonValue::Object(f) => f.get(&String::from_str(key)),
            _ => None,
        }
    }

    pub fn is_scalar(&self) -> (r: bool)
        ensures
            r == is_scalar(*self),
    {
        match self {
            JsonValue::Array(_) | JsonValue::Object(_) => false,
            _ => true,
        }
    }

    /// The array holding `items`, in order.
    pub fn array(items: Vec<JsonValue>) -> (r: JsonValue)
        ensures
            r is Array,
            list_items(r->Array_0) == items@,
    {
        let ghost all = items@;
        let mut rest = items;
        let mut acc = JsonList::Nil;
        while rest.len() > 0
            invariant
                rest@ == all.subrange(0, rest@.len() as int),
                list_items(acc) == all.subrange(rest@.len() as int, all.len() as int),
                rest@.len() <= all.len(),
            decreases rest@.len(),
        {
            let ghost before = acc;
            let x = rest.pop().unwrap();
            acc = JsonList::Cons(Box::new(x), Box::new(acc));
            assert(list_items(acc) =~= seq![x].add(list_items(before)));
            assert(all.subrange(rest@.len() as int, all.len() as int) =~= seq![x].add(
                all.subrange(rest@.len() + 1int, all.len() as int),
            ));
            assert(rest@ =~= all.subrange(0, rest@.len() as int));
        }
        assert(all.subrange(0, all.len() as int) =~= all);
        JsonValue::Array(acc)
    }

    /// The object with these members, in order.
    pub fn object(fields: Vec<(String, JsonValue)>) -> (r: JsonValue)
        ensures
            r is Object,
            field_entries(r->Object_0) == fields@,
    {
        let ghost all = fields@;
        let mut rest = fields;
        let mut acc = JsonFields::Nil;
        while rest.len() > 0
            invariant
                rest@ == all.subrange(0, rest@.len() as int),
                field_entries(acc) == all.subrange(rest@.len() as int, all.len() as int),
                rest@.len() <= all.len(),
            decreases rest@.len(),
        {
            let ghost before = acc;
            let (k, v) = rest.pop().unwrap();
            acc = JsonFields::Cons(k, Box::new(v), Box::new(acc));
            assert(field_entries(acc) =~= seq![(k, v)].add(field_entries(before)));
            assert(all.subrange(rest@.len() as int, all.len() as int) =~= seq![(k, v)].add(
                all.subrange(rest@.len() + 1int, all.len() as int),
            ));
            assert(rest@ =~= all.subrange(0, rest@.len() as int));
        }
        assert(all.subrange(0, all.len() as int) =~= all);
        JsonValue::Object(acc)
    }

    /// A copy of the value, equal to it.
    pub fn deep_copy(&self) -> (r: JsonValue)
        ensures
            r == *self,
        decreases self,
    {
        match self {
            JsonValue::Null => JsonValue::Null,
            JsonValue::Bool(b) => JsonValue::Bool(*b),
            JsonValue::Int(n) => JsonValue::Int(*n),
            JsonValue::Decimal(n) => JsonValue::Decimal(copy_string(n)),
            JsonValue::Text(s) => JsonValue::Text(copy_string(s)),
            JsonValue::Array(l) => JsonValue::Array(l.deep_copy()),
            JsonValue::Object(f) => JsonValue::Object(f.deep_copy()),
        }
    }
}

impl JsonList {
    pub fn deep_copy(&self) -> (r: JsonList)
        ensures
            r == *self,
        decreases self,
    {
        match self {
            JsonList::Nil => JsonList::Nil,
            JsonList::Cons(h, t) => JsonList::Cons(Box::new((**h).deep_copy()), Box::new((**t).deep_copy())),
        }
    }
}

impl JsonFields {
    pub fn deep_copy(&self) -> (r: JsonFields)
        ensures
            r == *self,
        decreases self,
    {
        match self {
            JsonFields::Nil => JsonFields::Nil,
            JsonFields::Cons(k, v, rest) => JsonFields::Cons(
                copy_string(k),
                Box::new((**v).deep_copy()),
                Box::new((**rest).deep_copy()),
            ),
        }
    }

    /// A copy of the first member named `key`.
    pub fn get(&self, key: &String) -> (r: Option<JsonValue>)
        ensures
            r == field_of(*self, key@),
        decreases self,
    {
        match self {
            JsonFields::Nil => None,
            JsonFields::Cons(k, v, rest) => {
                if *k == *key {
                    Some((**v).deep_copy())
                } else {
                    (**rest).get(key)
                }
            },
        }
    }
}

} // verus!
