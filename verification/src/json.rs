//! Structured values as they travel in messages.
//!
//! Parameters, results and settings are trees of these values. Handlers read
//! them through the accessors below, which never fail: a value of another
//! shape gives `None`.

use vstd::prelude::*;
use crate::text::same_text;

verus! {

/// A number of a structured value.
#[derive(Debug, Clone, PartialEq, Eq)]
pub enum JsonNumber {
    /// A non-negative integer.
    PosInt(u64),
    /// A negative integer.
    NegInt(i64),
    /// Any other number, kept as its decimal text.
    Real(String),
}

/// A structured value.
#[derive(Debug, PartialEq, Eq)]
pub enum JsonValue {
    Null,
    Bool(bool),
    Number(JsonNumber),
    Text(String),
    Array(Vec<JsonValue>),
    /// The members in order; a key is looked up at its first occurrence.
    Object(Vec<(String, JsonValue)>),
}

/// The first member with the given key.
pub open spec fn spec_member(members: Seq<(String, JsonValue)>, key: Seq<char>) -> Option<
    JsonValue,
>
    decreases members.len(),
{
    if members.len() == 0 {
        None
    } else if members[0].0@ == key {
        Some(members[0].1)
    } else {
        spec_member(members.drop_first(), key)
    }
}

/// The first member with the given key.
pub fn member<'a>(members: &'a Vec<(String, JsonValue)>, key: &str) -> (r: Option<&'a JsonValue>)
    ensures
        r == match spec_member(members@, key@) {
            Some(v) => Some(&v),
            None => None,
        },
{
    let mut i: usize = 0;
    assert(members@.skip(0) =~= members@);
    while i < members.len()
        invariant
            i <= members.len(),
            spec_member(members@, key@) == spec_member(members@.skip(i as int), key@),
        decreases members.len() - i,
    {
        let ghost rest = members@.skip(i as int);
        assert(rest[0] == members@[i as int]);
        assert(rest.drop_first() =~= members@.skip(i + 1));
        if same_text(members[i].0.as_str(), key) {
            return Some(&members[i].1);
        }
        i += 1;
    }
    assert(members@.skip(members.len() as int).len() == 0);
    None
}

/// Where the first member with the given key stands.
fn member_index(members: &Vec<(String, JsonValue)>, key: &str) -> (r: Option<usize>)
    ensures
        match r {
            Some(i) => i < members@.len() && spec_member(members@, key@) == Some(
                members@[i as int].1,
            ),
            None => spec_member(members@, key@) is None,
        },
{
    let mut i: usize = 0;
    assert(members@.skip(0) =~= members@);
    while i < members.len()
        invariant
            i <= members.len(),
            spec_member(members@, key@) == spec_member(members@.skip(i as int), key@),
        decreases members.len() - i,
    {
        let ghost rest = members@.skip(i as int);
        assert(rest[0] == members@[i as int]);
        assert(rest.drop_first() =~= members@.skip(i + 1));
        if same_text(members[i].0.as_str(), key) {
            return Some(i);
        }
        i += 1;
    }
    assert(members@.skip(members.len() as int).len() == 0);
    None
}

impl JsonValue {
    /// Takes the member of an object with the given key out of it.
    pub fn take_member(self, key: &str) -> (r: Option<JsonValue>)
        ensures
            r == self.spec_get(key@),
    {
        match self {
            JsonValue::Object(members) => {
                let mut members = members;
                match member_index(&members, key) {
                    Some(i) => {
                        let entry = members.remove(i);
                        Some(entry.1)
                    },
                    None => None,
                }
            },
            _ => None,
        }
    }

    /// The text of a text value.
    pub open spec fn spec_str(&self) -> Option<Seq<char>> {
        match self {
            JsonValue::Text(s) => Some(s@),
            _ => None,
        }
    }

    /// The number of a non-negative integer value that fits in 32 bits.
    pub open spec fn spec_u32(&self) -> Option<u32> {
        match self {
            JsonValue::Number(JsonNumber::PosInt(n)) => if *n <= u32::MAX {
                Some(*n as u32)
            } else {
                None
            },
            _ => None,
        }
    }

    /// The member of an object with the given key.
    pub open spec fn spec_get(&self, key: Seq<char>) -> Option<JsonValue> {
        match self {
            JsonValue::Object(members) => spec_member(members@, key),
            _ => None,
        }
    }

    /// Whether the value is null.
    pub fn is_null(&self) -> (r: bool)
        ensures
            r == (*self == JsonValue::Null),
    {
        match self {
            JsonValue::Null => true,
            _ => false,
        }
    }

    /// The text of a text value.
    pub fn as_str(&self) -> (r: Option<&str>)
        ensures
            match r {
                Some(s) => self.spec_str() == Some(s@),
                None => self.spec_str() is None,
            },
    {
        match self {
            JsonValue::Text(s) => Some(s.as_str()),
            _ => None,
        }
    }

    /// The number of a non-negative integer value that fits in 32 bits.
    pub fn as_u32(&self) -> (r: Option<u32>)
        ensures
            r == self.spec_u32(),
    {
        match self {
            JsonValue::Number(JsonNumber::PosInt(n)) => {
                if *n <= 0xFFFF_FFFFu64 {
                    Some(*n as u32)
                } else {
                    None
                }
            },
            _ => None,
        }
    }

    /// The elements of an array value.
    pub fn as_array(&self) -> (r: Option<&Vec<JsonValue>>)
        ensures
            r == match *self {
                JsonValue::Array(items) => Some(&items),
                _ => None,
            },
    {
        match self {
            JsonValue::Array(items) => Some(items),
            _ => None,
        }
    }

    /// The members of an object value.
    pub fn as_object(&self) -> (r: Option<&Vec<(String, JsonValue)>>)
        ensures
            r == match *self {
                JsonValue::Object(members) => Some(&members),
                _ => None,
            },
    {
        match self {
            JsonValue::Object(members) => Some(members),
            _ => None,
        }
    }

    /// The member of an object with the given key.
    pub fn get(&self, key: &str) -> (r: Option<&JsonValue>)
        ensures
            r == match self.spec_get(key@) {
                Some(v) => Some(&v),
                None => None,
            },
    {
        match self {
            JsonValue::Object(members) => member(members, key),
            _ => None,
        }
    }
}


/// A number as a plain value.
pub enum NumberView {
    PosInt(u64),
    NegInt(i64),
    Real(Seq<char>),
}

/// A structured value as a plain value.
pub enum JsonView {
    Null,
    Bool(bool),
    Number(NumberView),
    Text(Seq<char>),
    Array(Seq<JsonView>),
    Object(Seq<(Seq<char>, JsonView)>),
}

impl View for JsonNumber {
    type V = NumberView;

    open spec fn view(&self) -> NumberView {
        match self {
            JsonNumber::PosInt(n) => NumberView::PosInt(*n),
            JsonNumber::NegInt(n) => NumberView::NegInt(*n),
            JsonNumber::Real(s) => NumberView::Real(s@),
        }
    }
}

/// A structured value as a plain value.
pub open spec fn value_view(v: JsonValue) -> JsonView
    decreases v,
{
    match v {
        JsonValue::Null => JsonView::Null,
        JsonValue::Bool(b) => JsonView::Bool(b),
        JsonValue::Number(n) => JsonView::Number(n@),
        JsonValue::Text(s) => JsonView::Text(s@),
        JsonValue::Array(items) => JsonView::Array(
            Seq::new(
                items@.len(),
                |i: int|
                    if 0 <= i < items@.len() {
                        value_view(items@[i])
                    } else {
                        JsonView::Null
                    },
            ),
        ),
        JsonValue::Object(members) => JsonView::Object(
            Seq::new(
                members@.len(),
                |i: int|
                    if 0 <= i < members@.len() {
                        (members@[i].0@, value_view(members@[i].1))
                    } else {
                        (Seq::<char>::empty(), JsonView::Null)
                    },
            ),
        ),
    }
}

impl View for JsonValue {
    type V = JsonView;

    open spec fn view(&self) -> JsonView {
        value_view(*self)
    }
}

/// The views of the elements of an array.
pub open spec fn item_views(items: Seq<JsonValue>) -> Seq<JsonView> {
    Seq::new(items.len(), |i: int| items[i]@)
}

/// The views of the members of an object.
pub open spec fn member_views(members: Seq<(String, JsonValue)>) -> Seq<(Seq<char>, JsonView)> {
    Seq::new(members.len(), |i: int| (members[i].0@, members[i].1@))
}

/// The array with the given elements.
pub fn array(items: Vec<JsonValue>) -> (r: JsonValue)
    ensures
        r == JsonValue::Array(items),
        r@ == JsonView::Array(item_views(items@)),
{
    let r = JsonValue::Array(items);
    assert(r@ is Array);
    assert(r@->Array_0.len() == items@.len());
    assert forall|i: int| 0 <= i < items@.len() implies r@->Array_0[i] == items@[i]@ by {}
    assert(r@->Array_0 =~= item_views(items@));
    r
}

/// The object with the given members.
pub fn object(members: Vec<(String, JsonValue)>) -> (r: JsonValue)
    ensures
        r == JsonValue::Object(members),
        r@ == JsonView::Object(member_views(members@)),
{
    let r = JsonValue::Object(members);
    assert(r@->Object_0 =~= member_views(members@));
    r
}

/// The text value with the given text.
pub fn text(s: &str) -> (r: JsonValue)
    ensures
        r@ == JsonView::Text(s@),
{
    JsonValue::Text(s.to_owned())
}

impl JsonNumber {
    /// A copy of the number.
    pub fn copy(&self) -> (r: JsonNumber)
        ensures
            r@ == self@,
    {
        match self {
            JsonNumber::PosInt(n) => JsonNumber::PosInt(*n),
            JsonNumber::NegInt(n) => JsonNumber::NegInt(*n),
            JsonNumber::Real(s) => JsonNumber::Real(s.clone()),
        }
    }
}

impl JsonValue {
    /// A copy of the value, with all that it holds.
    pub fn copy(&self) -> (r: JsonValue)
        ensures
            r@ == self@,
        decreases self,
    {
        match self {
            JsonValue::Null => JsonValue::Null,
            JsonValue::Bool(b) => JsonValue::Bool(*b),
            JsonValue::Number(n) => JsonValue::Number(n.copy()),
            JsonValue::Text(s) => JsonValue::Text(s.clone()),
            JsonValue::Array(items) => {
                let mut out: Vec<JsonValue> = Vec::new();
                let mut i: usize = 0;
                while i < items.len()
                    invariant
                        i <= items.len(),
                        decreases_to!(*self => *items),
                        out@.len() == i,
                        forall|k: int| 0 <= k < i ==> (#[trigger] out@[k])@ == items@[k]@,
                    decreases items.len() - i,
                {
                    proof {
                        vstd::std_specs::vec::axiom_vec_index_decreases(*items, i as int);
                    }
                    let item = items[i].copy();
                    out.push(item);
                    i += 1;
                }
                let r = array(out);
                assert(item_views(out@) =~= item_views(items@));
                assert(self@->Array_0 =~= item_views(items@));
                r
            },
            JsonValue::Object(members) => {
                let mut out: Vec<(String, JsonValue)> = Vec::new();
                let mut i: usize = 0;
                while i < members.len()
                    invariant
                        i <= members.len(),
                        decreases_to!(*self => *members),
                        out@.len() == i,
                        forall|k: int|
                            0 <= k < i ==> (#[trigger] out@[k]).0@ == members@[k].0@ && out@[k].1@
                                == members@[k].1@,
                    decreases members.len() - i,
                {
                    let key = members[i].0.clone();
                    proof {
                        vstd::std_specs::vec::axiom_vec_index_decreases(*members, i as int);
                    }
                    let value = members[i].1.copy();
                    out.push((key, value));
                    i += 1;
                }
                let r = object(out);
                assert(member_views(out@) =~= member_views(members@));
                assert(self@->Object_0 =~= member_views(members@));
                r
            },
        }
    }
}

impl Clone for JsonValue {
    fn clone(&self) -> (r: JsonValue)
        ensures
            r@ == self@,
    {
        self.copy()
    }
}

} // verus!
