use vstd::prelude::*;
use vstd::string::*;

verus! {

/// One JSON document, held entirely in plain values. The appliance's
/// numeric fields are server-assigned ids, so numbers are kept only when
/// they are unsigned integers; any other number reads as `Null`, which the
/// accessors below treat exactly like an absent field.
#[derive(Debug, PartialEq, Eq)]
pub enum JsonValue {
    Null,
    Bool(bool),
    UInt(u64),
    Str(String),
    Arr(Vec<JsonValue>),
    Obj(Vec<(String, JsonValue)>),
}

/// First pair whose key equals `key`, if any: objects are searched in
/// order and the first match wins.
pub open spec fn lookup_fields(fields: Seq<(String, JsonValue)>, key: Seq<char>) -> Option<JsonValue>
    decreases fields.len(),
{
    if fields.len() == 0 {
        None
    } else if fields[0].0@ == key {
        Some(fields[0].1)
    } else {
        lookup_fields(fields.skip(1), key)
    }
}

impl JsonValue {
    /// The value under `key` when `self` is an object; `None` otherwise.
    pub open spec fn spec_get(self, key: Seq<char>) -> Option<JsonValue> {
        match self {
            JsonValue::Obj(fields) => lookup_fields(fields@, key),
            _ => None,
        }
    }

    pub open spec fn spec_as_u64(self) -> Option<u64> {
        match self {
            JsonValue::UInt(n) => Some(n),
            _ => None,
        }
    }

    pub open spec fn spec_as_str(self) -> Option<Seq<char>> {
        match self {
            JsonValue::Str(s) => Some(s@),
            _ => None,
        }
    }

    pub open spec fn spec_as_arr(self) -> Option<Seq<JsonValue>> {
        match self {
            JsonValue::Arr(items) => Some(items@),
            _ => None,
        }
    }

    /// Every object in the document, at any depth, has pairwise distinct
    /// keys. Documents built by this crate's request builders satisfy it.
    pub open spec fn keys_distinct(self) -> bool
        decreases self,
    {
        match self {
            JsonValue::Arr(items) => forall|i: int|
                0 <= i < items@.len() ==> (#[trigger] items@[i]).keys_distinct(),
            JsonValue::Obj(fields) => {
                &&& forall|i: int, j: int|
                    0 <= i < j < fields@.len() ==> fields@[i].0@ != fields@[j].0@
                &&& forall|i: int|
                    0 <= i < fields@.len() ==> (#[trigger] fields@[i]).1.keys_distinct()
            },
            _ => true,
        }
    }

    /// Whether every container of the document nests within `d` levels:
    /// a scalar passes any bound, and an array or object only where `d`
    /// leaves room for one more level.
    pub open spec fn depth_below(self, d: nat) -> bool
        decreases self,
    {
        match self {
            JsonValue::Arr(items) => d > 0 && forall|i: int|
                0 <= i < items@.len() ==> (#[trigger] items@[i]).depth_below((d - 1) as nat),
            JsonValue::Obj(fields) => d > 0 && forall|i: int|
                0 <= i < fields@.len() ==> (#[trigger] fields@[i]).1.depth_below((d - 1) as nat),
            _ => true,
        }
    }

    /// The string under `key`, when `self` is an object holding a string
    /// there.
    pub open spec fn spec_str_field(self, key: Seq<char>) -> Option<Seq<char>> {
        match self.spec_get(key) {
            Some(v) => v.spec_as_str(),
            None => None,
        }
    }

    /// The unsigned integer under `key`, when `self` is an object holding
    /// one there.
    pub open spec fn spec_u64_field(self, key: Seq<char>) -> Option<u64> {
        match self.spec_get(key) {
            Some(v) => v.spec_as_u64(),
            None => None,
        }
    }

    pub fn get<'a>(&'a self, key: &str) -> (r: Option<&'a JsonValue>)
        ensures
            match r {
                Some(v) => self.spec_get(key@) == Some(*v),
                None => self.spec_get(key@) is None,
            },
    {
        match self {
            JsonValue::Obj(fields) => {
                let key_string = String::from_str(key);
                let mut i: usize = 0;
                assert(fields@.skip(0) =~= fields@);
                while i < fields.len()
                    invariant
                        *self == JsonValue::Obj(*fields),
                        i <= fields@.len(),
                        key_string@ == key@,
                        lookup_fields(fields@, key@) == lookup_fields(
                            fields@.skip(i as int),
                            key@,
                        ),
                    decreases fields@.len() - i,
                {
                    let pair = &fields[i];
                    if pair.0 == key_string {
                        proof {
                            assert(fields@.skip(i as int)[0] == fields@[i as int]);
                        }
                        return Some(&pair.1);
                    }
                    assert(fields@.skip(i as int).skip(1) =~= fields@.skip(i as int + 1));
                    i = i + 1;
                }
                assert(fields@.skip(i as int).len() == 0);
                None
            },
            _ => None,
        }
    }

    pub fn as_u64(&self) -> (r: Option<u64>)
        ensures
            r == self.spec_as_u64(),
    {
        match self {
            JsonValue::UInt(n) => Some(*n),
            _ => None,
        }
    }

    pub fn as_str<'a>(&'a self) -> (r: Option<&'a str>)
        ensures
            match r {
                Some(s) => self.spec_as_str() == Some(s@),
                None => self.spec_as_str() is None,
            },
    {
        match self {
            JsonValue::Str(s) => Some(s.as_str()),
            _ => None,
        }
    }

    pub fn as_arr<'a>(&'a self) -> (r: Option<&'a Vec<JsonValue>>)
        ensures
            match r {
                Some(items) => self.spec_as_arr() == Some(items@),
                None => self.spec_as_arr() is None,
            },
    {
        match self {
            JsonValue::Arr(items) => Some(items),
            _ => None,
        }
    }
}

/// Depth bounds weaken upward: a document within `d1` levels is within
/// any larger bound too.
pub proof fn lemma_depth_below_mono(v: JsonValue, d1: nat, d2: nat)
    requires
        v.depth_below(d1),
        d1 <= d2,
    ensures
        v.depth_below(d2),
    decreases v,
{
    match v {
        JsonValue::Arr(items) => {
            assert forall|i: int| 0 <= i < items@.len() implies (#[trigger] items@[i]).depth_below(
                (d2 - 1) as nat,
            ) by {
                lemma_depth_below_mono(items@[i], (d1 - 1) as nat, (d2 - 1) as nat);
            }
        },
        JsonValue::Obj(fields) => {
            assert forall|i: int| 0 <= i < fields@.len() implies (#[trigger] fields@[i]).1
                .depth_below((d2 - 1) as nat) by {
                lemma_depth_below_mono(fields@[i].1, (d1 - 1) as nat, (d2 - 1) as nat);
            }
        },
        _ => {},
    }
}

} // verus!
