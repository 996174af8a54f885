//! JSON values as the provider APIs exchange them, with the lookups that
//! `serde_json::Value` offers (`v["key"]`, `as_str`, `as_array`, `as_i64`, `get`).

use vstd::prelude::*;

verus! {

/// A JSON value. Integers that fit an `i64` are kept as such; any other number
/// keeps its JSON text.
#[derive(Debug)]
pub enum Json {
    Null,
    Bool(bool),
    Int(i64),
    OtherNumber(String),
    Str(String),
    Array(Vec<Json>),
    Object(Vec<(String, Json)>),
}

/// The value of the first member named `key`, for an object (`Value::get`).
pub open spec fn member(entries: Seq<(String, Json)>, key: Seq<char>) -> Option<Json>
    decreases entries.len(),
{
    if entries.len() == 0 {
        None
    } else if entries[0].0@ == key {
        Some(entries[0].1)
    } else {
        member(entries.drop_first(), key)
    }
}

/// `Value::get(key)`: the member of an object, `None` for anything else.
pub open spec fn json_get(j: Json, key: Seq<char>) -> Option<Json> {
    match j {
        Json::Object(entries) => member(entries@, key),
        _ => None,
    }
}

/// `value[key]`: the member, or `Null` when there is none.
pub open spec fn json_index(j: Json, key: Seq<char>) -> Json {
    match json_get(j, key) {
        Some(v) => v,
        None => Json::Null,
    }
}

/// `Value::as_str`.
pub open spec fn json_str(j: Json) -> Option<Seq<char>> {
    match j {
        Json::Str(s) => Some(s@),
        _ => None,
    }
}

/// `Value::as_array`.
pub open spec fn json_array(j: Json) -> Option<Seq<Json>> {
    match j {
        Json::Array(items) => Some(items@),
        _ => None,
    }
}

/// `Value::as_i64`.
pub open spec fn json_i64(j: Json) -> Option<i64> {
    match j {
        Json::Int(n) => Some(n),
        _ => None,
    }
}

/// No two members of an object share a key.
pub open spec fn distinct_keys(entries: Seq<(String, Json)>) -> bool {
    forall|i: int, j: int|
        0 <= i < j < entries.len() ==> #[trigger] entries[i].0@ != #[trigger] entries[j].0@
}

/// A JSON value as `serde_json::Value` holds it: in every object, each key
/// occurs once (so `json_get` finds the only member with a key).
pub open spec fn json_wf(j: Json) -> bool
    decreases j,
{
    match j {
        Json::Array(items) => forall|i: int|
            0 <= i < items@.len() ==> #[trigger] json_wf(items@[i]),
        Json::Object(entries) => {
            &&& distinct_keys(entries@)
            &&& forall|i: int| 0 <= i < entries@.len() ==> #[trigger] json_wf(entries@[i].1)
        },
        _ => true,
    }
}

impl Json {
    /// `Value::get`: the first member named `key` of an object.
    pub fn get(&self, key: &str) -> (r: Option<&Json>)
        ensures
            match r {
                Some(v) => json_get(*self, key@) == Some(*v),
                None => json_get(*self, key@) is None,
            },
    {
        match self {
            Json::Object(entries) => {
                let wanted = String::from_str(key);
                let mut i: usize = 0;
                assert(entries@.skip(0) =~= entries@);
                while i < entries.len()
                    invariant
                        i <= entries.len(),
                        wanted@ == key@,
                        *self == Json::Object(*entries),
                        member(entries@, key@) == member(entries@.skip(i as int), key@),
                    decreases entries.len() - i,
                {
                    proof {
                        assert(entries@.skip(i as int).drop_first() =~= entries@.skip(i + 1));
                        assert(entries@.skip(i as int)[0] == entries@[i as int]);
                    }
                    let same = entries[i].0 == wanted;
                    if same {
                        assert(entries@[i as int].0@ == key@);
                        assert(member(entries@.skip(i as int), key@) == Some(entries@[i as int].1));
                        return Some(&entries[i].1);
                    }
                    i = i + 1;
                }
                None
            },
            _ => None,
        }
    }

    /// `value[key]`, by reference; `None` stands for `Null`.
    pub fn index(&self, key: &str) -> (r: Option<&Json>)
        ensures
            match r {
                Some(v) => json_index(*self, key@) == *v,
                None => json_index(*self, key@) == Json::Null,
            },
    {
        self.get(key)
    }

    /// `Value::as_str`.
    pub fn as_str(&self) -> (r: Option<&String>)
        ensures
            match r {
                Some(s) => json_str(*self) == Some(s@),
                None => json_str(*self) is None,
            },
    {
        match self {
            Json::Str(s) => Some(s),
            _ => None,
        }
    }

    /// `Value::as_array`.
    pub fn as_array(&self) -> (r: Option<&Vec<Json>>)
        ensures
            match r {
                Some(items) => json_array(*self) == Some(items@),
                None => json_array(*self) is None,
            },
    {
        match self {
            Json::Array(items) => Some(items),
            _ => None,
        }
    }

    /// `Value::as_i64`.
    pub fn as_i64(&self) -> (r: Option<i64>)
        ensures
            r == json_i64(*self),
    {
        match self {
            Json::Int(n) => Some(*n),
            _ => None,
        }
    }

    /// Moves out the first member named `key` of an object (`Value::get`, by value).
    pub fn take(self, key: &str) -> (r: Option<Json>)
        ensures
            r == json_get(self, key@),
    {
        let ghost before = self;
        match self {
            Json::Object(entries) => {
                let wanted = String::from_str(key);
                let ghost all = entries@;
                assert(json_get(before, key@) == member(all, key@));
                let mut rest = entries;
                assert(rest@.skip(0) =~= rest@);
                let mut i: usize = 0;
                while i < rest.len()
                    invariant
                        i <= rest.len(),
                        rest@ == all,
                        wanted@ == key@,
                        json_get(before, key@) == member(all, key@),
                        before == self,
                        member(all, key@) == member(all.skip(i as int), key@),
                    decreases rest.len() - i,
                {
                    proof {
                        assert(all.skip(i as int).drop_first() =~= all.skip(i + 1));
                        assert(all.skip(i as int)[0] == all[i as int]);
                    }
                    let same = rest[i].0 == wanted;
                    if same {
                        assert(member(all.skip(i as int), key@) == Some(all[i as int].1));
                        let pair = rest.swap_remove(i);
                        assert(pair == all[i as int]);
                        return Some(pair.1);
                    }
                    i = i + 1;
                }
                None
            },
            _ => None,
        }
    }

    /// Moves out `value[key]`, `Null` when absent.
    pub fn take_index(self, key: &str) -> (r: Json)
        ensures
            r == json_index(self, key@),
    {
        match self.take(key) {
            Some(v) => v,
            None => Json::Null,
        }
    }

    /// Moves out the items of an array.
    pub fn into_array(self) -> (r: Option<Vec<Json>>)
        ensures
            match r {
                Some(items) => json_array(self) == Some(items@),
                None => json_array(self) is None,
            },
    {
        match self {
            Json::Array(items) => Some(items),
            _ => None,
        }
    }
}

/// `value[key].as_str()`, owned.
pub fn str_at(j: &Json, key: &str) -> (r: Option<String>)
    ensures
        r.deep_view() == json_str(json_index(*j, key@)),
{
    match j.index(key) {
        Some(v) => match v.as_str() {
            Some(s) => Some(s.clone()),
            None => None,
        },
        None => None,
    }
}

/// `value[key].as_str().unwrap_or(default)`, owned.
pub fn str_at_or(j: &Json, key: &str, default: &str) -> (r: String)
    ensures
        r@ == match json_str(json_index(*j, key@)) {
            Some(s) => s,
            None => default@,
        },
{
    match str_at(j, key) {
        Some(s) => s,
        None => String::from_str(default),
    }
}

/// A JSON string value.
pub fn text(s: &str) -> (r: Json)
    ensures
        json_str(r) == Some(s@),
        json_wf(r),
{
    Json::Str(String::from_str(s))
}


/// The keys of an object, in order.
pub open spec fn json_keys(j: Json) -> Option<Seq<Seq<char>>> {
    match j {
        Json::Object(entries) => Some(entries@.map_values(|e: (String, Json)| e.0@)),
        _ => None,
    }
}

/// An object with one member.
pub fn object1(k1: &str, v1: Json) -> (r: Json)
    ensures
        json_keys(r) == Some(seq![k1@]),
        json_index(r, k1@) == v1,
        json_wf(v1) ==> json_wf(r),
{
    let entries = vec![(String::from_str(k1), v1)];
    let r = Json::Object(entries);
    assert(json_keys(r).unwrap() =~= seq![k1@]);
    assert(entries@[0].1 == v1);
    r
}

/// An object with two members (distinct keys).
pub fn object2(k1: &str, v1: Json, k2: &str, v2: Json) -> (r: Json)
    requires
        k1@ != k2@,
    ensures
        json_keys(r) == Some(seq![k1@, k2@]),
        json_index(r, k1@) == v1,
        json_index(r, k2@) == v2,
        json_wf(v1) && json_wf(v2) ==> json_wf(r),
{
    let entries = vec![(String::from_str(k1), v1), (String::from_str(k2), v2)];
    let r = Json::Object(entries);
    assert(entries@[0].1 == v1 && entries@[1].1 == v2);
    assert(json_keys(r).unwrap() =~= seq![k1@, k2@]);
    assert(entries@.drop_first()[0] == entries@[1]);
    assert(member(entries@.drop_first(), k2@) == Some(v2));
    r
}


/// The empty object.
pub fn object0() -> (r: Json)
    ensures
        json_keys(r) == Some(Seq::<Seq<char>>::empty()),
        json_wf(r),
{
    let entries: Vec<(String, Json)> = Vec::new();
    let r = Json::Object(entries);
    assert(json_keys(r).unwrap() =~= Seq::<Seq<char>>::empty());
    r
}

/// An object with four members (distinct keys).
pub fn object4(k1: &str, v1: Json, k2: &str, v2: Json, k3: &str, v3: Json, k4: &str, v4: Json) -> (r:
    Json)
    requires
        k1@ != k2@,
        k1@ != k3@,
        k1@ != k4@,
        k2@ != k3@,
        k2@ != k4@,
        k3@ != k4@,
    ensures
        json_keys(r) == Some(seq![k1@, k2@, k3@, k4@]),
        json_index(r, k1@) == v1,
        json_index(r, k2@) == v2,
        json_index(r, k3@) == v3,
        json_index(r, k4@) == v4,
        json_wf(v1) && json_wf(v2) && json_wf(v3) && json_wf(v4) ==> json_wf(r),
{
    let entries = vec![
        (String::from_str(k1), v1),
        (String::from_str(k2), v2),
        (String::from_str(k3), v3),
        (String::from_str(k4), v4),
    ];
    let r = Json::Object(entries);
    let ghost e = entries@;
    assert(e[0].1 == v1 && e[1].1 == v2 && e[2].1 == v3 && e[3].1 == v4);
    assert(json_keys(r).unwrap() =~= seq![k1@, k2@, k3@, k4@]);
    assert(e.drop_first()[0] == e[1]);
    assert(e.drop_first().drop_first()[0] == e[2]);
    assert(e.drop_first().drop_first().drop_first()[0] == e[3]);
    assert(member(e.drop_first().drop_first().drop_first(), k4@) == Some(v4));
    assert(member(e.drop_first().drop_first(), k4@) == Some(v4));
    assert(member(e.drop_first().drop_first(), k3@) == Some(v3));
    assert(member(e.drop_first(), k4@) == Some(v4));
    assert(member(e.drop_first(), k3@) == Some(v3));
    assert(member(e.drop_first(), k2@) == Some(v2));
    r
}

} // verus!
