//! JSON documents as the agent reads and writes them: lookups of fields and
//! strings, and object updates.
use vstd::prelude::*;

verus! {

/// A JSON number: an integer that fits `i64`, a larger non-negative integer,
/// or any other number kept as its text.
pub enum JsonNumber {
    Int(i64),
    UInt(u64),
    Decimal(String),
}

/// A JSON value. Object members keep their order; a key is looked up at its
/// first occurrence.
pub enum JsonValue {
    Null,
    Bool(bool),
    Number(JsonNumber),
    Str(String),
    Array(Vec<JsonValue>),
    Object(Vec<(String, JsonValue)>),
}

/// The value of the first member named `key`.
pub open spec fn member(fields: Seq<(String, JsonValue)>, key: Seq<char>) -> Option<JsonValue>
    decreases fields.len(),
{
    if fields.len() == 0 {
        None
    } else if fields[0].0@ == key {
        Some(fields[0].1)
    } else {
        member(fields.drop_first(), key)
    }
}

/// `Value::get` with a string key: the member of an object, nothing otherwise.
pub open spec fn json_get(v: JsonValue, key: Seq<char>) -> Option<JsonValue> {
    match v {
        JsonValue::Object(fields) => member(fields@, key),
        _ => None,
    }
}

/// `Value::as_str`.
pub open spec fn json_str(v: JsonValue) -> Option<Seq<char>> {
    match v {
        JsonValue::Str(s) => Some(s@),
        _ => None,
    }
}

/// `Value::as_i64`.
pub open spec fn json_i64(v: JsonValue) -> Option<i64> {
    match v {
        JsonValue::Number(JsonNumber::Int(i)) => Some(i),
        _ => None,
    }
}

/// The string member `key` of `v`, if `v` is an object holding one.
pub open spec fn str_member(v: JsonValue, key: Seq<char>) -> Option<Seq<char>> {
    match json_get(v, key) {
        Some(m) => json_str(m),
        None => None,
    }
}

/// The string under `key`, looked up at the top level first and then inside
/// the `data` member.
pub open spec fn top_or_data_str(v: JsonValue, key: Seq<char>) -> Option<Seq<char>> {
    match str_member(v, key) {
        Some(s) => Some(s),
        None => match json_get(v, "data"@) {
            Some(d) => str_member(d, key),
            None => None,
        },
    }
}

/// Index of the first member named `key`.
pub open spec fn member_index(fields: Seq<(String, JsonValue)>, key: Seq<char>) -> Option<int>
    decreases fields.len(),
{
    if fields.len() == 0 {
        None
    } else if fields[0].0@ == key {
        Some(0)
    } else {
        match member_index(fields.drop_first(), key) {
            Some(i) => Some(i + 1),
            None => None,
        }
    }
}

/// `fields` with the first member named `key` replaced by `(key, value)`, or
/// with that member appended when there is none (`value[key] = ..` on an
/// object).
pub open spec fn set_member(fields: Seq<(String, JsonValue)>, key: String, value: JsonValue) -> Seq<
    (String, JsonValue),
> {
    match member_index(fields, key@) {
        Some(i) => fields.update(i, (key, value)),
        None => fields.push((key, value)),
    }
}

impl JsonValue {
    /// The member named `key`, when `self` is an object that has one.
    #[verifier::loop_isolation(false)]
    pub fn get(&self, key: &str) -> (r: Option<&JsonValue>)
        ensures
            match r {
                Some(m) => json_get(*self, key@) == Some(*m),
                None => json_get(*self, key@) is None,
            },
    {
        match self {
            JsonValue::Object(fields) => {
                let wanted = key.to_owned();
                let mut i: usize = 0;
                assert(fields@.skip(0) =~= fields@);
                while i < fields.len()
                    invariant
                        i <= fields@.len(),
                        wanted@ == key@,
                        member(fields@, key@) == member(fields@.skip(i as int), key@),
                    decreases fields@.len() - i,
                {
                    proof {
                        assert(fields@.skip(i as int).drop_first() =~= fields@.skip(i + 1));
                        assert(fields@.skip(i as int)[0] == fields@[i as int]);
                    }
                    if fields[i].0 == wanted {
                        assert(member(fields@.skip(i as int), key@) == Some(fields@[i as int].1));
                        return Some(&fields[i].1);
                    }
                    i = i + 1;
                }
                None
            },
            _ => None,
        }
    }

    /// The string, when `self` is one.
    pub fn as_str(&self) -> (r: Option<String>)
        ensures
            match r {
                Some(s) => json_str(*self) == Some(s@),
                None => json_str(*self) is None,
            },
    {
        match self {
            JsonValue::Str(s) => Some(s.clone()),
            _ => None,
        }
    }

    /// The integer, when `self` is a number that fits `i64`.
    pub fn as_i64(&self) -> (r: Option<i64>)
        ensures
            r == json_i64(*self),
    {
        match self {
            JsonValue::Number(JsonNumber::Int(i)) => Some(*i),
            _ => None,
        }
    }

    /// The first element, when `self` is a non-empty array.
    pub fn first(&self) -> (r: Option<&JsonValue>)
        ensures
            match *self {
                JsonValue::Array(a) => if a@.len() > 0 {
                    r == Some(&a@[0])
                } else {
                    r is None
                },
                _ => r is None,
            },
    {
        match self {
            JsonValue::Array(a) => {
                if a.len() > 0 {
                    Some(&a[0])
                } else {
                    None
                }
            },
            _ => None,
        }
    }

    /// `self` with member `key` set to `value` (replacing the first member of
    /// that name, or appended); a value that is not an object is returned
    /// unchanged.
    #[verifier::loop_isolation(false)]
    pub fn with_member(self, key: String, value: JsonValue) -> (r: JsonValue)
        ensures
            match self {
                JsonValue::Object(fields) => r matches JsonValue::Object(g) && g@ == set_member(
                    fields@,
                    key,
                    value,
                ),
                _ => r == self,
            },
            self matches JsonValue::Object(_) ==> forall|k: Seq<char>| #[trigger]
                json_get(r, k) == if k == key@ {
                    Some(value)
                } else {
                    json_get(self, k)
                },
    {
        let ghost before = self;
        proof {
            if let JsonValue::Object(f) = before {
                assert forall|k: Seq<char>| #[trigger]
                    member(set_member(f@, key, value), k) == if k == key@ {
                        Some(value)
                    } else {
                        member(f@, k)
                    } by {
                    if k == key@ {
                        law_member_read_after_set(f@, key, value);
                    } else {
                        law_member_set_keeps_others(f@, key, value, k);
                    }
                }
            }
        }
        match self {
            JsonValue::Object(fields) => {
                let ghost orig = fields@;
                let mut fields = fields;
                let mut i: usize = 0;
                assert(fields@.skip(0) =~= fields@);
                while i < fields.len()
                    invariant
                        i <= fields@.len(),
                        fields@ == orig,
                        member_index(fields@, key@) == match member_index(
                            fields@.skip(i as int),
                            key@,
                        ) {
                            Some(j) => Some(j + i),
                            None => None,
                        },
                    decreases fields@.len() - i,
                {
                    proof {
                        assert(fields@.skip(i as int).drop_first() =~= fields@.skip(i + 1));
                        assert(fields@.skip(i as int)[0] == fields@[i as int]);
                    }
                    if fields[i].0 == key {
                        assert(member_index(fields@.skip(i as int), key@) == Some(0int));
                        fields.set(i, (key, value));
                        return JsonValue::Object(fields);
                    }
                    i = i + 1;
                }
                assert(member_index(fields@.skip(i as int), key@) is None);
                fields.push((key, value));
                JsonValue::Object(fields)
            },
            _ => self,
        }
    }
}

/// The string under `key` at the top level of `value`, else under `data`.
pub fn get_json_str(value: &JsonValue, key: &str) -> (r: Option<String>)
    ensures
        match r {
            Some(s) => top_or_data_str(*value, key@) == Some(s@),
            None => top_or_data_str(*value, key@) is None,
        },
{
    if let Some(m) = value.get(key) {
        if let Some(s) = m.as_str() {
            return Some(s);
        }
    }
    match value.get("data") {
        Some(d) => match d.get(key) {
            Some(m) => m.as_str(),
            None => None,
        },
        None => None,
    }
}

} // verus!

verus! {

proof fn lemma_member_at(f: Seq<(String, JsonValue)>, key: Seq<char>, i: int)
    requires
        0 <= i < f.len(),
        f[i].0@ == key,
        forall|j: int| 0 <= j < i ==> (#[trigger] f[j]).0@ != key,
    ensures
        member(f, key) == Some(f[i].1),
    decreases i,
{
    if i > 0 {
        assert forall|j: int| 0 <= j < i - 1 implies (#[trigger] f.drop_first()[j]).0@ != key by {
            assert(f.drop_first()[j] == f[j + 1]);
        }
        lemma_member_at(f.drop_first(), key, i - 1);
    }
}

proof fn lemma_member_none(f: Seq<(String, JsonValue)>, key: Seq<char>)
    requires
        forall|j: int| 0 <= j < f.len() ==> (#[trigger] f[j]).0@ != key,
    ensures
        member(f, key) is None,
    decreases f.len(),
{
    if f.len() > 0 {
        assert forall|j: int| 0 <= j < f.len() - 1 implies (
        #[trigger] f.drop_first()[j]).0@ != key by {
            assert(f.drop_first()[j] == f[j + 1]);
        }
        lemma_member_none(f.drop_first(), key);
    }
}

proof fn lemma_member_index(f: Seq<(String, JsonValue)>, key: Seq<char>)
    ensures
        match member_index(f, key) {
            Some(i) => 0 <= i < f.len() && f[i].0@ == key && forall|j: int|
                0 <= j < i ==> (#[trigger] f[j]).0@ != key,
            None => forall|j: int| 0 <= j < f.len() ==> (#[trigger] f[j]).0@ != key,
        },
    decreases f.len(),
{
    if f.len() > 0 {
        lemma_member_index(f.drop_first(), key);
        assert forall|j: int| 1 <= j < f.len() implies f[j] == #[trigger] f.drop_first()[j - 1] by {}
        match member_index(f.drop_first(), key) {
            Some(i) => {
                if f[0].0@ != key {
                    assert forall|j: int| 0 <= j < i + 1 implies (#[trigger] f[j]).0@ != key by {
                        if j > 0 {
                            assert(f[j] == f.drop_first()[j - 1]);
                        }
                    }
                }
            },
            None => {
                if f[0].0@ != key {
                    assert forall|j: int| 0 <= j < f.len() implies (#[trigger] f[j]).0@ != key by {
                        if j > 0 {
                            assert(f[j] == f.drop_first()[j - 1]);
                        }
                    }
                }
            },
        }
    }
}

/// Reading a member back after setting it gives the value that was set.
pub proof fn law_member_read_after_set(f: Seq<(String, JsonValue)>, key: String, value: JsonValue)
    ensures
        member(set_member(f, key, value), key@) == Some(value),
{
    lemma_member_index(f, key@);
    let g = set_member(f, key, value);
    match member_index(f, key@) {
        Some(i) => {
            assert forall|j: int| 0 <= j < i implies (#[trigger] g[j]).0@ != key@ by {
                assert(g[j] == f[j]);
            }
            lemma_member_at(g, key@, i);
        },
        None => {
            assert forall|j: int| 0 <= j < f.len() implies (#[trigger] g[j]).0@ != key@ by {
                assert(g[j] == f[j]);
            }
            lemma_member_at(g, key@, f.len() as int);
        },
    }
}

/// Setting one member leaves every member of another name as it was.
pub proof fn law_member_set_keeps_others(
    f: Seq<(String, JsonValue)>,
    key: String,
    value: JsonValue,
    other: Seq<char>,
)
    requires
        other != key@,
    ensures
        member(set_member(f, key, value), other) == member(f, other),
{
    lemma_member_index(f, key@);
    lemma_member_index(f, other);
    let g = set_member(f, key, value);
    assert forall|j: int| 0 <= j < f.len() implies (#[trigger] g[j]).0@ == f[j].0@ && (f[j].0@
        == other ==> g[j] == f[j]) by {}
    match member_index(f, other) {
        Some(i) => {
            assert forall|j: int| 0 <= j < i implies (#[trigger] g[j]).0@ != other by {
                assert(g[j].0@ == f[j].0@);
            }
            lemma_member_at(g, other, i);
            lemma_member_at(f, other, i);
        },
        None => {
            assert forall|j: int| 0 <= j < g.len() implies (#[trigger] g[j]).0@ != other by {
                if j < f.len() {
                    assert(g[j].0@ == f[j].0@);
                }
            }
            lemma_member_none(g, other);
            lemma_member_none(f, other);
        },
    }
}

} // verus!
