//! A plain model of a JSON document and the lookups the commands make in
//! the answers of the Riot and valorant-api.com services.
use vstd::prelude::*;

verus! {

/// A JSON value. Numbers keep their decimal text; an object keeps its
/// members in order, each key once.
#[derive(Debug)]
pub enum JsonValue {
    Null,
    Bool(bool),
    Number(String),
    Str(String),
    Array(Vec<JsonValue>),
    Object(Vec<(String, JsonValue)>),
}

/// `i` is the first member of `members` whose key is `key`.
pub open spec fn is_first_member(members: Seq<(String, JsonValue)>, key: Seq<char>, i: int) -> bool {
    &&& 0 <= i < members.len()
    &&& members[i].0@ == key
    &&& forall|j: int| 0 <= j < i ==> (#[trigger] members[j]).0@ != key
}

/// The position of the first member named `key` (meaningful when there is one).
pub open spec fn first_member(members: Seq<(String, JsonValue)>, key: Seq<char>) -> int {
    choose|i: int| is_first_member(members, key, i)
}

/// The value stored under `key` when `v` is an object (what
/// `serde_json::Value::get` with a string key gives).
pub open spec fn field(v: JsonValue, key: Seq<char>) -> Option<JsonValue> {
    match v {
        JsonValue::Object(members) => if exists|i: int| #[trigger] is_first_member(members@, key, i) {
            Some(members@[first_member(members@, key)].1)
        } else {
            None
        },
        _ => None,
    }
}

/// The text of `v` when it is a string (what `as_str` gives).
pub open spec fn text_of(v: JsonValue) -> Option<Seq<char>> {
    match v {
        JsonValue::Str(s) => Some(s@),
        _ => None,
    }
}

/// The string found by following `keys` through nested objects.
pub open spec fn text_at(v: JsonValue, keys: Seq<Seq<char>>) -> Option<Seq<char>>
    decreases keys.len(),
{
    if keys.len() == 0 {
        text_of(v)
    } else {
        match field(v, keys[0]) {
            Some(inner) => text_at(inner, keys.skip(1)),
            None => None,
        }
    }
}

/// The texts of the string items, in order, skipping all others.
pub open spec fn string_items(items: Seq<JsonValue>) -> Seq<Seq<char>>
    decreases items.len(),
{
    if items.len() == 0 {
        Seq::empty()
    } else {
        match text_of(items.last()) {
            Some(s) => string_items(items.drop_last()).push(s),
            None => string_items(items.drop_last()),
        }
    }
}

proof fn lemma_first_member_unique(members: Seq<(String, JsonValue)>, key: Seq<char>, i: int)
    requires
        is_first_member(members, key, i),
    ensures
        first_member(members, key) == i,
{
    let k = first_member(members, key);
    assert(is_first_member(members, key, k));
    if k < i {
        assert(members[k].0@ != key);
    } else if i < k {
        assert(members[i].0@ != key);
    }
}

proof fn lemma_field_at(m: Vec<(String, JsonValue)>, key: Seq<char>, i: int)
    requires
        is_first_member(m@, key, i),
    ensures
        field(JsonValue::Object(m), key) == Some(m@[i].1),
{
    lemma_first_member_unique(m@, key, i);
}

/// `members` has exactly one member named `key`, at position `i`.
pub open spec fn unique_member(members: Seq<(String, JsonValue)>, key: Seq<char>, i: int) -> bool {
    &&& 0 <= i < members.len()
    &&& members[i].0@ == key
    &&& forall|j: int| 0 <= j < members.len() && j != i ==> (#[trigger] members[j]).0@ != key
}

/// Looking a key up in an object gives the value of the member with that
/// key, wherever it stands among the members.
pub proof fn law_field_finds_member(members: Vec<(String, JsonValue)>, key: Seq<char>, i: int)
    requires
        unique_member(members@, key, i),
    ensures
        field(JsonValue::Object(members), key) == Some(members@[i].1),
{
    assert(is_first_member(members@, key, i));
    lemma_field_at(members, key, i);
}

/// Looking up a key that no member has gives nothing.
pub proof fn law_field_absent(members: Vec<(String, JsonValue)>, key: Seq<char>)
    requires
        forall|j: int| 0 <= j < members@.len() ==> (#[trigger] members@[j]).0@ != key,
    ensures
        field(JsonValue::Object(members), key) is None,
{
}

/// Only objects have members.
pub proof fn law_field_of_non_object(v: JsonValue, key: Seq<char>)
    requires
        !(v is Object),
    ensures
        field(v, key) is None,
{
}

/// A string gives its whole text, and any other value none.
pub proof fn law_text_of(v: JsonValue)
    ensures
        v matches JsonValue::Str(s) ==> text_of(v) == Some(s@),
        !(v is Str) ==> text_of(v) is None,
{
}

/// Following the empty path ends in the whole text of a string value.
pub proof fn law_text_at_end(s: String)
    ensures
        text_at(JsonValue::Str(s), Seq::empty()) == Some(s@),
{
}

/// Following a path steps into the member named by its first key,
/// wherever that member stands, and follows the rest of the path there.
pub proof fn law_text_at_step(members: Vec<(String, JsonValue)>, key: Seq<char>, i: int, rest: Seq<Seq<char>>)
    requires
        unique_member(members@, key, i),
    ensures
        text_at(JsonValue::Object(members), seq![key] + rest) == text_at(members@[i].1, rest),
{
    law_field_finds_member(members, key, i);
    assert((seq![key] + rest)[0] == key);
    assert((seq![key] + rest).skip(1) =~= rest);
}

/// A path into a value that is not an object finds nothing.
pub proof fn law_text_at_non_object(v: JsonValue, keys: Seq<Seq<char>>)
    requires
        keys.len() > 0,
        !(v is Object),
    ensures
        text_at(v, keys) is None,
{
}

/// Collecting the strings of no items gives none.
pub proof fn law_string_items_empty()
    ensures
        string_items(Seq::empty()) == Seq::<Seq<char>>::empty(),
{
}

/// A string item adds its whole text at the end of the collected texts.
pub proof fn law_string_items_string(items: Seq<JsonValue>, s: String)
    ensures
        string_items(items.push(JsonValue::Str(s))) == string_items(items).push(s@),
{
    assert(items.push(JsonValue::Str(s)).drop_last() =~= items);
}

/// An item that is not a string adds nothing.
pub proof fn law_string_items_other(items: Seq<JsonValue>, v: JsonValue)
    requires
        !(v is Str),
    ensures
        string_items(items.push(v)) == string_items(items),
{
    assert(items.push(v).drop_last() =~= items);
}

impl JsonValue {
    /// The member stored under `key`, when this is an object that has one.
    pub fn get(&self, key: &str) -> (r: Option<&JsonValue>)
        ensures
            match field(*self, key@) {
                Some(v) => r == Some(&v),
                None => r is None,
            },
    {
        match self {
            JsonValue::Object(members) => {
                let k = key.to_owned();
                let mut i: usize = 0;
                while i < members.len()
                    invariant
                        *self == JsonValue::Object(*members),
                        k@ == key@,
                        i <= members@.len(),
                        forall|j: int| 0 <= j < i ==> (#[trigger] members@[j]).0@ != key@,
                    decreases members@.len() - i,
                {
                    if members[i].0 == k {
                        proof {
                            assert(is_first_member(members@, key@, i as int));
                            lemma_field_at(*members, key@, i as int);
                        }
                        return Some(&members[i].1);
                    }
                    i = i + 1;
                }
                None
            },
            _ => None,
        }
    }

    /// The text of this value when it is a string.
    pub fn as_str(&self) -> (r: Option<String>)
        ensures
            match text_of(*self) {
                Some(t) => r matches Some(s) && s@ == t,
                None => r is None,
            },
    {
        match self {
            JsonValue::Str(s) => Some(s.clone()),
            _ => None,
        }
    }

    /// The string found by following the keys of `path` through nested objects.
    pub fn text_at_path(&self, path: &[&str]) -> (r: Option<String>)
        ensures
            match text_at(*self, path@.map_values(|k: &str| k@)) {
                Some(t) => r matches Some(s) && s@ == t,
                None => r is None,
            },
    {
        let ghost keys = path@.map_values(|k: &str| k@);
        let mut cur: &JsonValue = self;
        let mut i: usize = 0;
        assert(keys.skip(0) =~= keys);
        while i < path.len()
            invariant
                keys == path@.map_values(|k: &str| k@),
                i <= path@.len(),
                text_at(*self, keys) == text_at(*cur, keys.skip(i as int)),
            decreases path@.len() - i,
        {
            let ghost rest = keys.skip(i as int);
            assert(rest[0] == path@[i as int]@);
            assert(rest.skip(1) =~= keys.skip(i + 1));
            match cur.get(path[i]) {
                Some(inner) => {
                    cur = inner;
                },
                None => {
                    return None;
                },
            }
            i = i + 1;
        }
        assert(keys.skip(i as int) =~= Seq::<Seq<char>>::empty());
        cur.as_str()
    }
}

/// The texts of the string items of `items`, in order.
pub fn collect_strings(items: &Vec<JsonValue>) -> (r: Vec<String>)
    ensures
        r@.map_values(|s: String| s@) == string_items(items@),
{
    let mut r: Vec<String> = Vec::new();
    let mut i: usize = 0;
    while i < items.len()
        invariant
            i <= items@.len(),
            r@.map_values(|s: String| s@) == string_items(items@.take(i as int)),
        decreases items@.len() - i,
    {
        let ghost pre = r@;
        assert(items@.take(i + 1).drop_last() =~= items@.take(i as int));
        assert(items@.take(i + 1).last() == items@[i as int]);
        match items[i].as_str() {
            Some(s) => {
                r.push(s);
                assert(r@.map_values(|s: String| s@) =~= pre.map_values(|s: String| s@).push(
                    r@[pre.len() as int]@,
                ));
            },
            None => {},
        }
        i = i + 1;
    }
    assert(items@.take(items@.len() as int) =~= items@);
    r
}

} // verus!
