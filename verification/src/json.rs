//! A JSON document tree, and the search for usable text in one.
use vstd::prelude::*;
use crate::text::{chars_of, lemma_trim_by_idempotent, string_of, trim, trim_chars, TrimClass};

verus! {

/// A parsed JSON value. Object members keep the order in which the parser
/// hands them out (for `serde_json`, sorted by key).
#[derive(Debug)]
pub enum JsonValue {
    Null,
    Bool(bool),
    /// A number, in the text form the parser prints for it.
    Number(String),
    String(String),
    Array(Vec<JsonValue>),
    Object(Vec<(String, JsonValue)>),
}

/// The member names whose values are searched first, in this order.
pub open spec fn preferred_key(k: int) -> Seq<char> {
    if k == 0 {
        "text"@
    } else if k == 1 {
        "input"@
    } else if k == 2 {
        "payload"@
    } else if k == 3 {
        "prompt"@
    } else if k == 4 {
        "body"@
    } else if k == 5 {
        "message"@
    } else if k == 6 {
        "content"@
    } else if k == 7 {
        "command"@
    } else {
        "query"@
    }
}

/// The preferred member name number `k`.
pub fn preferred_key_string(k: usize) -> (r: String)
    requires
        k < 9,
    ensures
        r@ == preferred_key(k as int),
{
    let s = if k == 0 {
        "text"
    } else if k == 1 {
        "input"
    } else if k == 2 {
        "payload"
    } else if k == 3 {
        "prompt"
    } else if k == 4 {
        "body"
    } else if k == 5 {
        "message"
    } else if k == 6 {
        "content"
    } else if k == 7 {
        "command"
    } else {
        "query"
    };
    let cs = chars_of(s);
    string_of(&cs)
}

/// Index of the first member of `entries` named `key`, searching from `i`.
pub open spec fn member_index(entries: Seq<(String, JsonValue)>, key: Seq<char>, i: int) -> Option<
    int,
>
    decreases entries.len() - i,
{
    if i < 0 || i >= entries.len() {
        None
    } else if entries[i].0@ == key {
        Some(i)
    } else {
        member_index(entries, key, i + 1)
    }
}

/// The text that a JSON value yields: a string that is not blank after
/// trimming (trimmed); for an object, first the values of the preferred
/// members in the order of `preferred_key`, then all member values in order;
/// for an array, its items in order; nothing for other values.
pub open spec fn json_text(v: JsonValue) -> Option<Seq<char>>
    decreases v, 2int, 0int,
{
    match v {
        JsonValue::String(s) => {
            let t = trim(s@);
            if t.len() == 0 {
                None
            } else {
                Some(t)
            }
        },
        JsonValue::Object(entries) => preferred_text(v, 0),
        JsonValue::Array(items) => items_text(v, 0),
        _ => None,
    }
}

/// The text of the preferred members of the object `v`, from key number `k`
/// on; then that of all its members.
pub open spec fn preferred_text(v: JsonValue, k: int) -> Option<Seq<char>>
    decreases v, 1int, 9 - k,
{
    match v {
        JsonValue::Object(entries) => {
            if k < 0 || k >= 9 {
                members_text(v, 0)
            } else {
                match member_index(entries@, preferred_key(k), 0) {
                    Some(j) => {
                        if 0 <= j < entries@.len() {
                            proof {
                                assert(decreases_to!(v => entries));
                                assert(decreases_to!(entries => entries@));
                                assert(decreases_to!(entries@ => entries@[j]));
                                assert(decreases_to!(entries@[j] => entries@[j].1));
                            }
                            match json_text(entries@[j].1) {
                                Some(t) => Some(t),
                                None => preferred_text(v, k + 1),
                            }
                        } else {
                            preferred_text(v, k + 1)
                        }
                    },
                    None => preferred_text(v, k + 1),
                }
            }
        },
        _ => None,
    }
}

/// The text of the members of the object `v` from index `i` on, in order.
pub open spec fn members_text(v: JsonValue, i: int) -> Option<Seq<char>>
    decreases v, 0int, if let JsonValue::Object(e) = v { e@.len() - i } else { 0 },
{
    match v {
        JsonValue::Object(entries) => {
            if 0 <= i < entries@.len() {
                proof {
                    assert(decreases_to!(v => entries));
                    assert(decreases_to!(entries => entries@));
                    assert(decreases_to!(entries@ => entries@[i]));
                    assert(decreases_to!(entries@[i] => entries@[i].1));
                }
                match json_text(entries@[i].1) {
                    Some(t) => Some(t),
                    None => members_text(v, i + 1),
                }
            } else {
                None
            }
        },
        _ => None,
    }
}

/// The text of the items of the array `v` from index `i` on, in order.
pub open spec fn items_text(v: JsonValue, i: int) -> Option<Seq<char>>
    decreases v, 0int, if let JsonValue::Array(a) = v { a@.len() - i } else { 0 },
{
    match v {
        JsonValue::Array(items) => {
            if 0 <= i < items@.len() {
                proof {
                    assert(decreases_to!(v => items));
                    assert(decreases_to!(items => items@));
                    assert(decreases_to!(items@ => items@[i]));
                }
                match json_text(items@[i]) {
                    Some(t) => Some(t),
                    None => items_text(v, i + 1),
                }
            } else {
                None
            }
        },
        _ => None,
    }
}


// ---------------------------------------------------------------------------
// Reachable text
// ---------------------------------------------------------------------------

/// Whether `t` is the trimmed form of a string that is not blank after
/// trimming and is reached in `v` through object member values and array
/// items.
pub open spec fn holds_text(v: JsonValue, t: Seq<char>) -> bool
    decreases v, 1int, 0int,
{
    match v {
        JsonValue::String(s) => trim(s@).len() > 0 && t == trim(s@),
        JsonValue::Object(entries) => members_hold(v, t, 0),
        JsonValue::Array(items) => items_hold(v, t, 0),
        _ => false,
    }
}

/// Whether `t` is held by a member value of the object `v` from index `i` on.
pub open spec fn members_hold(v: JsonValue, t: Seq<char>, i: int) -> bool
    decreases v, 0int, if let JsonValue::Object(e) = v { e@.len() - i } else { 0 },
{
    match v {
        JsonValue::Object(entries) => {
            if 0 <= i < entries@.len() {
                proof {
                    assert(decreases_to!(v => entries));
                    assert(decreases_to!(entries => entries@));
                    assert(decreases_to!(entries@ => entries@[i]));
                    assert(decreases_to!(entries@[i] => entries@[i].1));
                }
                holds_text(entries@[i].1, t) || members_hold(v, t, i + 1)
            } else {
                false
            }
        },
        _ => false,
    }
}

/// Whether `t` is held by an item of the array `v` from index `i` on.
pub open spec fn items_hold(v: JsonValue, t: Seq<char>, i: int) -> bool
    decreases v, 0int, if let JsonValue::Array(a) = v { a@.len() - i } else { 0 },
{
    match v {
        JsonValue::Array(items) => {
            if 0 <= i < items@.len() {
                proof {
                    assert(decreases_to!(v => items));
                    assert(decreases_to!(items => items@));
                    assert(decreases_to!(items@ => items@[i]));
                }
                holds_text(items@[i], t) || items_hold(v, t, i + 1)
            } else {
                false
            }
        },
        _ => false,
    }
}

proof fn lemma_member_reach(v: JsonValue, t: Seq<char>, j: int, i: int)
    requires
        v is Object,
        0 <= i <= j < v->Object_0@.len(),
        holds_text(v->Object_0@[j].1, t),
    ensures
        members_hold(v, t, i),
    decreases j - i,
{
    if i < j {
        lemma_member_reach(v, t, j, i + 1);
    }
}

proof fn lemma_text_sound(v: JsonValue)
    ensures
        json_text(v) matches Some(t) ==> holds_text(v, t),
    decreases v, 3int, 0int,
{
    match v {
        JsonValue::Object(entries) => lemma_preferred_sound(v, 0),
        JsonValue::Array(items) => lemma_items_sound(v, 0),
        _ => {},
    }
}

proof fn lemma_preferred_sound(v: JsonValue, k: int)
    requires
        0 <= k,
    ensures
        preferred_text(v, k) matches Some(t) ==> members_hold(v, t, 0),
    decreases v, 2int, 9 - k,
{
    match v {
        JsonValue::Object(entries) => {
            if k >= 9 {
                lemma_members_sound(v, 0);
            } else {
                match member_index(entries@, preferred_key(k), 0) {
                    Some(j) => {
                        if 0 <= j < entries@.len() {
                            assert(decreases_to!(v => entries));
                            assert(decreases_to!(entries => entries@));
                            assert(decreases_to!(entries@ => entries@[j]));
                            assert(decreases_to!(entries@[j] => entries@[j].1));
                            lemma_text_sound(entries@[j].1);
                            if let Some(t) = json_text(entries@[j].1) {
                                lemma_member_reach(v, t, j, 0);
                            } else {
                                lemma_preferred_sound(v, k + 1);
                            }
                        } else {
                            lemma_preferred_sound(v, k + 1);
                        }
                    },
                    None => lemma_preferred_sound(v, k + 1),
                }
            }
        },
        _ => {},
    }
}

proof fn lemma_members_sound(v: JsonValue, i: int)
    ensures
        members_text(v, i) matches Some(t) ==> members_hold(v, t, i),
    decreases v, 1int, if let JsonValue::Object(e) = v { e@.len() - i } else { 0 },
{
    match v {
        JsonValue::Object(entries) => {
            if 0 <= i < entries@.len() {
                assert(decreases_to!(v => entries));
                assert(decreases_to!(entries => entries@));
                assert(decreases_to!(entries@ => entries@[i]));
                assert(decreases_to!(entries@[i] => entries@[i].1));
                lemma_text_sound(entries@[i].1);
                lemma_members_sound(v, i + 1);
            }
        },
        _ => {},
    }
}

proof fn lemma_items_sound(v: JsonValue, i: int)
    ensures
        items_text(v, i) matches Some(t) ==> items_hold(v, t, i),
    decreases v, 1int, if let JsonValue::Array(a) = v { a@.len() - i } else { 0 },
{
    match v {
        JsonValue::Array(items) => {
            if 0 <= i < items@.len() {
                assert(decreases_to!(v => items));
                assert(decreases_to!(items => items@));
                assert(decreases_to!(items@ => items@[i]));
                lemma_text_sound(items@[i]);
                lemma_items_sound(v, i + 1);
            }
        },
        _ => {},
    }
}

proof fn lemma_preferred_some(v: JsonValue, k: int)
    requires
        0 <= k,
        members_text(v, 0) is Some,
    ensures
        preferred_text(v, k) is Some,
    decreases 9 - k,
{
    if k < 9 {
        lemma_preferred_some(v, k + 1);
    }
}

proof fn lemma_text_complete(v: JsonValue, t: Seq<char>)
    requires
        holds_text(v, t),
    ensures
        json_text(v) is Some,
    decreases v, 2int, 0int,
{
    match v {
        JsonValue::Object(entries) => {
            lemma_members_complete(v, t, 0);
            lemma_preferred_some(v, 0);
        },
        JsonValue::Array(items) => lemma_items_complete(v, t, 0),
        _ => {},
    }
}

proof fn lemma_members_complete(v: JsonValue, t: Seq<char>, i: int)
    requires
        members_hold(v, t, i),
    ensures
        members_text(v, i) is Some,
    decreases v, 1int, if let JsonValue::Object(e) = v { e@.len() - i } else { 0 },
{
    match v {
        JsonValue::Object(entries) => {
            if 0 <= i < entries@.len() {
                assert(decreases_to!(v => entries));
                assert(decreases_to!(entries => entries@));
                assert(decreases_to!(entries@ => entries@[i]));
                assert(decreases_to!(entries@[i] => entries@[i].1));
                if holds_text(entries@[i].1, t) {
                    lemma_text_complete(entries@[i].1, t);
                } else {
                    lemma_members_complete(v, t, i + 1);
                }
            }
        },
        _ => {},
    }
}

proof fn lemma_items_complete(v: JsonValue, t: Seq<char>, i: int)
    requires
        items_hold(v, t, i),
    ensures
        items_text(v, i) is Some,
    decreases v, 1int, if let JsonValue::Array(a) = v { a@.len() - i } else { 0 },
{
    match v {
        JsonValue::Array(items) => {
            if 0 <= i < items@.len() {
                assert(decreases_to!(v => items));
                assert(decreases_to!(items => items@));
                assert(decreases_to!(items@ => items@[i]));
                if holds_text(items@[i], t) {
                    lemma_text_complete(items@[i], t);
                } else {
                    lemma_items_complete(v, t, i + 1);
                }
            }
        },
        _ => {},
    }
}

proof fn lemma_holds_trimmed(v: JsonValue, t: Seq<char>)
    requires
        holds_text(v, t),
    ensures
        t.len() > 0,
        trim(t) == t,
    decreases v, 1int, 0int,
{
    match v {
        JsonValue::String(s) => lemma_trim_by_idempotent(s@, TrimClass::WhiteSpace),
        JsonValue::Object(entries) => lemma_members_trimmed(v, t, 0),
        JsonValue::Array(items) => lemma_items_trimmed(v, t, 0),
        _ => {},
    }
}

proof fn lemma_members_trimmed(v: JsonValue, t: Seq<char>, i: int)
    requires
        members_hold(v, t, i),
    ensures
        t.len() > 0,
        trim(t) == t,
    decreases v, 0int, if let JsonValue::Object(e) = v { e@.len() - i } else { 0 },
{
    match v {
        JsonValue::Object(entries) => {
            if 0 <= i < entries@.len() {
                assert(decreases_to!(v => entries));
                assert(decreases_to!(entries => entries@));
                assert(decreases_to!(entries@ => entries@[i]));
                assert(decreases_to!(entries@[i] => entries@[i].1));
                if holds_text(entries@[i].1, t) {
                    lemma_holds_trimmed(entries@[i].1, t);
                } else {
                    lemma_members_trimmed(v, t, i + 1);
                }
            }
        },
        _ => {},
    }
}

proof fn lemma_items_trimmed(v: JsonValue, t: Seq<char>, i: int)
    requires
        items_hold(v, t, i),
    ensures
        t.len() > 0,
        trim(t) == t,
    decreases v, 0int, if let JsonValue::Array(a) = v { a@.len() - i } else { 0 },
{
    match v {
        JsonValue::Array(items) => {
            if 0 <= i < items@.len() {
                assert(decreases_to!(v => items));
                assert(decreases_to!(items => items@));
                assert(decreases_to!(items@ => items@[i]));
                if holds_text(items@[i], t) {
                    lemma_holds_trimmed(items@[i], t);
                } else {
                    lemma_items_trimmed(v, t, i + 1);
                }
            }
        },
        _ => {},
    }
}

/// Text is found in a JSON value exactly when some string reached in it
/// through member values and array items is not blank; what is found is
/// such a string, trimmed: not empty, and without white space at either end.
pub proof fn law_json_text_found(v: JsonValue)
    ensures
        json_text(v) is Some <==> exists|t: Seq<char>| holds_text(v, t),
        json_text(v) matches Some(t) ==> holds_text(v, t) && t.len() > 0 && trim(t) == t,
{
    lemma_text_sound(v);
    if let Some(t) = json_text(v) {
        lemma_holds_trimmed(v, t);
        assert(holds_text(v, t));
    }
    assert forall|t: Seq<char>| holds_text(v, t) implies json_text(v) is Some by {
        lemma_text_complete(v, t);
    }
}


proof fn lemma_member_index_in_range(entries: Seq<(String, JsonValue)>, key: Seq<char>, i: int)
    ensures
        member_index(entries, key, i) matches Some(j) ==> 0 <= j < entries.len() && entries[j].0@ == key,
    decreases entries.len() - i,
{
    if 0 <= i < entries.len() && entries[i].0@ != key {
        lemma_member_index_in_range(entries, key, i + 1);
    }
}

proof fn lemma_preferred_reaches(v: JsonValue, k: int, m: int, t: Seq<char>)
    requires
        v is Object,
        0 <= m <= k < 9,
        preferred_text(v, k) == Some(t),
        forall|n: int|
            #![trigger preferred_key(n)]
            0 <= m <= n < k ==> match member_index(v->Object_0@, preferred_key(n), 0) {
                Some(i) => 0 <= i < v->Object_0@.len() ==> json_text(v->Object_0@[i].1) is None,
                None => true,
            },
    ensures
        preferred_text(v, m) == Some(t),
    decreases k - m,
{
    if m < k {
        lemma_preferred_reaches(v, k, m + 1, t);
        assert(preferred_key(m) == preferred_key(m));
    }
}

/// In an object, the members named by the preferred keys (`text`, `input`,
/// `payload`, `prompt`, `body`, `message`, `content`, `command`, `query`,
/// in that order) are searched before any other member: when the first
/// member named by key `k` yields text `t`, and no member named by an
/// earlier key yields text, the object's text is `t`, wherever that member
/// stands among the others.
pub proof fn law_preferred_members_first(entries: Vec<(String, JsonValue)>, k: int, j: int, t: Seq<char>)
    requires
        0 <= k < 9,
        member_index(entries@, preferred_key(k), 0) == Some(j),
        json_text(entries@[j].1) == Some(t),
        forall|n: int|
            #![trigger preferred_key(n)]
            0 <= n < k ==> match member_index(entries@, preferred_key(n), 0) {
                Some(i) => json_text(entries@[i].1) is None,
                None => true,
            },
    ensures
        json_text(JsonValue::Object(entries)) == Some(t),
        preferred_key(0) == "text"@,
        preferred_key(1) == "input"@,
        preferred_key(2) == "payload"@,
        preferred_key(3) == "prompt"@,
        preferred_key(4) == "body"@,
        preferred_key(5) == "message"@,
        preferred_key(6) == "content"@,
        preferred_key(7) == "command"@,
        preferred_key(8) == "query"@,
{
    let v = JsonValue::Object(entries);
    lemma_member_index_in_range(entries@, preferred_key(k), 0);
    assert(preferred_text(v, k) == Some(t));
    lemma_preferred_reaches(v, k, 0, t);
}


/// The view of an optional string.
pub open spec fn opt_view(o: Option<String>) -> Option<Seq<char>> {
    match o {
        Some(s) => Some(s@),
        None => None,
    }
}

/// Index of the first member of `entries` named `key`.
fn find_member(entries: &Vec<(String, JsonValue)>, key: &String) -> (r: Option<usize>)
    ensures
        r matches Some(j) ==> j < entries@.len(),
        match r {
            Some(j) => member_index(entries@, key@, 0) == Some(j as int),
            None => member_index(entries@, key@, 0) is None,
        },
{
    let mut i: usize = 0;
    while i < entries.len()
        invariant
            i <= entries.len(),
            member_index(entries@, key@, 0) == member_index(entries@, key@, i as int),
        decreases entries.len() - i,
    {
        if entries[i].0 == *key {
            return Some(i);
        }
        i = i + 1;
    }
    None
}

/// The text of a string value: trimmed, and only if not blank.
fn string_text(s: &String) -> (r: Option<String>)
    ensures
        opt_view(r) == (if trim(s@).len() == 0 {
            None
        } else {
            Some(trim(s@))
        }),
{
    let cs = chars_of(s.as_str());
    let t = trim_chars(&cs, TrimClass::WhiteSpace);
    if t.len() == 0 {
        None
    } else {
        Some(string_of(&t))
    }
}

/// Finds usable text in a JSON value, as `json_text` describes.
pub fn extract_text_from_json(value: &JsonValue) -> (r: Option<String>)
    ensures
        opt_view(r) == json_text(*value),
    decreases *value,
{
    match value {
        JsonValue::String(s) => string_text(s),
        JsonValue::Object(entries) => {
            let ghost v = *value;
            let mut k: usize = 0;
            while k < 9
                invariant
                    k <= 9,
                    v == *value,
                    v == JsonValue::Object(*entries),
                    json_text(v) == preferred_text(v, k as int),
                decreases 9 - k,
            {
                let key = preferred_key_string(k);
                match find_member(entries, &key) {
                    Some(j) => {
                        proof {
                            assert(decreases_to!(v => *entries));
                            assert(decreases_to!(*entries => entries@));
                            assert(decreases_to!(entries@ => entries@[j as int]));
                            assert(decreases_to!(entries@[j as int] => entries@[j as int].1));
                        }
                        let found = extract_text_from_json(&entries[j].1);
                        if found.is_some() {
                            return found;
                        }
                    },
                    None => {},
                }
                k = k + 1;
            }
            let mut i: usize = 0;
            while i < entries.len()
                invariant
                    i <= entries.len(),
                    v == *value,
                    v == JsonValue::Object(*entries),
                    json_text(v) == members_text(v, i as int),
                decreases entries.len() - i,
            {
                proof {
                    assert(decreases_to!(v => *entries));
                    assert(decreases_to!(*entries => entries@));
                    assert(decreases_to!(entries@ => entries@[i as int]));
                    assert(decreases_to!(entries@[i as int] => entries@[i as int].1));
                }
                let found = extract_text_from_json(&entries[i].1);
                if found.is_some() {
                    return found;
                }
                i = i + 1;
            }
            None
        },
        JsonValue::Array(items) => {
            let ghost v = *value;
            let mut i: usize = 0;
            while i < items.len()
                invariant
                    i <= items.len(),
                    v == *value,
                    v == JsonValue::Array(*items),
                    json_text(v) == items_text(v, i as int),
                decreases items.len() - i,
            {
                proof {
                    assert(decreases_to!(v => *items));
                    assert(decreases_to!(*items => items@));
                    assert(decreases_to!(items@ => items@[i as int]));
                }
                let found = extract_text_from_json(&items[i]);
                if found.is_some() {
                    return found;
                }
                i = i + 1;
            }
            None
        },
        _ => None,
    }
}

} // verus!
