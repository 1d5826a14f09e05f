//! A JSON document as plain values, the payload of every protocol message.
use vstd::prelude::*;

verus! {

/// A JSON value. Numbers keep the three forms that a JSON reader tells apart:
/// a non-negative integer, a negative integer, and any other number as its text.
#[derive(Debug, PartialEq)]
pub enum Json {
    Null,
    Bool(bool),
    UInt(u64),
    Int(i64),
    Real(String),
    Str(String),
    Array(Vec<Json>),
    Object(Vec<(String, Json)>),
}

/// The value under the first entry named `key`, from position `i` on.
pub open spec fn lookup_from(fields: Seq<(String, Json)>, key: Seq<char>, i: int) -> Option<Json>
    decreases fields.len() - i,
{
    if i < 0 || i >= fields.len() {
        None
    } else if fields[i].0@ == key {
        Some(fields[i].1)
    } else {
        lookup_from(fields, key, i + 1)
    }
}

/// The value under the first entry named `key`.
pub open spec fn lookup(fields: Seq<(String, Json)>, key: Seq<char>) -> Option<Json> {
    lookup_from(fields, key, 0)
}

/// The member `key` of an object; nothing for any other value.
pub open spec fn member(j: Json, key: Seq<char>) -> Option<Json> {
    match j {
        Json::Object(fields) => lookup(fields@, key),
        _ => None,
    }
}

/// A member that is absent or `null` counts as missing.
pub open spec fn non_null(o: Option<Json>) -> Option<Json> {
    match o {
        Some(Json::Null) => None,
        _ => o,
    }
}

/// Whether the text of `s` is `t`.
pub fn text_is(s: &String, t: &str) -> (r: bool)
    ensures
        r == (s@ == t@),
{
    let other = String::from_str(t);
    *s == other
}

/// Position of the first entry named `key`.
pub fn find_field(fields: &Vec<(String, Json)>, key: &str) -> (r: Option<usize>)
    ensures
        r is None ==> lookup(fields@, key@) is None,
        r matches Some(i) ==> i < fields@.len() && fields@[i as int].0@ == key@ && lookup(
            fields@,
            key@,
        ) == Some(fields@[i as int].1),
{
    let mut i: usize = 0;
    while i < fields.len()
        invariant
            i <= fields@.len(),
            lookup(fields@, key@) == lookup_from(fields@, key@, i as int),
        decreases fields@.len() - i,
    {
        if text_is(&fields[i].0, key) {
            return Some(i);
        }
        i = i + 1;
    }
    None
}

/// Whether no two of `names` are the same text.
pub open spec fn distinct_names(names: Seq<&str>) -> bool {
    forall|i: int, j: int| 0 <= i < j < names.len() ==> names[i]@ != names[j]@
}

/// Up to four names, different in pairs, are distinct.
pub proof fn lemma_distinct_names(names: Seq<&str>)
    requires
        names.len() <= 4,
        names.len() > 1 ==> names[0]@ != names[1]@,
        names.len() > 2 ==> names[0]@ != names[2]@ && names[1]@ != names[2]@,
        names.len() > 3 ==> names[0]@ != names[3]@ && names[1]@ != names[3]@ && names[2]@
            != names[3]@,
    ensures
        distinct_names(names),
{
    assert forall|i: int, j: int| 0 <= i < j < names.len() implies names[i]@ != names[j]@ by {
        if i == 0 && j == 1 {
        } else if i == 0 && j == 2 {
        } else if i == 0 && j == 3 {
        } else if i == 1 && j == 2 {
        } else if i == 1 && j == 3 {
        } else {
        }
    }
}

/// The value that the entry at `at` has given up once the entries from `len`
/// on have been taken.
spec fn taken_value(at: Option<usize>, len: int, orig: Seq<(String, Json)>) -> Option<Json> {
    match at {
        Some(i) => if i >= len {
            Some(orig[i as int].1)
        } else {
            None
        },
        None => None,
    }
}

/// Moves out of an object's entries the values under each of `names`, in the
/// order of `names`.
pub fn take_members(fields: Vec<(String, Json)>, names: &Vec<&str>) -> (r: Vec<Option<Json>>)
    requires
        distinct_names(names@),
    ensures
        r@.len() == names@.len(),
        forall|k: int| 0 <= k < names@.len() ==> #[trigger] r@[k] == lookup(fields@, names@[k]@),
{
    let ghost orig = fields@;
    let mut fields = fields;
    let mut at: Vec<Option<usize>> = Vec::new();
    let mut out: Vec<Option<Json>> = Vec::new();
    let mut k: usize = 0;
    while k < names.len()
        invariant
            fields@ == orig,
            k <= names@.len(),
            at@.len() == k,
            out@.len() == k,
            forall|m: int| 0 <= m < k ==> #[trigger] out@[m] is None,
            forall|m: int|
                0 <= m < k ==> (#[trigger] at@[m] is None ==> lookup(orig, names@[m]@) is None),
            forall|m: int|
                0 <= m < k ==> (#[trigger] at@[m] matches Some(i) ==> i < orig.len()
                    && orig[i as int].0@ == names@[m]@ && lookup(orig, names@[m]@) == Some(
                    orig[i as int].1,
                )),
        decreases names@.len() - k,
    {
        at.push(find_field(&fields, names[k]));
        out.push(None);
        k = k + 1;
    }
    while fields.len() > 0
        invariant
            fields@ == orig.subrange(0, fields@.len() as int),
            fields@.len() <= orig.len(),
            at@.len() == names@.len(),
            out@.len() == names@.len(),
            distinct_names(names@),
            forall|m: int|
                0 <= m < names@.len() ==> (#[trigger] at@[m] is None ==> lookup(orig, names@[m]@) is None),
            forall|m: int|
                0 <= m < names@.len() ==> (#[trigger] at@[m] matches Some(i) ==> i < orig.len()
                    && orig[i as int].0@ == names@[m]@ && lookup(orig, names@[m]@) == Some(
                    orig[i as int].1,
                )),
            forall|m: int|
                0 <= m < names@.len() ==> #[trigger] out@[m] == taken_value(
                    at@[m],
                    fields@.len() as int,
                    orig,
                ),
        decreases fields@.len(),
    {
        let p: usize = fields.len() - 1;
        let ghost before = fields@;
        let entry = fields.pop().unwrap();
        assert(entry == orig[p as int]);
        let mut hit: Option<usize> = None;
        let mut m: usize = 0;
        while m < at.len()
            invariant
                m <= at@.len(),
                hit matches Some(h) ==> h < at@.len() && at@[h as int] == Some(p),
                hit is None ==> forall|j: int| 0 <= j < m ==> #[trigger] at@[j] != Some(p),
            decreases at@.len() - m,
        {
            if hit.is_none() {
                match at[m] {
                    Some(i) => {
                        if i == p {
                            hit = Some(m);
                        }
                    },
                    None => {},
                }
            }
            m = m + 1;
        }
        assert(fields@ =~= orig.subrange(0, fields@.len() as int));
        match hit {
            Some(h) => {
                assert forall|j: int| 0 <= j < names@.len() && j != h implies #[trigger] at@[j]
                    != Some(p) by {
                    if at@[j] == Some(p) {
                        if j < h {
                            assert(names@[j]@ != names@[h as int]@);
                        } else {
                            assert(names@[h as int]@ != names@[j]@);
                        }
                    }
                }
                out.set(h, Some(entry.1));
            },
            None => {},
        }
    }
    assert forall|m: int| 0 <= m < names@.len() implies #[trigger] out@[m] == lookup(
        orig,
        names@[m]@,
    ) by {
        if at@[m] is None {
        } else {
        }
    }
    out
}

impl Json {
    /// The member `key` of this value, if it is an object that has one.
    pub fn get(&self, key: &str) -> (r: Option<&Json>)
        ensures
            r matches Some(v) ==> member(*self, key@) == Some(*v),
            r is None ==> member(*self, key@) is None,
    {
        match self {
            Json::Object(fields) => match find_field(fields, key) {
                Some(i) => Some(&fields[i].1),
                None => None,
            },
            _ => None,
        }
    }

    /// An object with no members, as sent for empty parameters.
    pub fn empty_object() -> (r: Json)
        ensures
            r matches Json::Object(f) && f@.len() == 0,
    {
        Json::Object(Vec::new())
    }
}

} // verus!
