//! What of a request's headers is kept in the conversation log.

use vstd::prelude::*;
use crate::json::{entry_models, object, Json, JsonValue};
use crate::text::{lowercase, str_eq, to_lowercase};

verus! {

/// Headers whose values are never logged.
pub open spec fn is_sensitive(name: Seq<char>) -> bool {
    name == "authorization"@ || name == "x-api-key"@ || name == "cookie"@ || name == "set-cookie"@ || name
        == "proxy-authorization"@
}

/// Whether the keys of object entries are all different.
pub open spec fn keys_distinct(es: Seq<(Seq<char>, Json)>) -> bool {
    forall|i: int, j: int| 0 <= i < es.len() && 0 <= j < es.len() && i != j ==> #[trigger] es[i].0 != #[trigger] es[j].0
}

/// Sets `key` to `value`: in place when the key is there, else at the end.
pub open spec fn upsert(es: Seq<(Seq<char>, Json)>, key: Seq<char>, value: Json) -> Seq<(Seq<char>, Json)> {
    if exists|i: int| 0 <= i < es.len() && es[i].0 == key {
        es.update(choose|i: int| 0 <= i < es.len() && es[i].0 == key, (key, value))
    } else {
        es.push((key, value))
    }
}

/// The logged headers: each header's name lowercased; sensitive headers and
/// values that are not visible ASCII (given as `None`) left out; a repeated
/// header keeps its first place and its last value.
pub open spec fn sanitized(headers: Seq<(Seq<char>, Option<Seq<char>>)>) -> Seq<(Seq<char>, Json)>
    decreases headers.len(),
{
    if headers.len() == 0 {
        Seq::empty()
    } else {
        let acc = sanitized(headers.drop_last());
        let (name, value) = headers.last();
        let key = lowercase(name);
        if is_sensitive(key) {
            acc
        } else {
            match value {
                Some(v) => upsert(acc, key, Json::Str(v)),
                None => acc,
            }
        }
    }
}

/// The texts of headers.
pub open spec fn headers_view(h: Seq<(String, Option<String>)>) -> Seq<(Seq<char>, Option<Seq<char>>)> {
    Seq::new(
        h.len(),
        |i: int|
            (h[i].0@, match h[i].1 {
                Some(v) => Some(v@),
                None => None,
            }),
    )
}

fn sensitive(name: &str) -> (r: bool)
    ensures
        r == is_sensitive(name@),
{
    str_eq(name, "authorization") || str_eq(name, "x-api-key") || str_eq(name, "cookie") || str_eq(name, "set-cookie")
        || str_eq(name, "proxy-authorization")
}

fn set_entry(entries: &mut Vec<(String, JsonValue)>, key: String, value: String)
    requires
        keys_distinct(entry_models(old(entries)@)),
    ensures
        entry_models(final(entries)@) == upsert(entry_models(old(entries)@), key@, Json::Str(value@)),
        keys_distinct(entry_models(final(entries)@)),
{
    let ghost es = entry_models(entries@);
    let mut i: usize = 0;
    while i < entries.len()
        invariant
            i <= entries.len(),
            es == entry_models(entries@),
            entries@ == old(entries)@,
            keys_distinct(es),
            forall|j: int| 0 <= j < i ==> es[j].0 != key@,
        decreases entries.len() - i,
    {
        assert(es[i as int].0 == entries@[i as int].0@);
        if str_eq(entries[i].0.as_str(), key.as_str()) {
            let ghost k = key@;
            let ghost found = i as int;
            assert(exists|j: int| 0 <= j < es.len() && es[j].0 == k);
            let ghost c = choose|j: int| 0 <= j < es.len() && es[j].0 == k;
            assert(c == found);
            let ghost vm = Json::Str(value@);
            entries.set(i, (key, JsonValue::Str(value)));
            assert(entry_models(entries@) =~= es.update(found, (k, vm)));
            return;
        }
        i += 1;
    }
    let ghost k = key@;
    let ghost vm = Json::Str(value@);
    entries.push((key, JsonValue::Str(value)));
    assert(entry_models(entries@) =~= es.push((k, vm)));
}

/// The headers of a request as the conversation log keeps them (see
/// [`sanitized`]); values that are not visible ASCII are given as `None`.
pub fn sanitize_headers(headers: &Vec<(String, Option<String>)>) -> (r: JsonValue)
    ensures
        r.model() == Json::Object(sanitized(headers_view(headers@))),
{
    let mut entries: Vec<(String, JsonValue)> = Vec::new();
    let ghost hv = headers_view(headers@);
    let mut i: usize = 0;
    assert(hv.take(0) =~= Seq::<(Seq<char>, Option<Seq<char>>)>::empty());
    assert(entry_models(entries@) =~= Seq::<(Seq<char>, Json)>::empty());
    while i < headers.len()
        invariant
            i <= headers.len(),
            hv == headers_view(headers@),
            entry_models(entries@) == sanitized(hv.take(i as int)),
            keys_distinct(entry_models(entries@)),
        decreases headers.len() - i,
    {
        assert(hv.take(i + 1).drop_last() =~= hv.take(i as int));
        let key = to_lowercase(headers[i].0.as_str());
        if !sensitive(key.as_str()) {
            match &headers[i].1 {
                Some(v) => set_entry(&mut entries, key, v.clone()),
                None => {},
            }
        }
        i += 1;
    }
    assert(hv.take(headers.len() as int) =~= hv);
    object(entries)
}

} // verus!
