//! A plain JSON value model that the conversion logic reads and builds.

use vstd::prelude::*;
use crate::text::{chars_of, int_text, owned, push_char, push_i64, push_str, str_eq};

verus! {

/// A JSON document. Numbers are kept as their literal text.
pub enum JsonValue {
    Null,
    Bool(bool),
    Number(String),
    Str(String),
    Array(Vec<JsonValue>),
    Object(Vec<(String, JsonValue)>),
}

/// The mathematical form of a JSON document.
pub enum Json {
    Null,
    Bool(bool),
    Number(Seq<char>),
    Str(Seq<char>),
    Array(Seq<Json>),
    Object(Seq<(Seq<char>, Json)>),
}

impl JsonValue {
    pub open spec fn model(self) -> Json
        decreases self,
    {
        match self {
            JsonValue::Null => Json::Null,
            JsonValue::Bool(b) => Json::Bool(b),
            JsonValue::Number(n) => Json::Number(n@),
            JsonValue::Str(s) => Json::Str(s@),
            JsonValue::Array(items) => Json::Array(
                Seq::new(items@.len(), |i: int| if 0 <= i < items@.len() { items@[i].model() } else { Json::Null }),
            ),
            JsonValue::Object(entries) => Json::Object(
                Seq::new(
                    entries@.len(),
                    |i: int|
                        if 0 <= i < entries@.len() {
                            (entries@[i].0@, entries@[i].1.model())
                        } else {
                            (Seq::empty(), Json::Null)
                        },
                ),
            ),
        }
    }
}

/// The value of the first entry named `key`.
pub open spec fn lookup(entries: Seq<(Seq<char>, Json)>, key: Seq<char>) -> Option<Json>
    decreases entries.len(),
{
    if entries.len() == 0 {
        None
    } else if entries[0].0 == key {
        Some(entries[0].1)
    } else {
        lookup(entries.drop_first(), key)
    }
}

/// Looking a key up in two runs of entries finds it in the first run, or else
/// in the second.
pub proof fn lemma_lookup_append(a: Seq<(Seq<char>, Json)>, b: Seq<(Seq<char>, Json)>, key: Seq<char>)
    ensures
        lookup(a + b, key) == match lookup(a, key) {
            Some(v) => Some(v),
            None => lookup(b, key),
        },
    decreases a.len(),
{
    if a.len() == 0 {
        assert(a + b =~= b);
    } else {
        assert((a + b).drop_first() =~= a.drop_first() + b);
        lemma_lookup_append(a.drop_first(), b, key);
    }
}

/// A key that no entry has is not found.
pub proof fn lemma_lookup_absent(entries: Seq<(Seq<char>, Json)>, key: Seq<char>)
    requires
        forall|i: int| 0 <= i < entries.len() ==> #[trigger] entries[i].0 != key,
    ensures
        lookup(entries, key) is None,
    decreases entries.len(),
{
    if entries.len() > 0 {
        assert(entries[0].0 != key);
        let rest = entries.drop_first();
        assert forall|i: int| 0 <= i < rest.len() implies #[trigger] rest[i].0 != key by {
            assert(rest[i] == entries[i + 1]);
        }
        lemma_lookup_absent(rest, key);
    }
}

impl Json {
    /// `Value::get` with a key: the member of an object.
    pub open spec fn get(self, key: Seq<char>) -> Option<Json> {
        match self {
            Json::Object(entries) => lookup(entries, key),
            _ => None,
        }
    }

    /// `Value::as_str`.
    pub open spec fn as_str(self) -> Option<Seq<char>> {
        match self {
            Json::Str(s) => Some(s),
            _ => None,
        }
    }

    /// `value.get(key).and_then(|v| v.as_str())`.
    pub open spec fn get_str(self, key: Seq<char>) -> Option<Seq<char>> {
        match self.get(key) {
            Some(v) => v.as_str(),
            None => None,
        }
    }

    /// `value.get(key).and_then(|v| v.as_str()).unwrap_or(default)`.
    pub open spec fn str_or(self, key: Seq<char>, default: Seq<char>) -> Seq<char> {
        match self.get_str(key) {
            Some(s) => s,
            None => default,
        }
    }
}

/// The models of a sequence of values.
pub open spec fn models(items: Seq<JsonValue>) -> Seq<Json> {
    Seq::new(items.len(), |i: int| items[i].model())
}

/// The models of a sequence of object entries.
pub open spec fn entry_models(entries: Seq<(String, JsonValue)>) -> Seq<(Seq<char>, Json)> {
    Seq::new(entries.len(), |i: int| (entries[i].0@, entries[i].1.model()))
}

impl JsonValue {
    /// The model of an array or object is the models of its parts.
    pub proof fn lemma_model_shape(&self)
        ensures
            self matches JsonValue::Array(items) ==> self.model() == Json::Array(models(items@)),
            self matches JsonValue::Object(entries) ==> self.model() == Json::Object(
                entry_models(entries@),
            ),
    {
        match self {
            JsonValue::Array(items) => {
                assert(self.model()->Array_0 =~= models(items@));
            },
            JsonValue::Object(entries) => {
                assert(self.model()->Object_0 =~= entry_models(entries@));
            },
            _ => {},
        }
    }

    /// `Value::get`: the member named `key` of an object.
    #[verifier::loop_isolation(false)]
    pub fn get(&self, key: &str) -> (r: Option<&JsonValue>)
        ensures
            r matches Some(x) ==> self.model().get(key@) == Some(x.model()),
            r is None ==> self.model().get(key@) is None,
    {
        proof {
            self.lemma_model_shape();
        }
        match self {
            JsonValue::Object(entries) => {
                let ghost em = entry_models(entries@);
                let mut i: usize = 0;
                assert(em.skip(0) =~= em);
                while i < entries.len()
                    invariant
                        i <= entries@.len(),
                        em == entry_models(entries@),
                        lookup(em, key@) == lookup(em.skip(i as int), key@),
                    decreases entries.len() - i,
                {
                    assert(em.skip(i as int)[0] == em[i as int]);
                    assert(em[i as int] == (entries@[i as int].0@, entries@[i as int].1.model()));
                    if str_eq(entries[i].0.as_str(), key) {
                        let ghost rest = em.skip(i as int);
                        assert(rest.len() > 0);
                        assert(rest[0] == em[i as int]);
                        assert(rest[0].0 == key@);
                        assert(lookup(rest, key@) == Some(rest[0].1));
                        return Some(&entries[i].1);
                    }
                    assert(em.skip(i as int).drop_first() =~= em.skip(i + 1));
                    i += 1;
                }
                None
            },
            _ => None,
        }
    }

    /// `Value::as_str`.
    pub fn as_str(&self) -> (r: Option<&String>)
        ensures
            r matches Some(s) ==> self.model().as_str() == Some(s@),
            r is None ==> self.model().as_str() is None,
    {
        match self {
            JsonValue::Str(s) => Some(s),
            _ => None,
        }
    }

    /// `Value::as_array`.
    pub fn as_array(&self) -> (r: Option<&Vec<JsonValue>>)
        ensures
            r matches Some(v) ==> self.model() == Json::Array(models(v@)),
            r is None ==> !(self.model() is Array),
    {
        proof {
            self.lemma_model_shape();
        }
        match self {
            JsonValue::Array(v) => Some(v),
            _ => None,
        }
    }

    /// `value.get(key).and_then(|v| v.as_str())`.
    pub fn get_str(&self, key: &str) -> (r: Option<&String>)
        ensures
            r matches Some(s) ==> self.model().get_str(key@) == Some(s@),
            r is None ==> self.model().get_str(key@) is None,
    {
        match self.get(key) {
            Some(v) => v.as_str(),
            None => None,
        }
    }

    /// `value.get(key).and_then(|v| v.as_str()).unwrap_or(default)`, owned.
    pub fn str_or(&self, key: &str, default: &str) -> (r: String)
        ensures
            r@ == self.model().str_or(key@, default@),
    {
        match self.get_str(key) {
            Some(s) => s.clone(),
            None => owned(default),
        }
    }

    /// A copy with the same model.
    #[verifier::loop_isolation(false)]
    pub fn deep_clone(&self) -> (r: JsonValue)
        ensures
            r.model() == self.model(),
        decreases self,
    {
        proof {
            self.lemma_model_shape();
        }
        match self {
            JsonValue::Null => JsonValue::Null,
            JsonValue::Bool(b) => JsonValue::Bool(*b),
            JsonValue::Number(n) => JsonValue::Number(n.clone()),
            JsonValue::Str(s) => JsonValue::Str(s.clone()),
            JsonValue::Array(items) => {
                let mut out: Vec<JsonValue> = Vec::new();
                let mut i: usize = 0;
                while i < items.len()
                    invariant
                        i <= items@.len(),
                        models(out@) =~= models(items@).take(i as int),
                    decreases items.len() - i,
                {
                    proof {
                        vstd::std_specs::vec::axiom_vec_index_decreases(*items, i as int);

                    }
                    let c = items[i].deep_clone();
                    let ghost before = out@;
                    out.push(c);
                    assert(models(out@) =~= models(before).push(items@[i as int].model()));
                    assert(models(items@).take(i + 1) =~= models(items@).take(i as int).push(
                        items@[i as int].model(),
                    ));
                    i += 1;
                }
                let r = JsonValue::Array(out);
                proof {
                    r.lemma_model_shape();
                    assert(models(items@).take(items@.len() as int) =~= models(items@));
                }
                r
            },
            JsonValue::Object(entries) => {
                let mut out: Vec<(String, JsonValue)> = Vec::new();
                let mut i: usize = 0;
                while i < entries.len()
                    invariant
                        i <= entries@.len(),
                        entry_models(out@) =~= entry_models(entries@).take(i as int),
                    decreases entries.len() - i,
                {
                    proof {
                        vstd::std_specs::vec::axiom_vec_index_decreases(*entries, i as int);
                    }
                    let c = entries[i].1.deep_clone();
                    let ghost before = out@;
                    out.push((entries[i].0.clone(), c));
                    assert(entry_models(out@) =~= entry_models(before).push(
                        (entries@[i as int].0@, entries@[i as int].1.model()),
                    ));
                    assert(entry_models(entries@).take(i + 1) =~= entry_models(entries@).take(
                        i as int,
                    ).push((entries@[i as int].0@, entries@[i as int].1.model())));
                    i += 1;
                }
                let r = JsonValue::Object(out);
                proof {
                    r.lemma_model_shape();
                    assert(entry_models(entries@).take(entries@.len() as int) =~= entry_models(
                        entries@,
                    ));
                }
                r
            },
        }
    }
}

/// A JSON object with the given entries.
pub fn object(entries: Vec<(String, JsonValue)>) -> (r: JsonValue)
    ensures
        r.model() == Json::Object(entry_models(entries@)),
{
    let r = JsonValue::Object(entries);
    proof {
        r.lemma_model_shape();
    }
    r
}

/// A JSON array with the given items.
pub fn array(items: Vec<JsonValue>) -> (r: JsonValue)
    ensures
        r.model() == Json::Array(models(items@)),
{
    let r = JsonValue::Array(items);
    proof {
        r.lemma_model_shape();
    }
    r
}

/// An object entry whose value is a string.
pub fn str_entry(key: &str, value: &str) -> (e: (String, JsonValue))
    ensures
        e.0@ == key@,
        e.1.model() == Json::Str(value@),
{
    (owned(key), JsonValue::Str(owned(value)))
}

/// Appends an entry to a list of object entries.
pub fn push_entry(entries: &mut Vec<(String, JsonValue)>, key: &str, value: JsonValue)
    ensures
        entry_models(final(entries)@) == entry_models(old(entries)@).push((key@, value.model())),
{
    let ghost vm = value.model();
    entries.push((owned(key), value));
    assert(entry_models(entries@) =~= entry_models(old(entries)@).push((key@, vm)));
}

/// A JSON integer.
pub fn json_int(n: i64) -> (r: JsonValue)
    ensures
        r.model() == Json::Number(int_text(n as int)),
{
    let mut s = String::new();
    push_i64(&mut s, n);
    JsonValue::Number(s)
}

/// An empty JSON array.
pub fn empty_array() -> (r: JsonValue)
    ensures
        r.model() == Json::Array(Seq::empty()),
{
    let r = array(Vec::new());
    assert(models(Seq::<JsonValue>::empty()) =~= Seq::<Json>::empty());
    r
}

/// A JSON string value.
pub fn json_str(s: &str) -> (r: JsonValue)
    ensures
        r.model() == Json::Str(s@),
{
    JsonValue::Str(owned(s))
}

/// An object whose first member `type` names its kind, followed by `rest`.
pub open spec fn tagged(t: Seq<char>, rest: Seq<(Seq<char>, Json)>) -> Json {
    Json::Object(seq![("type"@, Json::Str(t))] + rest)
}

/// A JSON boolean.
pub fn json_bool(b: bool) -> (r: JsonValue)
    ensures
        r.model() == Json::Bool(b),
{
    JsonValue::Bool(b)
}

/// The model of an optional string as serde writes it: the string, or null.
pub open spec fn opt_str_model(o: Option<String>) -> Json {
    match o {
        Some(s) => Json::Str(s@),
        None => Json::Null,
    }
}

/// An optional string: the string, or null.
pub fn opt_str_json(o: &Option<String>) -> (r: JsonValue)
    ensures
        r.model() == opt_str_model(*o),
{
    match o {
        Some(s) => JsonValue::Str(s.clone()),
        None => JsonValue::Null,
    }
}

// ---------------------------------------------------------------------------
// Compact text form
// ---------------------------------------------------------------------------

/// The lower-case hexadecimal digit of a nibble `n < 16`.
pub open spec fn nibble_char(n: u32) -> char {
    if n == 0 {
        '0'
    } else if n == 1 {
        '1'
    } else if n == 2 {
        '2'
    } else if n == 3 {
        '3'
    } else if n == 4 {
        '4'
    } else if n == 5 {
        '5'
    } else if n == 6 {
        '6'
    } else if n == 7 {
        '7'
    } else if n == 8 {
        '8'
    } else if n == 9 {
        '9'
    } else if n == 10 {
        'a'
    } else if n == 11 {
        'b'
    } else if n == 12 {
        'c'
    } else if n == 13 {
        'd'
    } else if n == 14 {
        'e'
    } else {
        'f'
    }
}

/// How a character is written inside a JSON string: quote, backslash and control
/// characters are escaped (short forms for \b \t \n \f \r, `\u00XX` otherwise).
pub open spec fn escape_char(c: char) -> Seq<char> {
    let u = c as u32;
    if c == '"' {
        seq!['\\', '"']
    } else if c == '\\' {
        seq!['\\', '\\']
    } else if u == 8 {
        seq!['\\', 'b']
    } else if u == 9 {
        seq!['\\', 't']
    } else if u == 10 {
        seq!['\\', 'n']
    } else if u == 12 {
        seq!['\\', 'f']
    } else if u == 13 {
        seq!['\\', 'r']
    } else if u < 0x20 {
        seq!['\\', 'u', '0', '0', nibble_char(u / 16), nibble_char(u % 16)]
    } else {
        seq![c]
    }
}

/// The escaped body of a JSON string.
pub open spec fn escape_str(s: Seq<char>) -> Seq<char>
    decreases s.len(),
{
    if s.len() == 0 {
        Seq::empty()
    } else {
        escape_str(s.drop_last()) + escape_char(s.last())
    }
}

/// A quoted JSON string.
pub open spec fn quoted(s: Seq<char>) -> Seq<char> {
    seq!['"'] + escape_str(s) + seq!['"']
}

/// Whether key `a` comes before key `b`: lexicographically by character code,
/// which is the order of `String` (the byte order of UTF-8).
pub open spec fn key_less(a: Seq<char>, b: Seq<char>) -> bool
    decreases a.len(),
{
    if b.len() == 0 {
        false
    } else if a.len() == 0 {
        true
    } else if a[0] != b[0] {
        (a[0] as u32) < (b[0] as u32)
    } else {
        key_less(a.drop_first(), b.drop_first())
    }
}

/// Adds member `i` of `es` to `order`, a list of member indices kept in key
/// order with one index per key, as inserting into a sorted map does: after
/// the smaller keys, in place of a member with the same key (the later member
/// wins), else before the larger keys.
pub open spec fn order_insert(es: Seq<(Seq<char>, Json)>, order: Seq<int>, i: int) -> Seq<int>
    decreases order.len(),
{
    if order.len() == 0 {
        seq![i]
    } else if key_less(es[order[0]].0, es[i].0) {
        seq![order[0]] + order_insert(es, order.drop_first(), i)
    } else if es[order[0]].0 == es[i].0 {
        seq![i] + order.drop_first()
    } else {
        seq![i] + order
    }
}

/// The members among the first `n` of `es` that a sorted map keeps, as indices
/// in key order.
pub open spec fn key_order_upto(es: Seq<(Seq<char>, Json)>, n: nat) -> Seq<int>
    decreases n,
{
    if n == 0 {
        Seq::empty()
    } else {
        order_insert(es, key_order_upto(es, (n - 1) as nat), n - 1)
    }
}

/// The members of an object as `serde_json`'s default map writes them: sorted
/// by key, one per key, the last member with a key giving its value.
pub open spec fn key_order(es: Seq<(Seq<char>, Json)>) -> Seq<int> {
    key_order_upto(es, es.len())
}

/// Texts joined by commas.
pub open spec fn joined(parts: Seq<Seq<char>>) -> Seq<char>
    decreases parts.len(),
{
    if parts.len() == 0 {
        Seq::empty()
    } else if parts.len() == 1 {
        parts[0]
    } else {
        joined(parts.drop_last()) + seq![','] + parts.last()
    }
}

/// The compact text of a JSON document, as `serde_json::to_string` writes a
/// `Value`: no white space, strings escaped as it escapes them, and object
/// members sorted by key with one member per key (see [`key_order`]).
pub open spec fn json_text(v: Json) -> Seq<char>
    decreases v,
{
    match v {
        Json::Null => "null"@,
        Json::Bool(b) => if b {
            "true"@
        } else {
            "false"@
        },
        Json::Number(n) => n,
        Json::Str(s) => quoted(s),
        Json::Array(items) => seq!['['] + items_text(items) + seq![']'],
        Json::Object(entries) => seq!['{'] + joined(object_parts(entries)) + seq!['}'],
    }
}

/// The texts of an object's members (quoted key, colon, value) in the order
/// and number that [`key_order`] gives.
pub open spec fn object_parts(es: Seq<(Seq<char>, Json)>) -> Seq<Seq<char>>
    decreases es,
{
    let order = key_order(es);
    Seq::new(
        order.len(),
        |k: int|
            if 0 <= order[k] < es.len() {
                quoted(es[order[k]].0) + seq![':'] + json_text(es[order[k]].1)
            } else {
                Seq::empty()
            },
    )
}

/// The texts of array items, comma separated.
pub open spec fn items_text(items: Seq<Json>) -> Seq<char>
    decreases items,
{
    if items.len() == 0 {
        Seq::empty()
    } else if items.len() == 1 {
        json_text(items[0])
    } else {
        items_text(items.drop_last()) + seq![','] + json_text(items.last())
    }
}

fn nibble(n: u32) -> (c: char)
    requires
        n < 16,
    ensures
        c == nibble_char(n),
{
    if n == 0 {
        '0'
    } else if n == 1 {
        '1'
    } else if n == 2 {
        '2'
    } else if n == 3 {
        '3'
    } else if n == 4 {
        '4'
    } else if n == 5 {
        '5'
    } else if n == 6 {
        '6'
    } else if n == 7 {
        '7'
    } else if n == 8 {
        '8'
    } else if n == 9 {
        '9'
    } else if n == 10 {
        'a'
    } else if n == 11 {
        'b'
    } else if n == 12 {
        'c'
    } else if n == 13 {
        'd'
    } else if n == 14 {
        'e'
    } else {
        'f'
    }
}

fn push_escaped_char(out: &mut String, c: char)
    ensures
        final(out)@ == old(out)@ + escape_char(c),
{
    let u = c as u32;
    let ghost o = out@;
    if c == '"' {
        push_char(out, '\\');
        push_char(out, '"');
    } else if c == '\\' {
        push_char(out, '\\');
        push_char(out, '\\');
    } else if u == 8 {
        push_char(out, '\\');
        push_char(out, 'b');
    } else if u == 9 {
        push_char(out, '\\');
        push_char(out, 't');
    } else if u == 10 {
        push_char(out, '\\');
        push_char(out, 'n');
    } else if u == 12 {
        push_char(out, '\\');
        push_char(out, 'f');
    } else if u == 13 {
        push_char(out, '\\');
        push_char(out, 'r');
    } else if u < 0x20 {
        push_char(out, '\\');
        push_char(out, 'u');
        push_char(out, '0');
        push_char(out, '0');
        push_char(out, nibble(u / 16));
        push_char(out, nibble(u % 16));
    } else {
        push_char(out, c);
    }
    assert(out@ =~= o + escape_char(c));
}

/// Appends a quoted, escaped JSON string.
pub fn push_quoted(out: &mut String, s: &str)
    ensures
        final(out)@ == old(out)@ + quoted(s@),
{
    let v = chars_of(s);
    let ghost o = out@;
    push_char(out, '"');
    let mut i: usize = 0;
    assert(v@.take(0) =~= Seq::<char>::empty());
    while i < v.len()
        invariant
            i <= v.len(),
            v@ == s@,
            out@ == o + seq!['"'] + escape_str(v@.take(i as int)),
        decreases v.len() - i,
    {
        push_escaped_char(out, v[i]);
        assert(v@.take(i + 1).drop_last() =~= v@.take(i as int));
        i += 1;
    }
    push_char(out, '"');
    assert(v@.take(v.len() as int) =~= v@);
    assert(out@ =~= o + quoted(s@));
}

proof fn lemma_items_step(ms: Seq<Json>, i: int)
    requires
        0 <= i < ms.len(),
    ensures
        items_text(ms.take(i + 1)) == items_text(ms.take(i)) + (if i > 0 {
            seq![',']
        } else {
            Seq::empty()
        }) + json_text(ms[i]),
{
    assert(ms.take(i + 1).drop_last() =~= ms.take(i));
    assert(ms.take(i + 1).last() == ms[i]);
    if i == 0 {
        assert(ms.take(1)[0] == ms[0]);
        assert(items_text(ms.take(0)) =~= Seq::<char>::empty());
        assert(Seq::<char>::empty() + Seq::<char>::empty() + json_text(ms[0]) =~= json_text(ms[0]));
    }
}

proof fn lemma_joined_step(parts: Seq<Seq<char>>, k: int)
    requires
        0 <= k < parts.len(),
    ensures
        joined(parts.take(k + 1)) == joined(parts.take(k)) + (if k > 0 {
            seq![',']
        } else {
            Seq::empty()
        }) + parts[k],
{
    assert(parts.take(k + 1).drop_last() =~= parts.take(k));
    assert(parts.take(k + 1).last() == parts[k]);
    if k == 0 {
        assert(parts.take(1)[0] == parts[0]);
        assert(joined(parts.take(0)) =~= Seq::<char>::empty());
        assert(Seq::<char>::empty() + Seq::<char>::empty() + parts[0] =~= parts[0]);
    }
}

/// Whether key `a` comes before key `b` (see [`key_less`]).
pub fn key_less_exec(a: &str, b: &str) -> (r: bool)
    ensures
        r == key_less(a@, b@),
{
    let x = chars_of(a);
    let y = chars_of(b);
    let mut i: usize = 0;
    assert(x@.skip(0) =~= x@);
    assert(y@.skip(0) =~= y@);
    while i < x.len() && i < y.len()
        invariant
            i <= x@.len(),
            i <= y@.len(),
            x@ == a@,
            y@ == b@,
            key_less(a@, b@) == key_less(x@.skip(i as int), y@.skip(i as int)),
        decreases x.len() - i,
    {
        assert(x@.skip(i as int)[0] == x@[i as int]);
        assert(y@.skip(i as int)[0] == y@[i as int]);
        if x[i] != y[i] {
            return (x[i] as u32) < (y[i] as u32);
        }
        assert(x@.skip(i as int).drop_first() =~= x@.skip(i + 1));
        assert(y@.skip(i as int).drop_first() =~= y@.skip(i + 1));
        i += 1;
    }
    i < y.len()
}

proof fn lemma_order_insert_prefix(es: Seq<(Seq<char>, Json)>, ord: Seq<int>, i: int, p: int)
    requires
        0 <= p <= ord.len(),
        forall|j: int| 0 <= j < p ==> key_less(#[trigger] es[ord[j]].0, es[i].0),
    ensures
        order_insert(es, ord, i) == ord.take(p) + order_insert(es, ord.skip(p), i),
    decreases p,
{
    if p == 0 {
        assert(ord.skip(0) =~= ord);
        assert(ord.take(0) + order_insert(es, ord, i) =~= order_insert(es, ord, i));
    } else {
        let d = ord.drop_first();
        assert forall|j: int| 0 <= j < p - 1 implies key_less(#[trigger] es[d[j]].0, es[i].0) by {
            assert(d[j] == ord[j + 1]);
        }
        lemma_order_insert_prefix(es, d, i, p - 1);
        assert(key_less(es[ord[0]].0, es[i].0));
        assert(d.skip(p - 1) =~= ord.skip(p));
        assert(seq![ord[0]] + d.take(p - 1) =~= ord.take(p));
        assert(seq![ord[0]] + (d.take(p - 1) + order_insert(es, ord.skip(p), i)) =~= ord.take(p)
            + order_insert(es, ord.skip(p), i));
    }
}

fn member_order(entries: &Vec<(String, JsonValue)>) -> (order: Vec<usize>)
    ensures
        order@.len() == key_order(entry_models(entries@)).len(),
        forall|k: int| 0 <= k < order@.len() ==> order@[k] as int == key_order(entry_models(entries@))[k],
        forall|k: int| 0 <= k < order@.len() ==> order@[k] < entries@.len(),
{
    let ghost es = entry_models(entries@);
    let mut order: Vec<usize> = Vec::new();
    let ghost mut ord: Seq<int> = Seq::empty();
    let mut i: usize = 0;
    while i < entries.len()
        invariant
            i <= entries@.len(),
            es == entry_models(entries@),
            ord == key_order_upto(es, i as nat),
            order@.len() == ord.len(),
            forall|k: int| 0 <= k < ord.len() ==> order@[k] as int == #[trigger] ord[k],
            forall|k: int| 0 <= k < ord.len() ==> #[trigger] order@[k] < i,
        decreases entries.len() - i,
    {
        let mut p: usize = 0;
        loop
            invariant
                i < entries@.len(),
                es == entry_models(entries@),
                order@.len() == ord.len(),
                forall|k: int| 0 <= k < ord.len() ==> order@[k] as int == #[trigger] ord[k],
                forall|k: int| 0 <= k < ord.len() ==> #[trigger] order@[k] < i,
                p <= order@.len(),
                forall|j: int| 0 <= j < p ==> key_less(#[trigger] es[ord[j]].0, es[i as int].0),
            ensures
                p <= order@.len(),
                forall|j: int| 0 <= j < p ==> key_less(#[trigger] es[ord[j]].0, es[i as int].0),
                p == order@.len() || !key_less(es[ord[p as int]].0, es[i as int].0),
            decreases order@.len() - p,
        {
            if p >= order.len() {
                break;
            }
            let j = order[p];
            assert(es[j as int].0 == entries@[j as int].0@);
            assert(es[i as int].0 == entries@[i as int].0@);
            if !key_less_exec(entries[j].0.as_str(), entries[i].0.as_str()) {
                break;
            }
            p += 1;
        }
        proof {
            lemma_order_insert_prefix(es, ord, i as int, p as int);
        }
        let ghost before = ord;
        let same = if p < order.len() {
            let j = order[p];
            assert(es[j as int].0 == entries@[j as int].0@);
            assert(es[i as int].0 == entries@[i as int].0@);
            str_eq(entries[j].0.as_str(), entries[i].0.as_str())
        } else {
            false
        };
        if same {
            order.set(p, i);
            proof {
                ord = before.update(p as int, i as int);
                assert(before.skip(p as int).drop_first() =~= before.skip(p + 1));
                assert(ord =~= before.take(p as int) + (seq![i as int] + before.skip(p + 1)));
            }
        } else {
            order.insert(p, i);
            proof {
                ord = before.insert(p as int, i as int);
                assert(ord =~= before.take(p as int) + order_insert(es, before.skip(p as int), i as int));
            }
        }
        assert(ord == key_order_upto(es, (i + 1) as nat));
        i += 1;
    }
    order
}

fn write_object(entries: &Vec<(String, JsonValue)>, out: &mut String)
    ensures
        final(out)@ == old(out)@ + joined(object_parts(entry_models(entries@))),
    decreases entries,
{
    let ghost es = entry_models(entries@);
    let ghost parts = object_parts(es);
    let order = member_order(entries);
    let ghost o = out@;
    let mut k: usize = 0;
    assert(parts.take(0) =~= Seq::<Seq<char>>::empty());
    while k < order.len()
        invariant
            k <= order@.len(),
            es == entry_models(entries@),
            parts == object_parts(es),
            parts.len() == order@.len(),
            order@.len() == key_order(es).len(),
            forall|m: int| 0 <= m < order@.len() ==> order@[m] as int == key_order(es)[m],
            forall|m: int| 0 <= m < order@.len() ==> order@[m] < entries@.len(),
            out@ == o + joined(parts.take(k as int)),
        decreases order.len() - k,
    {
        let j = order[k];
        proof {
            vstd::std_specs::vec::axiom_vec_index_decreases(*entries, j as int);
            lemma_joined_step(parts, k as int);
        }
        let ghost before = out@;
        if k > 0 {
            push_char(out, ',');
        }
        push_quoted(out, entries[j].0.as_str());
        push_char(out, ':');
        entries[j].1.write_text(out);
        assert(parts[k as int] == quoted(es[j as int].0) + seq![':'] + json_text(es[j as int].1));
        assert(out@ =~= before + (if k > 0 { seq![','] } else { Seq::<char>::empty() }) + parts[k as int]);
        k += 1;
    }
    assert(parts.take(order.len() as int) =~= parts);
}

fn write_items(items: &Vec<JsonValue>, out: &mut String)
    ensures
        final(out)@ == old(out)@ + items_text(models(items@)),
    decreases items,
{
    let ghost ms = models(items@);
    let ghost o = out@;
    let mut i: usize = 0;
    assert(ms.take(0) =~= Seq::<Json>::empty());
    while i < items.len()
        invariant
            i <= items@.len(),
            ms == models(items@),
            out@ == o + items_text(ms.take(i as int)),
        decreases items.len() - i,
    {
        proof {
            vstd::std_specs::vec::axiom_vec_index_decreases(*items, i as int);
            lemma_items_step(ms, i as int);
        }
        let ghost before = out@;
        if i > 0 {
            push_char(out, ',');
        }
        items[i].write_text(out);
        assert(out@ =~= before + (if i > 0 { seq![','] } else { Seq::<char>::empty() }) + json_text(ms[i as int]));
        i += 1;
    }
    assert(ms.take(items.len() as int) =~= ms);
}

impl JsonValue {
    /// Appends the compact text of this document.
    pub fn write_text(&self, out: &mut String)
        ensures
            final(out)@ == old(out)@ + json_text(self.model()),
        decreases self,
    {
        proof {
            self.lemma_model_shape();
        }
        let ghost o = out@;
        match self {
            JsonValue::Null => push_str(out, "null"),
            JsonValue::Bool(b) => if *b {
                push_str(out, "true")
            } else {
                push_str(out, "false")
            },
            JsonValue::Number(n) => push_str(out, n.as_str()),
            JsonValue::Str(s) => push_quoted(out, s.as_str()),
            JsonValue::Array(items) => {
                push_char(out, '[');
                write_items(items, out);
                push_char(out, ']');
                assert(out@ =~= o + json_text(self.model()));
            },
            JsonValue::Object(entries) => {
                push_char(out, '{');
                write_object(entries, out);
                push_char(out, '}');
                assert(out@ =~= o + json_text(self.model()));
            },
        }
    }

    /// The compact text of this document (see [`json_text`]): no white space,
    /// object members sorted by key, strings escaped as `serde_json` escapes them.
    pub fn to_text(&self) -> (s: String)
        ensures
            s@ == json_text(self.model()),
    {
        let mut s = String::new();
        self.write_text(&mut s);
        s
    }
}

} // verus!
