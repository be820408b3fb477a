//! The concurrent maps of `dashmap` that remember truncation events, and what
//! their methods are claimed to do.

use vstd::prelude::*;
use dashmap::DashMap;
use crate::truncation::{ContentTruncationEntry, ToolTruncationEntry};

verus! {

#[verifier::external_type_specification]
#[verifier::external_body]
#[verifier::reject_recursive_types(K)]
#[verifier::reject_recursive_types(V)]
#[verifier::reject_recursive_types(S)]
pub struct ExDashMap<K, V, S>(dashmap::DashMap<K, V, S>);

/// What a map of tool truncations holds: by key text, the entry's view.
pub uninterp spec fn tool_map_contents(m: DashMap<String, ToolTruncationEntry>) -> Map<
    Seq<char>,
    (Seq<char>, (bool, Seq<char>, usize)),
>;

/// What a map of content truncations holds: by key text, the entry's view.
pub uninterp spec fn content_map_contents(m: DashMap<String, ContentTruncationEntry>) -> Map<
    Seq<char>,
    Seq<char>,
>;

/// `DashMap::new`: an empty map.
#[verifier::external_body]
pub(crate) fn tool_map_new() -> (r: DashMap<String, ToolTruncationEntry>)
    ensures
        tool_map_contents(r).dom() == Set::<Seq<char>>::empty(),
{
    dashmap::DashMap::new()
}

/// `DashMap::insert`: the key now maps to the value, replacing any earlier one.
#[verifier::external_body]
pub(crate) fn tool_map_insert(m: &mut DashMap<String, ToolTruncationEntry>, k: String, v: ToolTruncationEntry)
    ensures
        tool_map_contents(*final(m)) == tool_map_contents(*old(m)).insert(k@, v@),
{
    m.insert(k, v);
}

/// `DashMap::remove`: takes the key's entry out, handing its value back.
#[verifier::external_body]
pub(crate) fn tool_map_take(m: &mut DashMap<String, ToolTruncationEntry>, k: &str) -> (r: Option<ToolTruncationEntry>)
    ensures
        tool_map_contents(*old(m)).contains_key(k@) ==> (r matches Some(v) && v@ == tool_map_contents(*old(m))[k@]),
        !tool_map_contents(*old(m)).contains_key(k@) ==> r is None,
        tool_map_contents(*final(m)) == tool_map_contents(*old(m)).remove(k@),
{
    m.remove(k).map(|(_, v)| v)
}

/// `DashMap::new`: an empty map.
#[verifier::external_body]
pub(crate) fn content_map_new() -> (r: DashMap<String, ContentTruncationEntry>)
    ensures
        content_map_contents(r).dom() == Set::<Seq<char>>::empty(),
{
    dashmap::DashMap::new()
}

/// `DashMap::insert`: the key now maps to the value, replacing any earlier one.
#[verifier::external_body]
pub(crate) fn content_map_insert(
    m: &mut DashMap<String, ContentTruncationEntry>,
    k: String,
    v: ContentTruncationEntry,
)
    ensures
        content_map_contents(*final(m)) == content_map_contents(*old(m)).insert(k@, v@),
{
    m.insert(k, v);
}

/// `DashMap::remove`: takes the key's entry out, handing its value back.
#[verifier::external_body]
pub(crate) fn content_map_take(m: &mut DashMap<String, ContentTruncationEntry>, k: &str) -> (r: Option<
    ContentTruncationEntry,
>)
    ensures
        content_map_contents(*old(m)).contains_key(k@) ==> (r matches Some(v) && v@ == content_map_contents(
            *old(m),
        )[k@]),
        !content_map_contents(*old(m)).contains_key(k@) ==> r is None,
        content_map_contents(*final(m)) == content_map_contents(*old(m)).remove(k@),
{
    m.remove(k).map(|(_, v)| v)
}

} // verus!
