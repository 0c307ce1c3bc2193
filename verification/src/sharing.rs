//! How requests that take turns share one piece of work.
//!
//! A cache that starts work only where it has no entry, and files the work it
//! started before the next request is served, starts it once for each key.

use vstd::prelude::*;

verus! {

/// What one request does to the entries: with an entry for `key` it changes
/// nothing and hands that entry out; without one it files `fresh`, which stands
/// for the work it has just started, and hands that out. The last part tells
/// whether work was started.
pub open spec fn serve<K, T>(entries: Map<K, T>, key: K, fresh: T) -> (Map<K, T>, T, bool) {
    if entries.contains_key(key) {
        (entries, entries[key], false)
    } else {
        (entries.insert(key, fresh), fresh, true)
    }
}

/// What a run of requests for one `key` does: the entries after the last
/// request, what each request was handed, and how often work was started.
/// `fresh[i]` is what request `i` would file.
pub open spec fn serve_all<K, T>(entries: Map<K, T>, key: K, fresh: Seq<T>) -> (
    Map<K, T>,
    Seq<T>,
    nat,
)
    decreases fresh.len(),
{
    if fresh.len() == 0 {
        (entries, Seq::empty(), 0)
    } else {
        let (before, given, started) = serve_all(entries, key, fresh.drop_last());
        let (after, handed, spawned) = serve(before, key, fresh.last());
        (after, given.push(handed), if spawned {
            started + 1
        } else {
            started
        })
    }
}

/// However many requests for one key follow one another, work is started at
/// most once, and not at all where the key had an entry before. Every request
/// is handed the same, and that is what is on file afterwards: what was on
/// file before, or else what the first request filed.
pub proof fn lemma_requests_share_one_task<K, T>(entries: Map<K, T>, key: K, fresh: Seq<T>)
    ensures
        ({
            let (after, given, started) = serve_all(entries, key, fresh);
            &&& given.len() == fresh.len()
            &&& started <= 1
            &&& entries.contains_key(key) ==> started == 0 && after == entries
            &&& fresh.len() > 0 ==> after.contains_key(key)
            &&& forall|i: int| 0 <= i < given.len() ==> #[trigger] given[i] == after[key]
            &&& fresh.len() > 0 && !entries.contains_key(key) ==> started == 1 && after[key]
                == fresh[0]
        }),
    decreases fresh.len(),
{
    if fresh.len() > 0 {
        lemma_requests_share_one_task(entries, key, fresh.drop_last());
        if fresh.len() > 1 {
            assert(fresh.drop_last()[0] == fresh[0]);
        }
    }
}

/// Requests for other keys do not disturb the sharing: serving any other key
/// leaves what is on file for `key`, or that nothing is.
pub proof fn lemma_other_keys_do_not_interfere<K, T>(
    entries: Map<K, T>,
    key: K,
    other: K,
    fresh: T,
)
    requires
        other != key,
    ensures
        ({
            let (after, _, _) = serve(entries, other, fresh);
            &&& after.contains_key(key) == entries.contains_key(key)
            &&& entries.contains_key(key) ==> after[key] == entries[key]
        }),
{
}

} // verus!
