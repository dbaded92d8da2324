use crate::json::{num_field_or, opt_str_field, spec_get, str_field_or, JsonValue};
use vstd::prelude::*;

verus! {

/// One listed playlist entry.
pub struct PlaylistItem {
    pub url: String,
    pub title: String,
    pub duration: i64,
}

/// The decoded playlist listing.
pub struct PlaylistInfo {
    pub title: String,
    pub count: usize,
    pub items: Vec<PlaylistItem>,
}

/// The address used for an entry: its direct URL where one is present, else
/// a watch URL synthesized from a non-empty id, else nothing.
pub open spec fn entry_url(e: JsonValue) -> Seq<char> {
    match opt_str_field(e, "url"@) {
        Some(u) => u,
        None => {
            let id = str_field_or(e, "id"@, ""@);
            if id.len() > 0 {
                "https://www.youtube.com/watch?v="@ + id
            } else {
                Seq::empty()
            }
        },
    }
}

/// Whether an entry reaches the listing: only entries with an address do.
pub open spec fn entry_included(e: JsonValue) -> bool {
    entry_url(e).len() > 0
}

/// The entries kept for the listing, in order.
pub open spec fn spec_playlist_entries(entries: Seq<JsonValue>) -> Seq<JsonValue>
    decreases entries.len(),
{
    if entries.len() == 0 {
        Seq::empty()
    } else {
        let rest = spec_playlist_entries(entries.drop_last());
        if entry_included(entries.last()) {
            rest.push(entries.last())
        } else {
            rest
        }
    }
}

/// How one listed item reflects the entry it was read from.
pub open spec fn item_matches(it: PlaylistItem, e: JsonValue) -> bool {
    &&& it.url@ == entry_url(e)
    &&& it.title@ == str_field_or(e, "title"@, "Unknown"@)
    &&& it.duration == num_field_or(e, "duration"@, 0)
}

/// How the listing reflects the kept entries, one to one.
pub open spec fn items_match(its: Seq<PlaylistItem>, es: Seq<JsonValue>) -> bool {
    its.len() == es.len() && forall|i: int| 0 <= i < its.len() ==> item_matches(its[i], es[i])
}

fn url_of_entry(e: &JsonValue) -> (r: String)
    ensures
        r@ == entry_url(*e),
{
    match e.get_opt_str("url") {
        Some(u) => u,
        None => {
            let id = e.get_str_or("id", "");
            if id.as_str().unicode_len() > 0 {
                let mut s = "https://www.youtube.com/watch?v=".to_owned();
                s.append(id.as_str());
                s
            } else {
                String::new()
            }
        },
    }
}

/// Builds the playlist listing from a decoded tool response. An entry with
/// neither a direct URL nor a non-empty id to synthesize one from is left
/// out rather than reported as an error, and the count is the length of the
/// kept list.
pub fn playlist_from_value(value: JsonValue) -> (r: PlaylistInfo)
    ensures
        r.title@ == str_field_or(value, "title"@, "Playlist"@),
        r.count == r.items@.len(),
        match spec_get(value, "entries"@) {
            Some(JsonValue::Arr(entries)) => items_match(r.items@, spec_playlist_entries(entries@)),
            _ => r.items@.len() == 0,
        },
{
    let title = value.get_str_or("title", "Playlist");
    let mut items: Vec<PlaylistItem> = Vec::new();
    match value.get("entries") {
        Some(JsonValue::Arr(entries)) => {
            let n = entries.len();
            let mut i: usize = 0;
            while i < n
                invariant
                    i <= n,
                    n == entries@.len(),
                    items_match(items@, spec_playlist_entries(entries@.take(i as int))),
                decreases n - i,
            {
                let entry = &entries[i];
                let url = url_of_entry(entry);
                if url.as_str().unicode_len() > 0 {
                    let item = PlaylistItem {
                        url,
                        title: entry.get_str_or("title", "Unknown"),
                        duration: entry.get_num_or("duration", 0),
                    };
                    items.push(item);
                }
                proof {
                    assert(entries@.take(i as int + 1).drop_last() =~= entries@.take(i as int));
                    assert(entries@.take(i as int + 1).last() == entries@[i as int]);
                }
                i += 1;
            }
            proof {
                assert(entries@.take(n as int) =~= entries@);
            }
        },
        _ => {},
    }
    let count = items.len();
    PlaylistInfo { title, count, items }
}

} // verus!
