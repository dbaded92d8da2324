use crate::json::{
    find_key, has_str_field, num_field_or, opt_num_field, opt_str_field, opt_views_match, spec_get,
    str_field_or, JsonValue,
};
use vstd::prelude::*;

verus! {

/// One entry of a media response's format list.
pub struct VideoFormatPayload {
    pub format_id: String,
    pub ext: String,
    pub resolution: Option<String>,
    pub fps: Option<i64>,
    pub filesize: Option<i64>,
    pub vcodec: Option<String>,
    pub acodec: Option<String>,
}

/// The decoded metadata returned for one media item.
pub struct VideoInfoPayload {
    pub title: String,
    pub duration: i64,
    pub thumbnail: String,
    pub uploader: String,
    pub formats: Vec<VideoFormatPayload>,
}

/// The entries array of a collection response, where one is present.
pub open spec fn spec_entries(v: JsonValue) -> Option<Seq<JsonValue>> {
    match spec_get(v, "entries"@) {
        Some(JsonValue::Arr(items)) => Some(items@),
        _ => None,
    }
}

/// The object that metadata is read from: the first entry of a collection
/// response, or the response itself where no entries array is present.
pub open spec fn spec_primary(v: JsonValue) -> JsonValue {
    match spec_entries(v) {
        Some(items) => if items.len() > 0 {
            items[0]
        } else {
            v
        },
        None => v,
    }
}

/// The size of a format: its "filesize" field, falling back to
/// "filesize_approx" only where "filesize" is absent altogether.
pub open spec fn spec_filesize(f: JsonValue) -> Option<i64> {
    match spec_get(f, "filesize"@) {
        Some(x) => match x {
            JsonValue::Num(n) => Some(n),
            _ => None,
        },
        None => opt_num_field(f, "filesize_approx"@),
    }
}

/// How one format payload reflects the format object it was read from.
pub open spec fn format_matches(p: VideoFormatPayload, f: JsonValue) -> bool {
    &&& (match spec_get(f, "format_id"@) {
        Some(JsonValue::Str(s)) => p.format_id@ == s@,
        _ => false,
    })
    &&& p.ext@ == str_field_or(f, "ext"@, ""@)
    &&& opt_views_match(p.resolution, opt_str_field(f, "resolution"@))
    &&& p.fps == opt_num_field(f, "fps"@)
    &&& p.filesize == spec_filesize(f)
    &&& opt_views_match(p.vcodec, opt_str_field(f, "vcodec"@))
    &&& opt_views_match(p.acodec, opt_str_field(f, "acodec"@))
}

/// The format objects kept for the payload: those with a format identifier,
/// in order.
pub open spec fn spec_format_entries(items: Seq<JsonValue>) -> Seq<JsonValue>
    decreases items.len(),
{
    if items.len() == 0 {
        Seq::empty()
    } else {
        let rest = spec_format_entries(items.drop_last());
        if has_str_field(items.last(), "format_id"@) {
            rest.push(items.last())
        } else {
            rest
        }
    }
}

/// How a payload's format list reflects the kept format objects, one to one.
pub open spec fn formats_match(ps: Seq<VideoFormatPayload>, fs: Seq<JsonValue>) -> bool {
    ps.len() == fs.len() && forall|i: int| 0 <= i < ps.len() ==> format_matches(ps[i], fs[i])
}

fn has_nonempty_entries(v: &JsonValue) -> (r: bool)
    ensures
        r == (spec_entries(*v) matches Some(items) && items.len() > 0),
{
    match v.get("entries") {
        Some(JsonValue::Arr(items)) => items.len() > 0,
        _ => false,
    }
}

fn take_primary(value: JsonValue) -> (r: JsonValue)
    ensures
        r == spec_primary(value),
{
    if !has_nonempty_entries(&value) {
        return value;
    }
    match value {
        JsonValue::Obj(mut fields) => match find_key(&fields, "entries") {
            Some(i) => {
                let pair = fields.remove(i);
                match pair.1 {
                    JsonValue::Arr(mut items) => {
                        let first = items.remove(0);
                        first
                    },
                    _ => unreached(),
                }
            },
            None => unreached(),
        },
        _ => unreached(),
    }
}

fn filesize_of(f: &JsonValue) -> (r: Option<i64>)
    ensures
        r == spec_filesize(*f),
{
    match f.get("filesize") {
        Some(JsonValue::Num(n)) => Some(*n),
        Some(_) => None,
        None => f.get_opt_num("filesize_approx"),
    }
}

/// Builds the metadata payload from a decoded tool response. A collection
/// response, recognized by its entries array, is represented by its first
/// entry; missing fields take fixed defaults, and formats without an
/// identifier are left out.
pub fn synthesize_info_from_value(value: JsonValue) -> (r: VideoInfoPayload)
    ensures
        r.title@ == str_field_or(spec_primary(value), "title"@, "Unknown Title"@),
        r.duration == num_field_or(spec_primary(value), "duration"@, 0),
        r.thumbnail@ == str_field_or(spec_primary(value), "thumbnail"@, ""@),
        r.uploader@ == str_field_or(spec_primary(value), "uploader"@, "Unknown"@),
        match spec_get(spec_primary(value), "formats"@) {
            Some(JsonValue::Arr(items)) => formats_match(r.formats@, spec_format_entries(items@)),
            _ => r.formats@.len() == 0,
        },
{
    let primary = take_primary(value);
    let title = primary.get_str_or("title", "Unknown Title");
    let duration = primary.get_num_or("duration", 0);
    let thumbnail = primary.get_str_or("thumbnail", "");
    let uploader = primary.get_str_or("uploader", "Unknown");
    let mut formats: Vec<VideoFormatPayload> = Vec::new();
    match primary.get("formats") {
        Some(JsonValue::Arr(items)) => {
            let n = items.len();
            let mut i: usize = 0;
            while i < n
                invariant
                    i <= n,
                    n == items@.len(),
                    formats_match(formats@, spec_format_entries(items@.take(i as int))),
                decreases n - i,
            {
                let fmt = &items[i];
                match fmt.get_opt_str("format_id") {
                    Some(fid) => {
                        let p = VideoFormatPayload {
                            format_id: fid,
                            ext: fmt.get_str_or("ext", ""),
                            resolution: fmt.get_opt_str("resolution"),
                            fps: fmt.get_opt_num("fps"),
                            filesize: filesize_of(fmt),
                            vcodec: fmt.get_opt_str("vcodec"),
                            acodec: fmt.get_opt_str("acodec"),
                        };
                        formats.push(p);
                    },
                    None => {},
                }
                proof {
                    assert(items@.take(i as int + 1).drop_last() =~= items@.take(i as int));
                    assert(items@.take(i as int + 1).last() == items@[i as int]);
                }
                i += 1;
            }
            proof {
                assert(items@.take(n as int) =~= items@);
            }
        },
        _ => {},
    }
    VideoInfoPayload { title, duration, thumbnail, uploader, formats }
}

} // verus!
