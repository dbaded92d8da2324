use crate::strings::{find_last, last_pos};
use vstd::prelude::*;

verus! {

/// A filesystem path as handed over by the host: its text, or `None` where
/// the real path is not valid Unicode.
pub struct FsPath {
    pub text: Option<String>,
}

/// Renders a path, failing on one that has no Unicode text.
pub fn to_path_string(path: &FsPath) -> (r: Result<String, String>)
    ensures
        match path.text {
            Some(s) => r matches Ok(t) && t@ == s@,
            None => r matches Err(e) && e@ == "Unable to convert path to string"@,
        },
{
    match &path.text {
        Some(s) => Ok(s.clone()),
        None => Err("Unable to convert path to string".to_owned()),
    }
}

/// Joins a directory path and a child name with a forward slash.
pub fn join_path(dir: &str, name: &str) -> (r: String)
    ensures
        r@ == dir@ + "/"@ + name@,
{
    let mut s = dir.to_owned();
    s.append("/");
    s.append(name);
    s
}

/// The directory part of a '/'-separated path: the prefix before the last
/// separator, or `None` for a path without one.
pub open spec fn spec_parent(p: Seq<char>) -> Option<Seq<char>> {
    match last_pos(p, '/') {
        Some(i) => Some(p.subrange(0, i)),
        None => None,
    }
}

/// Strips the last component from a '/'-separated path.
pub fn parent_dir(p: &str) -> (r: Option<String>)
    ensures
        match r {
            Some(d) => spec_parent(p@) == Some(d@),
            None => spec_parent(p@) is None,
        },
{
    match find_last(p, '/') {
        Some(i) => Some(p.substring_char(0, i).to_owned()),
        None => None,
    }
}

/// The file-name part of a '/'-separated path: what follows the last
/// separator, or the whole path without one.
pub open spec fn spec_file_name(p: Seq<char>) -> Seq<char> {
    match last_pos(p, '/') {
        Some(i) => p.subrange(i + 1, p.len() as int),
        None => p,
    }
}

/// The stem of a path's file name, with "output" standing in for an empty
/// name. A dot at the very start marks no extension.
pub open spec fn spec_stem_of(p: Seq<char>) -> Seq<char> {
    let name = spec_file_name(p);
    if name.len() == 0 {
        "output"@
    } else {
        match last_pos(name, '.') {
            Some(i) => if i > 0 {
                name.subrange(0, i)
            } else {
                name
            },
            None => name,
        }
    }
}

/// The extension of a path's file name, with "mp3" standing in where there
/// is none.
pub open spec fn spec_ext_of(p: Seq<char>) -> Seq<char> {
    let name = spec_file_name(p);
    match last_pos(name, '.') {
        Some(i) => if i > 0 {
            name.subrange(i + 1, name.len() as int)
        } else {
            "mp3"@
        },
        None => "mp3"@,
    }
}

/// A path with its file name replaced.
pub open spec fn spec_with_file_name(p: Seq<char>, name: Seq<char>) -> Seq<char> {
    match last_pos(p, '/') {
        Some(i) => p.subrange(0, i + 1) + name,
        None => name,
    }
}

/// Whether a path lies at or below a directory, in the '/'-separated model.
pub open spec fn is_under(p: Seq<char>, dir: Seq<char>) -> bool {
    ||| p == dir
    ||| (p.len() > dir.len() && p.subrange(0, dir.len() as int) == dir && p[dir.len() as int]
        == '/')
}

/// A directory entry placed directly under a root, under any name other than
/// "temp", lies outside the root's "temp" subdirectory: the cache-managed
/// location never reaches it.
pub proof fn lemma_root_entry_outside_temp(root: Seq<char>, name: Seq<char>)
    requires
        name.len() > 0,
        forall|i: int| 0 <= i < name.len() ==> name[i] != '/',
        name != "temp"@,
    ensures
        !is_under(root + "/"@ + name, root + "/temp"@),
{
    reveal_strlit("/");
    reveal_strlit("/temp");
    reveal_strlit("temp");
    let p = root + "/"@ + name;
    let d = root + "/temp"@;
    assert(p.len() == root.len() + 1 + name.len());
    assert(d.len() == root.len() + 5);
    if p == d {
        assert(name.len() == 4);
        assert(name =~= "temp"@) by {
            assert(forall|i: int|
                0 <= i < 4 ==> name[i] == p[root.len() as int + 1 + i] && "temp"@[i] == d[
                    root.len() as int + 1 + i]);
        }
        assert(false);
    }
    if p.len() > d.len() && p.subrange(0, d.len() as int) == d && p[d.len() as int] == '/' {
        assert(name[4] == p[root.len() as int + 5]);
        assert(p.subrange(0, d.len() as int)[root.len() as int + 5] == d[root.len() as int + 5]);
        assert(false);
    }
}

/// The application's download root inside the host's downloads directory.
pub fn mediaflow_dir_path(downloads_dir: &str) -> (r: String)
    ensures
        r@ == downloads_dir@ + "/MediaFlow"@,
{
    let r = join_path(downloads_dir, "MediaFlow");
    proof {
        reveal_strlit("/");
        reveal_strlit("MediaFlow");
        reveal_strlit("/MediaFlow");
        assert(r@ =~= downloads_dir@ + "/MediaFlow"@);
    }
    r
}

/// The one cache-managed location: the "temp" subdirectory of the download
/// root. Cache accounting and clearing derive their target from here alone.
pub fn cache_temp_dir(mediaflow_dir: &str) -> (r: String)
    ensures
        r@ == mediaflow_dir@ + "/temp"@,
{
    let r = join_path(mediaflow_dir, "temp");
    proof {
        reveal_strlit("/");
        reveal_strlit("temp");
        reveal_strlit("/temp");
        assert(r@ =~= mediaflow_dir@ + "/temp"@);
    }
    r
}

/// The fixed output folders created under a chosen base directory.
pub fn output_subfolders(base_path: &str) -> (r: Vec<String>)
    ensures
        r.deep_view() =~= seq![
            base_path@ + "/"@ + "Downloads/Audio"@,
            base_path@ + "/"@ + "Downloads/Video"@,
            base_path@ + "/"@ + "AudioLab"@,
            base_path@ + "/"@ + "Stems"@,
        ],
{
    let mut v: Vec<String> = Vec::new();
    v.push(join_path(base_path, "Downloads/Audio"));
    v.push(join_path(base_path, "Downloads/Video"));
    v.push(join_path(base_path, "AudioLab"));
    v.push(join_path(base_path, "Stems"));
    v
}

/// The characters of an optional path.
pub open spec fn opt_path_view(o: Option<String>) -> Option<Seq<char>> {
    match o {
        Some(s) => Some(s@),
        None => None,
    }
}

/// The parent of an optional path.
pub open spec fn spec_opt_parent(o: Option<Seq<char>>) -> Option<Seq<char>> {
    match o {
        Some(p) => spec_parent(p),
        None => None,
    }
}

/// A candidate list extended by one base directory's "scripts" folder, where
/// the base is known.
pub open spec fn spec_push_candidate(acc: Seq<Seq<char>>, o: Option<Seq<char>>) -> Seq<Seq<char>> {
    match o {
        Some(d) => acc.push(d + "/"@ + "scripts"@),
        None => acc,
    }
}

/// The places probed for the auxiliary scripts, in order: the working
/// directory, its parent, the executable's directory, that directory's
/// parent, and four levels above the executable.
pub open spec fn spec_script_candidates(cwd: Option<Seq<char>>, exe: Option<Seq<char>>) -> Seq<
    Seq<char>,
> {
    let e1 = spec_opt_parent(exe);
    let e2 = spec_opt_parent(e1);
    let e3 = spec_opt_parent(e2);
    let e4 = spec_opt_parent(e3);
    let s0 = spec_push_candidate(Seq::empty(), cwd);
    let s1 = spec_push_candidate(s0, spec_opt_parent(cwd));
    let s2 = spec_push_candidate(s1, e1);
    let s3 = spec_push_candidate(s2, e2);
    spec_push_candidate(s3, e4)
}

fn opt_parent(o: &Option<String>) -> (r: Option<String>)
    ensures
        opt_path_view(r) == spec_opt_parent(opt_path_view(*o)),
{
    match o {
        Some(p) => parent_dir(p.as_str()),
        None => None,
    }
}

/// Builds the candidate directories probed for the auxiliary scripts, from
/// the working directory and the running executable's path, where the host
/// knows them.
pub fn script_dir_candidates(cwd: &Option<String>, exe: &Option<String>) -> (r: Vec<String>)
    ensures
        r.deep_view() == spec_script_candidates(opt_path_view(*cwd), opt_path_view(*exe)),
{
    let cwd_parent = opt_parent(cwd);
    let e1 = opt_parent(exe);
    let e2 = opt_parent(&e1);
    let e3 = opt_parent(&e2);
    let e4 = opt_parent(&e3);
    let mut v: Vec<String> = Vec::new();
    match cwd {
        Some(d) => v.push(join_path(d.as_str(), "scripts")),
        None => {},
    }
    match &cwd_parent {
        Some(d) => v.push(join_path(d.as_str(), "scripts")),
        None => {},
    }
    match &e1 {
        Some(d) => v.push(join_path(d.as_str(), "scripts")),
        None => {},
    }
    match &e2 {
        Some(d) => v.push(join_path(d.as_str(), "scripts")),
        None => {},
    }
    match &e4 {
        Some(d) => v.push(join_path(d.as_str(), "scripts")),
        None => {},
    }
    proof {
        assert(v.deep_view() =~~= spec_script_candidates(
            opt_path_view(*cwd),
            opt_path_view(*exe),
        ));
    }
    v
}

/// The first probed place that holds the marker script, scanning from `i`.
pub open spec fn first_marked(flags: Seq<bool>, i: int) -> Option<int>
    decreases flags.len() - i,
{
    if i < 0 || i >= flags.len() {
        None
    } else if flags[i] {
        Some(i)
    } else {
        first_marked(flags, i + 1)
    }
}

/// Picks the scripts directory: the first candidate whose marker probe
/// succeeded, or a diagnostic naming the expected marker file.
pub fn select_scripts_dir(candidates: &Vec<String>, has_marker: &Vec<bool>) -> (r: Result<
    String,
    String,
>)
    requires
        candidates@.len() == has_marker@.len(),
    ensures
        match first_marked(has_marker@, 0) {
            Some(i) => r matches Ok(d) && d@ == candidates@[i]@,
            None => r matches Err(e) && e@
                == "Scripts directory not found. Make sure 'scripts/audio_analyzer.py' exists."@,
        },
{
    let n = candidates.len();
    let mut i: usize = 0;
    while i < n
        invariant
            i <= n,
            n == candidates@.len(),
            n == has_marker@.len(),
            first_marked(has_marker@, 0) == first_marked(has_marker@, i as int),
        decreases n - i,
    {
        if has_marker[i] {
            return Ok(candidates[i].clone());
        }
        i += 1;
    }
    Err("Scripts directory not found. Make sure 'scripts/audio_analyzer.py' exists.".to_owned())
}

} // verus!
