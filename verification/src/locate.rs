//! Locating an already-usable engine binary: the canonical paths inside
//! the application's data directory, the fixed list of common system
//! install paths, and the shell lookup fallback. Existence probing is the
//! host's; choosing is verified here.

use vstd::prelude::*;
use vstd::string::StringExecFns;

verus! {

/// The engine executable's file name on the given platform family.
pub open spec fn binary_name_spec(windows: bool) -> Seq<char> {
    if windows {
        "ollama.exe"@
    } else {
        "ollama"@
    }
}

/// Returns the engine executable's file name.
pub fn engine_binary_name(windows: bool) -> (r: &'static str)
    ensures
        r@ == binary_name_spec(windows),
{
    if windows {
        "ollama.exe"
    } else {
        "ollama"
    }
}

/// The directory inside the application's data directory that holds the
/// bundled engine binary.
pub fn get_ollama_bin_dir(data_dir: &str) -> (r: String)
    ensures
        r@ == data_dir@ + "/bin"@,
{
    let mut s = String::new();
    s.append(data_dir);
    s.append("/bin");
    s
}

/// The canonical path of the bundled engine binary inside the
/// application's data directory.
pub fn get_ollama_bin_path(data_dir: &str, windows: bool) -> (r: String)
    ensures
        r@ == data_dir@ + "/bin/"@ + binary_name_spec(windows),
{
    let mut s = String::new();
    s.append(data_dir);
    s.append("/bin/");
    s.append(engine_binary_name(windows));
    s
}

/// The fixed priority list searched for an already-usable engine binary:
/// the bundled path, then the common system install locations.
pub open spec fn candidates_spec(data_dir: Seq<char>, windows: bool) -> Seq<Seq<char>> {
    seq![
        data_dir + "/bin/"@ + binary_name_spec(windows),
        "/usr/local/bin/ollama"@,
        "/opt/homebrew/bin/ollama"@,
        "/usr/bin/ollama"@,
    ]
}

/// Builds the priority-ordered candidate paths searched for the engine
/// binary.
pub fn search_candidates(data_dir: &str, windows: bool) -> (r: Vec<String>)
    ensures
        r.deep_view() == candidates_spec(data_dir@, windows),
{
    let mut out: Vec<String> = Vec::new();
    out.push(get_ollama_bin_path(data_dir, windows));
    out.push(String::from_str("/usr/local/bin/ollama"));
    out.push(String::from_str("/opt/homebrew/bin/ollama"));
    out.push(String::from_str("/usr/bin/ollama"));
    proof {
        assert(out.deep_view() =~= candidates_spec(data_dir@, windows));
    }
    out
}

/// The first of `paths` (from index `k` on) whose existence flag is set.
pub open spec fn first_existing_from(paths: Seq<Seq<char>>, exists: Seq<bool>, k: int) -> Option<
    Seq<char>,
>
    decreases paths.len() - k,
{
    if k < 0 || k >= paths.len() {
        None
    } else if exists[k] {
        Some(paths[k])
    } else {
        first_existing_from(paths, exists, k + 1)
    }
}

/// The first of `paths` whose existence flag is set.
pub open spec fn first_existing(paths: Seq<Seq<char>>, exists: Seq<bool>) -> Option<Seq<char>> {
    first_existing_from(paths, exists, 0)
}

/// What the shell lookup contributes when no listed candidate exists: its
/// reported path, provided the lookup succeeded with a nonempty path that
/// names an existing file.
pub open spec fn which_fallback(which: Option<Seq<char>>, which_exists: bool) -> Option<
    Seq<char>,
> {
    match which {
        Some(w) => if which_exists && w.len() > 0 {
            Some(w)
        } else {
            None
        },
        None => None,
    }
}

/// Chooses the engine binary: the first candidate whose file exists, in
/// priority order, falling back to the shell lookup's answer. `exists[i]`
/// reports whether `paths[i]` names an existing file; `which_path` is the
/// shell lookup's trimmed output when the lookup succeeded, and
/// `which_exists` whether that path names an existing file. Absence is an
/// expected outcome, not an error: it triggers installation.
pub fn choose_binary(
    paths: &Vec<String>,
    exists: &Vec<bool>,
    which_path: Option<String>,
    which_exists: bool,
) -> (r: Option<String>)
    requires
        paths@.len() == exists@.len(),
    ensures
        r.deep_view() == match first_existing(paths.deep_view(), exists@) {
            Some(p) => Some(p),
            None => which_fallback(which_path.deep_view(), which_exists),
        },
{
    let mut i: usize = 0;
    while i < paths.len()
        invariant
            0 <= i <= paths@.len(),
            paths@.len() == exists@.len(),
            first_existing(paths.deep_view(), exists@) == first_existing_from(
                paths.deep_view(),
                exists@,
                i as int,
            ),
        decreases paths@.len() - i,
    {
        if exists[i] {
            let found = paths[i].clone();
            proof {
                assert(found.deep_view() == paths.deep_view()[i as int]);
            }
            return Some(found);
        }
        i = i + 1;
    }
    match which_path {
        Some(w) => {
            if which_exists && !w.as_str().is_empty() {
                Some(w)
            } else {
                None
            }
        },
        None => None,
    }
}

} // verus!
