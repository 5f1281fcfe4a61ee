//! Starting the program anew.
use crate::hotkey::Platform;
use crate::search;
use crate::text;
use vstd::prelude::*;

verus! {

/// A path on Windows that is taken as it stands.
pub open spec fn verbatim(path: Seq<char>) -> bool {
    search::has_prefix(path, "\\\\?\\"@)
}

/// The character parts one folder of the path from the next. On Windows the
/// backslash does, and the slash too unless the path is taken as it stands.
pub open spec fn parts_folders(path: Seq<char>, c: char, platform: Platform) -> bool {
    match platform {
        Platform::Macos => c == '/',
        Platform::Windows => c == '\\' || c == '/' && !verbatim(path),
    }
}

/// A name begins behind `i`: a separator is there or, on Windows, the colon of
/// a drive.
pub open spec fn name_begins_behind(path: Seq<char>, i: int, platform: Platform) -> bool {
    parts_folders(path, path[i], platform) || platform == Platform::Windows && i == 1 && path[1]
        == ':'
}

/// The first `n` characters of a path are that of an application bundle.
pub open spec fn bundle_at(path: Seq<char>, n: int, platform: Platform) -> bool {
    &&& 5 <= n <= path.len()
    &&& path.subrange(n - 4, n) == ".app"@
    &&& !name_begins_behind(path, n - 5, platform)
    &&& n == path.len() || parts_folders(path, path[n], platform)
}

/// The innermost bundle among the first `n` characters of a path.
pub open spec fn bundle_within(path: Seq<char>, n: int, platform: Platform) -> Option<Seq<char>>
    decreases n,
{
    if n <= 0 {
        None
    } else if bundle_at(path, n, platform) {
        Some(path.take(n))
    } else {
        bundle_within(path, n - 1, platform)
    }
}

/// The bundle that holds the program: the innermost folder on its path, or the
/// program itself, that is one.
pub open spec fn bundle_of(path: Seq<char>, platform: Platform) -> Option<Seq<char>> {
    bundle_within(path, path.len() as int, platform)
}

fn is_separator(c: char, platform: Platform, as_it_stands: bool) -> (r: bool)
    ensures
        r == match platform {
            Platform::Macos => c == '/',
            Platform::Windows => c == '\\' || c == '/' && !as_it_stands,
        },
{
    match platform {
        Platform::Macos => c == '/',
        Platform::Windows => c == '\\' || c == '/' && !as_it_stands,
    }
}

pub fn app_bundle(exe: &str, platform: Platform) -> (r: Option<String>)
    ensures
        match bundle_of(exe@, platform) {
            Some(b) => r is Some && r->0@ == b,
            None => r is None,
        },
{
    let cs = text::chars_of(exe);
    let raw = search::starts_with(exe, "\\\\?\\");
    let mut n: usize = cs.len();
    while n > 0
        invariant
            n <= cs@.len(),
            cs@ == exe@,
            raw == verbatim(exe@),
            bundle_of(exe@, platform) == bundle_within(exe@, n as int, platform),
        decreases n,
    {
        if n >= 5 && (n == cs.len() || is_separator(cs[n], platform, raw)) {
            let first = is_separator(cs[n - 5], platform, raw) || platform == Platform::Windows && n
                == 6 && cs[1] == ':';
            if !first && text::same(&text::string_of_range(&cs, n - 4, n), ".app") {
                assert(exe@.subrange(0, n as int) == exe@.take(n as int));
                return Some(text::string_of_range(&cs, 0, n));
            }
        }
        n -= 1;
    }
    None
}

/// A program and what it is started with.
#[derive(Debug)]
pub struct Restart {
    pub program: String,
    pub args: Vec<String>,
}

/// What starts the program anew: the bundle is opened, or else the program is
/// started by itself.
pub fn restart_plan(exe: &str, platform: Platform) -> (r: Restart)
    ensures
        match bundle_of(exe@, platform) {
            Some(b) => r.program@ == "open"@ && search::texts(r.args@) == seq!["-n"@, "-a"@, b],
            None => r.program@ == exe@ && r.args@.len() == 0,
        },
{
    match app_bundle(exe, platform) {
        Some(b) => {
            let args = vec!["-n".to_string(), "-a".to_string(), b];
            assert(search::texts(args@) =~= seq!["-n"@, "-a"@, b@]);
            Restart { program: "open".to_string(), args }
        },
        None => Restart { program: exe.to_string(), args: Vec::new() },
    }
}

// ---------------------------------------------------------------------------
// Laws
// ---------------------------------------------------------------------------

/// A bundle is a part of the path from its beginning, which ends in `.app` and
/// behind which the path ends or goes on below it.
pub proof fn law_bundles_are_folders_of_the_path(path: Seq<char>, platform: Platform)
    ensures
        bundle_of(path, platform) matches Some(b) ==> {
            &&& search::has_prefix(path, b)
            &&& b.len() > 4 && b.skip(b.len() - 4) == ".app"@
            &&& b.len() == path.len() || path[b.len() as int] == '/' || path[b.len() as int] == '\\'
        },
{
    lemma_bundle_within(path, path.len() as int, platform);
}

proof fn lemma_bundle_within(path: Seq<char>, n: int, platform: Platform)
    requires
        n <= path.len(),
    ensures
        bundle_within(path, n, platform) matches Some(b) ==> {
            &&& search::has_prefix(path, b)
            &&& b.len() > 4 && b.skip(b.len() - 4) == ".app"@
            &&& b.len() == path.len() || path[b.len() as int] == '/' || path[b.len() as int] == '\\'
        },
    decreases n,
{
    if n > 0 {
        if bundle_at(path, n, platform) {
            let b = path.take(n);
            assert(path.subrange(0, n) =~= b);
            assert(b.skip(n - 4) =~= path.subrange(n - 4, n));
        } else {
            lemma_bundle_within(path, n - 1, platform);
        }
    }
}

/// A program below a bundle is started by way of that bundle, as long as there
/// is none further in.
pub proof fn law_the_innermost_bundle_counts(folder: Seq<char>, rest: Seq<char>)
    requires
        folder.len() > 0,
        folder.last() != '/',
        !search::has_text(rest, ".app"@),
    ensures
        bundle_of(folder + ".app/"@ + rest, Platform::Macos) == Some(folder + ".app"@),
{
    reveal_strlit(".app/");
    reveal_strlit(".app");
    let path = folder + ".app/"@ + rest;
    let n = folder.len() + 4;
    assert(path.subrange(n - 4, n as int) =~= ".app"@);
    assert(path[n as int] == '/');
    assert(path[n - 5] == folder.last());
    assert(bundle_at(path, n as int, Platform::Macos));
    assert(path.take(n as int) =~= folder + ".app"@);
    assert forall|m: int| n < m <= path.len() implies !bundle_at(path, m, Platform::Macos) by {
        if bundle_at(path, m, Platform::Macos) {
            let s = path.subrange(m - 4, m);
            assert(s[0] == '.');
            assert(s[0] == path[m - 4]);
            let k = m - 4 - folder.len();
            if k < 5 {
                assert(path[m - 4] == ".app/"@[k]);
            } else {
                assert(rest.subrange(k - 5, k - 1) =~= s);
                assert(search::occurs_at(rest, ".app"@, k - 5));
            }
        }
    }
    lemma_skip_to(path, path.len() as int, n as int, Platform::Macos);
}

proof fn lemma_skip_to(path: Seq<char>, m: int, n: int, platform: Platform)
    requires
        0 < n <= m <= path.len(),
        bundle_at(path, n, platform),
        forall|k: int| n < k <= path.len() ==> !#[trigger] bundle_at(path, k, platform),
    ensures
        bundle_within(path, m, platform) == Some(path.take(n)),
    decreases m,
{
    if m > n {
        assert(!bundle_at(path, m, platform));
        lemma_skip_to(path, m - 1, n, platform);
    }
}

} // verus!
