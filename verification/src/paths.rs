//! Where the backend executable is looked for, in which order, and which of
//! the places wins.

use crate::error::BootError;
use crate::text::{blank, contains, contains_text, is_blank, text_of, texts};
use vstd::prelude::*;
use vstd::string::*;

verus! {

/// The operating system that the supervisor runs on.
#[derive(Clone, Copy, Debug, PartialEq, Eq, Structural)]
pub enum Platform {
    Windows,
    MacOs,
    Other,
}

/// The processor family that the supervisor runs on.
#[derive(Clone, Copy, Debug, PartialEq, Eq, Structural)]
pub enum Arch {
    Aarch64,
    Other,
}

/// The path that `std::path::Path::join` makes of `base` and `name`, on the
/// platform that the library is built for.
pub uninterp spec fn path_join(base: Seq<char>, name: Seq<char>) -> Seq<char>;

/// The path that `std::path::Path::parent` gives for `dir`, on the platform
/// that the library is built for; `None` where `dir` has no parent.
pub uninterp spec fn path_parent(dir: Seq<char>) -> Option<Seq<char>>;

/// Calls `std::path::Path::join` on `base` with `name`. Nothing is claimed of
/// the joined path but that it is the one that `join` makes of these two.
#[verifier::external_body]
pub(crate) fn join_path(base: &str, name: &str) -> (joined: String)
    ensures
        joined@ == path_join(base@, name@),
{
    std::path::Path::new(base).join(name).to_string_lossy().into_owned()
}

/// Calls `std::path::Path::parent` on `dir`. Nothing is claimed of the
/// result but that it is the one that `parent` gives for this path.
#[verifier::external_body]
pub(crate) fn parent_dir(dir: &str) -> (parent: Option<String>)
    ensures
        parent is Some == path_parent(dir@) is Some,
        parent is Some ==> parent->0@ == path_parent(dir@)->0,
{
    match std::path::Path::new(dir).parent() {
        Some(parent) => Some(parent.to_string_lossy().into_owned()),
        None => None,
    }
}

/// The candidate that an explicit override gives: the path itself, unless it
/// is unset or blank.
pub open spec fn override_candidates(explicit: Option<Seq<char>>) -> Seq<Seq<char>> {
    match explicit {
        Some(path) => if is_blank(path) {
            Seq::empty()
        } else {
            seq![path]
        },
        None => Seq::empty(),
    }
}

/// The bundled file names, each in `dir`, most specific first.
pub open spec fn bundled_in(dir: Seq<char>) -> Seq<Seq<char>> {
    seq![
        path_join(dir, "hudson_macos_arm-aarch64-apple-darwin"@),
        path_join(dir, "hudson_macos_arm"@),
        path_join(dir, "hudson_backend"@),
    ]
}

/// The candidates beside the resource directory: in the directory of
/// platform executables that is its sibling, if it has a parent at all.
pub open spec fn sibling_candidates(dir: Seq<char>) -> Seq<Seq<char>> {
    match path_parent(dir) {
        Some(parent) => bundled_in(path_join(parent, "MacOS"@)),
        None => Seq::empty(),
    }
}

/// The candidates that a bundled-resource directory gives: the sibling
/// directory first, then its `binaries` subdirectory, then the directory
/// itself.
pub open spec fn bundled_candidates(resource_dir: Option<Seq<char>>) -> Seq<Seq<char>> {
    match resource_dir {
        Some(dir) => sibling_candidates(dir) + bundled_in(path_join(dir, "binaries"@))
            + bundled_in(dir),
        None => Seq::empty(),
    }
}

/// The development fallbacks: the release build first, the alternate native
/// build last.
pub open spec fn development_candidates(platform: Platform) -> Seq<Seq<char>> {
    if platform is Windows {
        seq!["..\\_build\\prod\\rel\\hudson\\bin\\hudson.bat"@, "..\\burrito_out\\hudson_windows.exe"@]
    } else {
        seq![
            "../_build/prod/rel/hudson/bin/hudson"@,
            "../burrito_out/hudson_macos_arm"@,
            "../burrito_out/hudson_macos_intel"@,
        ]
    }
}

/// All the candidates, in the order in which they are tried.
pub open spec fn candidates_of(
    platform: Platform,
    explicit: Option<Seq<char>>,
    resource_dir: Option<Seq<char>>,
) -> Seq<Seq<char>> {
    override_candidates(explicit) + bundled_candidates(resource_dir) + development_candidates(
        platform,
    )
}

/// Whether the candidate at position `i` is reported to exist. A position
/// without a report counts as not existing.
pub open spec fn exists_at(exists: Seq<bool>, i: int) -> bool {
    0 <= i < exists.len() && exists[i]
}

/// Whether `k` is the first of the first `count` positions whose candidate
/// exists.
pub open spec fn is_first_existing(count: int, exists: Seq<bool>, k: int) -> bool {
    &&& 0 <= k < count
    &&& exists_at(exists, k)
    &&& forall|j: int| 0 <= j < k ==> !exists_at(exists, j)
}

/// The launch arguments for `executable` where nothing overrides them: none
/// for a self-contained native build, else the one that keeps the child in
/// the foreground.
pub open spec fn default_args(executable: Seq<char>) -> Seq<Seq<char>> {
    if contains_text(executable, "burrito_out"@) {
        Seq::empty()
    } else {
        seq!["foreground"@]
    }
}

/// The backend path assumed where nothing else is known: the release build
/// if it exists, else the native build for the platform.
pub open spec fn default_path(platform: Platform, arch: Arch, release_exists: bool) -> Seq<char> {
    match platform {
        Platform::Windows => if release_exists {
            "..\\_build\\prod\\rel\\hudson\\bin\\hudson.bat"@
        } else {
            "..\\burrito_out\\hudson_windows.exe"@
        },
        _ => if release_exists {
            "../_build/prod/rel/hudson/bin/hudson"@
        } else if arch is Aarch64 {
            "../burrito_out/hudson_macos_arm"@
        } else {
            "../burrito_out/hudson_macos_intel"@
        },
    }
}

fn push_text(paths: &mut Vec<String>, path: String)
    ensures
        texts(final(paths)@) == texts(old(paths)@).push(path@),
{
    paths.push(path);
    assert(texts(paths@) =~= texts(old(paths)@).push(path@));
}

/// The views of a list of paths that may be absent; none where it is.
pub open spec fn texts_if_any(paths: Option<Vec<String>>) -> Seq<Seq<char>> {
    match paths {
        Some(list) => texts(list@),
        None => Seq::empty(),
    }
}

fn append_texts(paths: &mut Vec<String>, more: Vec<String>)
    ensures
        texts(final(paths)@) == texts(old(paths)@) + texts(more@),
{
    let ghost added = texts(more@);
    let mut more = more;
    paths.append(&mut more);
    assert(texts(paths@) =~= texts(old(paths)@) + added);
}

fn bundled_paths(dir: &str) -> (paths: Vec<String>)
    ensures
        texts(paths@) == bundled_in(dir@),
{
    let mut paths: Vec<String> = Vec::new();
    push_text(&mut paths, join_path(dir, "hudson_macos_arm-aarch64-apple-darwin"));
    push_text(&mut paths, join_path(dir, "hudson_macos_arm"));
    push_text(&mut paths, join_path(dir, "hudson_backend"));
    assert(texts(paths@) =~= bundled_in(dir@));
    paths
}

/// Puts the candidates in the order in which they are tried: the override
/// unless it is blank, then the paths beside the resource directory, then
/// those in its `binaries` subdirectory, then those in the directory itself,
/// then the development fallbacks for `platform`.
pub fn assemble_candidates(
    platform: Platform,
    explicit: Option<String>,
    sibling: Option<Vec<String>>,
    binaries: Vec<String>,
    direct: Vec<String>,
) -> (paths: Vec<String>)
    ensures
        texts(paths@) == override_candidates(text_of(explicit)) + texts_if_any(sibling) + texts(
            binaries@,
        ) + texts(direct@) + development_candidates(platform),
{
    let mut paths: Vec<String> = Vec::new();
    assert(texts(paths@) =~= Seq::<Seq<char>>::empty());
    let ghost first = override_candidates(text_of(explicit));
    let ghost second = texts_if_any(sibling);
    if let Some(path) = explicit {
        if !blank(path.as_str()) {
            push_text(&mut paths, path);
        }
    }
    assert(texts(paths@) =~= first);
    if let Some(beside) = sibling {
        append_texts(&mut paths, beside);
    }
    assert(texts(paths@) =~= first + second);
    append_texts(&mut paths, binaries);
    append_texts(&mut paths, direct);
    let ghost bundled = texts(paths@);
    match platform {
        Platform::Windows => {
            push_text(
                &mut paths,
                String::from_str("..\\_build\\prod\\rel\\hudson\\bin\\hudson.bat"),
            );
            push_text(&mut paths, String::from_str("..\\burrito_out\\hudson_windows.exe"));
        },
        _ => {
            push_text(&mut paths, String::from_str("../_build/prod/rel/hudson/bin/hudson"));
            push_text(&mut paths, String::from_str("../burrito_out/hudson_macos_arm"));
            push_text(&mut paths, String::from_str("../burrito_out/hudson_macos_intel"));
        },
    }
    assert(texts(paths@) =~= bundled + development_candidates(platform));
    paths
}

/// The ordered list of places where the backend executable may be:
/// `explicit` is the override from the environment, `resource_dir` the
/// directory of bundled resources.
pub fn candidate_backend_paths(
    platform: Platform,
    explicit: Option<String>,
    resource_dir: Option<String>,
) -> (paths: Vec<String>)
    ensures
        texts(paths@) == candidates_of(platform, text_of(explicit), text_of(resource_dir)),
{
    match resource_dir {
        Some(dir) => {
            let sibling = match parent_dir(dir.as_str()) {
                Some(parent) => Some(bundled_paths(join_path(parent.as_str(), "MacOS").as_str())),
                None => None,
            };
            let binaries = bundled_paths(join_path(dir.as_str(), "binaries").as_str());
            let direct = bundled_paths(dir.as_str());
            let paths = assemble_candidates(platform, explicit, sibling, binaries, direct);
            assert(texts(paths@) =~= candidates_of(platform, text_of(explicit), Some(dir@)));
            paths
        },
        None => {
            let paths = assemble_candidates(platform, explicit, None, Vec::new(), Vec::new());
            assert(texts(paths@) =~= candidates_of(platform, text_of(explicit), None));
            paths
        },
    }
}

/// The position of the first of the first `count` candidates that exists.
pub fn first_existing(count: usize, exists: &Vec<bool>) -> (found: Option<usize>)
    ensures
        match found {
            Some(k) => is_first_existing(count as int, exists@, k as int),
            None => forall|j: int| 0 <= j < count ==> !exists_at(exists@, j),
        },
{
    let mut i: usize = 0;
    while i < count && i < exists.len()
        invariant
            forall|j: int| 0 <= j < i ==> !exists_at(exists@, j),
        decreases exists.len() - i,
    {
        if exists[i] {
            return Some(i);
        }
        i = i + 1;
    }
    None
}

/// Picks the executable: the first candidate that exists, whatever exists
/// after it. Where none exists the error carries the whole list.
pub fn resolve_backend(candidates: Vec<String>, exists: &Vec<bool>) -> (resolved: Result<
    String,
    BootError,
>)
    ensures
        match resolved {
            Ok(path) => exists|k: int|
                is_first_existing(candidates@.len() as int, exists@, k) && path@
                    == #[trigger] candidates@[k]@,
            Err(error) => {
                &&& forall|j: int| 0 <= j < candidates@.len() ==> !exists_at(exists@, j)
                &&& error == BootError::BackendNotFound(candidates)
            },
        },
{
    match first_existing(candidates.len(), exists) {
        Some(k) => {
            let path = candidates[k].clone();
            assert(is_first_existing(candidates@.len() as int, exists@, k as int) && path@
                == candidates@[k as int]@);
            Ok(path)
        },
        None => Err(BootError::BackendNotFound(candidates)),
    }
}

/// The launch arguments for `executable` where nothing overrides them.
pub fn default_args_for(executable: &str) -> (args: Vec<String>)
    ensures
        texts(args@) == default_args(executable@),
{
    let mut args: Vec<String> = Vec::new();
    assert(texts(args@) =~= Seq::<Seq<char>>::empty());
    if !contains(executable, "burrito_out") {
        push_text(&mut args, String::from_str("foreground"));
        assert(texts(args@) =~= seq!["foreground"@]);
    }
    args
}

/// The backend path assumed where nothing else is known. `release_exists`
/// says whether the release build for `platform` is on disk.
pub fn default_backend_path(platform: Platform, arch: Arch, release_exists: bool) -> (path: String)
    ensures
        path@ == default_path(platform, arch, release_exists),
{
    match platform {
        Platform::Windows => if release_exists {
            String::from_str("..\\_build\\prod\\rel\\hudson\\bin\\hudson.bat")
        } else {
            String::from_str("..\\burrito_out\\hudson_windows.exe")
        },
        _ => if release_exists {
            String::from_str("../_build/prod/rel/hudson/bin/hudson")
        } else {
            match arch {
                Arch::Aarch64 => String::from_str("../burrito_out/hudson_macos_arm"),
                Arch::Other => String::from_str("../burrito_out/hudson_macos_intel"),
            }
        },
    }
}

/// Among the development fallbacks the release build comes first, on every
/// platform and processor: it is the path that is assumed where the release
/// build exists.
pub proof fn release_build_comes_first(platform: Platform, arch: Arch)
    ensures
        development_candidates(platform).len() >= 2,
        development_candidates(platform)[0] == default_path(platform, arch, true),
        development_candidates(platform).contains(default_path(platform, arch, false)),
        development_candidates(platform)[0] != default_path(platform, arch, false),
{
    reveal_strlit("..\\_build\\prod\\rel\\hudson\\bin\\hudson.bat");
    reveal_strlit("..\\burrito_out\\hudson_windows.exe");
    reveal_strlit("../_build/prod/rel/hudson/bin/hudson");
    reveal_strlit("../burrito_out/hudson_macos_arm");
    reveal_strlit("../burrito_out/hudson_macos_intel");
    let fallbacks = development_candidates(platform);
    if platform is Windows {
        assert(fallbacks[1] == default_path(platform, arch, false));
        assert(fallbacks[0][3] != fallbacks[1][3]);
    } else if arch is Aarch64 {
        assert(fallbacks[1] == default_path(platform, arch, false));
        assert(fallbacks[0][3] != fallbacks[1][3]);
    } else {
        assert(fallbacks[2] == default_path(platform, arch, false));
        assert(fallbacks[0][3] != fallbacks[2][3]);
    }
}

/// The first candidate that exists is the one resolved, whatever exists at
/// the positions after it.
pub proof fn first_existing_wins(count: int, exists: Seq<bool>, other: Seq<bool>, k: int)
    requires
        is_first_existing(count, exists, k),
        forall|j: int| 0 <= j <= k ==> exists_at(other, j) == exists_at(exists, j),
    ensures
        is_first_existing(count, other, k),
        forall|m: int| is_first_existing(count, other, m) ==> m == k,
{
}

} // verus!
