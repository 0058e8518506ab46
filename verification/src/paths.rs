//! Where the worker's entrypoint and its resource root are found.
//!
//! Paths are strings whose components are separated by `/`, and a path that
//! begins with `/` starts at the root. An empty component and a `.` component
//! name nothing and are passed over, except a `.` that begins a path; `..` is
//! a component like any other. Other separators and drive prefixes are not
//! known here.

use vstd::prelude::*;
use vstd::string::*;

verus! {

/// How the host application was built, which decides where the worker's files are found.
#[derive(Clone, Copy, Debug, PartialEq, Eq, Structural)]
pub enum BuildMode {
    /// Run from a source checkout.
    Development,
    /// Run from an installed bundle.
    Packaged,
}

/// The two locations a start needs.
#[derive(Clone, Debug, PartialEq, Eq)]
pub struct ResolvedPaths {
    /// The worker script that is handed to the runtime.
    pub entrypoint: String,
    /// The directory under which the worker looks for its own files.
    pub resource_root: String,
}

/// The worker script's place below the directory that holds it.
pub open spec fn worker_subpath() -> Seq<char> {
    "sidecar/local-api-server.mjs"@
}

/// The directory used where none can be determined.
pub open spec fn fallback_dir() -> Seq<char> {
    "."@
}

/// `rel` adjoined to `base`: an absolute `rel` stands alone, and a separator is
/// put between the two unless `base` is empty or already ends in one.
pub open spec fn joined(base: Seq<char>, rel: Seq<char>) -> Seq<char> {
    if rel.len() > 0 && rel[0] == '/' {
        rel
    } else if base.len() == 0 || base.last() == '/' {
        base + rel
    } else {
        base + seq!['/'] + rel
    }
}

/// The length of what stands before the components of `path`: the root
/// separator, or a `.` that begins the path and is a component of its own.
pub open spec fn start_len(path: Seq<char>) -> nat {
    if path.len() > 0 && path[0] == '/' {
        1
    } else if path.len() > 0 && path[0] == '.' && (path.len() == 1 || path[1] == '/') {
        1
    } else {
        0
    }
}

/// Whether `s` ends in something that names nothing: a separator, or a `.`
/// that follows a separator.
pub open spec fn ends_in_skipped(s: Seq<char>) -> bool {
    s.len() > 0 && (s.last() == '/' || (s.last() == '.' && s.len() >= 2 && s[s.len() - 2] == '/'))
}

/// `s` without the separators and `.` components it ends in, its first
/// `floor` characters kept in any case.
pub open spec fn without_trailing_skipped(s: Seq<char>, floor: nat) -> Seq<char>
    decreases s.len(),
{
    if s.len() > floor && ends_in_skipped(s) {
        without_trailing_skipped(s.drop_last(), floor)
    } else {
        s
    }
}

/// `s` without the characters that follow its last separator, its first
/// `floor` characters kept in any case.
pub open spec fn without_last_component(s: Seq<char>, floor: nat) -> Seq<char>
    decreases s.len(),
{
    if s.len() > floor && s.last() != '/' {
        without_last_component(s.drop_last(), floor)
    } else {
        s
    }
}

/// The directory that holds `path`, if `path` names anything below a directory.
///
/// Separators and `.` components at the end of `path` are passed over, then
/// the last component is dropped, then what the rest ends in is passed over
/// again; a root and a leading `.` stay. A path that is empty or names the
/// root has no parent. A single relative component, and a path that is only a
/// leading `.`, have the empty path as their parent. A component directly
/// below the root has the root.
pub open spec fn parent_of(path: Seq<char>) -> Option<Seq<char>> {
    let floor = start_len(path);
    let named = without_trailing_skipped(path, floor);
    if named.len() > floor {
        Some(without_trailing_skipped(without_last_component(named, floor), floor))
    } else if floor == 1 && path[0] == '.' {
        Some(Seq::empty())
    } else {
        None
    }
}

/// The resource directory the host reported, or the fallback where it reported none.
pub open spec fn dir_or_fallback(resource_dir: Option<&str>) -> Seq<char> {
    match resource_dir {
        Some(dir) => dir@,
        None => fallback_dir(),
    }
}

/// The entrypoint for a build mode: the worker's subpath below the source root
/// in development, below the resource directory when packaged.
pub open spec fn resolved_entrypoint(
    mode: BuildMode,
    source_root: Seq<char>,
    resource_dir: Seq<char>,
) -> Seq<char> {
    match mode {
        BuildMode::Development => joined(source_root, worker_subpath()),
        BuildMode::Packaged => joined(resource_dir, worker_subpath()),
    }
}

/// The resource root for a build mode: the parent of the source root in
/// development (the fallback where it has none), the resource directory itself
/// when packaged.
pub open spec fn resolved_resource_root(
    mode: BuildMode,
    source_root: Seq<char>,
    resource_dir: Seq<char>,
) -> Seq<char> {
    match mode {
        BuildMode::Development => match parent_of(source_root) {
            Some(dir) => dir,
            None => fallback_dir(),
        },
        BuildMode::Packaged => resource_dir,
    }
}

/// Dropping the last component of `head + name` gives `head`, where `name`
/// holds no separator and `head` is as short as `floor` or ends in a separator.
proof fn lemma_last_component_dropped(head: Seq<char>, name: Seq<char>, floor: nat)
    requires
        forall|i: int| 0 <= i < name.len() ==> name[i] != '/',
        head.len() >= floor,
        head.len() == floor || head.last() == '/',
    ensures
        without_last_component(head + name, floor) == head,
    decreases name.len(),
{
    if name.len() > 0 {
        assert((head + name).drop_last() =~= head + name.drop_last());
        lemma_last_component_dropped(head, name.drop_last(), floor);
    }
}

/// The parent of a name adjoined to a directory is that directory: `name` is
/// one component other than `.`, and `dir` is empty, or the root, or ends in
/// a component.
pub proof fn lemma_parent_of_joined(dir: Seq<char>, name: Seq<char>)
    requires
        name.len() > 0,
        forall|i: int| 0 <= i < name.len() ==> name[i] != '/',
        name != seq!['.'],
        dir.len() == 0 || dir == seq!['/'] || !ends_in_skipped(dir),
    ensures
        parent_of(joined(dir, name)) == Some(dir),
{
    let path = joined(dir, name);
    let floor = start_len(path);
    assert(name.len() == 1 ==> name =~= seq![name[0]]);
    assert(path.last() == name.last());
    assert(name.len() >= 2 ==> path[path.len() - 2] == name[name.len() - 2]);
    assert(!ends_in_skipped(path));
    assert(path.len() > floor);
    if dir.len() == 0 {
        assert(path =~= name);
        assert(dir + name =~= name);
        lemma_last_component_dropped(dir, name, floor);
    } else if dir == seq!['/'] {
        lemma_last_component_dropped(dir, name, floor);
    } else {
        let head = dir + seq!['/'];
        assert(path == head + name);
        assert(head.drop_last() =~= dir);
        lemma_last_component_dropped(head, name, floor);
        assert(without_trailing_skipped(head, floor) == without_trailing_skipped(dir, floor));
    }
}

/// In development the resource root of a source root `dir/name` is `dir`, and
/// the entrypoint lies below the source root, whatever the resource directory.
pub proof fn lemma_development_root_is_parent(
    dir: Seq<char>,
    name: Seq<char>,
    resource_dir: Seq<char>,
)
    requires
        name.len() > 0,
        forall|i: int| 0 <= i < name.len() ==> name[i] != '/',
        name != seq!['.'],
        dir.len() == 0 || dir == seq!['/'] || !ends_in_skipped(dir),
    ensures
        resolved_resource_root(BuildMode::Development, joined(dir, name), resource_dir) == dir,
        resolved_entrypoint(BuildMode::Development, joined(dir, name), resource_dir) == joined(
            joined(dir, name),
            worker_subpath(),
        ),
{
    lemma_parent_of_joined(dir, name);
}

/// When packaged the entrypoint lies below the resource root, which is the
/// resource directory itself, whatever the source root.
pub proof fn lemma_packaged_entrypoint_below_root(source_root: Seq<char>, resource_dir: Seq<char>)
    ensures
        resolved_resource_root(BuildMode::Packaged, source_root, resource_dir) == resource_dir,
        resolved_entrypoint(BuildMode::Packaged, source_root, resource_dir) == joined(
            resolved_resource_root(BuildMode::Packaged, source_root, resource_dir),
            worker_subpath(),
        ),
{
}

/// Adjoins `rel` to `base`.
pub fn join_path(base: &str, rel: &str) -> (out: String)
    ensures
        out@ == joined(base@, rel@),
{
    let rel_len: usize = rel.unicode_len();
    if rel_len > 0 && rel.get_char(0) == '/' {
        return String::from_str(rel);
    }
    let base_len: usize = base.unicode_len();
    let mut out = String::from_str(base);
    if base_len > 0 && base.get_char(base_len - 1) != '/' {
        proof {
            reveal_strlit("/");
        }
        out.append("/");
    }
    out.append(rel);
    out
}

/// The length of what stands before the components of `path`, which has
/// `len` characters.
fn start_of(path: &str, len: usize) -> (n: usize)
    requires
        len == path@.len(),
    ensures
        n == start_len(path@),
{
    if len == 0 {
        return 0;
    }
    let first: char = path.get_char(0);
    if first == '/' {
        1
    } else if first == '.' && (len == 1 || path.get_char(1) == '/') {
        1
    } else {
        0
    }
}

/// Whether the first `upto` characters of `path` end in a separator or in a
/// `.` component.
fn ends_skipped(path: &str, upto: usize) -> (skipped: bool)
    requires
        0 < upto <= path@.len(),
    ensures
        skipped == ends_in_skipped(path@.subrange(0, upto as int)),
{
    let last: char = path.get_char(upto - 1);
    last == '/' || (last == '.' && upto >= 2 && path.get_char(upto - 2) == '/')
}

/// The length of the first `upto` characters of `path` once the separators
/// and `.` components they end in are dropped, down to `floor` at most.
fn trimmed_len(path: &str, upto: usize, floor: usize) -> (n: usize)
    requires
        upto <= path@.len(),
    ensures
        n <= upto,
        path@.subrange(0, n as int) == without_trailing_skipped(
            path@.subrange(0, upto as int),
            floor as nat,
        ),
{
    let mut n: usize = upto;
    while n > floor && ends_skipped(path, n)
        invariant
            n <= upto <= path@.len(),
            without_trailing_skipped(path@.subrange(0, n as int), floor as nat)
                == without_trailing_skipped(path@.subrange(0, upto as int), floor as nat),
        decreases n,
    {
        assert(path@.subrange(0, n as int).drop_last() =~= path@.subrange(0, n - 1));
        n -= 1;
    }
    n
}

/// The length of the first `upto` characters of `path` once the characters
/// after their last separator are dropped, down to `floor` at most.
fn component_start(path: &str, upto: usize, floor: usize) -> (n: usize)
    requires
        upto <= path@.len(),
    ensures
        n <= upto,
        path@.subrange(0, n as int) == without_last_component(
            path@.subrange(0, upto as int),
            floor as nat,
        ),
{
    let mut n: usize = upto;
    while n > floor && path.get_char(n - 1) != '/'
        invariant
            n <= upto <= path@.len(),
            without_last_component(path@.subrange(0, n as int), floor as nat)
                == without_last_component(path@.subrange(0, upto as int), floor as nat),
        decreases n,
    {
        assert(path@.subrange(0, n as int).drop_last() =~= path@.subrange(0, n - 1));
        n -= 1;
    }
    n
}

/// The directory that holds `path`, or `None` where `path` is empty or names the root.
pub fn parent_dir(path: &str) -> (out: Option<String>)
    ensures
        match out {
            Some(dir) => parent_of(path@) == Some(dir@),
            None => parent_of(path@) is None,
        },
{
    let len: usize = path.unicode_len();
    assert(path@.subrange(0, len as int) =~= path@);
    let floor: usize = start_of(path, len);
    let named: usize = trimmed_len(path, len, floor);
    if named > floor {
        let head: usize = component_start(path, named, floor);
        let dir: usize = trimmed_len(path, head, floor);
        Some(String::from_str(path.substring_char(0, dir)))
    } else if floor == 1 && path.get_char(0) == '.' {
        Some(String::new())
    } else {
        None
    }
}

/// Computes the worker's entrypoint and resource root.
///
/// `source_root` is the directory the application was built from, and
/// `resource_dir` the directory the running application reports for its bundled
/// files, `None` where it could report none. Resolution never fails: a missing
/// directory is replaced by the fallback.
pub fn local_api_paths(mode: BuildMode, source_root: &str, resource_dir: Option<&str>) -> (paths:
    ResolvedPaths)
    ensures
        paths.entrypoint@ == resolved_entrypoint(mode, source_root@, dir_or_fallback(resource_dir)),
        paths.resource_root@ == resolved_resource_root(
            mode,
            source_root@,
            dir_or_fallback(resource_dir),
        ),
{
    let resource_dir: &str = match resource_dir {
        Some(dir) => dir,
        None => ".",
    };
    match mode {
        BuildMode::Development => {
            let resource_root = match parent_dir(source_root) {
                Some(dir) => dir,
                None => String::from_str("."),
            };
            ResolvedPaths {
                entrypoint: join_path(source_root, "sidecar/local-api-server.mjs"),
                resource_root,
            }
        },
        BuildMode::Packaged => ResolvedPaths {
            entrypoint: join_path(resource_dir, "sidecar/local-api-server.mjs"),
            resource_root: String::from_str(resource_dir),
        },
    }
}

} // verus!
