//! The launcher's directory layout under its root directory.

use vstd::prelude::*;
use crate::text::{chars_of, str_eq, string_from_chars};

verus! {

broadcast use vstd::string::group_string_axioms;

/// `comp` appended to `base` as a path component, by the Unix rule of
/// `PathBuf::join`, `/` being the separator:
/// an absolute `comp` replaces `base`; otherwise a separator is put between
/// them unless `base` is empty or already ends with one.
pub open spec fn join_path(base: Seq<char>, comp: Seq<char>) -> Seq<char> {
    if comp.len() > 0 && comp[0] == '/' {
        comp
    } else if base.len() == 0 || base.last() == '/' {
        base + comp
    } else {
        base + seq!['/'] + comp
    }
}

/// Appends the path component `comp` to `base`.
pub fn join_path_exec(base: &str, comp: &str) -> (res: String)
    ensures
        res@ == join_path(base@, comp@),
{
    let cb = chars_of(base);
    let cc = chars_of(comp);
    if cc.len() > 0 && cc[0] == '/' {
        return string_from_chars(cc.as_slice());
    }
    let mut out = cb;
    if out.len() > 0 && out[out.len() - 1] != '/' {
        out.push('/');
    }
    let ghost mid = out@;
    let n = cc.len();
    for i in 0..n
        invariant
            n == cc@.len(),
            out@ == mid + cc@.take(i as int),
    {
        out.push(cc[i]);
        assert(mid + cc@.take(i + 1) =~= (mid + cc@.take(i as int)).push(cc@[i as int]));
    }
    assert(cc@.take(n as int) =~= cc@);
    assert(base@.len() > 0 && base@.last() != '/' ==> mid =~= base@ + seq!['/']);
    string_from_chars(out.as_slice())
}

/// The directories the launcher keeps its files in.
#[derive(Clone)]
pub struct Paths {
    pub root: String,
    pub versions: String,
    pub assets: String,
    pub libraries: String,
    pub native_libraries: String,
    pub instances: String,
}

impl Paths {
    /// The layout below `root`: `versions`, `assets`, `libraries`,
    /// `cache/launch/natives` and `instances`.
    pub open spec fn layout(self, root: Seq<char>) -> bool {
        &&& self.root@ == root
        &&& self.versions@ == join_path(root, "versions"@)
        &&& self.assets@ == join_path(root, "assets"@)
        &&& self.libraries@ == join_path(root, "libraries"@)
        &&& self.native_libraries@ == join_path(
            join_path(join_path(root, "cache"@), "launch"@),
            "natives"@,
        )
        &&& self.instances@ == join_path(root, "instances"@)
    }

    /// Lays out the launcher's directories below `root`.
    pub fn new(root: String) -> (res: Self)
        ensures
            res.layout(root@),
    {
        let versions = join_path_exec(root.as_str(), "versions");
        let assets = join_path_exec(root.as_str(), "assets");
        let libraries = join_path_exec(root.as_str(), "libraries");
        let cache = join_path_exec(root.as_str(), "cache");
        let launch = join_path_exec(cache.as_str(), "launch");
        let native_libraries = join_path_exec(launch.as_str(), "natives");
        let instances = join_path_exec(root.as_str(), "instances");
        Paths { root, versions, assets, libraries, native_libraries, instances }
    }
}

/// Where the launcher keeps its data for the operating system `os` (a value
/// of `std::env::consts::OS`), given the per-user base directory (`APPDATA`
/// on Windows, `HOME` elsewhere) and the application's name.
pub open spec fn app_directory_spec(base: Seq<char>, os: Seq<char>, app_name: Seq<char>) -> Seq<char> {
    if os == "macos"@ {
        join_path(join_path(join_path(base, "Library"@), "Application Support"@), app_name)
    } else {
        join_path(base, app_name)
    }
}

/// The operating systems the launcher is built for.
pub open spec fn supported_os(os: Seq<char>) -> bool {
    os == "windows"@ || os == "linux"@ || os == "macos"@
}

/// The launcher's data directory for `os`.
pub fn app_directory(base: &str, os: &str, app_name: &str) -> (res: String)
    requires
        supported_os(os@),
    ensures
        res@ == app_directory_spec(base@, os@, app_name@),
{
    if str_eq(os, "macos") {
        let lib = join_path_exec(base, "Library");
        let support = join_path_exec(lib.as_str(), "Application Support");
        join_path_exec(support.as_str(), app_name)
    } else {
        join_path_exec(base, app_name)
    }
}

/// Below a root that does not end in a separator, every directory of the
/// layout is the root, a `/`, and the directory's relative name.
pub proof fn layout_under_root(p: Paths, root: Seq<char>)
    requires
        p.layout(root),
        root.len() > 0,
        root.last() != '/',
    ensures
        p.versions@ == root + "/versions"@,
        p.assets@ == root + "/assets"@,
        p.libraries@ == root + "/libraries"@,
        p.native_libraries@ == root + "/cache/launch/natives"@,
        p.instances@ == root + "/instances"@,
{
    reveal_strlit("versions");
    reveal_strlit("assets");
    reveal_strlit("libraries");
    reveal_strlit("cache");
    reveal_strlit("launch");
    reveal_strlit("natives");
    reveal_strlit("instances");
    reveal_strlit("/versions");
    reveal_strlit("/assets");
    reveal_strlit("/libraries");
    reveal_strlit("/cache/launch/natives");
    reveal_strlit("/instances");
    assert(p.versions@ =~= root + "/versions"@);
    assert(p.assets@ =~= root + "/assets"@);
    assert(p.libraries@ =~= root + "/libraries"@);
    assert(p.instances@ =~= root + "/instances"@);
    let cache = join_path(root, "cache"@);
    assert(cache =~= root + seq!['/'] + "cache"@);
    let launch = join_path(cache, "launch"@);
    assert(launch =~= cache + seq!['/'] + "launch"@);
    assert(p.native_libraries@ =~= root + "/cache/launch/natives"@);
}

} // verus!
