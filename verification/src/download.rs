//! Where the standalone downloader puts a version's files, and which URLs it
//! fetches them from. Its paths are built as text with `/`.

use vstd::prelude::*;
use vstd::string::StringExecFns;
use crate::launch::{first_with_key, find_classifier, version_json_file};
use crate::paths::{join_path, layout_under_root, Paths};
use crate::manager::{byte_prefix2, hash_prefix, is_version, Manifest};
use crate::rules::{classifier_keys_distinct, lib_is_allowed, lib_is_allowed_spec, Artifact, Library};
use crate::text::str_eq;

verus! {

broadcast use vstd::string::group_string_axioms;

/// What the downloader reads of a version's JSON document.
pub struct VersionDocument {
    /// `downloads.client.url`, when it is a string.
    pub client_url: Option<String>,
    /// `assetIndex.url`, when it is a string.
    pub asset_index_url: Option<String>,
    /// `libraries`, when it is a list.
    pub libraries: Option<Vec<Library>>,
}

/// `dir/versions/version`.
pub open spec fn version_folder(dir: Seq<char>, version: Seq<char>) -> Seq<char> {
    dir + "/versions/"@ + version
}

/// `dir/versions/version/version.ext`.
pub open spec fn version_file(dir: Seq<char>, version: Seq<char>, ext: Seq<char>) -> Seq<char> {
    version_folder(dir, version) + "/"@ + version + "."@ + ext
}

/// The folder and the file (with extension `ext`) of `version` below `dir`.
pub fn version_location(dir: &str, version: &str, ext: &str) -> (res: (String, String))
    ensures
        res.0@ == version_folder(dir@, version@),
        res.1@ == version_file(dir@, version@, ext@),
{
    let folder = String::from_str(dir).concat("/versions/").concat(version);
    let file = folder.clone().concat("/").concat(version).concat(".").concat(ext);
    (folder, file)
}

/// The URL of the version document of `version`: the first manifest entry
/// with that identifier must exist and carry a URL.
pub open spec fn version_url_spec(versions: Seq<Manifest>, version: Seq<char>) -> Result<
    Seq<char>,
    Seq<char>,
> {
    if exists|i: int| 0 <= i < versions.len() && is_version(#[trigger] versions[i], version) {
        let i = choose|i: int|
            0 <= i < versions.len() && is_version(#[trigger] versions[i], version) && forall|j: int|
                0 <= j < i ==> !is_version(#[trigger] versions[j], version);
        match versions[i].url {
            Some(u) => Ok(u@),
            None => Err("no URL"@),
        }
    } else {
        Err("minecraft version not found"@)
    }
}

/// The view of a result of texts.
pub open spec fn text_result(r: Result<String, String>) -> Result<Seq<char>, Seq<char>> {
    match r {
        Ok(v) => Ok(v@),
        Err(e) => Err(e@),
    }
}

/// The URL of the version document of `version` in the manifest.
pub fn find_version_url(versions: &Vec<Manifest>, version: &str) -> (res: Result<String, String>)
    ensures
        text_result(res) == version_url_spec(versions@, version@),
{
    match crate::manager::find_version(versions, version) {
        Some(i) => {
            proof {
                let k = choose|k: int|
                    0 <= k < versions@.len() && is_version(#[trigger] versions@[k], version@)
                        && forall|j: int| 0 <= j < k ==> !is_version(#[trigger] versions@[j], version@);
                if k < i {
                    assert(!is_version(versions@[k], version@));
                }
                if i < k {
                    assert(!is_version(versions@[i as int], version@));
                }
                assert(k == i);
            }
            match &versions[i].url {
                Some(u) => Ok(u.clone()),
                None => Err(String::from_str("no URL")),
            }
        },
        None => Err(String::from_str("minecraft version not found")),
    }
}

/// The client jar's URL, folder and file for `version` below `dir`.
pub open spec fn client_download_spec(doc: VersionDocument, dir: Seq<char>, version: Seq<char>) -> Result<
    (Seq<char>, Seq<char>, Seq<char>),
    Seq<char>,
> {
    match doc.client_url {
        Some(u) => Ok((u@, version_folder(dir, version), version_file(dir, version, "jar"@))),
        None => Err("No client URL"@),
    }
}

/// The view of a result of three texts.
pub open spec fn triple_result(r: Result<(String, String, String), String>) -> Result<
    (Seq<char>, Seq<char>, Seq<char>),
    Seq<char>,
> {
    match r {
        Ok((a, b, c)) => Ok((a@, b@, c@)),
        Err(e) => Err(e@),
    }
}

/// Where the client jar of `version` comes from and goes to.
pub fn client_download(doc: &VersionDocument, dir: &str, version: &str) -> (res: Result<
    (String, String, String),
    String,
>)
    ensures
        triple_result(res) == client_download_spec(*doc, dir@, version@),
{
    match &doc.client_url {
        Some(u) => {
            let (folder, file) = version_location(dir, version, "jar");
            Ok((u.clone(), folder, file))
        },
        None => Err(String::from_str("No client URL")),
    }
}

/// The asset index's URL, folder and file for `version` below `dir`; the
/// file is named after the version.
pub open spec fn asset_index_download_spec(doc: VersionDocument, dir: Seq<char>, version: Seq<char>) -> Result<
    (Seq<char>, Seq<char>, Seq<char>),
    Seq<char>,
> {
    match doc.asset_index_url {
        Some(u) => Ok(
            (
                u@,
                dir + "/assets/indexes"@,
                dir + "/assets/indexes/"@ + version + ".json"@,
            ),
        ),
        None => Err("no asset index"@),
    }
}

/// Where the asset index of `version` comes from and goes to.
pub fn asset_index_download(doc: &VersionDocument, dir: &str, version: &str) -> (res: Result<
    (String, String, String),
    String,
>)
    ensures
        triple_result(res) == asset_index_download_spec(*doc, dir@, version@),
{
    match &doc.asset_index_url {
        Some(u) => {
            let folder = String::from_str(dir).concat("/assets/indexes");
            let file = String::from_str(dir).concat("/assets/indexes/").concat(version).concat(
                ".json",
            );
            Ok((u.clone(), folder, file))
        },
        None => Err(String::from_str("no asset index")),
    }
}

/// `dir/assets/objects`, where asset objects are kept.
pub open spec fn objects_folder(dir: Seq<char>) -> Seq<char> {
    dir + "/assets/objects"@
}

/// The folder that holds the asset objects below `dir`.
pub fn asset_objects_folder(dir: &str) -> (res: String)
    ensures
        res@ == objects_folder(dir@),
{
    String::from_str(dir).concat("/assets/objects")
}

/// An asset object's URL, folder and file below `base` (the objects
/// directory), for a hash whose first two bytes are `prefix`.
pub open spec fn asset_object_spec(base: Seq<char>, hash: Seq<char>, prefix: Seq<char>) -> (
    Seq<char>,
    Seq<char>,
    Seq<char>,
) {
    (
        "https://resources.download.minecraft.net/"@ + prefix + "/"@ + hash,
        base + "/"@ + prefix,
        base + "/"@ + prefix + "/"@ + hash,
    )
}

/// Where the asset object with `hash` comes from and goes to.
pub fn asset_object_download(base: &str, hash: &str) -> (res: (String, String, String))
    requires
        byte_prefix2(hash@) is Some,
    ensures
        (res.0@, res.1@, res.2@) == asset_object_spec(base@, hash@, byte_prefix2(hash@)->0),
{
    let prefix = match hash_prefix(hash) {
        Some(p) => p,
        None => String::new(),
    };
    let url = String::from_str("https://resources.download.minecraft.net/").concat(
        prefix.as_str(),
    ).concat("/").concat(hash);
    let folder = String::from_str(base).concat("/").concat(prefix.as_str());
    let file = folder.clone().concat("/").concat(hash);
    (url, folder, file)
}

/// The key of the native classifier for `target`: Windows, Linux, and
/// `osx` for every other system.
pub open spec fn download_natives_key(target: Seq<char>) -> Seq<char> {
    if target == "windows"@ {
        "natives-windows"@
    } else if target == "linux"@ {
        "natives-linux"@
    } else {
        "natives-osx"@
    }
}

/// Whether an artifact names both its URL and its path.
pub open spec fn fetchable(a: Artifact) -> bool {
    a.url is Some && a.path is Some
}

/// The URL of an artifact and its file below `dir/libraries`.
pub open spec fn artifact_fetch(a: Artifact, dir: Seq<char>) -> (Seq<char>, Seq<char>) {
    (a.url->0@, dir + "/libraries/"@ + a.path->0@)
}

/// Whether the downloader can fetch every file of `lib` on `target` that
/// it tries: the main artifact and the native classifier each name a URL
/// and a path.
pub open spec fn library_fetchable(lib: Library, target: Seq<char>) -> bool {
    lib_is_allowed_spec(lib, target) ==> match lib.downloads {
        Some(d) => {
            &&& (d.artifact matches Some(a) ==> fetchable(a))
            &&& (d.classifiers matches Some(c) ==> (first_with_key(
                c@,
                download_natives_key(target),
            ) matches Some(a) ==> fetchable(a)))
        },
        None => true,
    }
}

/// The files the downloader fetches for `lib` on `target`: for a library
/// it downloads, its main artifact, then its native classifier.
pub open spec fn library_fetches(lib: Library, dir: Seq<char>, target: Seq<char>) -> Seq<
    (Seq<char>, Seq<char>),
> {
    if !lib_is_allowed_spec(lib, target) {
        seq![]
    } else {
        match lib.downloads {
            Some(d) => {
                let main = match d.artifact {
                    Some(a) => seq![artifact_fetch(a, dir)],
                    None => seq![],
                };
                let native = match d.classifiers {
                    Some(c) => match first_with_key(c@, download_natives_key(target)) {
                        Some(a) => seq![artifact_fetch(a, dir)],
                        None => seq![],
                    },
                    None => seq![],
                };
                main + native
            },
            None => seq![],
        }
    }
}

/// The views of (URL, path) pairs.
pub open spec fn pair_views(v: Seq<(String, String)>) -> Seq<(Seq<char>, Seq<char>)> {
    v.map_values(|p: (String, String)| (p.0@, p.1@))
}

fn artifact_fetch_exec(a: &Artifact, dir: &str) -> (res: (String, String))
    requires
        fetchable(*a),
    ensures
        (res.0@, res.1@) == artifact_fetch(*a, dir@),
{
    let url = match &a.url {
        Some(u) => u.clone(),
        None => String::new(),
    };
    let path = match &a.path {
        Some(p) => String::from_str(dir).concat("/libraries/").concat(p.as_str()),
        None => String::new(),
    };
    (url, path)
}

/// The files to fetch for `lib` on the operating system `target_os`, each
/// as (URL, path).
pub fn library_downloads(lib: &Library, dir: &str, target_os: &str) -> (res: Vec<(String, String)>)
    requires
        library_fetchable(*lib, target_os@),
        classifier_keys_distinct(*lib),
    ensures
        pair_views(res@) == library_fetches(*lib, dir@, target_os@),
{
    let mut out: Vec<(String, String)> = Vec::new();
    if !lib_is_allowed(lib, target_os) {
        assert(pair_views(out@) =~= Seq::<(Seq<char>, Seq<char>)>::empty());
        return out;
    }
    match &lib.downloads {
        None => {
            assert(pair_views(out@) =~= Seq::<(Seq<char>, Seq<char>)>::empty());
        },
        Some(d) => {
            if let Some(a) = &d.artifact {
                let f = artifact_fetch_exec(a, dir);
                out.push(f);
            }
            let ghost main = pair_views(out@);
            if let Some(c) = &d.classifiers {
                if let Some(k) = find_classifier(c, natives_key_for(target_os)) {
                    let f = artifact_fetch_exec(&c[k].1, dir);
                    out.push(f);
                    assert(pair_views(out@) =~= main.push((f.0@, f.1@)));
                }
            }
            assert(pair_views(out@) =~= library_fetches(*lib, dir@, target_os@));
        },
    }
    out
}

fn natives_key_for(target_os: &str) -> (res: &'static str)
    ensures
        res@ == download_natives_key(target_os@),
{
    if str_eq(target_os, "windows") {
        "natives-windows"
    } else if str_eq(target_os, "linux") {
        "natives-linux"
    } else {
        "natives-osx"
    }
}

/// Whether every file the downloader would fetch for `lib` on `target_os`
/// names its URL and path.
pub fn is_library_fetchable(lib: &Library, target_os: &str) -> (res: bool)
    requires
        classifier_keys_distinct(*lib),
    ensures
        res == library_fetchable(*lib, target_os@),
{
    if !lib_is_allowed(lib, target_os) {
        return true;
    }
    match &lib.downloads {
        None => true,
        Some(d) => {
            let main_ok = match &d.artifact {
                Some(a) => a.url.is_some() && a.path.is_some(),
                None => true,
            };
            let native_ok = match &d.classifiers {
                Some(c) => match find_classifier(c, natives_key_for(target_os)) {
                    Some(k) => c[k].1.url.is_some() && c[k].1.path.is_some(),
                    None => true,
                },
                None => true,
            };
            main_ok && native_ok
        },
    }
}

/// The libraries of the document; there must be a list of them.
pub fn document_libraries(doc: &VersionDocument) -> (res: Result<&Vec<Library>, String>)
    ensures
        match res {
            Ok(v) => doc.libraries == Some(*v),
            Err(e) => doc.libraries is None && e@ == "No libraries"@,
        },
{
    match &doc.libraries {
        Some(v) => Ok(v),
        None => Err(String::from_str("No libraries")),
    }
}

/// The standalone downloader stores a version's document where the launcher
/// reads it, for a root that does not end in a separator and a version name
/// that neither starts nor ends with one.
pub proof fn document_location_agrees(p: Paths, root: Seq<char>, version: Seq<char>)
    requires
        p.layout(root),
        root.len() > 0,
        root.last() != '/',
        version.len() > 0,
        version[0] != '/',
        version.last() != '/',
    ensures
        version_json_file(p.versions@, version) == version_file(root, version, "json"@),
{
    layout_under_root(p, root);
    reveal_strlit("/versions");
    reveal_strlit("/versions/");
    reveal_strlit("/");
    reveal_strlit(".");
    reveal_strlit("json");
    reveal_strlit(".json");
    let dir = join_path(p.versions@, version);
    assert(dir =~= p.versions@ + seq!['/'] + version);
    assert((version + ".json"@)[0] == version[0]);
    assert(dir.last() == version.last());
    assert(version_json_file(p.versions@, version) =~= dir + seq!['/'] + (version + ".json"@));
    assert(version_file(root, version, "json"@) =~= root + "/versions"@ + seq!['/'] + version + seq![
        '/',
    ] + version + ".json"@);
}

/// The installer and the standalone downloader pick the same native
/// classifier on every system: `natives-windows` on Windows, `natives-linux`
/// on Linux, `natives-osx` elsewhere.
pub proof fn installer_and_downloader_pick_same_natives(target: Seq<char>)
    ensures
        crate::manager::installer_natives_key(crate::rules::installer_os_name(target))
            == download_natives_key(target),
        target == "windows"@ ==> download_natives_key(target) == "natives-windows"@,
        target == "linux"@ ==> download_natives_key(target) == "natives-linux"@,
{
    reveal_strlit("natives-");
    reveal_strlit("windows");
    reveal_strlit("linux");
    reveal_strlit("osx");
    reveal_strlit("natives-windows");
    reveal_strlit("natives-linux");
    reveal_strlit("natives-osx");
    assert("natives-"@ + "windows"@ =~= "natives-windows"@);
    assert("natives-"@ + "linux"@ =~= "natives-linux"@);
    assert("natives-"@ + "osx"@ =~= "natives-osx"@);
}

} // verus!
