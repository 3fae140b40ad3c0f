//! Installing a game version: which files to fetch and where they go, and
//! the per-file fetch protocol with its retries.

use vstd::prelude::*;
use vstd::string::StringExecFns;
use crate::launch::opt_view;
use crate::paths::{join_path, join_path_exec, Paths};
use crate::rules::{
    classifier_keys_distinct, distinct_keys, installer_os, installer_os_name, library_allowed,
    library_allowed_spec, Artifact, Library,
};
use crate::text::{chars_of, str_eq, string_from_chars};

verus! {

broadcast use vstd::string::group_string_axioms;

/// One version of the version manifest.
pub struct Manifest {
    pub id: Option<String>,
    pub url: Option<String>,
}

/// The version manifest: every published version.
pub struct VersionManifest {
    pub versions: Vec<Manifest>,
}

/// The asset index a version uses.
pub struct AssetIndexInfo {
    pub id: String,
    pub url: String,
}

/// One object of an asset index.
pub struct AssetObject {
    pub hash: String,
}

/// The client download of a version.
pub struct Download {
    pub sha1: String,
    pub url: String,
}

/// The downloads of a version.
pub struct Downloads {
    pub client: Option<Download>,
}

/// A version's JSON document, as the installer reads it.
pub struct VersionJson {
    pub id: String,
    pub assets: Option<String>,
    pub asset_index: Option<AssetIndexInfo>,
    pub downloads: Downloads,
    pub libraries: Vec<Library>,
}

/// A file to fetch: from where, to where, and its SHA-1 when known.
pub struct DownloadTask {
    pub url: String,
    pub path: String,
    pub sha1: Option<String>,
}

/// Why an installation stops.
pub enum InstallError {
    VersionNotFound,
    MissingAssetIndex,
    FilesFailed(usize),
}

/// The number of times a file is requested before its download counts as
/// failed.
pub const MAX_RETRIES: usize = 5;

/// The server that holds asset objects.
pub open spec fn asset_base() -> Seq<char> {
    "https://resources.download.minecraft.net"@
}

// ---------------------------------------------------------------------------
// Finding the version

/// Whether a manifest entry is the version `id`.
pub open spec fn is_version(m: Manifest, id: Seq<char>) -> bool {
    m.id matches Some(v) && v@ == id
}

/// The position of the first manifest entry for version `id`.
pub fn find_version(versions: &Vec<Manifest>, id: &str) -> (res: Option<usize>)
    ensures
        match res {
            Some(i) => i < versions@.len() && is_version(versions@[i as int], id@) && forall|j: int|
                0 <= j < i ==> !is_version(#[trigger] versions@[j], id@),
            None => forall|j: int| 0 <= j < versions@.len() ==> !is_version(#[trigger] versions@[j], id@),
        },
{
    let n = versions.len();
    for i in 0..n
        invariant
            n == versions@.len(),
            forall|j: int| 0 <= j < i ==> !is_version(#[trigger] versions@[j], id@),
    {
        let found = match &versions[i].id {
            Some(v) => str_eq(v.as_str(), id),
            None => false,
        };
        if found {
            return Some(i);
        }
    }
    None
}

/// The identifiers of the manifest's versions, in order. Every entry must
/// have one.
pub fn version_ids(versions: &Vec<Manifest>) -> (res: Vec<String>)
    requires
        forall|i: int| 0 <= i < versions@.len() ==> (#[trigger] versions@[i]).id is Some,
    ensures
        res@.len() == versions@.len(),
        forall|i: int| 0 <= i < versions@.len() ==> opt_view(versions@[i].id) == Some(#[trigger] res@[i]@),
{
    let mut out: Vec<String> = Vec::new();
    let n = versions.len();
    for i in 0..n
        invariant
            n == versions@.len(),
            forall|k: int| 0 <= k < versions@.len() ==> (#[trigger] versions@[k]).id is Some,
            out@.len() == i,
            forall|k: int| 0 <= k < i ==> opt_view(versions@[k].id) == Some(#[trigger] out@[k]@),
    {
        match &versions[i].id {
            Some(v) => out.push(v.clone()),
            None => {
                assert(versions@[i as int].id is Some);
            },
        }
    }
    out
}

// ---------------------------------------------------------------------------
// Library and client files

/// Whether an artifact names its path, SHA-1 and URL.
pub open spec fn complete_artifact(a: Artifact) -> bool {
    a.path is Some && a.sha1 is Some && a.url is Some
}

/// The task that fetches a complete artifact into the libraries directory.
pub open spec fn artifact_task(a: Artifact, paths: Paths) -> (Seq<char>, Seq<char>, Option<Seq<char>>) {
    (a.url->0@, join_path(paths.libraries@, a.path->0@), Some(a.sha1->0@))
}

/// The view of a task: URL, path, SHA-1.
pub open spec fn task_view(t: DownloadTask) -> (Seq<char>, Seq<char>, Option<Seq<char>>) {
    (t.url@, t.path@, opt_view(t.sha1))
}

/// The views of tasks.
pub open spec fn task_views(ts: Seq<DownloadTask>) -> Seq<(Seq<char>, Seq<char>, Option<Seq<char>>)> {
    ts.map_values(|t: DownloadTask| task_view(t))
}

/// The task that fetches `artifact` into the libraries directory.
pub fn download_task(artifact: &Artifact, paths: &Paths) -> (res: DownloadTask)
    requires
        complete_artifact(*artifact),
    ensures
        task_view(res) == artifact_task(*artifact, *paths),
{
    let url = match &artifact.url {
        Some(u) => u.clone(),
        None => String::new(),
    };
    let path = match &artifact.path {
        Some(p) => join_path_exec(paths.libraries.as_str(), p.as_str()),
        None => String::new(),
    };
    let sha1 = match &artifact.sha1 {
        Some(h) => Some(h.clone()),
        None => None,
    };
    DownloadTask { url, path, sha1 }
}

/// The classifier key of native jars for the installer's OS name.
pub open spec fn installer_natives_key(os_name: Seq<char>) -> Seq<char> {
    "natives-"@ + os_name
}

/// The task of an artifact, when there is one.
pub open spec fn maybe_task(a: Option<Artifact>, paths: Paths) -> Seq<(Seq<char>, Seq<char>, Option<Seq<char>>)> {
    match a {
        Some(a) => seq![artifact_task(a, paths)],
        None => seq![],
    }
}

/// Whether every artifact of a library, main and classifiers, names its
/// path, SHA-1 and URL, as the installer's document format demands.
pub open spec fn artifacts_complete(lib: Library) -> bool {
    lib.downloads matches Some(d) ==> {
        &&& d.artifact matches Some(a) ==> complete_artifact(a)
        &&& d.classifiers matches Some(c) ==> forall|i: int|
            0 <= i < c@.len() ==> complete_artifact(#[trigger] c@[i].1)
    }
}

/// Whether a version's libraries are as the installer's document format
/// demands: complete artifacts, and classifiers without a key twice.
pub open spec fn installable_libraries(libs: Seq<Library>) -> bool {
    forall|i: int|
        0 <= i < libs.len() ==> artifacts_complete(#[trigger] libs[i]) && classifier_keys_distinct(
            libs[i],
        )
}

/// The tasks a library contributes on `target`: for a library the installer
/// fetches, its main artifact, then its native classifier for the running
/// system (`natives-windows`, `natives-linux` or `natives-osx`).
pub open spec fn library_task_list(lib: Library, paths: Paths, target: Seq<char>) -> Seq<
    (Seq<char>, Seq<char>, Option<Seq<char>>),
> {
    if !library_allowed_spec(lib, target) {
        seq![]
    } else {
        match lib.downloads {
            None => seq![],
            Some(d) => {
                let main = maybe_task(d.artifact, paths);
                let native = match d.classifiers {
                    Some(c) => maybe_task(
                        crate::launch::first_with_key(
                            c@,
                            installer_natives_key(installer_os_name(target)),
                        ),
                        paths,
                    ),
                    None => seq![],
                };
                main + native
            },
        }
    }
}

/// The tasks of `libs`, in order.
pub open spec fn library_tasks_spec(libs: Seq<Library>, paths: Paths, target: Seq<char>) -> Seq<
    (Seq<char>, Seq<char>, Option<Seq<char>>),
>
    decreases libs.len(),
{
    if libs.len() == 0 {
        seq![]
    } else {
        library_tasks_spec(libs.drop_last(), paths, target) + library_task_list(
            libs.last(),
            paths,
            target,
        )
    }
}

fn push_artifact_task(tasks: &mut Vec<DownloadTask>, a: &Artifact, paths: &Paths)
    requires
        complete_artifact(*a),
    ensures
        task_views(final(tasks)@) == task_views(old(tasks)@).push(artifact_task(*a, *paths)),
{
    let ghost before = task_views(tasks@);
    let t = download_task(a, paths);
    tasks.push(t);
    assert(task_views(tasks@) =~= before.push(task_view(t)));
}

/// The client jar of a version in its directory, named after the document's
/// own identifier.
pub open spec fn client_task(v: VersionJson, version_dir: Seq<char>) -> Seq<
    (Seq<char>, Seq<char>, Option<Seq<char>>),
> {
    match v.downloads.client {
        Some(c) => seq![(c.url@, join_path(version_dir, v.id@ + ".jar"@), Some(c.sha1@))],
        None => seq![],
    }
}

/// The directory of `version` below the versions directory.
pub open spec fn version_directory(paths: Paths, version: Seq<char>) -> Seq<char> {
    join_path(paths.versions@, version)
}

/// The directory of `version` below the versions directory.
pub fn version_dir_path(paths: &Paths, version: &str) -> (res: String)
    ensures
        res@ == version_directory(*paths, version@),
{
    join_path_exec(paths.versions.as_str(), version)
}

/// The client and library tasks of version `version_id` on `target`.
pub fn library_tasks(paths: &Paths, version_id: &str, version_json: &VersionJson, target_os: &str) -> (res: Vec<
    DownloadTask,
>)
    requires
        installable_libraries(version_json.libraries@),
    ensures
        task_views(res@) == client_task(*version_json, version_directory(*paths, version_id@))
            + library_tasks_spec(version_json.libraries@, *paths, target_os@),
{
    let version_dir = join_path_exec(paths.versions.as_str(), version_id);
    let mut tasks: Vec<DownloadTask> = Vec::new();
    if let Some(client) = &version_json.downloads.client {
        let name = version_json.id.clone().concat(".jar");
        let t = DownloadTask {
            url: client.url.clone(),
            path: join_path_exec(version_dir.as_str(), name.as_str()),
            sha1: Some(client.sha1.clone()),
        };
        tasks.push(t);
        assert(task_views(tasks@) =~= seq![task_view(t)]);
    }
    let ghost head = task_views(tasks@);
    assert(head =~= client_task(*version_json, version_directory(*paths, version_id@)));
    let os_name = installer_os(target_os);
    let key = String::from_str("natives-").concat(os_name);
    let libs = &version_json.libraries;
    let n = libs.len();
    assert(libs@.take(0) =~= Seq::<Library>::empty());
    for i in 0..n
        invariant
            n == libs@.len(),
            key@ == installer_natives_key(installer_os_name(target_os@)),
            installable_libraries(libs@),
            task_views(tasks@) == head + library_tasks_spec(libs@.take(i as int), *paths, target_os@),
    {
        let lib = &libs[i];
        assert(artifacts_complete(libs@[i as int]) && classifier_keys_distinct(libs@[i as int]));
        let ghost before = task_views(tasks@);
        assert(libs@.take(i + 1).drop_last() =~= libs@.take(i as int));
        assert(libs@.take(i + 1).last() == libs@[i as int]);
        if library_allowed(lib, target_os) {
            if let Some(d) = &lib.downloads {
                let ghost b0 = task_views(tasks@);
                let ghost main = maybe_task(d.artifact, *paths);
                if let Some(a) = &d.artifact {
                    push_artifact_task(&mut tasks, a, paths);
                }
                assert(task_views(tasks@) =~= b0 + main);
                let ghost b1 = task_views(tasks@);
                if let Some(c) = &d.classifiers {
                    if let Some(k) = crate::launch::find_classifier(c, key.as_str()) {
                        assert(complete_artifact(c@[k as int].1));
                        push_artifact_task(&mut tasks, &c[k].1, paths);
                    } else {
                        assert(b1 + Seq::<(Seq<char>, Seq<char>, Option<Seq<char>>)>::empty() =~= b1);
                    }
                } else {
                    assert(b1 + Seq::<(Seq<char>, Seq<char>, Option<Seq<char>>)>::empty() =~= b1);
                }
            } else {
                assert(before + Seq::<(Seq<char>, Seq<char>, Option<Seq<char>>)>::empty() =~= before);
            }
        } else {
            assert(before + Seq::<(Seq<char>, Seq<char>, Option<Seq<char>>)>::empty() =~= before);
        }
    }
    assert(libs@.take(n as int) =~= libs@);
    tasks
}

// ---------------------------------------------------------------------------
// Asset files

/// The number of bytes UTF-8 uses for `c`.
pub open spec fn utf8_width(c: char) -> int {
    let u = c as u32;
    if u < 0x80 {
        1
    } else if u < 0x800 {
        2
    } else if u < 0x10000 {
        3
    } else {
        4
    }
}

/// The text of the first two bytes of `h` (what `&h[..2]` gives), when they
/// end on a character boundary.
pub open spec fn byte_prefix2(h: Seq<char>) -> Option<Seq<char>> {
    if h.len() >= 1 && utf8_width(h[0]) == 2 {
        Some(h.take(1))
    } else if h.len() >= 2 && utf8_width(h[0]) == 1 && utf8_width(h[1]) == 1 {
        Some(h.take(2))
    } else {
        None
    }
}

fn utf8_width_exec(c: char) -> (res: u8)
    ensures
        res == utf8_width(c),
{
    let u = c as u32;
    if u < 0x80 {
        1
    } else if u < 0x800 {
        2
    } else if u < 0x10000 {
        3
    } else {
        4
    }
}

/// The first two bytes of `hash` as text, when they end on a character
/// boundary.
pub fn hash_prefix(hash: &str) -> (res: Option<String>)
    ensures
        opt_view(res) == byte_prefix2(hash@),
{
    let cs = chars_of(hash);
    if cs.len() >= 1 && utf8_width_exec(cs[0]) == 2 {
        let mut v: Vec<char> = Vec::new();
        v.push(cs[0]);
        assert(v@ =~= hash@.take(1));
        Some(string_from_chars(v.as_slice()))
    } else if cs.len() >= 2 && utf8_width_exec(cs[0]) == 1 && utf8_width_exec(cs[1]) == 1 {
        let mut v: Vec<char> = Vec::new();
        v.push(cs[0]);
        v.push(cs[1]);
        assert(v@ =~= hash@.take(2));
        Some(string_from_chars(v.as_slice()))
    } else {
        None
    }
}

/// How a version lays out its asset files.
pub enum AssetLayout {
    /// Versions before 1.6: below the instance's `resources` directory,
    /// under the asset's own name.
    Resources,
    /// The `legacy` assets: below `assets/virtual/legacy`, under the
    /// asset's own name.
    Virtual,
    /// Everything else: below `assets/objects`, under the hash.
    Objects,
}

/// The layout the document's `assets` field selects.
pub open spec fn asset_layout_spec(assets: Option<String>) -> AssetLayout {
    if is_word_opt(assets, "pre-1.6"@) {
        AssetLayout::Resources
    } else if is_word_opt(assets, "legacy"@) {
        AssetLayout::Virtual
    } else {
        AssetLayout::Objects
    }
}

/// Whether `s` holds exactly `word`.
pub open spec fn is_word_opt(s: Option<String>, word: Seq<char>) -> bool {
    s matches Some(v) && v@ == word
}

/// The layout the document's `assets` field selects.
pub fn asset_layout(assets: &Option<String>) -> (res: AssetLayout)
    ensures
        res == asset_layout_spec(*assets),
{
    let id: &str = match assets {
        Some(a) => a.as_str(),
        None => "",
    };
    proof {
        reveal_strlit("");
        reveal_strlit("pre-1.6");
        reveal_strlit("legacy");
    }
    assert(assets is None ==> id@ =~= Seq::<char>::empty());
    assert("pre-1.6"@.len() == 7);
    assert("legacy"@.len() == 6);
    if str_eq(id, "pre-1.6") {
        AssetLayout::Resources
    } else if str_eq(id, "legacy") {
        AssetLayout::Virtual
    } else {
        AssetLayout::Objects
    }
}

/// The task that fetches the asset named `name` with hash `hash`, whose
/// first two bytes are `prefix`.
pub open spec fn asset_task(
    paths: Paths,
    version_id: Seq<char>,
    layout: AssetLayout,
    name: Seq<char>,
    hash: Seq<char>,
    prefix: Seq<char>,
) -> (Seq<char>, Seq<char>, Option<Seq<char>>) {
    let url = asset_base() + seq!['/'] + prefix + seq!['/'] + hash;
    let path = match layout {
        AssetLayout::Resources => join_path(
            join_path(
                join_path(join_path(paths.instances@, version_id), "minecraft"@),
                "resources"@,
            ),
            name,
        ),
        AssetLayout::Virtual => join_path(
            join_path(join_path(paths.assets@, "virtual"@), "legacy"@),
            name,
        ),
        AssetLayout::Objects => join_path(
            join_path(join_path(paths.assets@, "objects"@), prefix),
            hash,
        ),
    };
    (url, path, Some(hash))
}

/// Whether every object's hash can be cut after its second byte.
pub open spec fn hashes_cut(objects: Seq<(String, AssetObject)>) -> bool {
    forall|i: int| 0 <= i < objects.len() ==> (byte_prefix2((#[trigger] objects[i]).1.hash@) is Some)
}

/// The tasks of the asset objects, in the order given.
pub open spec fn asset_tasks_spec(
    paths: Paths,
    version_id: Seq<char>,
    layout: AssetLayout,
    objects: Seq<(String, AssetObject)>,
) -> Seq<(Seq<char>, Seq<char>, Option<Seq<char>>)> {
    Seq::new(
        objects.len(),
        |i: int|
            asset_task(
                paths,
                version_id,
                layout,
                objects[i].0@,
                objects[i].1.hash@,
                byte_prefix2(objects[i].1.hash@)->0,
            ),
    )
}

/// The tasks that fetch the asset objects of version `version_id`, given as
/// (name, object) pairs of an asset index (no name twice), under the layout that `assets` selects.
pub fn asset_tasks(
    paths: &Paths,
    version_id: &str,
    assets: &Option<String>,
    objects: &Vec<(String, AssetObject)>,
) -> (res: Vec<DownloadTask>)
    requires
        hashes_cut(objects@),
        distinct_keys(objects@),
    ensures
        task_views(res@) == asset_tasks_spec(
            *paths,
            version_id@,
            asset_layout_spec(*assets),
            objects@,
        ),
{
    let layout = asset_layout(assets);
    let mut tasks: Vec<DownloadTask> = Vec::new();
    let n = objects.len();
    for i in 0..n
        invariant
            n == objects@.len(),
            hashes_cut(objects@),
            layout == asset_layout_spec(*assets),
            task_views(tasks@) == asset_tasks_spec(*paths, version_id@, layout, objects@.take(i as int)),
    {
        let ghost before = task_views(tasks@);
        let name = objects[i].0.as_str();
        let hash = objects[i].1.hash.as_str();
        assert(byte_prefix2(objects@[i as int].1.hash@) is Some);
        let prefix = match hash_prefix(hash) {
            Some(p) => p,
            None => String::new(),
        };
        let url = String::from_str("https://resources.download.minecraft.net").concat("/").concat(
            prefix.as_str(),
        ).concat("/").concat(hash);
        let path = match layout {
            AssetLayout::Resources => {
                let p = join_path_exec(paths.instances.as_str(), version_id);
                let p = join_path_exec(p.as_str(), "minecraft");
                let p = join_path_exec(p.as_str(), "resources");
                join_path_exec(p.as_str(), name)
            },
            AssetLayout::Virtual => {
                let p = join_path_exec(paths.assets.as_str(), "virtual");
                let p = join_path_exec(p.as_str(), "legacy");
                join_path_exec(p.as_str(), name)
            },
            AssetLayout::Objects => {
                let p = join_path_exec(paths.assets.as_str(), "objects");
                let p = join_path_exec(p.as_str(), prefix.as_str());
                join_path_exec(p.as_str(), hash)
            },
        };
        proof {
            reveal_strlit("/");
            assert("/"@ =~= seq!['/']);
            assert(prefix@ == byte_prefix2(hash@)->0);
            assert(url@ =~= asset_base() + seq!['/'] + prefix@ + seq!['/'] + hash@);
            assert((url@, path@, Some(hash@)) == asset_task(
                *paths,
                version_id@,
                layout,
                name@,
                hash@,
                prefix@,
            ));
        }
        let t = DownloadTask { url, path, sha1: Some(String::from_str(hash)) };
        tasks.push(t);
        assert(task_views(tasks@) =~= before.push(task_view(t)));
        assert(task_views(tasks@) =~= asset_tasks_spec(
            *paths,
            version_id@,
            layout,
            objects@.take(i + 1),
        ));
    }
    assert(objects@.take(n as int) =~= objects@);
    tasks
}

/// Where the asset index of a version is fetched from and kept: its URL,
/// the `assets/indexes` directory, and the file in it named after the
/// index's identifier; a document without an asset index cannot be
/// installed.
pub open spec fn asset_index_location_spec(paths: Paths, v: VersionJson) -> Result<
    (Seq<char>, Seq<char>, Seq<char>),
    InstallError,
> {
    match v.asset_index {
        Some(ai) => {
            let dir = join_path(paths.assets@, "indexes"@);
            Ok((ai.url@, dir, join_path(dir, ai.id@ + ".json"@)))
        },
        None => Err(InstallError::MissingAssetIndex),
    }
}

/// The view of a location result.
pub open spec fn location_view(r: Result<(String, String, String), InstallError>) -> Result<
    (Seq<char>, Seq<char>, Seq<char>),
    InstallError,
> {
    match r {
        Ok((a, b, c)) => Ok((a@, b@, c@)),
        Err(e) => Err(e),
    }
}

/// Where the asset index of `version_json` comes from and goes to.
pub fn asset_index_location(paths: &Paths, version_json: &VersionJson) -> (res: Result<
    (String, String, String),
    InstallError,
>)
    ensures
        location_view(res) == asset_index_location_spec(*paths, *version_json),
{
    match &version_json.asset_index {
        Some(ai) => {
            let dir = join_path_exec(paths.assets.as_str(), "indexes");
            let name = ai.id.clone().concat(".json");
            let file = join_path_exec(dir.as_str(), name.as_str());
            Ok((ai.url.clone(), dir, file))
        },
        None => Err(InstallError::MissingAssetIndex),
    }
}

// ---------------------------------------------------------------------------
// Fetching one file

/// What is known of a task's file before fetching: absent, or present and,
/// for a task with a SHA-1, whether its digest matched (or reading it
/// failed).
pub enum ExistingFile {
    Missing,
    Present { digest_check: Option<Result<bool, ()>> },
}

/// How one download attempt went: failed, or fetched and, for a task with a
/// SHA-1, whether the new file's digest matched (or reading it failed).
pub enum DownloadOutcome {
    Failed,
    Fetched { digest_check: Option<Result<bool, ()>> },
}

/// Why fetching a file failed.
pub enum FetchError {
    /// Reading the file back failed.
    Io,
    /// The fetched file has another SHA-1 than announced.
    Sha1Mismatch,
    /// Every attempt failed; the error is the last attempt's.
    DownloadFailed,
}

/// What to do next for a file.
pub enum FetchAction {
    /// Stop with this result.
    Finish(Result<(), FetchError>),
    /// Download the file; this is attempt number `attempt`.
    Download { attempt: usize },
    /// Wait `delay_ms` milliseconds, then download again as attempt `attempt`.
    Retry { delay_ms: u64, attempt: usize },
}

/// Whether a check result is present exactly when the task has a SHA-1.
pub open spec fn check_matches_task(task: DownloadTask, check: Option<Result<bool, ()>>) -> bool {
    check is Some <==> task.sha1 is Some
}

/// The first step for a file: a present file whose digest matches needs
/// nothing; one that cannot be read fails; otherwise the first download.
pub open spec fn fetch_start_spec(task: DownloadTask, existing: ExistingFile) -> FetchAction {
    match existing {
        ExistingFile::Present { digest_check: Some(Ok(true)) } => FetchAction::Finish(Ok(())),
        ExistingFile::Present { digest_check: Some(Err(())) } => FetchAction::Finish(
            Err(FetchError::Io),
        ),
        _ => FetchAction::Download { attempt: 1 },
    }
}

/// The first step of fetching `task`'s file.
pub fn fetch_start(task: &DownloadTask, existing: &ExistingFile) -> (res: FetchAction)
    requires
        *existing matches ExistingFile::Present { digest_check } ==> check_matches_task(
            *task,
            digest_check,
        ),
    ensures
        res == fetch_start_spec(*task, *existing),
{
    match existing {
        ExistingFile::Present { digest_check: Some(Ok(true)) } => FetchAction::Finish(Ok(())),
        ExistingFile::Present { digest_check: Some(Err(())) } => FetchAction::Finish(
            Err(FetchError::Io),
        ),
        _ => FetchAction::Download { attempt: 1 },
    }
}

/// The step after download attempt `attempt`: a fetched file is done once
/// its digest (if any) matches; a failed attempt is retried after
/// `500 * attempt` ms until `MAX_RETRIES` attempts have failed.
pub open spec fn fetch_after_download_spec(
    task: DownloadTask,
    attempt: usize,
    outcome: DownloadOutcome,
) -> FetchAction {
    match outcome {
        DownloadOutcome::Fetched { digest_check } => match digest_check {
            None => FetchAction::Finish(Ok(())),
            Some(Ok(true)) => FetchAction::Finish(Ok(())),
            Some(Ok(false)) => FetchAction::Finish(Err(FetchError::Sha1Mismatch)),
            Some(Err(())) => FetchAction::Finish(Err(FetchError::Io)),
        },
        DownloadOutcome::Failed => if attempt >= MAX_RETRIES {
            FetchAction::Finish(Err(FetchError::DownloadFailed))
        } else {
            FetchAction::Retry { delay_ms: (500 * attempt) as u64, attempt: (attempt + 1) as usize }
        },
    }
}

/// The step after download attempt `attempt` of `task`'s file.
pub fn fetch_after_download(task: &DownloadTask, attempt: usize, outcome: &DownloadOutcome) -> (res:
    FetchAction)
    requires
        1 <= attempt <= MAX_RETRIES,
        *outcome matches DownloadOutcome::Fetched { digest_check } ==> check_matches_task(
            *task,
            digest_check,
        ),
    ensures
        res == fetch_after_download_spec(*task, attempt, *outcome),
{
    match outcome {
        DownloadOutcome::Fetched { digest_check } => match digest_check {
            None => FetchAction::Finish(Ok(())),
            Some(Ok(true)) => FetchAction::Finish(Ok(())),
            Some(Ok(false)) => FetchAction::Finish(Err(FetchError::Sha1Mismatch)),
            Some(Err(())) => FetchAction::Finish(Err(FetchError::Io)),
        },
        DownloadOutcome::Failed => if attempt >= MAX_RETRIES {
            FetchAction::Finish(Err(FetchError::DownloadFailed))
        } else {
            FetchAction::Retry { delay_ms: 500 * (attempt as u64), attempt: attempt + 1 }
        },
    }
}

/// Whether a task's file must be fetched: when it is missing, or when the
/// task has a SHA-1 and the present file does not match it (or cannot be
/// read).
pub open spec fn needs_download_spec(task: DownloadTask, existing: ExistingFile) -> bool {
    match existing {
        ExistingFile::Missing => true,
        ExistingFile::Present { digest_check } => task.sha1 is Some && digest_check != Some(
            Ok::<bool, ()>(true),
        ),
    }
}

/// Whether `task`'s file must be fetched.
pub fn needs_download(task: &DownloadTask, existing: &ExistingFile) -> (res: bool)
    requires
        *existing matches ExistingFile::Present { digest_check } ==> check_matches_task(
            *task,
            digest_check,
        ),
    ensures
        res == needs_download_spec(*task, *existing),
{
    match existing {
        ExistingFile::Missing => true,
        ExistingFile::Present { digest_check } => {
            if task.sha1.is_some() {
                match digest_check {
                    Some(Ok(true)) => false,
                    _ => true,
                }
            } else {
                false
            }
        },
    }
}

/// The number of `false` entries.
pub open spec fn count_failed(results: Seq<bool>) -> nat
    decreases results.len(),
{
    if results.len() == 0 {
        0
    } else {
        count_failed(results.drop_last()) + if results.last() {
            0nat
        } else {
            1nat
        }
    }
}

/// The installation's result once every file was tried: it fails, naming
/// how many, when any file failed.
pub fn download_outcome(results: &Vec<bool>) -> (res: Result<(), InstallError>)
    ensures
        count_failed(results@) == 0 ==> res is Ok,
        count_failed(results@) > 0 ==> res == Err::<(), InstallError>(
            InstallError::FilesFailed(count_failed(results@) as usize),
        ),
{
    let mut failed: usize = 0;
    let n = results.len();
    assert(results@.take(0) =~= Seq::<bool>::empty());
    for i in 0..n
        invariant
            n == results@.len(),
            failed == count_failed(results@.take(i as int)),
            failed <= i,
    {
        assert(results@.take(i + 1).drop_last() =~= results@.take(i as int));
        if !results[i] {
            failed = failed + 1;
        }
    }
    assert(results@.take(n as int) =~= results@);
    if failed > 0 {
        Err(InstallError::FilesFailed(failed))
    } else {
        Ok(())
    }
}

/// The decimal digits of `n`.
pub open spec fn decimal(n: nat) -> Seq<char>
    decreases n,
{
    if n < 10 {
        seq![(48 + n) as char]
    } else {
        decimal(n / 10).push((48 + n % 10) as char)
    }
}

/// `n` in decimal.
pub fn decimal_string(n: usize) -> (res: String)
    ensures
        res@ == decimal(n as nat),
{
    let mut rev: Vec<char> = Vec::new();
    let mut m: usize = n;
    assert(rev@.reverse() =~= Seq::<char>::empty());
    assert(decimal(n as nat) =~= decimal(n as nat) + Seq::<char>::empty());
    loop
        invariant_except_break
            decimal(n as nat) == decimal(m as nat) + rev@.reverse(),
        ensures
            decimal(n as nat) == rev@.reverse(),
        decreases m,
    {
        let ghost old_rev = rev@;
        if m < 10 {
            rev.push((48 + m as u8) as char);
            assert(rev@.reverse() =~= seq![(48 + m) as char] + old_rev.reverse());
            break;
        }
        let d = (m % 10) as u8;
        rev.push((48 + d) as char);
        assert(rev@.reverse() =~= seq![(48 + d) as char] + old_rev.reverse());
        assert(decimal(m as nat) == decimal((m / 10) as nat).push((48 + m % 10) as char));
        assert(decimal((m / 10) as nat).push((48 + m % 10) as char) + old_rev.reverse() =~= decimal(
            (m / 10) as nat,
        ) + rev@.reverse());
        m = m / 10;
    }
    let mut out: Vec<char> = Vec::new();
    let k = rev.len();
    for j in 0..k
        invariant
            k == rev@.len(),
            out@ == rev@.reverse().take(j as int),
    {
        out.push(rev[k - 1 - j]);
        assert(out@ =~= rev@.reverse().take(j + 1));
    }
    assert(rev@.reverse().take(k as int) =~= rev@.reverse());
    string_from_chars(out.as_slice())
}

impl InstallError {
    /// The message the launcher reports for this error.
    pub open spec fn message_spec(self) -> Seq<char> {
        match self {
            InstallError::VersionNotFound => "Minecraft version not found!"@,
            InstallError::MissingAssetIndex => "Missing asset index"@,
            InstallError::FilesFailed(n) => decimal(n as nat) + " files failed to download!"@,
        }
    }

    /// The message the launcher reports for this error.
    pub fn message(&self) -> (res: String)
        ensures
            res@ == self.message_spec(),
    {
        match self {
            InstallError::VersionNotFound => String::from_str("Minecraft version not found!"),
            InstallError::MissingAssetIndex => String::from_str("Missing asset index"),
            InstallError::FilesFailed(n) => decimal_string(*n).concat(" files failed to download!"),
        }
    }
}

// ---------------------------------------------------------------------------
// Laws

/// A file is downloaded at most `MAX_RETRIES` times: the first download is
/// attempt 1, each failed attempt below the limit is retried as the next
/// one after waiting 500 ms times its number, and a failure of the last
/// attempt ends the fetch.
pub proof fn fetch_gives_up_after_max_retries(task: DownloadTask, existing: ExistingFile, attempt: usize)
    requires
        1 <= attempt <= MAX_RETRIES,
    ensures
        fetch_start_spec(task, existing) matches FetchAction::Download { attempt: a } ==> a == 1,
        !(fetch_start_spec(task, existing) is Retry),
        attempt == MAX_RETRIES ==> fetch_after_download_spec(task, attempt, DownloadOutcome::Failed)
            == FetchAction::Finish(Err(FetchError::DownloadFailed)),
        attempt < MAX_RETRIES ==> fetch_after_download_spec(task, attempt, DownloadOutcome::Failed)
            == (FetchAction::Retry { delay_ms: (500 * attempt) as u64, attempt: (attempt + 1) as usize }),
        attempt < MAX_RETRIES ==> attempt + 1 <= MAX_RETRIES,
{
}

/// For a file with a SHA-1, the fetch ends at once, successfully, exactly
/// when the file is not needed.
pub proof fn present_file_skipped_iff_not_needed(task: DownloadTask, existing: ExistingFile)
    requires
        task.sha1 is Some,
        existing matches ExistingFile::Present { digest_check } ==> check_matches_task(
            task,
            digest_check,
        ),
    ensures
        !needs_download_spec(task, existing) <==> fetch_start_spec(task, existing) == FetchAction::Finish(
            Ok(()),
        ),
{
}

/// A file that is not on disk is always downloaded, starting with attempt
/// 1. The fetch ends without any download only for a file that is present,
/// and ends successfully that way only when the task has a SHA-1 and the
/// present file matches it.
pub proof fn fetch_downloads_unless_present(task: DownloadTask, existing: ExistingFile)
    requires
        existing matches ExistingFile::Present { digest_check } ==> check_matches_task(
            task,
            digest_check,
        ),
    ensures
        existing is Missing ==> fetch_start_spec(task, existing) == (FetchAction::Download {
            attempt: 1,
        }),
        fetch_start_spec(task, existing) is Finish ==> existing is Present,
        fetch_start_spec(task, existing) == FetchAction::Finish(Ok(())) ==> task.sha1 is Some
            && existing == (ExistingFile::Present { digest_check: Some(Ok(true)) }),
        !(fetch_start_spec(task, existing) is Retry),
{
}

/// Each asset task is built from its own object alone: it is the task the
/// object would get on its own. Its URL is the asset server, `/`, the first
/// two bytes of the object's hash, `/`, and the hash; that cut is a prefix
/// of the hash; the SHA-1 is the hash; and in the objects layout the file is
/// `assets/objects/<cut>/<hash>`.
pub proof fn asset_task_uses_its_own_hash(
    paths: Paths,
    version_id: Seq<char>,
    layout: AssetLayout,
    objects: Seq<(String, AssetObject)>,
    k: int,
)
    requires
        0 <= k < objects.len(),
        hashes_cut(objects),
    ensures
        ({
            let tasks = asset_tasks_spec(paths, version_id, layout, objects);
            let h = objects[k].1.hash@;
            let p = byte_prefix2(h)->0;
            &&& tasks.len() == objects.len()
            &&& tasks[k] == asset_tasks_spec(paths, version_id, layout, seq![objects[k]])[0]
            &&& p.is_prefix_of(h)
            &&& 1 <= p.len() <= 2
            &&& tasks[k].0 == "https://resources.download.minecraft.net"@ + seq!['/'] + p + seq!['/']
                + h
            &&& tasks[k].2 == Some(h)
            &&& layout == AssetLayout::Objects ==> tasks[k].1 == join_path(
                join_path(join_path(paths.assets@, "objects"@), p),
                h,
            )
        }),
{
    let h = objects[k].1.hash@;
    assert(byte_prefix2(h) is Some);
    assert(seq![objects[k]][0] == objects[k]);
    let p = byte_prefix2(h)->0;
    assert(p.len() <= h.len());
    assert(p =~= h.subrange(0, p.len() as int));
}

} // verus!
