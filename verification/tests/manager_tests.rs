use cubex_launcher::manager::{
    asset_index_location, asset_layout, asset_tasks, download_outcome, download_task,
    fetch_after_download, fetch_start, find_version, hash_prefix, library_tasks, needs_download,
    version_dir_path, version_ids, AssetIndexInfo, AssetLayout, AssetObject, Download,
    DownloadOutcome, DownloadTask, Downloads, ExistingFile, FetchAction, FetchError,
    InstallError, Manifest, VersionJson, MAX_RETRIES,
};
use cubex_launcher::paths::Paths;
use cubex_launcher::rules::{Artifact, Library, LibraryDownloads, OsRule, Rule};

fn s(x: &str) -> String {
    x.to_string()
}

fn artifact(path: &str, sha: &str) -> Artifact {
    Artifact { path: Some(s(path)), sha1: Some(s(sha)), url: Some(format!("https://libraries.example/{path}")) }
}

fn manifest() -> Vec<Manifest> {
    vec![
        Manifest { id: Some(s("1.20.1")), url: Some(s("https://m/1.20.1.json")) },
        Manifest { id: Some(s("1.8.9")), url: Some(s("https://m/1.8.9.json")) },
        Manifest { id: Some(s("1.8.9")), url: Some(s("https://m/dup.json")) },
    ]
}

#[test]
fn find_version_first_match() {
    let m = manifest();
    assert_eq!(find_version(&m, "1.8.9"), Some(1));
    assert_eq!(find_version(&m, "1.20.1"), Some(0));
    assert_eq!(find_version(&m, "b1.7"), None);
}

#[test]
fn version_ids_in_order() {
    assert_eq!(version_ids(&manifest()), vec![s("1.20.1"), s("1.8.9"), s("1.8.9")]);
}

fn task_tuple(t: &DownloadTask) -> (String, String, Option<String>) {
    (t.url.clone(), t.path.clone(), t.sha1.clone())
}

#[test]
fn download_task_for_artifact() {
    let p = Paths::new(s("/r"));
    let t = download_task(&artifact("com/x/x.jar", "ab"), &p);
    assert_eq!(
        task_tuple(&t),
        (s("https://libraries.example/com/x/x.jar"), s("/r/libraries/com/x/x.jar"), Some(s("ab")))
    );
}

fn version_json() -> VersionJson {
    VersionJson {
        id: s("1.20.1"),
        assets: Some(s("5")),
        asset_index: Some(AssetIndexInfo { id: s("5"), url: s("https://idx/5.json") }),
        downloads: Downloads { client: Some(Download { sha1: s("cc"), url: s("https://c/client.jar") }) },
        libraries: vec![
            Library {
                downloads: Some(LibraryDownloads {
                    artifact: Some(artifact("a/a.jar", "a1")),
                    classifiers: Some(vec![
                        (s("natives-linux"), artifact("a/a-natives-linux.jar", "a2")),
                        (s("natives-windows"), artifact("a/a-natives-windows.jar", "a3")),
                    ]),
                }),
                rules: None,
                natives: true,
            },
            Library {
                downloads: Some(LibraryDownloads { artifact: Some(artifact("mac/m.jar", "m1")), classifiers: None }),
                rules: Some(vec![Rule { action: Some(s("allow")), os: Some(OsRule { name: Some(s("osx")) }) }]),
                natives: false,
            },
        ],
    }
}

#[test]
fn library_tasks_on_linux() {
    let p = Paths::new(s("/r"));
    let tasks: Vec<_> = library_tasks(&p, "1.20.1", &version_json(), "linux").iter().map(task_tuple).collect();
    assert_eq!(
        tasks,
        vec![
            (s("https://c/client.jar"), s("/r/versions/1.20.1/1.20.1.jar"), Some(s("cc"))),
            (s("https://libraries.example/a/a.jar"), s("/r/libraries/a/a.jar"), Some(s("a1"))),
            (
                s("https://libraries.example/a/a-natives-linux.jar"),
                s("/r/libraries/a/a-natives-linux.jar"),
                Some(s("a2"))
            ),
        ]
    );
}

#[test]
fn library_tasks_on_macos() {
    let p = Paths::new(s("/r"));
    let tasks = library_tasks(&p, "1.20.1", &version_json(), "macos");
    assert_eq!(tasks.len(), 3);
    assert_eq!(tasks[2].path, "/r/libraries/mac/m.jar");
}

#[test]
fn asset_index_location_or_error() {
    let p = Paths::new(s("/r"));
    let (url, dir, file) = asset_index_location(&p, &version_json()).ok().unwrap();
    assert_eq!((url.as_str(), dir.as_str(), file.as_str()), ("https://idx/5.json", "/r/assets/indexes", "/r/assets/indexes/5.json"));
    let mut v = version_json();
    v.asset_index = None;
    let err = asset_index_location(&p, &v).err().unwrap();
    assert!(matches!(err, InstallError::MissingAssetIndex));
    assert_eq!(err.message(), "Missing asset index");
}

#[test]
fn version_directory() {
    assert_eq!(version_dir_path(&Paths::new(s("/r")), "1.20.1"), "/r/versions/1.20.1");
}

#[test]
fn hash_prefix_cuts_after_two_bytes() {
    assert_eq!(hash_prefix("a94a8fe5"), Some(s("a9")));
    assert_eq!(hash_prefix("éa"), Some(s("é")));
    assert_eq!(hash_prefix("a"), None);
    assert_eq!(hash_prefix("aé"), None);
    assert_eq!(hash_prefix(""), None);
    assert_eq!(hash_prefix("€x"), None);
}

#[test]
fn asset_layouts() {
    assert!(matches!(asset_layout(&Some(s("pre-1.6"))), AssetLayout::Resources));
    assert!(matches!(asset_layout(&Some(s("legacy"))), AssetLayout::Virtual));
    assert!(matches!(asset_layout(&Some(s("17"))), AssetLayout::Objects));
    assert!(matches!(asset_layout(&None), AssetLayout::Objects));
}

#[test]
fn asset_tasks_per_layout() {
    let p = Paths::new(s("/r"));
    let objects = vec![(s("minecraft/sounds/a.ogg"), AssetObject { hash: s("ab12cd") })];
    let modern: Vec<_> = asset_tasks(&p, "1.20.1", &Some(s("5")), &objects).iter().map(task_tuple).collect();
    assert_eq!(
        modern,
        vec![(
            s("https://resources.download.minecraft.net/ab/ab12cd"),
            s("/r/assets/objects/ab/ab12cd"),
            Some(s("ab12cd"))
        )]
    );
    let legacy = asset_tasks(&p, "1.6.4", &Some(s("legacy")), &objects);
    assert_eq!(legacy[0].path, "/r/assets/virtual/legacy/minecraft/sounds/a.ogg");
    let old = asset_tasks(&p, "1.5.2", &Some(s("pre-1.6")), &objects);
    assert_eq!(old[0].path, "/r/instances/1.5.2/minecraft/resources/minecraft/sounds/a.ogg");
}

fn task(sha1: Option<&str>) -> DownloadTask {
    DownloadTask { url: s("https://f"), path: s("/r/f"), sha1: sha1.map(s) }
}

#[test]
fn needs_download_cases() {
    assert!(needs_download(&task(Some("x")), &ExistingFile::Missing));
    assert!(!needs_download(&task(Some("x")), &ExistingFile::Present { digest_check: Some(Ok(true)) }));
    assert!(needs_download(&task(Some("x")), &ExistingFile::Present { digest_check: Some(Ok(false)) }));
    assert!(needs_download(&task(Some("x")), &ExistingFile::Present { digest_check: Some(Err(())) }));
    assert!(!needs_download(&task(None), &ExistingFile::Present { digest_check: None }));
    assert!(needs_download(&task(None), &ExistingFile::Missing));
}

#[test]
fn fetch_start_cases() {
    assert!(matches!(
        fetch_start(&task(Some("x")), &ExistingFile::Present { digest_check: Some(Ok(true)) }),
        FetchAction::Finish(Ok(()))
    ));
    assert!(matches!(
        fetch_start(&task(Some("x")), &ExistingFile::Present { digest_check: Some(Err(())) }),
        FetchAction::Finish(Err(FetchError::Io))
    ));
    assert!(matches!(
        fetch_start(&task(Some("x")), &ExistingFile::Present { digest_check: Some(Ok(false)) }),
        FetchAction::Download { attempt: 1 }
    ));
    assert!(matches!(
        fetch_start(&task(None), &ExistingFile::Present { digest_check: None }),
        FetchAction::Download { attempt: 1 }
    ));
}

#[test]
fn fetch_retries_with_growing_delay_then_gives_up() {
    let t = task(Some("x"));
    let mut delays = Vec::new();
    let mut attempt = 1;
    let last = loop {
        match fetch_after_download(&t, attempt, &DownloadOutcome::Failed) {
            FetchAction::Retry { delay_ms, attempt: next } => {
                assert_eq!(next, attempt + 1);
                delays.push(delay_ms);
                attempt = next;
            }
            other => break other,
        }
    };
    assert_eq!(delays, vec![500, 1000, 1500, 2000]);
    assert_eq!(attempt, MAX_RETRIES);
    assert!(matches!(last, FetchAction::Finish(Err(FetchError::DownloadFailed))));
}

#[test]
fn fetch_after_successful_download() {
    let t = task(Some("x"));
    assert!(matches!(
        fetch_after_download(&t, 2, &DownloadOutcome::Fetched { digest_check: Some(Ok(true)) }),
        FetchAction::Finish(Ok(()))
    ));
    assert!(matches!(
        fetch_after_download(&t, 1, &DownloadOutcome::Fetched { digest_check: Some(Ok(false)) }),
        FetchAction::Finish(Err(FetchError::Sha1Mismatch))
    ));
    assert!(matches!(
        fetch_after_download(&task(None), 1, &DownloadOutcome::Fetched { digest_check: None }),
        FetchAction::Finish(Ok(()))
    ));
}

#[test]
fn download_outcome_counts_failures() {
    assert!(download_outcome(&vec![true, true]).is_ok());
    assert!(download_outcome(&vec![]).is_ok());
    let err = download_outcome(&vec![true, false, false]).err().unwrap();
    assert!(matches!(err, InstallError::FilesFailed(2)));
    assert_eq!(err.message(), "2 files failed to download!");
    let many: Vec<bool> = std::iter::repeat(false).take(1234).collect();
    assert_eq!(download_outcome(&many).err().unwrap().message(), "1234 files failed to download!");
    assert_eq!(InstallError::VersionNotFound.message(), "Minecraft version not found!");
    assert_eq!(InstallError::FilesFailed(0).message(), "0 files failed to download!");
}

#[test]
fn skipping_a_present_file_agrees_with_needs_download() {
    let t = task(Some("x"));
    for check in [Some(Ok(true)), Some(Ok(false)), Some(Err(()))] {
        let existing = ExistingFile::Present { digest_check: check };
        let skipped = matches!(fetch_start(&t, &existing), FetchAction::Finish(Ok(())));
        assert_eq!(skipped, !needs_download(&t, &existing));
    }
    let skipped = matches!(fetch_start(&t, &ExistingFile::Missing), FetchAction::Finish(Ok(())));
    assert_eq!(skipped, !needs_download(&t, &ExistingFile::Missing));
}
