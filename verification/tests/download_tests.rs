use cubex_launcher::download::{
    asset_index_download, asset_object_download, asset_objects_folder, client_download,
    document_libraries, find_version_url, is_library_fetchable, library_downloads, version_location,
    VersionDocument,
};
use cubex_launcher::manager::Manifest;
use cubex_launcher::rules::{Artifact, Library, LibraryDownloads, OsRule, Rule};

fn s(x: &str) -> String {
    x.to_string()
}

fn doc() -> VersionDocument {
    VersionDocument {
        client_url: Some(s("https://c/client.jar")),
        asset_index_url: Some(s("https://i/5.json")),
        libraries: Some(vec![]),
    }
}

#[test]
fn version_location_is_text() {
    let (folder, file) = version_location("/d", "1.20", "json");
    assert_eq!(folder, "/d/versions/1.20");
    assert_eq!(file, "/d/versions/1.20/1.20.json");
}

#[test]
fn find_version_url_cases() {
    let m = vec![
        Manifest { id: Some(s("a")), url: None },
        Manifest { id: Some(s("b")), url: Some(s("https://b")) },
        Manifest { id: None, url: Some(s("https://x")) },
    ];
    assert_eq!(find_version_url(&m, "b"), Ok(s("https://b")));
    assert_eq!(find_version_url(&m, "a"), Err(s("no URL")));
    assert_eq!(find_version_url(&m, "c"), Err(s("minecraft version not found")));
}

#[test]
fn client_and_index_locations() {
    assert_eq!(
        client_download(&doc(), "/d", "1.20"),
        Ok((s("https://c/client.jar"), s("/d/versions/1.20"), s("/d/versions/1.20/1.20.jar")))
    );
    let mut d = doc();
    d.client_url = None;
    assert_eq!(client_download(&d, "/d", "1.20"), Err(s("No client URL")));
    assert_eq!(
        asset_index_download(&doc(), "/d", "1.20"),
        Ok((s("https://i/5.json"), s("/d/assets/indexes"), s("/d/assets/indexes/1.20.json")))
    );
    d.asset_index_url = None;
    assert_eq!(asset_index_download(&d, "/d", "1.20"), Err(s("no asset index")));
}

#[test]
fn asset_object_location() {
    let base = asset_objects_folder("/d");
    assert_eq!(base, "/d/assets/objects");
    assert_eq!(
        asset_object_download(&base, "ab12"),
        (
            s("https://resources.download.minecraft.net/ab/ab12"),
            s("/d/assets/objects/ab"),
            s("/d/assets/objects/ab/ab12")
        )
    );
}

#[test]
fn libraries_of_document() {
    assert!(document_libraries(&doc()).is_ok());
    let mut d = doc();
    d.libraries = None;
    assert_eq!(document_libraries(&d).err().unwrap(), "No libraries");
}

#[test]
fn library_downloads_per_system() {
    let art = |p: &str| Artifact { path: Some(s(p)), sha1: None, url: Some(format!("https://l/{p}")) };
    let lib = Library {
        downloads: Some(LibraryDownloads {
            artifact: Some(art("x/x.jar")),
            classifiers: Some(vec![(s("natives-linux"), art("x/x-linux.jar")), (s("natives-osx"), art("x/x-osx.jar"))]),
        }),
        rules: None,
        natives: true,
    };
    assert_eq!(
        library_downloads(&lib, "/d", "linux"),
        vec![
            (s("https://l/x/x.jar"), s("/d/libraries/x/x.jar")),
            (s("https://l/x/x-linux.jar"), s("/d/libraries/x/x-linux.jar"))
        ]
    );
    assert_eq!(library_downloads(&lib, "/d", "windows"), vec![(s("https://l/x/x.jar"), s("/d/libraries/x/x.jar"))]);
    assert_eq!(library_downloads(&lib, "/d", "freebsd")[1].1, "/d/libraries/x/x-osx.jar");
    let blocked = Library {
        downloads: lib.downloads,
        rules: Some(vec![Rule { action: Some(s("allow")), os: Some(OsRule { name: Some(s("osx")) }) }]),
        natives: true,
    };
    assert!(library_downloads(&blocked, "/d", "linux").is_empty());
}

#[test]
fn downloader_and_launcher_agree_on_document_location() {
    let p = cubex_launcher::paths::Paths::new(s("/d"));
    let (_, file) = version_location("/d", "1.20.1", "json");
    assert_eq!(cubex_launcher::launch::version_json_path(&p, "1.20.1"), file);
}

#[test]
fn fetchable_libraries() {
    let art = |url: Option<&str>, path: Option<&str>| Artifact { path: path.map(s), sha1: None, url: url.map(s) };
    let lib = |main: Artifact, native: Artifact| Library {
        downloads: Some(LibraryDownloads { artifact: Some(main), classifiers: Some(vec![(s("natives-linux"), native)]) }),
        rules: None,
        natives: false,
    };
    assert!(is_library_fetchable(&lib(art(Some("u"), Some("p")), art(Some("u"), Some("p"))), "linux"));
    assert!(!is_library_fetchable(&lib(art(None, Some("p")), art(Some("u"), Some("p"))), "linux"));
    assert!(!is_library_fetchable(&lib(art(Some("u"), Some("p")), art(Some("u"), None)), "linux"));
    // The linux classifier is not fetched on Windows.
    assert!(is_library_fetchable(&lib(art(Some("u"), Some("p")), art(Some("u"), None)), "windows"));
}
