use cubex_launcher::paths::{app_directory, join_path_exec, Paths};

#[test]
fn layout_below_root() {
    let p = Paths::new("/home/u/.cubex".to_string());
    assert_eq!(p.root, "/home/u/.cubex");
    assert_eq!(p.versions, "/home/u/.cubex/versions");
    assert_eq!(p.assets, "/home/u/.cubex/assets");
    assert_eq!(p.libraries, "/home/u/.cubex/libraries");
    assert_eq!(p.native_libraries, "/home/u/.cubex/cache/launch/natives");
    assert_eq!(p.instances, "/home/u/.cubex/instances");
}

#[test]
fn layout_below_root_with_trailing_separator() {
    let p = Paths::new("/data/".to_string());
    assert_eq!(p.versions, "/data/versions");
}

#[test]
fn join_matches_pathbuf_on_unix() {
    for (base, comp) in [("a", "b"), ("a/", "b"), ("", "b"), ("a", "/abs"), ("a", ""), ("/", "x")] {
        let expected = std::path::Path::new(base).join(comp).to_string_lossy().into_owned();
        assert_eq!(join_path_exec(base, comp), expected, "{base} + {comp}");
    }
}

#[test]
fn app_directory_per_system() {
    assert_eq!(app_directory("/home/u", "linux", "cubex"), "/home/u/cubex");
    assert_eq!(
        app_directory("/Users/u", "macos", "cubex"),
        "/Users/u/Library/Application Support/cubex"
    );
    assert_eq!(app_directory("C:/Users/u/AppData/Roaming", "windows", "cubex"), "C:/Users/u/AppData/Roaming/cubex");
}
