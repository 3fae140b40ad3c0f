use cubex_launcher::launch::{
    build_launch_args, client_jar_path, generate_offline_uuid, get_classpath_separator,
    native_jar_paths, native_target, parse_arg, parse_legacy_args, replace_game_vars,
    replace_legacy_vars, replace_vars, uuid_from_digest, version_json_path, LaunchArg,
    LaunchManifest,
};
use cubex_launcher::paths::Paths;
use cubex_launcher::rules::{Artifact, Library, LibraryDownloads, OsRule, Rule};

fn s(x: &str) -> String {
    x.to_string()
}

fn os_rule(action: &str, os: &str) -> Rule {
    Rule { action: Some(s(action)), os: Some(OsRule { name: Some(s(os)) }) }
}

fn artifact(path: &str) -> Artifact {
    Artifact { path: Some(s(path)), sha1: Some(s("0")), url: Some(s("https://x/") + path) }
}

#[test]
fn separator_per_system() {
    assert_eq!(get_classpath_separator("windows"), ";");
    assert_eq!(get_classpath_separator("linux"), ":");
    assert_eq!(get_classpath_separator("macos"), ":");
}

#[test]
fn replace_vars_fills_every_placeholder() {
    let out = replace_vars(
        "-Djava.library.path=${natives_directory} -Dminecraft.launcher.brand=${launcher_name} -Dv=${launcher_version} ${classpath_separator} ${library_directory} ${version_name} ${assets_root} -cp ${classpath}",
        "/a",
        "/l",
        "/n",
        "1.20",
        "/x.jar:/y.jar",
        ":",
    );
    assert_eq!(
        out,
        "-Djava.library.path=/n -Dminecraft.launcher.brand=CubeX Launcher -Dv=1.0 : /l 1.20 /a -cp /x.jar:/y.jar"
    );
}

#[test]
fn replace_vars_fills_in_order() {
    // The natives directory is filled first, so a placeholder inside it is
    // filled later on.
    let out = replace_vars("${natives_directory}", "/a", "/l", "${version_name}", "1.20", "cp", ":");
    assert_eq!(out, "1.20");
    // The class path is filled last, so its text is kept as it is.
    let out = replace_vars("${classpath}", "/a", "/l", "/n", "1.20", "${version_name}", ":");
    assert_eq!(out, "${version_name}");
}

#[test]
fn replace_legacy_vars_fills_every_placeholder() {
    let out = replace_legacy_vars(
        "--username ${auth_player_name} --session ${auth_session} --uuid ${auth_uuid} --accessToken ${auth_access_token} --version ${version_name} --gameDir ${game_directory} --assetsDir ${assets_root} --assetIndex ${assets_index_name} --game_assets ${game_assets} --userType ${user_type} --versionType ${version_type} --userProperties ${user_properties}",
        "/g", "/a", "1.8", "1.8.9", "Steve", "u-u-i-d", "tok",
    );
    assert_eq!(
        out,
        "--username Steve --session tok --uuid u-u-i-d --accessToken tok --version 1.8.9 --gameDir /g --assetsDir /a --assetIndex 1.8 --game_assets /a --userType legacy --versionType release --userProperties {}"
    );
}

#[test]
fn replace_game_vars_fills_and_removes_demo() {
    let out = replace_game_vars(
        "${auth_player_name} ${auth_uuid} ${auth_access_token} ${version_name} ${clientid} ${auth_xuid} ${game_directory} ${assets_root} ${assets_index_name} ${user_type} ${version_type} --demo",
        "/g", "/a", "17", "1.20", "Alex", "id", "tok", "0", "0",
    );
    assert_eq!(out, "Alex id tok 1.20 0 0 /g /a 17 msa release ");
    assert_eq!(
        replace_game_vars("--demo", "", "", "", "", "", "", "", "", ""),
        ""
    );
}

#[test]
fn templates_without_placeholders_pass_through() {
    let a = "-XX:+UseG1GC";
    assert_eq!(replace_vars(a, "/a", "/l", "/n", "v", "cp", ":"), a);
    assert_eq!(replace_legacy_vars(a, "/g", "/a", "i", "v", "u", "id", "t"), a);
    assert_eq!(replace_game_vars("--width --demo", "/g", "/a", "i", "v", "u", "id", "t", "0", "0"), "--width ");
}

#[test]
fn parse_arg_cases() {
    assert_eq!(parse_arg(&LaunchArg::Text(s("--x")), "linux"), Some(s("--x")));
    let guarded = LaunchArg::Conditional { rules: Some(vec![os_rule("allow", "osx")]), value: Some(s("-XstartOnFirstThread")) };
    assert_eq!(parse_arg(&guarded, "linux"), None);
    assert_eq!(parse_arg(&guarded, "macos"), Some(s("-XstartOnFirstThread")));
    let list_value = LaunchArg::Conditional { rules: None, value: None };
    assert_eq!(parse_arg(&list_value, "linux"), None);
    assert_eq!(parse_arg(&LaunchArg::Other, "linux"), None);
}

#[test]
fn parse_legacy_args_splits_on_whitespace() {
    assert_eq!(
        parse_legacy_args("--username ${auth_player_name}  --version\t${version_name}"),
        vec![s("--username"), s("${auth_player_name}"), s("--version"), s("${version_name}")]
    );
}

#[test]
fn paths_of_version_files() {
    let p = Paths::new(s("/r"));
    assert_eq!(version_json_path(&p, "1.20.1"), "/r/versions/1.20.1/1.20.1.json");
    assert_eq!(client_jar_path(&p.versions, "1.20.1"), "/r/versions/1.20.1/1.20.1.jar");
}

fn modern_manifest() -> LaunchManifest {
    LaunchManifest {
        libraries: Some(vec![
            Library {
                downloads: Some(LibraryDownloads { artifact: Some(artifact("org/a/a.jar")), classifiers: None }),
                rules: None,
                natives: false,
            },
            Library {
                downloads: Some(LibraryDownloads { artifact: Some(artifact("org/mac/m.jar")), classifiers: None }),
                rules: Some(vec![os_rule("allow", "osx")]),
                natives: false,
            },
            Library {
                downloads: Some(LibraryDownloads { artifact: Some(artifact("org/n/n.jar")), classifiers: None }),
                rules: None,
                natives: true,
            },
            Library {
                downloads: Some(LibraryDownloads { artifact: Some(artifact("org/b/b.jar")), classifiers: None }),
                rules: None,
                natives: false,
            },
        ]),
        jvm_arguments: Some(vec![
            LaunchArg::Conditional { rules: Some(vec![os_rule("allow", "osx")]), value: Some(s("-XstartOnFirstThread")) },
            LaunchArg::Text(s("-Djava.library.path=${natives_directory}")),
            LaunchArg::Text(s("-cp")),
            LaunchArg::Text(s("${classpath}")),
        ]),
        game_arguments: Some(vec![
            LaunchArg::Text(s("--username")),
            LaunchArg::Text(s("${auth_player_name}")),
            LaunchArg::Text(s("--gameDir")),
            LaunchArg::Text(s("${game_directory}")),
            LaunchArg::Conditional { rules: None, value: Some(s("--demo")) },
            LaunchArg::Other,
        ]),
        main_class: Some(s("net.minecraft.client.main.Main")),
        asset_index_id: Some(s("17")),
        minecraft_arguments: None,
    }
}

#[test]
fn build_launch_args_modern_manifest() {
    let p = Paths::new(s("/r"));
    let args = build_launch_args(&modern_manifest(), &p, "1.20.1", "Steve", "uuid", "0", "linux");
    assert_eq!(
        args,
        vec![
            s("-Djava.library.path=/r/cache/launch/natives"),
            s("-cp"),
            s("/r/libraries/org/a/a.jar:/r/libraries/org/b/b.jar:/r/versions/1.20.1/1.20.1.jar"),
            s("net.minecraft.client.main.Main"),
            s("--username"),
            s("Steve"),
            s("--gameDir"),
            s("/r/instances/1.20.1/minecraft"),
            s(""),
        ]
    );
}

#[test]
fn build_launch_args_on_macos_includes_mac_library() {
    let p = Paths::new(s("/r"));
    let args = build_launch_args(&modern_manifest(), &p, "1.20.1", "Steve", "uuid", "0", "macos");
    assert_eq!(args[0], "-XstartOnFirstThread");
    assert_eq!(
        args[3],
        "/r/libraries/org/a/a.jar:/r/libraries/org/mac/m.jar:/r/libraries/org/b/b.jar:/r/versions/1.20.1/1.20.1.jar"
    );
}

#[test]
fn build_launch_args_legacy_manifest() {
    let p = Paths::new(s("/r"));
    let m = LaunchManifest {
        libraries: None,
        jvm_arguments: None,
        game_arguments: None,
        main_class: None,
        asset_index_id: Some(s("1.8")),
        minecraft_arguments: Some(s("--username ${auth_player_name} --assetIndex ${assets_index_name} --uuid ${auth_uuid}")),
    };
    let args = build_launch_args(&m, &p, "1.8.9", "Steve", "abc", "0", "windows");
    assert_eq!(
        args,
        vec![
            s("-Djava.library.path=/r/cache/launch/natives"),
            s("-cp"),
            s("/r/versions/1.8.9/1.8.9.jar"),
            s("net.minecraft.client.main.Main"),
            s("--username"),
            s("Steve"),
            s("--assetIndex"),
            s("1.8"),
            s("--uuid"),
            s("abc"),
        ]
    );
}

#[test]
fn build_launch_args_windows_separator() {
    let p = Paths::new(s("/r"));
    let mut m = modern_manifest();
    m.jvm_arguments = Some(vec![LaunchArg::Text(s("${classpath}"))]);
    let args = build_launch_args(&m, &p, "v", "u", "i", "t", "windows");
    assert_eq!(args[0], "/r/libraries/org/a/a.jar;/r/libraries/org/b/b.jar;/r/versions/v/v.jar");
}

#[test]
fn native_jars_follow_rules_and_system() {
    let natives = |rules: Option<Vec<Rule>>| Library {
        downloads: Some(LibraryDownloads {
            artifact: None,
            classifiers: Some(vec![
                (s("natives-windows"), artifact("w.jar")),
                (s("natives-linux"), artifact("l.jar")),
                (s("natives-osx"), artifact("o.jar")),
            ]),
        }),
        rules,
        natives: true,
    };
    let libs = vec![
        natives(None),
        natives(Some(vec![Rule { action: Some(s("allow")), os: Some(OsRule { name: Some(s("windows")) }) }])),
        Library { downloads: None, rules: None, natives: false },
    ];
    assert_eq!(native_jar_paths(&libs, "/libs", "linux"), vec![s("/libs/l.jar")]);
    assert_eq!(native_jar_paths(&libs, "/libs", "macos"), vec![s("/libs/o.jar")]);
    assert_eq!(native_jar_paths(&libs, "/libs", "windows"), vec![s("/libs/w.jar"), s("/libs/w.jar")]);
    // Unknown systems take the Windows natives.
    assert_eq!(native_jar_paths(&libs, "/libs", "freebsd"), vec![s("/libs/w.jar"), s("/libs/w.jar")]);
}

#[test]
fn native_targets_of_archive_entries() {
    assert_eq!(native_target("org/lwjgl/linux/x64/liblwjgl.so", "/n"), Some(s("/n/liblwjgl.so")));
    assert_eq!(native_target("lwjgl.dll", "/n"), Some(s("/n/lwjgl.dll")));
    assert_eq!(native_target("macos/liblwjgl.dylib", "/n"), Some(s("/n/liblwjgl.dylib")));
    assert_eq!(native_target("META-INF/x.so", "/n"), None);
    assert_eq!(native_target("org/Lib.class", "/n"), None);
    assert_eq!(native_target("so", "/n"), None);
}

#[test]
fn offline_uuid_values() {
    assert_eq!(generate_offline_uuid("Steve"), "5627dd98-e6be-bc21-f8a8-e92344183641");
    assert_eq!(generate_offline_uuid("Notch"), "b50ad385-829d-a141-a216-7e7d7539ba7f");
    assert_eq!(generate_offline_uuid("Ünïcode"), "941d2424-a912-99a3-b1f4-93a200dd8cb0");
    assert_eq!(generate_offline_uuid(""), "fc5bc365-aedf-b0a8-0b89-04e462e29bde");
}

#[test]
fn offline_uuid_shape_and_determinism() {
    let a = generate_offline_uuid("someone");
    assert_eq!(a, generate_offline_uuid("someone"));
    assert_eq!(a.len(), 36);
    for (i, c) in a.chars().enumerate() {
        if [8, 13, 18, 23].contains(&i) {
            assert_eq!(c, '-');
        } else {
            assert!(c.is_ascii_hexdigit() && !c.is_ascii_uppercase());
        }
    }
}

#[test]
fn uuid_grouping_of_digest() {
    let d: Vec<u8> = (0u8..16).collect();
    assert_eq!(uuid_from_digest(&d), "00010203-0405-0607-0809-0a0b0c0d0e0f");
}
