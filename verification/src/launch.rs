//! Building the Java command line that starts the game, and the launch-time
//! helpers around it: native-library selection and offline identities.

use vstd::prelude::*;
use crate::paths::{join_path, join_path_exec, Paths};
use crate::digest::{md5_compute, md5_digest};
use crate::rules::{
    check_rules, check_rules_spec, classifier_keys_distinct, distinct_keys, get_os, is_allowed,
    is_allowed_spec, libraries_keys_distinct, rule_os_name, Artifact, Library, Rule,
};
use crate::text::{
    chars_of, ends_with, is_lower_hex_digit, join, join_spec, lower_hex, lower_hex_shape,
    push_lower_hex, replace_absent_pattern, replace_all, replace_spec,
    split_whitespace, starts_with, str_eq, string_from_chars, views, words,
};
use vstd::utf8::encode_utf8;
use vstd::string::StringExecFns;

verus! {

broadcast use vstd::string::group_string_axioms;

/// The separator between class-path entries on the operating system
/// `current` (a value of `std::env::consts::OS`).
pub open spec fn classpath_separator(current: Seq<char>) -> Seq<char> {
    if current == "windows"@ {
        ";"@
    } else {
        ":"@
    }
}

/// The class-path separator for `current`.
pub fn get_classpath_separator(current: &str) -> (res: &'static str)
    ensures
        res@ == classpath_separator(current@),
{
    if str_eq(current, "windows") {
        ";"
    } else {
        ":"
    }
}

/// A JVM argument template with its placeholders filled in.
pub open spec fn replace_vars_spec(
    arg: Seq<char>,
    assets_dir: Seq<char>,
    libraries_dir: Seq<char>,
    natives_dir: Seq<char>,
    version: Seq<char>,
    classpath: Seq<char>,
    separator: Seq<char>,
) -> Seq<char> {
    let s = replace_spec(arg, "${natives_directory}"@, natives_dir);
    let s = replace_spec(s, "${launcher_name}"@, "CubeX Launcher"@);
    let s = replace_spec(s, "${launcher_version}"@, "1.0"@);
    let s = replace_spec(s, "${classpath_separator}"@, separator);
    let s = replace_spec(s, "${library_directory}"@, libraries_dir);
    let s = replace_spec(s, "${version_name}"@, version);
    let s = replace_spec(s, "${assets_root}"@, assets_dir);
    replace_spec(s, "${classpath}"@, classpath)
}

/// Fills the placeholders of a JVM argument template, one placeholder after
/// the other in a fixed order.
pub fn replace_vars(
    arg: &str,
    assets_dir: &str,
    libraries_dir: &str,
    natives_dir: &str,
    version: &str,
    classpath: &str,
    separator: &str,
) -> (res: String)
    ensures
        res@ == replace_vars_spec(
            arg@,
            assets_dir@,
            libraries_dir@,
            natives_dir@,
            version@,
            classpath@,
            separator@,
        ),
{
    proof {
        reveal_strlit("${natives_directory}");
        reveal_strlit("${launcher_name}");
        reveal_strlit("${launcher_version}");
        reveal_strlit("${classpath_separator}");
        reveal_strlit("${library_directory}");
        reveal_strlit("${version_name}");
        reveal_strlit("${assets_root}");
        reveal_strlit("${classpath}");
    }
    let s = replace_all(arg, "${natives_directory}", natives_dir);
    let s = replace_all(s.as_str(), "${launcher_name}", "CubeX Launcher");
    let s = replace_all(s.as_str(), "${launcher_version}", "1.0");
    let s = replace_all(s.as_str(), "${classpath_separator}", separator);
    let s = replace_all(s.as_str(), "${library_directory}", libraries_dir);
    let s = replace_all(s.as_str(), "${version_name}", version);
    let s = replace_all(s.as_str(), "${assets_root}", assets_dir);
    replace_all(s.as_str(), "${classpath}", classpath)
}

/// A legacy game-argument template with its placeholders filled in.
pub open spec fn replace_legacy_vars_spec(
    arg: Seq<char>,
    game_dir: Seq<char>,
    assets_dir: Seq<char>,
    assets_index: Seq<char>,
    version: Seq<char>,
    username: Seq<char>,
    uuid: Seq<char>,
    token: Seq<char>,
) -> Seq<char> {
    let s = replace_spec(arg, "${auth_player_name}"@, username);
    let s = replace_spec(s, "${auth_uuid}"@, uuid);
    let s = replace_spec(s, "${auth_access_token}"@, token);
    let s = replace_spec(s, "${auth_session}"@, token);
    let s = replace_spec(s, "${version_name}"@, version);
    let s = replace_spec(s, "${game_directory}"@, game_dir);
    let s = replace_spec(s, "${assets_root}"@, assets_dir);
    let s = replace_spec(s, "${assets_index_name}"@, assets_index);
    let s = replace_spec(s, "${game_assets}"@, assets_dir);
    let s = replace_spec(s, "${user_type}"@, "legacy"@);
    let s = replace_spec(s, "${version_type}"@, "release"@);
    replace_spec(s, "${user_properties}"@, "{}"@)
}

/// Fills the placeholders of a legacy (`minecraftArguments`) game argument.
pub fn replace_legacy_vars(
    arg: &str,
    game_dir: &str,
    assets_dir: &str,
    assets_index: &str,
    version: &str,
    username: &str,
    uuid: &str,
    token: &str,
) -> (res: String)
    ensures
        res@ == replace_legacy_vars_spec(
            arg@,
            game_dir@,
            assets_dir@,
            assets_index@,
            version@,
            username@,
            uuid@,
            token@,
        ),
{
    proof {
        reveal_strlit("${auth_player_name}");
        reveal_strlit("${auth_uuid}");
        reveal_strlit("${auth_access_token}");
        reveal_strlit("${auth_session}");
        reveal_strlit("${version_name}");
        reveal_strlit("${game_directory}");
        reveal_strlit("${assets_root}");
        reveal_strlit("${assets_index_name}");
        reveal_strlit("${game_assets}");
        reveal_strlit("${user_type}");
        reveal_strlit("${version_type}");
        reveal_strlit("${user_properties}");
    }
    let s = replace_all(arg, "${auth_player_name}", username);
    let s = replace_all(s.as_str(), "${auth_uuid}", uuid);
    let s = replace_all(s.as_str(), "${auth_access_token}", token);
    let s = replace_all(s.as_str(), "${auth_session}", token);
    let s = replace_all(s.as_str(), "${version_name}", version);
    let s = replace_all(s.as_str(), "${game_directory}", game_dir);
    let s = replace_all(s.as_str(), "${assets_root}", assets_dir);
    let s = replace_all(s.as_str(), "${assets_index_name}", assets_index);
    let s = replace_all(s.as_str(), "${game_assets}", assets_dir);
    let s = replace_all(s.as_str(), "${user_type}", "legacy");
    let s = replace_all(s.as_str(), "${version_type}", "release");
    replace_all(s.as_str(), "${user_properties}", "{}")
}

/// A modern game-argument template with its placeholders filled in and every
/// `--demo` removed.
pub open spec fn replace_game_vars_spec(
    arg: Seq<char>,
    game_dir: Seq<char>,
    assets_dir: Seq<char>,
    assets_index: Seq<char>,
    version: Seq<char>,
    username: Seq<char>,
    uuid: Seq<char>,
    token: Seq<char>,
    client_id: Seq<char>,
    xuid: Seq<char>,
) -> Seq<char> {
    let s = replace_spec(arg, "${auth_player_name}"@, username);
    let s = replace_spec(s, "${auth_uuid}"@, uuid);
    let s = replace_spec(s, "${auth_access_token}"@, token);
    let s = replace_spec(s, "${version_name}"@, version);
    let s = replace_spec(s, "${clientid}"@, client_id);
    let s = replace_spec(s, "${auth_xuid}"@, xuid);
    let s = replace_spec(s, "${game_directory}"@, game_dir);
    let s = replace_spec(s, "${assets_root}"@, assets_dir);
    let s = replace_spec(s, "${assets_index_name}"@, assets_index);
    let s = replace_spec(s, "${user_type}"@, "msa"@);
    let s = replace_spec(s, "${version_type}"@, "release"@);
    replace_spec(s, "--demo"@, seq![])
}

/// Fills the placeholders of a modern (`arguments.game`) game argument and
/// removes `--demo`.
pub fn replace_game_vars(
    arg: &str,
    game_dir: &str,
    assets_dir: &str,
    assets_index: &str,
    version: &str,
    username: &str,
    uuid: &str,
    token: &str,
    client_id: &str,
    xuid: &str,
) -> (res: String)
    ensures
        res@ == replace_game_vars_spec(
            arg@,
            game_dir@,
            assets_dir@,
            assets_index@,
            version@,
            username@,
            uuid@,
            token@,
            client_id@,
            xuid@,
        ),
{
    proof {
        reveal_strlit("${auth_player_name}");
        reveal_strlit("${auth_uuid}");
        reveal_strlit("${auth_access_token}");
        reveal_strlit("${version_name}");
        reveal_strlit("${clientid}");
        reveal_strlit("${auth_xuid}");
        reveal_strlit("${game_directory}");
        reveal_strlit("${assets_root}");
        reveal_strlit("${assets_index_name}");
        reveal_strlit("${user_type}");
        reveal_strlit("${version_type}");
        reveal_strlit("--demo");
        reveal_strlit("");
    }
    let s = replace_all(arg, "${auth_player_name}", username);
    let s = replace_all(s.as_str(), "${auth_uuid}", uuid);
    let s = replace_all(s.as_str(), "${auth_access_token}", token);
    let s = replace_all(s.as_str(), "${version_name}", version);
    let s = replace_all(s.as_str(), "${clientid}", client_id);
    let s = replace_all(s.as_str(), "${auth_xuid}", xuid);
    let s = replace_all(s.as_str(), "${game_directory}", game_dir);
    let s = replace_all(s.as_str(), "${assets_root}", assets_dir);
    let s = replace_all(s.as_str(), "${assets_index_name}", assets_index);
    let s = replace_all(s.as_str(), "${user_type}", "msa");
    let s = replace_all(s.as_str(), "${version_type}", "release");
    let r = replace_all(s.as_str(), "--demo", "");
    assert(""@ =~= Seq::<char>::empty());
    r
}

/// Splits a legacy argument string into its whitespace-separated words.
pub fn parse_legacy_args(arg_string: &str) -> (res: Vec<String>)
    ensures
        views(res@) == words(arg_string@),
{
    split_whitespace(arg_string)
}

/// One entry of `arguments.jvm` or `arguments.game`: plain text, or a value
/// guarded by platform rules, or anything else the manifest holds there.
pub enum LaunchArg {
    Text(String),
    Conditional { rules: Option<Vec<Rule>>, value: Option<String> },
    Other,
}

/// What the launcher reads of a version's JSON document to build the command
/// line.
pub struct LaunchManifest {
    /// `libraries`, when it is a list.
    pub libraries: Option<Vec<Library>>,
    /// `arguments.jvm`, when it is a list.
    pub jvm_arguments: Option<Vec<LaunchArg>>,
    /// `arguments.game`, when it is a list.
    pub game_arguments: Option<Vec<LaunchArg>>,
    /// `mainClass`, when it is a string.
    pub main_class: Option<String>,
    /// `assetIndex.id`, when it is a string.
    pub asset_index_id: Option<String>,
    /// `minecraftArguments`, when it is a string.
    pub minecraft_arguments: Option<String>,
}

/// The view of an optional string.
pub open spec fn opt_view(s: Option<String>) -> Option<Seq<char>> {
    match s {
        Some(v) => Some(v@),
        None => None,
    }
}

/// The text an argument contributes on `current`: plain text always; a
/// guarded value when its rules pass and it is a string; nothing otherwise.
pub open spec fn parse_arg_spec(arg: LaunchArg, current: Seq<char>) -> Option<Seq<char>> {
    match arg {
        LaunchArg::Text(s) => Some(s@),
        LaunchArg::Conditional { rules, value } => {
            if check_rules_spec(rules, current) {
                opt_view(value)
            } else {
                None
            }
        },
        LaunchArg::Other => None,
    }
}

/// The text `arg` contributes on `current`, if any.
pub fn parse_arg(arg: &LaunchArg, current: &str) -> (res: Option<String>)
    ensures
        opt_view(res) == parse_arg_spec(*arg, current@),
{
    match arg {
        LaunchArg::Text(s) => Some(s.clone()),
        LaunchArg::Conditional { rules, value } => {
            if !check_rules(rules, current) {
                return None;
            }
            match value {
                Some(v) => Some(v.clone()),
                None => None,
            }
        },
        LaunchArg::Other => None,
    }
}

/// The class-path entry a library contributes on `current`: the path of its
/// main artifact below `libraries_dir`, for a library whose rules pass and
/// that has no `natives` entry.
pub open spec fn library_jar(lib: Library, libraries_dir: Seq<char>, current: Seq<char>) -> Option<
    Seq<char>,
> {
    if !check_rules_spec(lib.rules, current) || lib.natives {
        None
    } else {
        match lib.downloads {
            Some(d) => match d.artifact {
                Some(a) => match a.path {
                    Some(p) => Some(join_path(libraries_dir, p@)),
                    None => None,
                },
                None => None,
            },
            None => None,
        }
    }
}

/// The class-path entries of `libs`, in order.
pub open spec fn library_jars(libs: Seq<Library>, libraries_dir: Seq<char>, current: Seq<char>) -> Seq<
    Seq<char>,
>
    decreases libs.len(),
{
    if libs.len() == 0 {
        seq![]
    } else {
        let rest = library_jars(libs.drop_last(), libraries_dir, current);
        match library_jar(libs.last(), libraries_dir, current) {
            Some(j) => rest.push(j),
            None => rest,
        }
    }
}

/// The client jar of `version` below the versions directory.
pub open spec fn client_jar(versions_dir: Seq<char>, version: Seq<char>) -> Seq<char> {
    join_path(join_path(versions_dir, version), version + ".jar"@)
}

/// The class path: the libraries' entries, then the client jar.
pub open spec fn classpath_spec(
    m: LaunchManifest,
    paths: Paths,
    version: Seq<char>,
    current: Seq<char>,
) -> Seq<Seq<char>> {
    let libs = match m.libraries {
        Some(v) => library_jars(v@, paths.libraries@, current),
        None => seq![],
    };
    libs.push(client_jar(paths.versions@, version))
}

fn library_classpath(libs: &Vec<Library>, libraries_dir: &str, current: &str) -> (res: Vec<String>)
    ensures
        views(res@) == library_jars(libs@, libraries_dir@, current@),
{
    let mut out: Vec<String> = Vec::new();
    let n = libs.len();
    assert(libs@.take(0) =~= Seq::<Library>::empty());
    for i in 0..n
        invariant
            n == libs@.len(),
            views(out@) == library_jars(libs@.take(i as int), libraries_dir@, current@),
    {
        let lib = &libs[i];
        let ghost before = views(out@);
        assert(libs@.take(i + 1).drop_last() =~= libs@.take(i as int));
        assert(libs@.take(i + 1).last() == libs@[i as int]);
        if check_rules(&lib.rules, current) && !lib.natives {
            if let Some(d) = &lib.downloads {
                if let Some(a) = &d.artifact {
                    if let Some(p) = &a.path {
                        let entry = join_path_exec(libraries_dir, p.as_str());
                        out.push(entry);
                        assert(views(out@) =~= before.push(entry@));
                    }
                }
            }
        }
    }
    assert(libs@.take(n as int) =~= libs@);
    out
}

/// The path of the client jar of `version`.
pub fn client_jar_path(versions_dir: &str, version: &str) -> (res: String)
    ensures
        res@ == client_jar(versions_dir@, version@),
{
    let dir = join_path_exec(versions_dir, version);
    let name = String::from_str(version).concat(".jar");
    join_path_exec(dir.as_str(), name.as_str())
}

/// The JVM arguments of `args` that apply on `current`, templates filled.
pub open spec fn expand_jvm(
    args: Seq<LaunchArg>,
    current: Seq<char>,
    assets_dir: Seq<char>,
    libraries_dir: Seq<char>,
    natives_dir: Seq<char>,
    version: Seq<char>,
    classpath: Seq<char>,
) -> Seq<Seq<char>>
    decreases args.len(),
{
    if args.len() == 0 {
        seq![]
    } else {
        let rest = expand_jvm(
            args.drop_last(),
            current,
            assets_dir,
            libraries_dir,
            natives_dir,
            version,
            classpath,
        );
        match parse_arg_spec(args.last(), current) {
            Some(v) => rest.push(
                replace_vars_spec(
                    v,
                    assets_dir,
                    libraries_dir,
                    natives_dir,
                    version,
                    classpath,
                    classpath_separator(current),
                ),
            ),
            None => rest,
        }
    }
}

fn expand_jvm_args(
    args: &Vec<LaunchArg>,
    current: &str,
    assets_dir: &str,
    libraries_dir: &str,
    natives_dir: &str,
    version: &str,
    classpath: &str,
) -> (res: Vec<String>)
    ensures
        views(res@) == expand_jvm(
            args@,
            current@,
            assets_dir@,
            libraries_dir@,
            natives_dir@,
            version@,
            classpath@,
        ),
{
    let separator = get_classpath_separator(current);
    let mut out: Vec<String> = Vec::new();
    let n = args.len();
    assert(args@.take(0) =~= Seq::<LaunchArg>::empty());
    for i in 0..n
        invariant
            n == args@.len(),
            separator@ == classpath_separator(current@),
            views(out@) == expand_jvm(
                args@.take(i as int),
                current@,
                assets_dir@,
                libraries_dir@,
                natives_dir@,
                version@,
                classpath@,
            ),
    {
        let ghost before = views(out@);
        assert(args@.take(i + 1).drop_last() =~= args@.take(i as int));
        assert(args@.take(i + 1).last() == args@[i as int]);
        if let Some(v) = parse_arg(&args[i], current) {
            let filled = replace_vars(
                v.as_str(),
                assets_dir,
                libraries_dir,
                natives_dir,
                version,
                classpath,
                separator,
            );
            out.push(filled);
            assert(views(out@) =~= before.push(filled@));
        }
    }
    assert(args@.take(n as int) =~= args@);
    out
}

/// The modern game arguments of `args` that apply on `current`, templates
/// filled.
pub open spec fn expand_game(
    args: Seq<LaunchArg>,
    current: Seq<char>,
    game_dir: Seq<char>,
    assets_dir: Seq<char>,
    assets_index: Seq<char>,
    version: Seq<char>,
    username: Seq<char>,
    uuid: Seq<char>,
    token: Seq<char>,
) -> Seq<Seq<char>>
    decreases args.len(),
{
    if args.len() == 0 {
        seq![]
    } else {
        let rest = expand_game(
            args.drop_last(),
            current,
            game_dir,
            assets_dir,
            assets_index,
            version,
            username,
            uuid,
            token,
        );
        match parse_arg_spec(args.last(), current) {
            Some(v) => rest.push(
                replace_game_vars_spec(
                    v,
                    game_dir,
                    assets_dir,
                    assets_index,
                    version,
                    username,
                    uuid,
                    token,
                    "0"@,
                    "0"@,
                ),
            ),
            None => rest,
        }
    }
}

fn expand_game_args(
    args: &Vec<LaunchArg>,
    current: &str,
    game_dir: &str,
    assets_dir: &str,
    assets_index: &str,
    version: &str,
    username: &str,
    uuid: &str,
    token: &str,
) -> (res: Vec<String>)
    ensures
        views(res@) == expand_game(
            args@,
            current@,
            game_dir@,
            assets_dir@,
            assets_index@,
            version@,
            username@,
            uuid@,
            token@,
        ),
{
    let mut out: Vec<String> = Vec::new();
    let n = args.len();
    assert(args@.take(0) =~= Seq::<LaunchArg>::empty());
    for i in 0..n
        invariant
            n == args@.len(),
            views(out@) == expand_game(
                args@.take(i as int),
                current@,
                game_dir@,
                assets_dir@,
                assets_index@,
                version@,
                username@,
                uuid@,
                token@,
            ),
    {
        let ghost before = views(out@);
        assert(args@.take(i + 1).drop_last() =~= args@.take(i as int));
        assert(args@.take(i + 1).last() == args@[i as int]);
        if let Some(v) = parse_arg(&args[i], current) {
            let filled = replace_game_vars(
                v.as_str(),
                game_dir,
                assets_dir,
                assets_index,
                version,
                username,
                uuid,
                token,
                "0",
                "0",
            );
            out.push(filled);
            assert(views(out@) =~= before.push(filled@));
        }
    }
    assert(args@.take(n as int) =~= args@);
    out
}

/// The legacy game arguments `ws`, templates filled.
pub open spec fn expand_legacy(
    ws: Seq<Seq<char>>,
    game_dir: Seq<char>,
    assets_dir: Seq<char>,
    assets_index: Seq<char>,
    version: Seq<char>,
    username: Seq<char>,
    uuid: Seq<char>,
    token: Seq<char>,
) -> Seq<Seq<char>>
    decreases ws.len(),
{
    if ws.len() == 0 {
        seq![]
    } else {
        expand_legacy(
            ws.drop_last(),
            game_dir,
            assets_dir,
            assets_index,
            version,
            username,
            uuid,
            token,
        ).push(
            replace_legacy_vars_spec(
                ws.last(),
                game_dir,
                assets_dir,
                assets_index,
                version,
                username,
                uuid,
                token,
            ),
        )
    }
}

fn expand_legacy_args(
    arg_string: &str,
    game_dir: &str,
    assets_dir: &str,
    assets_index: &str,
    version: &str,
    username: &str,
    uuid: &str,
    token: &str,
) -> (res: Vec<String>)
    ensures
        views(res@) == expand_legacy(
            words(arg_string@),
            game_dir@,
            assets_dir@,
            assets_index@,
            version@,
            username@,
            uuid@,
            token@,
        ),
{
    let parsed = parse_legacy_args(arg_string);
    let mut out: Vec<String> = Vec::new();
    let n = parsed.len();
    assert(views(parsed@).take(0) =~= Seq::<Seq<char>>::empty());
    for i in 0..n
        invariant
            n == parsed@.len(),
            views(parsed@) == words(arg_string@),
            views(out@) == expand_legacy(
                views(parsed@).take(i as int),
                game_dir@,
                assets_dir@,
                assets_index@,
                version@,
                username@,
                uuid@,
                token@,
            ),
    {
        let ghost before = views(out@);
        assert(views(parsed@).take(i + 1).drop_last() =~= views(parsed@).take(i as int));
        assert(views(parsed@).take(i + 1).last() == parsed@[i as int]@);
        let filled = replace_legacy_vars(
            parsed[i].as_str(),
            game_dir,
            assets_dir,
            assets_index,
            version,
            username,
            uuid,
            token,
        );
        out.push(filled);
        assert(views(out@) =~= before.push(filled@));
    }
    assert(views(parsed@).take(n as int) =~= views(parsed@));
    out
}

/// The game directory of `version` below the instances directory.
pub open spec fn game_directory(instances_dir: Seq<char>, version: Seq<char>) -> Seq<char> {
    join_path(join_path(instances_dir, version), "minecraft"@)
}

/// The main class used when the manifest names none.
pub open spec fn default_main_class() -> Seq<char> {
    "net.minecraft.client.main.Main"@
}

/// The full argument list handed to Java: the JVM arguments (or, when the
/// manifest has none, the native-library path and the class path), the main
/// class, the legacy game arguments, then the modern game arguments.
pub open spec fn launch_args_spec(
    m: LaunchManifest,
    paths: Paths,
    version: Seq<char>,
    username: Seq<char>,
    uuid: Seq<char>,
    token: Seq<char>,
    current: Seq<char>,
) -> Seq<Seq<char>> {
    let cp = join_spec(classpath_spec(m, paths, version, current), classpath_separator(current));
    let jvm = match m.jvm_arguments {
        Some(v) => expand_jvm(
            v@,
            current,
            paths.assets@,
            paths.libraries@,
            paths.native_libraries@,
            version,
            cp,
        ),
        None => seq!["-Djava.library.path="@ + paths.native_libraries@, "-cp"@, cp],
    };
    let main_class = match m.main_class {
        Some(c) => c@,
        None => default_main_class(),
    };
    let index = match m.asset_index_id {
        Some(i) => i@,
        None => seq![],
    };
    let game_dir = game_directory(paths.instances@, version);
    let legacy = match m.minecraft_arguments {
        Some(a) => expand_legacy(
            words(a@),
            game_dir,
            paths.assets@,
            index,
            version,
            username,
            uuid,
            token,
        ),
        None => seq![],
    };
    let game = match m.game_arguments {
        Some(v) => expand_game(
            v@,
            current,
            game_dir,
            paths.assets@,
            index,
            version,
            username,
            uuid,
            token,
        ),
        None => seq![],
    };
    jvm.push(main_class) + legacy + game
}

/// Builds the arguments of the Java command that starts `version_name` on
/// the operating system `current_os` (a value of `std::env::consts::OS`).
/// The manifest must name its asset index.
pub fn build_launch_args(
    manifest: &LaunchManifest,
    paths: &Paths,
    version_name: &str,
    auth_player_name: &str,
    auth_uuid: &str,
    auth_access_token: &str,
    current_os: &str,
) -> (res: Vec<String>)
    requires
        manifest.asset_index_id is Some,
    ensures
        views(res@) == launch_args_spec(
            *manifest,
            *paths,
            version_name@,
            auth_player_name@,
            auth_uuid@,
            auth_access_token@,
            current_os@,
        ),
{
    let mut classpath: Vec<String> = match &manifest.libraries {
        Some(libs) => library_classpath(libs, paths.libraries.as_str(), current_os),
        None => Vec::new(),
    };
    let client = client_jar_path(paths.versions.as_str(), version_name);
    classpath.push(client);
    let separator = get_classpath_separator(current_os);
    let cp = join(&classpath, separator);
    proof {
        assert(views(classpath@) =~= classpath_spec(*manifest, *paths, version_name@, current_os@));
    }
    let mut args: Vec<String> = match &manifest.jvm_arguments {
        Some(jvm) => expand_jvm_args(
            jvm,
            current_os,
            paths.assets.as_str(),
            paths.libraries.as_str(),
            paths.native_libraries.as_str(),
            version_name,
            cp.as_str(),
        ),
        None => {
            let mut fixed: Vec<String> = Vec::new();
            fixed.push(String::from_str("-Djava.library.path=").concat(paths.native_libraries.as_str()));
            fixed.push(String::from_str("-cp"));
            fixed.push(cp.clone());
            fixed
        },
    };
    let main_class = match &manifest.main_class {
        Some(c) => c.clone(),
        None => String::from_str("net.minecraft.client.main.Main"),
    };
    args.push(main_class);
    let assets_index = match &manifest.asset_index_id {
        Some(i) => i.as_str(),
        None => "",
    };
    let instance = join_path_exec(paths.instances.as_str(), version_name);
    let game_dir = join_path_exec(instance.as_str(), "minecraft");
    let legacy: Vec<String> = match &manifest.minecraft_arguments {
        Some(a) => expand_legacy_args(
            a.as_str(),
            game_dir.as_str(),
            paths.assets.as_str(),
            assets_index,
            version_name,
            auth_player_name,
            auth_uuid,
            auth_access_token,
        ),
        None => Vec::new(),
    };
    let game: Vec<String> = match &manifest.game_arguments {
        Some(g) => expand_game_args(
            g,
            current_os,
            game_dir.as_str(),
            paths.assets.as_str(),
            assets_index,
            version_name,
            auth_player_name,
            auth_uuid,
            auth_access_token,
        ),
        None => Vec::new(),
    };
    let ghost head = args@;
    let ghost lv = legacy@;
    let ghost gv = game@;
    let mut legacy = legacy;
    let mut game = game;
    args.append(&mut legacy);
    args.append(&mut game);
    assert(args@ =~= head + lv + gv);
    assert(views(args@) =~= views(head) + views(lv) + views(gv));
    args
}

/// The path of the JSON document of `version` below the versions directory.
pub open spec fn version_json_file(versions_dir: Seq<char>, version: Seq<char>) -> Seq<char> {
    join_path(join_path(versions_dir, version), version + ".json"@)
}

/// Where the JSON document of `version` is kept.
pub fn version_json_path(paths: &Paths, version: &str) -> (res: String)
    ensures
        res@ == version_json_file(paths.versions@, version@),
{
    let dir = join_path_exec(paths.versions.as_str(), version);
    let name = String::from_str(version).concat(".json");
    join_path_exec(dir.as_str(), name.as_str())
}

/// The artifact stored under `key` (for entries without repeated keys, the
/// only one).
pub open spec fn first_with_key(entries: Seq<(String, Artifact)>, key: Seq<char>) -> Option<Artifact>
    decreases entries.len(),
{
    if entries.len() == 0 {
        None
    } else if entries[0].0@ == key {
        Some(entries[0].1)
    } else {
        first_with_key(entries.drop_first(), key)
    }
}

/// The position of the entry stored under `key`.
pub fn find_classifier(entries: &Vec<(String, Artifact)>, key: &str) -> (res: Option<usize>)
    requires
        distinct_keys(entries@),
    ensures
        match res {
            Some(i) => i < entries@.len() && first_with_key(entries@, key@) == Some(entries@[i as int].1),
            None => first_with_key(entries@, key@) is None,
        },
{
    let n = entries.len();
    assert(entries@.skip(0) =~= entries@);
    for i in 0..n
        invariant
            n == entries@.len(),
            first_with_key(entries@, key@) == first_with_key(entries@.skip(i as int), key@),
    {
        assert(entries@.skip(i as int).drop_first() =~= entries@.skip(i + 1));
        assert(entries@.skip(i as int)[0] == entries@[i as int]);
        if str_eq(entries[i].0.as_str(), key) {
            return Some(i);
        }
    }
    None
}

/// The classifier key of the native jars for the manifest's OS name.
pub open spec fn natives_key(os_name: Seq<char>) -> Seq<char> {
    "natives-"@ + os_name
}

/// The native jar a library contributes on the manifest's OS `os_name`: the
/// path, below `libs_dir`, of its `natives-<os>` classifier, for a library
/// the rules allow.
pub open spec fn native_jar(lib: Library, libs_dir: Seq<char>, os_name: Seq<char>) -> Option<
    Seq<char>,
> {
    if !is_allowed_spec(lib, os_name) {
        None
    } else {
        match lib.downloads {
            Some(d) => match d.classifiers {
                Some(c) => match first_with_key(c@, natives_key(os_name)) {
                    Some(a) => match a.path {
                        Some(p) => Some(join_path(libs_dir, p@)),
                        None => None,
                    },
                    None => None,
                },
                None => None,
            },
            None => None,
        }
    }
}

/// The native jars of `libs`, in order.
pub open spec fn native_jars(libs: Seq<Library>, libs_dir: Seq<char>, os_name: Seq<char>) -> Seq<
    Seq<char>,
>
    decreases libs.len(),
{
    if libs.len() == 0 {
        seq![]
    } else {
        let rest = native_jars(libs.drop_last(), libs_dir, os_name);
        match native_jar(libs.last(), libs_dir, os_name) {
            Some(j) => rest.push(j),
            None => rest,
        }
    }
}

/// The native jars to unpack before launching on the operating system
/// `target_os` (a value of `std::env::consts::OS`).
pub fn native_jar_paths(libraries: &Vec<Library>, libs_dir: &str, target_os: &str) -> (res: Vec<
    String,
>)
    requires
        libraries_keys_distinct(libraries@),
    ensures
        views(res@) == native_jars(libraries@, libs_dir@, rule_os_name(target_os@)),
{
    let os_name = get_os(target_os);
    let key = String::from_str("natives-").concat(os_name);
    let mut out: Vec<String> = Vec::new();
    let n = libraries.len();
    assert(libraries@.take(0) =~= Seq::<Library>::empty());
    for i in 0..n
        invariant
            n == libraries@.len(),
            os_name@ == rule_os_name(target_os@),
            key@ == natives_key(os_name@),
            libraries_keys_distinct(libraries@),
            views(out@) == native_jars(libraries@.take(i as int), libs_dir@, os_name@),
    {
        let lib = &libraries[i];
        assert(classifier_keys_distinct(libraries@[i as int]));
        let ghost before = views(out@);
        assert(libraries@.take(i + 1).drop_last() =~= libraries@.take(i as int));
        assert(libraries@.take(i + 1).last() == libraries@[i as int]);
        if is_allowed(lib, os_name) {
            if let Some(d) = &lib.downloads {
                if let Some(c) = &d.classifiers {
                    if let Some(k) = find_classifier(c, key.as_str()) {
                        if let Some(p) = &c[k].1.path {
                            let jar = join_path_exec(libs_dir, p.as_str());
                            out.push(jar);
                            assert(views(out@) =~= before.push(jar@));
                        }
                    }
                }
            }
        }
    }
    assert(libraries@.take(n as int) =~= libraries@);
    out
}

/// The last component of a `/`-separated name.
pub open spec fn file_name_of(name: Seq<char>) -> Seq<char>
    decreases name.len(),
{
    if name.len() == 0 || name.last() == '/' {
        seq![]
    } else {
        file_name_of(name.drop_last()).push(name.last())
    }
}

/// Whether an archive entry named `name` is a native library to unpack:
/// not under `META-INF`, and ending in `.dll`, `.so` or `.dylib`.
pub open spec fn is_native_entry(name: Seq<char>) -> bool {
    &&& !"META-INF"@.is_prefix_of(name)
    &&& ".dll"@.is_suffix_of(name) || ".so"@.is_suffix_of(name) || ".dylib"@.is_suffix_of(name)
}

fn file_name_exec(name: &str) -> (res: String)
    ensures
        res@ == file_name_of(name@),
{
    let cs = chars_of(name);
    let n = cs.len();
    let mut start: usize = 0;
    for i in 0..n
        invariant
            n == cs@.len(),
            start <= i,
            cs@ == name@,
            file_name_of(cs@.take(i as int)) == cs@.subrange(start as int, i as int),
    {
        assert(cs@.take(i + 1).drop_last() =~= cs@.take(i as int));
        assert(cs@.take(i + 1).last() == cs@[i as int]);
        if cs[i] == '/' {
            start = i + 1;
            assert(cs@.subrange(start as int, i + 1) =~= Seq::<char>::empty());
        } else {
            assert(cs@.subrange(start as int, i + 1) =~= cs@.subrange(start as int, i as int).push(
                cs@[i as int],
            ));
        }
    }
    assert(cs@.take(n as int) =~= cs@);
    let mut out: Vec<char> = Vec::new();
    for j in start..n
        invariant
            n == cs@.len(),
            start <= n,
            out@ == cs@.subrange(start as int, j as int),
    {
        out.push(cs[j]);
        assert(out@ =~= cs@.subrange(start as int, j + 1));
    }
    string_from_chars(out.as_slice())
}

/// Where an archive entry named `name` is unpacked in `out_dir`, when it is
/// a native library: under its own file name, directly in `out_dir`.
pub open spec fn native_target_spec(name: Seq<char>, out_dir: Seq<char>) -> Option<Seq<char>> {
    if is_native_entry(name) {
        Some(join_path(out_dir, file_name_of(name)))
    } else {
        None
    }
}

/// Where the archive entry `name` is unpacked in `out_dir`, if it is one.
pub fn native_target(name: &str, out_dir: &str) -> (res: Option<String>)
    ensures
        opt_view(res) == native_target_spec(name@, out_dir@),
{
    if starts_with(name, "META-INF") {
        return None;
    }
    if ends_with(name, ".dll") || ends_with(name, ".so") || ends_with(name, ".dylib") {
        let file = file_name_exec(name);
        Some(join_path_exec(out_dir, file.as_str()))
    } else {
        None
    }
}

/// The text of a digest of 16 bytes in the 8-4-4-4-12 grouping of UUIDs,
/// lower-case hexadecimal.
pub open spec fn uuid_text(d: Seq<u8>) -> Seq<char> {
    lower_hex(d.subrange(0, 4)) + seq!['-'] + lower_hex(d.subrange(4, 6)) + seq!['-'] + lower_hex(
        d.subrange(6, 8),
    ) + seq!['-'] + lower_hex(d.subrange(8, 10)) + seq!['-'] + lower_hex(d.subrange(10, 16))
}

/// Writes a 16-byte digest as a UUID.
pub fn uuid_from_digest(digest: &[u8]) -> (res: String)
    requires
        digest@.len() == 16,
    ensures
        res@ == uuid_text(digest@),
{
    let mut out: Vec<char> = Vec::new();
    push_lower_hex(&mut out, digest, 0, 4);
    out.push('-');
    push_lower_hex(&mut out, digest, 4, 6);
    out.push('-');
    push_lower_hex(&mut out, digest, 6, 8);
    out.push('-');
    push_lower_hex(&mut out, digest, 8, 10);
    out.push('-');
    push_lower_hex(&mut out, digest, 10, 16);
    string_from_chars(out.as_slice())
}

/// The identity of an offline player: the MD5 digest of
/// `OfflinePlayer:<name>` (UTF-8) written as a UUID.
pub open spec fn offline_uuid(username: Seq<char>) -> Seq<char> {
    uuid_text(md5_digest(encode_utf8("OfflinePlayer:"@ + username)))
}

/// The offline identity of `username`.
pub fn generate_offline_uuid(username: &str) -> (res: String)
    ensures
        res@ == offline_uuid(username@),
        uuid_shaped(res@),
{
    let input = String::from_str("OfflinePlayer:").concat(username);
    let digest = md5_compute(input.as_str().as_bytes());
    proof {
        uuid_text_shape(digest@);
    }
    uuid_from_digest(digest.as_slice())
}

// ---------------------------------------------------------------------------
// Laws

/// Whether `s` has the shape of a UUID: 36 characters, hyphens at 8, 13, 18
/// and 23, lower-case hexadecimal digits elsewhere.
pub open spec fn uuid_shaped(s: Seq<char>) -> bool {
    &&& s.len() == 36
    &&& forall|i: int|
        0 <= i < 36 ==> if i == 8 || i == 13 || i == 18 || i == 23 {
            s[i] == '-'
        } else {
            is_lower_hex_digit(#[trigger] s[i])
        }
}

/// A digest of 16 bytes written as a UUID has the shape of a UUID.
pub proof fn uuid_text_shape(d: Seq<u8>)
    requires
        d.len() == 16,
    ensures
        uuid_shaped(uuid_text(d)),
{
    let a = lower_hex(d.subrange(0, 4));
    let b = lower_hex(d.subrange(4, 6));
    let c = lower_hex(d.subrange(6, 8));
    let e = lower_hex(d.subrange(8, 10));
    let f = lower_hex(d.subrange(10, 16));
    lower_hex_shape(d.subrange(0, 4));
    lower_hex_shape(d.subrange(4, 6));
    lower_hex_shape(d.subrange(6, 8));
    lower_hex_shape(d.subrange(8, 10));
    lower_hex_shape(d.subrange(10, 16));
    let u = uuid_text(d);
    assert(u.len() == 36);
    assert forall|i: int| 0 <= i < 36 implies if i == 8 || i == 13 || i == 18 || i == 23 {
        u[i] == '-'
    } else {
        is_lower_hex_digit(#[trigger] u[i])
    } by {
        if i < 8 {
            assert(u[i] == a[i]);
        } else if i == 8 {
        } else if i < 13 {
            assert(u[i] == b[i - 9]);
        } else if i == 13 {
        } else if i < 18 {
            assert(u[i] == c[i - 14]);
        } else if i == 18 {
        } else if i < 23 {
            assert(u[i] == e[i - 19]);
        } else if i == 23 {
        } else {
            assert(u[i] == f[i - 24]);
        }
    }
}

/// A JVM argument without `$` contains no placeholder and is passed on
/// unchanged.
pub proof fn jvm_template_without_placeholder(
    arg: Seq<char>,
    assets_dir: Seq<char>,
    libraries_dir: Seq<char>,
    natives_dir: Seq<char>,
    version: Seq<char>,
    classpath: Seq<char>,
    separator: Seq<char>,
)
    requires
        !arg.contains('$'),
    ensures
        replace_vars_spec(
            arg,
            assets_dir,
            libraries_dir,
            natives_dir,
            version,
            classpath,
            separator,
        ) == arg,
{
    reveal_strlit("${natives_directory}");
    reveal_strlit("${launcher_name}");
    reveal_strlit("${launcher_version}");
    reveal_strlit("${classpath_separator}");
    reveal_strlit("${library_directory}");
    reveal_strlit("${version_name}");
    reveal_strlit("${assets_root}");
    reveal_strlit("${classpath}");
    replace_absent_pattern(arg, "${natives_directory}"@, natives_dir);
    replace_absent_pattern(arg, "${launcher_name}"@, "CubeX Launcher"@);
    replace_absent_pattern(arg, "${launcher_version}"@, "1.0"@);
    replace_absent_pattern(arg, "${classpath_separator}"@, separator);
    replace_absent_pattern(arg, "${library_directory}"@, libraries_dir);
    replace_absent_pattern(arg, "${version_name}"@, version);
    replace_absent_pattern(arg, "${assets_root}"@, assets_dir);
    replace_absent_pattern(arg, "${classpath}"@, classpath);
}

/// A legacy game argument without `$` contains no placeholder and is passed
/// on unchanged.
pub proof fn legacy_template_without_placeholder(
    arg: Seq<char>,
    game_dir: Seq<char>,
    assets_dir: Seq<char>,
    assets_index: Seq<char>,
    version: Seq<char>,
    username: Seq<char>,
    uuid: Seq<char>,
    token: Seq<char>,
)
    requires
        !arg.contains('$'),
    ensures
        replace_legacy_vars_spec(
            arg,
            game_dir,
            assets_dir,
            assets_index,
            version,
            username,
            uuid,
            token,
        ) == arg,
{
    reveal_strlit("${auth_player_name}");
    reveal_strlit("${auth_uuid}");
    reveal_strlit("${auth_access_token}");
    reveal_strlit("${auth_session}");
    reveal_strlit("${version_name}");
    reveal_strlit("${game_directory}");
    reveal_strlit("${assets_root}");
    reveal_strlit("${assets_index_name}");
    reveal_strlit("${game_assets}");
    reveal_strlit("${user_type}");
    reveal_strlit("${version_type}");
    reveal_strlit("${user_properties}");
    replace_absent_pattern(arg, "${auth_player_name}"@, username);
    replace_absent_pattern(arg, "${auth_uuid}"@, uuid);
    replace_absent_pattern(arg, "${auth_access_token}"@, token);
    replace_absent_pattern(arg, "${auth_session}"@, token);
    replace_absent_pattern(arg, "${version_name}"@, version);
    replace_absent_pattern(arg, "${game_directory}"@, game_dir);
    replace_absent_pattern(arg, "${assets_root}"@, assets_dir);
    replace_absent_pattern(arg, "${assets_index_name}"@, assets_index);
    replace_absent_pattern(arg, "${game_assets}"@, assets_dir);
    replace_absent_pattern(arg, "${user_type}"@, "legacy"@);
    replace_absent_pattern(arg, "${version_type}"@, "release"@);
    replace_absent_pattern(arg, "${user_properties}"@, "{}"@);
}

/// A modern game argument without `$` only loses its `--demo` occurrences.
pub proof fn game_template_without_placeholder(
    arg: Seq<char>,
    game_dir: Seq<char>,
    assets_dir: Seq<char>,
    assets_index: Seq<char>,
    version: Seq<char>,
    username: Seq<char>,
    uuid: Seq<char>,
    token: Seq<char>,
    client_id: Seq<char>,
    xuid: Seq<char>,
)
    requires
        !arg.contains('$'),
    ensures
        replace_game_vars_spec(
            arg,
            game_dir,
            assets_dir,
            assets_index,
            version,
            username,
            uuid,
            token,
            client_id,
            xuid,
        ) == replace_spec(arg, "--demo"@, seq![]),
{
    reveal_strlit("${auth_player_name}");
    reveal_strlit("${auth_uuid}");
    reveal_strlit("${auth_access_token}");
    reveal_strlit("${version_name}");
    reveal_strlit("${clientid}");
    reveal_strlit("${auth_xuid}");
    reveal_strlit("${game_directory}");
    reveal_strlit("${assets_root}");
    reveal_strlit("${assets_index_name}");
    reveal_strlit("${user_type}");
    reveal_strlit("${version_type}");
    replace_absent_pattern(arg, "${auth_player_name}"@, username);
    replace_absent_pattern(arg, "${auth_uuid}"@, uuid);
    replace_absent_pattern(arg, "${auth_access_token}"@, token);
    replace_absent_pattern(arg, "${version_name}"@, version);
    replace_absent_pattern(arg, "${clientid}"@, client_id);
    replace_absent_pattern(arg, "${auth_xuid}"@, xuid);
    replace_absent_pattern(arg, "${game_directory}"@, game_dir);
    replace_absent_pattern(arg, "${assets_root}"@, assets_dir);
    replace_absent_pattern(arg, "${assets_index_name}"@, assets_index);
    replace_absent_pattern(arg, "${user_type}"@, "msa"@);
    replace_absent_pattern(arg, "${version_type}"@, "release"@);
}

/// The file name of an entry holds no `/` and ends the entry's name.
pub proof fn file_name_is_last_component(name: Seq<char>)
    ensures
        file_name_of(name).is_suffix_of(name),
        !file_name_of(name).contains('/'),
    decreases name.len(),
{
    if name.len() > 0 && name.last() != '/' {
        file_name_is_last_component(name.drop_last());
        let f = file_name_of(name.drop_last());
        assert(name.drop_last().subrange(name.drop_last().len() - f.len(), name.drop_last().len() as int) =~= f);
        assert(name.subrange(name.len() - f.push(name.last()).len(), name.len() as int) =~= f.push(
            name.last(),
        ));
        assert forall|i: int| 0 <= i < f.push(name.last()).len() implies f.push(name.last())[i] != '/' by {
            if i < f.len() {
                assert(f.push(name.last())[i] == f[i]);
                assert(f.contains(f[i]));
            }
        }
    } else {
        assert(file_name_of(name) =~= Seq::<char>::empty());
        assert(name.subrange(name.len() as int, name.len() as int) =~= Seq::<char>::empty());
    }
}

/// The number of JVM arguments that open the command line: the filled
/// `arguments.jvm` entries that apply, or the three fallback arguments.
pub open spec fn jvm_argument_count(
    m: LaunchManifest,
    paths: Paths,
    version: Seq<char>,
    current: Seq<char>,
) -> int {
    match m.jvm_arguments {
        Some(v) => expand_jvm(
            v@,
            current,
            paths.assets@,
            paths.libraries@,
            paths.native_libraries@,
            version,
            join_spec(classpath_spec(m, paths, version, current), classpath_separator(current)),
        ).len() as int,
        None => 3,
    }
}

proof fn expand_legacy_len(
    ws: Seq<Seq<char>>,
    game_dir: Seq<char>,
    assets_dir: Seq<char>,
    assets_index: Seq<char>,
    version: Seq<char>,
    username: Seq<char>,
    uuid: Seq<char>,
    token: Seq<char>,
)
    ensures
        expand_legacy(ws, game_dir, assets_dir, assets_index, version, username, uuid, token).len()
            == ws.len(),
    decreases ws.len(),
{
    if ws.len() > 0 {
        expand_legacy_len(
            ws.drop_last(),
            game_dir,
            assets_dir,
            assets_index,
            version,
            username,
            uuid,
            token,
        );
    }
}

/// The argument right after the JVM arguments is the class Java starts: the
/// manifest's `mainClass` whenever it names one, and
/// `net.minecraft.client.main.Main` only when it names none. Without
/// `arguments.jvm` the command line opens with the native-library path,
/// `-cp` and the class path, so the main class is the fourth argument.
/// After the main class come exactly as many arguments as the legacy
/// argument string has words, then the game arguments.
pub proof fn main_class_follows_jvm_arguments(
    m: LaunchManifest,
    paths: Paths,
    version: Seq<char>,
    username: Seq<char>,
    uuid: Seq<char>,
    token: Seq<char>,
    current: Seq<char>,
)
    ensures
        ({
            let r = launch_args_spec(m, paths, version, username, uuid, token, current);
            let k = jvm_argument_count(m, paths, version, current);
            &&& 0 <= k < r.len()
            &&& m.main_class matches Some(c) ==> r[k] == c@
            &&& m.main_class is None ==> r[k] == "net.minecraft.client.main.Main"@
            &&& m.jvm_arguments is None ==> {
                &&& k == 3
                &&& r[0] == "-Djava.library.path="@ + paths.native_libraries@
                &&& r[1] == "-cp"@
            }
            &&& m.minecraft_arguments matches Some(a) ==> r.len() >= k + 1 + words(a@).len()
            &&& m.minecraft_arguments is None && m.game_arguments is None ==> r.len() == k + 1
        }),
{
    let r = launch_args_spec(m, paths, version, username, uuid, token, current);
    let index = match m.asset_index_id {
        Some(i) => i@,
        None => seq![],
    };
    let game_dir = game_directory(paths.instances@, version);
    if let Some(a) = m.minecraft_arguments {
        expand_legacy_len(words(a@), game_dir, paths.assets@, index, version, username, uuid, token);
    }
}

} // verus!
