use cubex_launcher::rules::{
    check_rules, get_os, is_allowed, lib_is_allowed, library_allowed, Library, OsRule, Rule,
};

fn rule(action: Option<&str>, os: Option<Option<&str>>) -> Rule {
    Rule {
        action: action.map(|a| a.to_string()),
        os: os.map(|n| OsRule { name: n.map(|s| s.to_string()) }),
    }
}

fn lib(rules: Option<Vec<Rule>>) -> Library {
    Library { downloads: None, rules, natives: false }
}

#[test]
fn check_rules_without_rules_passes() {
    assert!(check_rules(&None, "linux"));
    assert!(check_rules(&Some(vec![]), "linux"));
}

#[test]
fn check_rules_first_foreign_rule_decides() {
    // A rule for osx seen on Linux: passes only if it disallows.
    let allow_osx = vec![rule(Some("allow"), Some(Some("osx")))];
    assert!(!check_rules(&Some(allow_osx), "linux"));
    let disallow_osx = vec![rule(Some("disallow"), Some(Some("osx")))];
    assert!(check_rules(&Some(disallow_osx), "linux"));
    // Missing action counts as disallow.
    let no_action = vec![rule(None, Some(Some("windows")))];
    assert!(check_rules(&Some(no_action), "linux"));
    // Rules for the running system have no effect.
    let own = vec![rule(Some("allow"), Some(Some("linux"))), rule(Some("disallow"), None)];
    assert!(check_rules(&Some(own), "linux"));
    // macOS is called osx by the manifest.
    let osx = vec![rule(Some("allow"), Some(Some("osx")))];
    assert!(check_rules(&Some(osx), "macos"));
}

#[test]
fn check_rules_unknown_system_is_excluded_by_every_named_os() {
    let linux_only = vec![rule(Some("allow"), Some(Some("linux")))];
    assert!(!check_rules(&Some(linux_only), "freebsd"));
}

#[test]
fn get_os_names() {
    assert_eq!(get_os("windows"), "windows");
    assert_eq!(get_os("linux"), "linux");
    assert_eq!(get_os("macos"), "osx");
    assert_eq!(get_os("freebsd"), "windows");
}

#[test]
fn is_allowed_last_applicable_rule_decides() {
    assert!(is_allowed(&lib(None), "linux"));
    assert!(!is_allowed(&lib(Some(vec![])), "linux"));
    let typical = vec![rule(Some("allow"), None), rule(Some("disallow"), Some(Some("osx")))];
    assert!(is_allowed(&lib(Some(typical)), "linux"));
    let typical = vec![rule(Some("allow"), None), rule(Some("disallow"), Some(Some("osx")))];
    assert!(!is_allowed(&lib(Some(typical)), "osx"));
    // An OS condition without a name never applies.
    let nameless = vec![rule(Some("allow"), Some(None))];
    assert!(!is_allowed(&lib(Some(nameless)), "linux"));
}

#[test]
fn lib_is_allowed_uses_target_system() {
    let only_osx = vec![rule(Some("allow"), Some(Some("osx")))];
    assert!(lib_is_allowed(&lib(Some(only_osx)), "macos"));
    let only_osx = vec![rule(Some("allow"), Some(Some("osx")))];
    assert!(!lib_is_allowed(&lib(Some(only_osx)), "linux"));
    let disallow_later = vec![rule(Some("allow"), None), rule(Some("disallow"), Some(Some("linux")))];
    assert!(!lib_is_allowed(&lib(Some(disallow_later)), "linux"));
    // Missing action counts as disallow.
    let no_action = vec![rule(None, None)];
    assert!(!lib_is_allowed(&lib(Some(no_action)), "linux"));
    assert!(lib_is_allowed(&lib(None), "plan9"));
}

#[test]
fn library_allowed_any_matching_disallow_wins() {
    let disallow_first = vec![rule(Some("disallow"), Some(Some("linux"))), rule(Some("allow"), None)];
    assert!(!library_allowed(&lib(Some(disallow_first)), "linux"));
    // Order does not matter for the installer, unlike at launch.
    let allow_then_disallow = vec![rule(Some("allow"), None), rule(Some("disallow"), Some(Some("linux")))];
    assert!(!library_allowed(&lib(Some(allow_then_disallow)), "linux"));
    let allow = vec![rule(Some("allow"), None), rule(Some("disallow"), Some(Some("osx")))];
    assert!(library_allowed(&lib(Some(allow)), "linux"));
    // Unknown systems count as osx.
    let osx = vec![rule(Some("allow"), Some(Some("osx")))];
    assert!(library_allowed(&lib(Some(osx)), "freebsd"));
    // An OS condition without a name matches.
    let nameless = vec![rule(Some("allow"), Some(None))];
    assert!(library_allowed(&lib(Some(nameless)), "windows"));
    assert!(!library_allowed(&lib(Some(vec![])), "windows"));
}

#[test]
fn launch_and_download_filters_agree_on_known_systems() {
    let rules = || vec![rule(Some("allow"), None), rule(Some("disallow"), Some(Some("osx")))];
    for os in ["windows", "linux", "macos"] {
        assert_eq!(is_allowed(&lib(Some(rules())), get_os(os)), lib_is_allowed(&lib(Some(rules())), os));
    }
}

#[test]
fn no_rules_allow_everywhere_scenario() {
    for os in ["windows", "linux", "macos", "haiku"] {
        assert!(check_rules(&None, os));
        assert!(is_allowed(&lib(None), os));
        assert!(lib_is_allowed(&lib(None), os));
        assert!(library_allowed(&lib(None), os));
    }
}
