//! The version manifest's library model and its platform rules.
//!
//! A rule carries an action (`allow` or `disallow`) and may name an operating
//! system. The launcher evaluates rule lists in three ways, one per part of
//! the program that reads them; each is stated exactly below.

use vstd::prelude::*;
use crate::text::str_eq;

verus! {

broadcast use vstd::string::group_string_axioms;

/// The operating-system condition of a rule.
pub struct OsRule {
    pub name: Option<String>,
}

/// One platform rule of a library or an argument.
pub struct Rule {
    pub action: Option<String>,
    pub os: Option<OsRule>,
}

/// A downloadable file of a library.
pub struct Artifact {
    pub path: Option<String>,
    pub sha1: Option<String>,
    pub url: Option<String>,
}

/// What a library offers for download: its main artifact and its
/// platform-specific classifiers, keyed by name (such as `natives-linux`).
pub struct LibraryDownloads {
    pub artifact: Option<Artifact>,
    pub classifiers: Option<Vec<(String, Artifact)>>,
}

/// A library of a game version.
pub struct Library {
    pub downloads: Option<LibraryDownloads>,
    pub rules: Option<Vec<Rule>>,
    /// Whether the library declares a `natives` entry.
    pub natives: bool,
}

/// Whether no key occurs twice among `entries`, as in a map.
pub open spec fn distinct_keys<T>(entries: Seq<(String, T)>) -> bool {
    forall|i: int, j: int| 0 <= i < j < entries.len() ==> entries[i].0@ != entries[j].0@
}

/// Whether the library's classifiers, if any, are a map: no key twice.
pub open spec fn classifier_keys_distinct(lib: Library) -> bool {
    lib.downloads matches Some(d) ==> (d.classifiers matches Some(c) ==> distinct_keys(c@))
}

/// Whether every library's classifiers are a map.
pub open spec fn libraries_keys_distinct(libs: Seq<Library>) -> bool {
    forall|i: int| 0 <= i < libs.len() ==> classifier_keys_distinct(#[trigger] libs[i])
}

/// Whether `s` holds exactly `word`.
pub open spec fn is_word(s: Option<String>, word: Seq<char>) -> bool {
    s matches Some(v) && v@ == word
}

/// Whether the rule's action is `word`.
pub open spec fn action_is(r: Rule, word: Seq<char>) -> bool {
    is_word(r.action, word)
}

/// The operating system a rule names, if it names one.
pub open spec fn named_os(r: Rule) -> Option<Seq<char>> {
    match r.os {
        Some(os) => match os.name {
            Some(n) => Some(n@),
            None => None,
        },
        None => None,
    }
}

fn opt_word(s: &Option<String>, word: &str) -> (res: bool)
    ensures
        res == is_word(*s, word@),
{
    match s {
        Some(v) => str_eq(v.as_str(), word),
        None => false,
    }
}

// ---------------------------------------------------------------------------
// Rules of launch arguments and of the class path

/// Whether an OS name of a rule rules out the running system `current` (a
/// value of `std::env::consts::OS`).
pub open spec fn os_excludes(name: Seq<char>, current: Seq<char>) -> bool {
    ||| name == "windows"@ && current != "windows"@
    ||| name == "linux"@ && current != "linux"@
    ||| name == "osx"@ && current != "macos"@
}

/// The rules pass unless some rule names an operating system that excludes
/// `current`; the first such rule decides, and passes only when its action
/// is `disallow` (a missing action counts as `disallow`). Rules that name no
/// OS, or the running one, have no effect.
pub open spec fn rules_pass(rules: Seq<Rule>, current: Seq<char>) -> bool
    decreases rules.len(),
{
    if rules.len() == 0 {
        true
    } else if named_os(rules[0]) matches Some(n) && os_excludes(n, current) {
        rules[0].action is None || action_is(rules[0], "disallow"@)
    } else {
        rules_pass(rules.drop_first(), current)
    }
}

/// What `check_rules` decides for an object whose rules are `rules`.
pub open spec fn check_rules_spec(rules: Option<Vec<Rule>>, current: Seq<char>) -> bool {
    match rules {
        Some(v) => rules_pass(v@, current),
        None => true,
    }
}

/// Whether an argument or library with these rules is used on `current`.
pub fn check_rules(rules: &Option<Vec<Rule>>, current: &str) -> (res: bool)
    ensures
        res == check_rules_spec(*rules, current@),
{
    match rules {
        None => true,
        Some(v) => {
            let n = v.len();
            assert(v@.skip(0) =~= v@);
            for i in 0..n
                invariant
                    n == v@.len(),
                    *rules == Some(*v),
                    rules_pass(v@, current@) == rules_pass(v@.skip(i as int), current@),
            {
                let r = &v[i];
                assert(v@.skip(i as int).drop_first() =~= v@.skip(i + 1));
                assert(v@.skip(i as int)[0] == v@[i as int]);
                if let Some(os) = &r.os {
                    if let Some(name) = &os.name {
                        let excluded = (str_eq(name.as_str(), "windows") && !str_eq(current, "windows"))
                            || (str_eq(name.as_str(), "linux") && !str_eq(current, "linux"))
                            || (str_eq(name.as_str(), "osx") && !str_eq(current, "macos"));
                        if excluded {
                            assert(named_os(v@[i as int]) == Some(name@));
                            assert(os_excludes(name@, current@));
                            let passes = match &r.action {
                                None => true,
                                Some(a) => str_eq(a.as_str(), "disallow"),
                            };
                            assert(passes == rules_pass(v@.skip(i as int), current@));
                            return passes;
                        }
                    }
                }
            }
            true
        },
    }
}

/// The name under which the manifest's rules know the operating system
/// `os` (a value of `std::env::consts::OS`); unknown systems count as
/// Windows.
pub open spec fn rule_os_name(os: Seq<char>) -> Seq<char> {
    if os == "linux"@ {
        "linux"@
    } else if os == "macos"@ {
        "osx"@
    } else {
        "windows"@
    }
}

/// The manifest's name for the operating system `os`.
pub fn get_os(os: &str) -> (res: &'static str)
    ensures
        res@ == rule_os_name(os@),
{
    if str_eq(os, "linux") {
        "linux"
    } else if str_eq(os, "macos") {
        "osx"
    } else {
        "windows"
    }
}

// ---------------------------------------------------------------------------
// The last applicable rule decides

/// Whether, among `rules`, the last one for which `applies` holds exists and
/// allows.
pub open spec fn last_applicable_allows(rules: Seq<Rule>, applies: spec_fn(Rule) -> bool) -> bool
    decreases rules.len(),
{
    if rules.len() == 0 {
        false
    } else if applies(rules.last()) {
        action_is(rules.last(), "allow"@)
    } else {
        last_applicable_allows(rules.drop_last(), applies)
    }
}

/// A rule applies on the system the manifest calls `current` when it names
/// no OS condition, or names exactly `current`.
pub open spec fn applies_to(r: Rule, current: Seq<char>) -> bool {
    match r.os {
        None => true,
        Some(os) => is_word(os.name, current),
    }
}

/// Whether a library is used on the system the manifest calls `current`:
/// one without rules always is; otherwise the last applicable rule decides,
/// and none applying means it is not.
pub open spec fn is_allowed_spec(lib: Library, current: Seq<char>) -> bool {
    match lib.rules {
        None => true,
        Some(v) => last_applicable_allows(v@, |r: Rule| applies_to(r, current)),
    }
}

/// Whether `lib` is used on the system the manifest calls `current_os`.
pub fn is_allowed(lib: &Library, current_os: &str) -> (res: bool)
    ensures
        res == is_allowed_spec(*lib, current_os@),
{
    match &lib.rules {
        None => true,
        Some(v) => {
            let ghost applies = |r: Rule| applies_to(r, current_os@);
            let mut allowed = false;
            let n = v.len();
            assert(v@.take(0) =~= Seq::<Rule>::empty());
            for i in 0..n
                invariant
                    n == v@.len(),
                    applies == (|r: Rule| applies_to(r, current_os@)),
                    allowed == last_applicable_allows(v@.take(i as int), applies),
            {
                let r = &v[i];
                assert(v@.take(i + 1).drop_last() =~= v@.take(i as int));
                assert(v@.take(i + 1).last() == v@[i as int]);
                let applies_now = match &r.os {
                    None => true,
                    Some(os) => opt_word(&os.name, current_os),
                };
                if applies_now {
                    allowed = opt_word(&r.action, "allow");
                }
            }
            assert(v@.take(n as int) =~= v@);
            allowed
        },
    }
}

/// A rule applies, for the download of libraries, on the operating system
/// `target` (a value of `std::env::consts::OS`) when it has no OS condition,
/// or when the name it gives is the manifest's name of `target`; on other
/// systems than Windows, Linux and macOS no OS condition applies.
pub open spec fn applies_on_target(r: Rule, target: Seq<char>) -> bool {
    match r.os {
        None => true,
        Some(os) => {
            let name = match os.name {
                Some(n) => n@,
                None => seq![],
            };
            ||| target == "windows"@ && name == "windows"@
            ||| target == "linux"@ && name == "linux"@
            ||| target == "macos"@ && name == "osx"@
        },
    }
}

/// Whether a library is downloaded on `target`: one without rules always
/// is; otherwise the last applicable rule decides, and none applying means
/// it is not.
pub open spec fn lib_is_allowed_spec(lib: Library, target: Seq<char>) -> bool {
    match lib.rules {
        None => true,
        Some(v) => last_applicable_allows(v@, |r: Rule| applies_on_target(r, target)),
    }
}

/// Whether `lib` is downloaded on the operating system `target_os`.
pub fn lib_is_allowed(lib: &Library, target_os: &str) -> (res: bool)
    ensures
        res == lib_is_allowed_spec(*lib, target_os@),
{
    match &lib.rules {
        None => true,
        Some(v) => {
            let ghost applies = |r: Rule| applies_on_target(r, target_os@);
            let is_windows = str_eq(target_os, "windows");
            let is_linux = str_eq(target_os, "linux");
            let is_macos = str_eq(target_os, "macos");
            let mut allowed = false;
            let n = v.len();
            assert(v@.take(0) =~= Seq::<Rule>::empty());
            for i in 0..n
                invariant
                    n == v@.len(),
                    applies == (|r: Rule| applies_on_target(r, target_os@)),
                    is_windows == (target_os@ == "windows"@),
                    is_linux == (target_os@ == "linux"@),
                    is_macos == (target_os@ == "macos"@),
                    allowed == last_applicable_allows(v@.take(i as int), applies),
            {
                let r = &v[i];
                assert(v@.take(i + 1).drop_last() =~= v@.take(i as int));
                assert(v@.take(i + 1).last() == v@[i as int]);
                let applies_now = match &r.os {
                    None => true,
                    Some(os) => {
                        let name: &str = match &os.name {
                            Some(n) => n.as_str(),
                            None => "",
                        };
                        proof {
                            if os.name is None {
                                assert(name@ =~= Seq::<char>::empty()) by {
                                    reveal_strlit("");
                                }
                            }
                        }
                        (is_windows && str_eq(name, "windows")) || (is_linux && str_eq(name, "linux"))
                            || (is_macos && str_eq(name, "osx"))
                    },
                };
                if applies_now {
                    allowed = opt_word(&r.action, "allow");
                }
            }
            assert(v@.take(n as int) =~= v@);
            allowed
        },
    }
}

// ---------------------------------------------------------------------------
// Any matching disallow wins

/// The manifest's name of the operating system `target` as the installer
/// sees it: Windows, Linux, and `osx` for every other system.
pub open spec fn installer_os_name(target: Seq<char>) -> Seq<char> {
    if target == "windows"@ {
        "windows"@
    } else if target == "linux"@ {
        "linux"@
    } else {
        "osx"@
    }
}

/// A rule matches, for the installer, when it names no OS or names
/// `current`.
pub open spec fn installer_matches(r: Rule, current: Seq<char>) -> bool {
    match named_os(r) {
        None => true,
        Some(n) => n == current,
    }
}

/// Whether the installer fetches a library on `target`: one without rules
/// always; otherwise exactly when no matching rule disallows and some
/// matching rule allows.
pub open spec fn library_allowed_spec(lib: Library, target: Seq<char>) -> bool {
    match lib.rules {
        None => true,
        Some(v) => {
            let cur = installer_os_name(target);
            &&& !(exists|i: int|
                0 <= i < v@.len() && installer_matches(#[trigger] v@[i], cur) && action_is(
                    v@[i],
                    "disallow"@,
                ))
            &&& exists|i: int|
                0 <= i < v@.len() && installer_matches(#[trigger] v@[i], cur) && action_is(
                    v@[i],
                    "allow"@,
                )
        },
    }
}

/// The manifest's name of `target` for the installer.
pub fn installer_os(target_os: &str) -> (res: &'static str)
    ensures
        res@ == installer_os_name(target_os@),
{
    if str_eq(target_os, "windows") {
        "windows"
    } else if str_eq(target_os, "linux") {
        "linux"
    } else {
        "osx"
    }
}

/// Whether the installer fetches `lib` on `target_os`.
pub fn library_allowed(lib: &Library, target_os: &str) -> (res: bool)
    ensures
        res == library_allowed_spec(*lib, target_os@),
{
    let rules = match &lib.rules {
        None => {
            return true;
        },
        Some(v) => v,
    };
    let current = installer_os(target_os);
    let mut allowed = false;
    let n = rules.len();
    for i in 0..n
        invariant
            n == rules@.len(),
            current@ == installer_os_name(target_os@),
            lib.rules == Some(*rules),
            forall|j: int|
                0 <= j < i ==> !(installer_matches(#[trigger] rules@[j], current@) && action_is(
                    rules@[j],
                    "disallow"@,
                )),
            allowed == exists|j: int|
                0 <= j < i && installer_matches(#[trigger] rules@[j], current@) && action_is(
                    rules@[j],
                    "allow"@,
                ),
    {
        let r = &rules[i];
        let matches = match &r.os {
            None => true,
            Some(os) => match &os.name {
                None => true,
                Some(name) => str_eq(name.as_str(), current),
            },
        };
        if matches && opt_word(&r.action, "allow") {
            allowed = true;
        } else if matches && opt_word(&r.action, "disallow") {
            return false;
        }
        proof {
            reveal_strlit("allow");
            reveal_strlit("disallow");
            assert("allow"@.len() == 5);
            assert("disallow"@.len() == 8);
            if matches && is_word(r.action, "allow"@) {
                assert(!is_word(r.action, "disallow"@));
            }
        }
    }
    allowed
}

// ---------------------------------------------------------------------------
// Laws

/// A library without rules is used and fetched everywhere, by every one of
/// the three evaluations, and an object without rules passes its check.
pub proof fn no_rules_allow_everywhere(lib: Library, current: Seq<char>, target: Seq<char>)
    requires
        lib.rules is None,
    ensures
        check_rules_spec(lib.rules, current),
        is_allowed_spec(lib, current),
        lib_is_allowed_spec(lib, target),
        library_allowed_spec(lib, target),
{
}

/// Rules that name no operating system other than the running one always
/// pass, whatever their actions.
pub proof fn rules_without_foreign_os_pass(rules: Seq<Rule>, current: Seq<char>)
    requires
        forall|i: int|
            0 <= i < rules.len() ==> (named_os(#[trigger] rules[i]) matches Some(n) ==> !os_excludes(
                n,
                current,
            )),
    ensures
        rules_pass(rules, current),
    decreases rules.len(),
{
    if rules.len() > 0 {
        assert(named_os(rules[0]) matches Some(n) ==> !os_excludes(n, current));
        assert forall|i: int| 0 <= i < rules.drop_first().len() implies (named_os(
            #[trigger] rules.drop_first()[i],
        ) matches Some(n) ==> !os_excludes(n, current)) by {
            assert(rules.drop_first()[i] == rules[i + 1]);
        }
        rules_without_foreign_os_pass(rules.drop_first(), current);
    }
}

proof fn last_applicable_same(rules: Seq<Rule>, p: spec_fn(Rule) -> bool, q: spec_fn(Rule) -> bool)
    requires
        forall|r: Rule| #[trigger] p(r) == q(r),
    ensures
        last_applicable_allows(rules, p) == last_applicable_allows(rules, q),
    decreases rules.len(),
{
    if rules.len() > 0 {
        last_applicable_same(rules.drop_last(), p, q);
    }
}

/// On Windows, Linux and macOS, the libraries whose natives are unpacked at
/// launch (rules read under the manifest's name of the system) are exactly
/// those the downloader fetches.
pub proof fn launch_and_download_filters_agree(lib: Library, target: Seq<char>)
    requires
        target == "windows"@ || target == "linux"@ || target == "macos"@,
    ensures
        is_allowed_spec(lib, rule_os_name(target)) == lib_is_allowed_spec(lib, target),
{
    reveal_strlit("windows");
    reveal_strlit("linux");
    reveal_strlit("macos");
    reveal_strlit("osx");
    if let Some(v) = lib.rules {
        let p = |r: Rule| applies_to(r, rule_os_name(target));
        let q = |r: Rule| applies_on_target(r, target);
        assert("windows"@.len() == 7);
        assert("linux"@.len() == 5);
        assert("macos"@.len() == 5);
        assert("osx"@.len() == 3);
        assert("linux"@[0] == 'l');
        assert("macos"@[0] == 'm');
        assert("windows"@ != "linux"@);
        assert("windows"@ != "macos"@);
        assert("linux"@ != "macos"@);
        assert forall|r: Rule| #[trigger] p(r) == q(r) by {
            assert(p(r) == applies_to(r, rule_os_name(target)));
            assert(q(r) == applies_on_target(r, target));
            if let Some(os) = r.os {
                if os.name is None {
                    assert("windows"@.len() == 7);
                    assert("linux"@.len() == 5);
                    assert("osx"@.len() == 3);
                }
            }
        }
        last_applicable_same(v@, p, q);
    }
}

/// A single `allow` rule naming Windows, Linux or `osx` passes exactly on
/// the system it names (`osx` being macOS), and on every other system it
/// rules its object out.
pub proof fn allow_rule_passes_only_on_its_system(r: Rule, n: Seq<char>, current: Seq<char>)
    requires
        action_is(r, "allow"@),
        named_os(r) == Some(n),
        n == "windows"@ || n == "linux"@ || n == "osx"@,
    ensures
        rules_pass(seq![r], current) <==> (n == "windows"@ && current == "windows"@) || (n
            == "linux"@ && current == "linux"@) || (n == "osx"@ && current == "macos"@),
{
    reveal_strlit("windows");
    reveal_strlit("linux");
    reveal_strlit("osx");
    reveal_strlit("macos");
    reveal_strlit("allow");
    reveal_strlit("disallow");
    assert("allow"@ != "disallow"@) by {
        assert("allow"@.len() != "disallow"@.len());
    }
    assert("windows"@ != "linux"@) by {
        assert("windows"@.len() != "linux"@.len());
    }
    assert("windows"@ != "osx"@) by {
        assert("windows"@.len() != "osx"@.len());
    }
    assert("linux"@ != "osx"@) by {
        assert("linux"@.len() != "osx"@.len());
    }
    let rs = seq![r];
    assert(rs[0] == r);
    assert(rs.drop_first() =~= Seq::<Rule>::empty());
    assert(rules_pass(rs.drop_first(), current));
    assert(r.action is Some);
    if os_excludes(n, current) {
        assert(!rules_pass(rs, current));
    } else {
        assert(rules_pass(rs, current));
    }
}

/// A rule that names no system, or names the running one, has no effect on
/// the check: removing it from anywhere in the list gives the same answer.
pub proof fn own_system_rule_has_no_effect(
    before: Seq<Rule>,
    r: Rule,
    after: Seq<Rule>,
    current: Seq<char>,
)
    requires
        named_os(r) matches Some(n) ==> ((n == "windows"@ && current == "windows"@) || (n
            == "linux"@ && current == "linux"@) || (n == "osx"@ && current == "macos"@)),
    ensures
        rules_pass(before + seq![r] + after, current) == rules_pass(before + after, current),
    decreases before.len(),
{
    reveal_strlit("windows");
    reveal_strlit("linux");
    reveal_strlit("osx");
    reveal_strlit("macos");
    assert("windows"@ != "linux"@) by {
        assert("windows"@.len() != "linux"@.len());
    }
    assert("windows"@ != "osx"@) by {
        assert("windows"@.len() != "osx"@.len());
    }
    assert("linux"@ != "osx"@) by {
        assert("linux"@.len() != "osx"@.len());
    }
    assert("linux"@ != "macos"@) by {
        assert("linux"@[0] != "macos"@[0]);
    }
    assert("windows"@ != "macos"@) by {
        assert("windows"@.len() != "macos"@.len());
    }
    if before.len() == 0 {
        assert(before + seq![r] + after =~= seq![r] + after);
        assert((seq![r] + after).drop_first() =~= after);
        assert(before + after =~= after);
    } else {
        own_system_rule_has_no_effect(before.drop_first(), r, after, current);
        assert((before + seq![r] + after).drop_first() =~= before.drop_first() + seq![r] + after);
        assert((before + after).drop_first() =~= before.drop_first() + after);
        assert((before + seq![r] + after)[0] == before[0]);
        assert((before + after)[0] == before[0]);
    }
}

/// For the installer, a rule naming an operating system matches exactly
/// when it names the target: `windows` on Windows, `linux` on Linux, and
/// `osx` on every other system.
pub proof fn installer_rule_matches_named_target(r: Rule, n: Seq<char>, target: Seq<char>)
    requires
        named_os(r) == Some(n),
    ensures
        target == "windows"@ ==> (installer_matches(r, installer_os_name(target)) <==> n
            == "windows"@),
        target == "linux"@ ==> (installer_matches(r, installer_os_name(target)) <==> n == "linux"@),
        target != "windows"@ && target != "linux"@ ==> (installer_matches(
            r,
            installer_os_name(target),
        ) <==> n == "osx"@),
{
}

/// The installer and the launcher call Windows, Linux and macOS by the same
/// manifest names.
pub proof fn installer_and_launcher_name_systems_alike(target: Seq<char>)
    requires
        target == "windows"@ || target == "linux"@ || target == "macos"@,
    ensures
        installer_os_name(target) == rule_os_name(target),
{
    reveal_strlit("windows");
    reveal_strlit("linux");
    reveal_strlit("macos");
    assert("windows"@ != "linux"@) by {
        assert("windows"@.len() != "linux"@.len());
    }
    assert("windows"@ != "macos"@) by {
        assert("windows"@.len() != "macos"@.len());
    }
    assert("linux"@ != "macos"@) by {
        assert("linux"@[0] != "macos"@[0]);
    }
}

/// A library with the usual rules "allow everywhere, but disallow on
/// `osx`" is fetched by the installer on Windows and Linux, and not on
/// macOS or other systems.
pub proof fn allow_except_osx_fetched_on_windows_and_linux(
    lib: Library,
    allow: Rule,
    deny: Rule,
    v: Vec<Rule>,
    target: Seq<char>,
)
    requires
        lib.rules == Some(v),
        v@ == seq![allow, deny],
        action_is(allow, "allow"@),
        allow.os is None,
        action_is(deny, "disallow"@),
        named_os(deny) == Some("osx"@),
    ensures
        library_allowed_spec(lib, target) <==> (target == "windows"@ || target == "linux"@),
{
    reveal_strlit("windows");
    reveal_strlit("linux");
    reveal_strlit("osx");
    reveal_strlit("allow");
    reveal_strlit("disallow");
    assert("allow"@ != "disallow"@) by {
        assert("allow"@.len() != "disallow"@.len());
    }
    assert("windows"@ != "osx"@) by {
        assert("windows"@.len() != "osx"@.len());
    }
    assert("linux"@ != "osx"@) by {
        assert("linux"@.len() != "osx"@.len());
    }
    let cur = installer_os_name(target);
    assert(installer_matches(v@[0], cur));
    assert(action_is(v@[0], "allow"@));
    assert(action_is(v@[1], "disallow"@));
    if target == "windows"@ || target == "linux"@ {
        assert(!installer_matches(v@[1], cur));
        assert forall|i: int|
            0 <= i < v@.len() && installer_matches(#[trigger] v@[i], cur) implies !action_is(
            v@[i],
            "disallow"@,
        ) by {
            if i == 1 {
            }
        }
        assert(exists|i: int|
            0 <= i < v@.len() && installer_matches(#[trigger] v@[i], cur) && action_is(
                v@[i],
                "allow"@,
            )) by {
            assert(0 < v@.len());
        }
        assert(!(exists|i: int|
            0 <= i < v@.len() && installer_matches(#[trigger] v@[i], cur) && action_is(
                v@[i],
                "disallow"@,
            )));
        assert(lib.rules->0 == v);
        assert(library_allowed_spec(lib, target) == (!(exists|i: int|
            0 <= i < v@.len() && installer_matches(#[trigger] v@[i], cur) && action_is(
                v@[i],
                "disallow"@,
            )) && exists|i: int|
            0 <= i < v@.len() && installer_matches(#[trigger] v@[i], cur) && action_is(
                v@[i],
                "allow"@,
            )));
        assert(library_allowed_spec(lib, target));
    } else {
        assert(installer_matches(v@[1], cur));
        assert(!library_allowed_spec(lib, target));
    }
}

} // verus!
