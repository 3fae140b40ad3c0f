use cubex_launcher::text::{
    chars_of, ends_with, join, replace_all, split_whitespace, starts_with, str_eq,
    string_from_chars,
};

#[test]
fn chars_round_trip() {
    let s = "héllo wörld";
    let cs = chars_of(s);
    assert_eq!(cs.len(), 11);
    assert_eq!(string_from_chars(&cs), s);
}

#[test]
fn replace_is_left_to_right_and_non_overlapping() {
    assert_eq!(replace_all("aaa", "aa", "b"), "ba");
    assert_eq!(replace_all("abcabc", "bc", "X"), "aXaX");
    assert_eq!(replace_all("nothing here", "${x}", "y"), "nothing here");
    assert_eq!(replace_all("${x}${x}", "${x}", ""), "");
    assert_eq!(replace_all("", "a", "b"), "");
}

#[test]
fn replace_does_not_rescan_replacement() {
    assert_eq!(replace_all("ab", "a", "aa"), "aab");
}

#[test]
fn split_whitespace_matches_std() {
    let s = "  --username ${auth_player_name}\t--version\n${version_name}\u{3000}x\u{85}y  ";
    let ours = split_whitespace(s);
    let std: Vec<String> = s.split_whitespace().map(|w| w.to_string()).collect();
    assert_eq!(ours, std);
    assert_eq!(ours.len(), 6);
}

#[test]
fn split_whitespace_of_blank_text_is_empty() {
    assert!(split_whitespace("   \t\r\n ").is_empty());
    assert!(split_whitespace("").is_empty());
}

#[test]
fn join_puts_separator_between_parts() {
    let parts = vec!["a".to_string(), "b".to_string(), "c".to_string()];
    assert_eq!(join(&parts, ":"), "a:b:c");
    assert_eq!(join(&vec!["only".to_string()], ";"), "only");
    assert_eq!(join(&Vec::new(), ";"), "");
}

#[test]
fn prefix_suffix_and_equality() {
    assert!(starts_with("META-INF/x", "META-INF"));
    assert!(!starts_with("META", "META-INF"));
    assert!(ends_with("lib/liblwjgl.so", ".so"));
    assert!(!ends_with("so", ".so"));
    assert!(str_eq("allow", "allow"));
    assert!(!str_eq("allow", "Allow"));
}

#[test]
fn words_partition_the_text() {
    let s = " a bc\t\td  e ";
    let ws = split_whitespace(s);
    assert!(ws.iter().all(|w| !w.is_empty() && !w.chars().any(char::is_whitespace)));
    let joined: String = ws.concat();
    let stripped: String = s.chars().filter(|c| !c.is_whitespace()).collect();
    assert_eq!(joined, stripped);
}
