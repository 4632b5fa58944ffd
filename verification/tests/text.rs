use nodectl::text::{
    concat_str, contains_char, decimal_i64, decimal_u64, escape_single_quotes, join, path_join,
    split_char, str_eq, trim,
};

fn strings(parts: &[&str]) -> Vec<String> {
    parts.iter().map(|s| s.to_string()).collect()
}

#[test]
fn trim_removes_surrounding_white_space() {
    assert_eq!(trim("  running\n"), "running");
    assert_eq!(trim("\t\r\n"), "");
    assert_eq!(trim(""), "");
    assert_eq!(trim("a b"), "a b");
}

#[test]
fn trim_knows_unicode_white_space() {
    assert_eq!(trim("\u{3000}\u{a0}x y\u{2028}\u{85}"), "x y");
    assert_eq!(trim("\u{200b}x"), "\u{200b}x");
}

#[test]
fn trim_matches_std() {
    for s in ["  a  ", "\u{2009}b\u{205f}", "c", " \u{1680} ", "d\u{feff}"] {
        assert_eq!(trim(s), s.trim());
    }
}

#[test]
fn decimal_text_of_integers() {
    assert_eq!(decimal_u64(0), "0");
    assert_eq!(decimal_u64(5432), "5432");
    assert_eq!(decimal_u64(u64::MAX), u64::MAX.to_string());
    assert_eq!(decimal_i64(-42), "-42");
    assert_eq!(decimal_i64(i64::MIN), i64::MIN.to_string());
    assert_eq!(decimal_i64(i64::MAX), i64::MAX.to_string());
}

#[test]
fn join_puts_separator_between_parts() {
    assert_eq!(join(&strings(&["say", "hello"]), " "), "say hello");
    assert_eq!(join(&strings(&["one"]), ", "), "one");
    assert_eq!(join(&Vec::new(), " "), "");
    assert_eq!(join(&strings(&["a", "", "b"]), "\n"), "a\n\nb");
}

#[test]
fn split_keeps_empty_pieces() {
    assert_eq!(split_char("a|b||c", '|'), strings(&["a", "b", "", "c"]));
    assert_eq!(split_char("", '|'), strings(&[""]));
    assert_eq!(split_char("|", '|'), strings(&["", ""]));
    assert_eq!(split_char("no separator", '|'), strings(&["no separator"]));
}

#[test]
fn split_undoes_join() {
    let parts = strings(&["1.5%", "10MiB / 1GiB", "", "x"]);
    assert_eq!(split_char(&join(&parts, "|"), '|'), parts);
}

#[test]
fn path_join_like_std() {
    assert_eq!(path_join("/srv", "servers"), "/srv/servers");
    assert_eq!(path_join("/srv/", "servers"), "/srv/servers");
    assert_eq!(path_join("", "servers"), "servers");
    assert_eq!(path_join("/srv", "/abs"), "/abs");
    for (base, name) in [("/a/b", "c"), ("rel", "x/y"), ("/", "z")] {
        let expected = std::path::Path::new(base).join(name);
        assert_eq!(path_join(base, name), expected.to_str().unwrap());
    }
}

#[test]
fn quotes_are_escaped_for_the_shell() {
    assert_eq!(escape_single_quotes("say 'hi'"), "say '\\''hi'\\''");
    assert_eq!(escape_single_quotes("stop"), "stop");
}

#[test]
fn small_string_helpers() {
    assert!(contains_char("my net", ' '));
    assert!(!contains_char("bridge", ' '));
    assert!(str_eq("tcp", "tcp"));
    assert!(!str_eq("tcp", "udp"));
    assert_eq!(concat_str("nodectl-", "server"), "nodectl-server");
}
