use just_download::template::replace_token;
use just_download::template::token_at;

#[test]
fn replace_token_puts_the_text_in_place_of_the_token() {
    assert_eq!(
        replace_token("https://x/{version}/a.tgz", "{version}", "1.2.3"),
        "https://x/1.2.3/a.tgz"
    );
}

#[test]
fn replace_token_leaves_a_template_without_the_token() {
    assert_eq!(replace_token("https://x/a.tgz", "{version}", "1.2.3"), "https://x/a.tgz");
    assert_eq!(replace_token("", "{version}", "1.2.3"), "");
    assert_eq!(replace_token("{version", "{version}", "1.2.3"), "{version");
}

#[test]
fn replace_token_replaces_every_occurrence() {
    assert_eq!(
        replace_token("{version}/p-{version}.zip#p-{version}", "{version}", "2.0.0"),
        "2.0.0/p-2.0.0.zip#p-2.0.0"
    );
    assert_eq!(replace_token("{version}{version}", "{version}", "7"), "77");
}

#[test]
fn replace_token_reads_from_the_left_without_overlap() {
    assert_eq!(replace_token("aaa", "aa", "b"), "ba");
    assert_eq!(replace_token("{{version}}", "{version}", "1"), "{1}");
    assert_eq!(replace_token("abab", "ab", "abab"), "abababab");
}

#[test]
fn replace_token_with_an_empty_token_changes_nothing() {
    assert_eq!(replace_token("abc", "", "x"), "abc");
}

#[test]
fn replace_token_agrees_with_the_standard_replace() {
    let cases = [
        ("https://x/{version}/a.tgz", "{version}", "1.2.3"),
        ("no token here", "{version}", "1.2.3"),
        ("{version}", "{version}", ""),
        ("xx{version}xx{version}", "{version}", "{version}"),
        ("ééé{version}é", "{version}", "ü"),
    ];
    for (template, token, with) in cases {
        assert_eq!(replace_token(template, token, with), template.replace(token, with));
    }
}

#[test]
fn token_at_finds_the_token_only_where_it_stands() {
    let s: Vec<char> = "a{v}b".chars().collect();
    let t: Vec<char> = "{v}".chars().collect();
    assert!(token_at(&s, &t, 1));
    assert!(!token_at(&s, &t, 0));
    assert!(!token_at(&s, &t, 2));
    assert!(!token_at(&s, &t, 3));
    assert!(!token_at(&s, &t, 9));
    assert!(token_at(&s, &Vec::new(), 5));
    assert!(!token_at(&s, &Vec::new(), 6));
}
