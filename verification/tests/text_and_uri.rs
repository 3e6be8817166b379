use lemmy_search::text::{
    chars_of, contains_ignoring_case, equal_ignoring_case, fold_code, occurs_at, same_text,
    text_contains,
};
use lemmy_search::uri::{addresses_remote_host, host_of_identifier};

fn letters(text: &str) -> Vec<char> {
    text.chars().collect()
}

#[test]
fn chars_of_decodes_every_character() {
    assert_eq!(chars_of("h\u{e9}llo"), vec!['h', '\u{e9}', 'l', 'l', 'o']);
    assert_eq!(chars_of(""), Vec::<char>::new());
}

#[test]
fn fold_code_lowers_ascii_capitals_only() {
    assert_eq!(fold_code('A'), 97);
    assert_eq!(fold_code('Z'), 122);
    assert_eq!(fold_code('a'), 97);
    assert_eq!(fold_code('z'), 122);
    assert_eq!(fold_code('@'), 64);
    assert_eq!(fold_code('['), 91);
    assert_eq!(fold_code('0'), 48);
    assert_eq!(fold_code('\u{c9}'), 201);
}

#[test]
fn occurs_at_compares_at_the_given_offset() {
    assert!(occurs_at(&letters("xxcat"), &letters("CAT"), 2));
    assert!(!occurs_at(&letters("xxcat"), &letters("CAT"), 1));
    assert!(occurs_at(&letters("xxcat"), &letters(""), 5));
    assert!(!occurs_at(&letters("xxcat"), &letters(""), 6));
    assert!(!occurs_at(&letters("xxcat"), &letters("cat"), 3));
    assert!(!occurs_at(&letters("xxcat"), &letters("cat"), usize::MAX));
}

#[test]
fn contains_ignoring_case_finds_a_term_anywhere() {
    assert!(contains_ignoring_case(&letters("Concatenate"), &letters("CAT")));
    assert!(contains_ignoring_case(&letters("cat"), &letters("cat")));
    assert!(contains_ignoring_case(&letters("my cats"), &letters("Cats")));
    assert!(!contains_ignoring_case(&letters("dog"), &letters("cat")));
    assert!(!contains_ignoring_case(&letters("ca"), &letters("cat")));
    assert!(!contains_ignoring_case(&letters("c a t"), &letters("cat")));
}

#[test]
fn the_empty_term_occurs_in_every_text() {
    assert!(contains_ignoring_case(&letters(""), &letters("")));
    assert!(contains_ignoring_case(&letters("abc"), &letters("")));
    assert!(!contains_ignoring_case(&letters(""), &letters("a")));
}

#[test]
fn text_contains_reads_a_string() {
    assert!(text_contains("Herding Cats", &letters("cats")));
    assert!(!text_contains("Herding dogs", &letters("cats")));
}

#[test]
fn equal_ignoring_case_needs_equal_lengths() {
    assert!(equal_ignoring_case(&letters("Example.COM"), &letters("example.com")));
    assert!(!equal_ignoring_case(&letters("example.com"), &letters("example.co")));
    assert!(!equal_ignoring_case(&letters("example.com"), &letters("example.org")));
    assert!(equal_ignoring_case(&letters(""), &letters("")));
}

#[test]
fn same_text_is_exact() {
    assert!(same_text("Posts", "Posts"));
    assert!(!same_text("Posts", "posts"));
    assert!(!same_text("Posts", "Post"));
    assert!(same_text("", ""));
}

#[test]
fn host_of_identifier_reads_the_host() {
    assert_eq!(
        host_of_identifier(&letters("https://remote.example/objects/42")),
        Some(letters("remote.example"))
    );
    assert_eq!(host_of_identifier(&letters("http://a-b.c")), Some(letters("a-b.c")));
    assert_eq!(host_of_identifier(&letters("https://host?x=1")), Some(letters("host")));
    assert_eq!(host_of_identifier(&letters("https://host#top")), Some(letters("host")));
}

#[test]
fn host_of_identifier_accepts_any_case_of_scheme_and_a_port() {
    assert_eq!(
        host_of_identifier(&letters("HTTP://Example.COM:8080/x?y")),
        Some(letters("Example.COM"))
    );
    assert_eq!(host_of_identifier(&letters("hTtPs://host:443")), Some(letters("host")));
}

#[test]
fn host_of_identifier_refuses_what_is_no_identifier() {
    assert_eq!(host_of_identifier(&letters("cats")), None);
    assert_eq!(host_of_identifier(&letters("")), None);
    assert_eq!(host_of_identifier(&letters("ftp://host/x")), None);
    assert_eq!(host_of_identifier(&letters("http:/host")), None);
    assert_eq!(host_of_identifier(&letters("https://")), None);
    assert_eq!(host_of_identifier(&letters("https:///path")), None);
    assert_eq!(host_of_identifier(&letters("https://host:/x")), None);
    assert_eq!(host_of_identifier(&letters("https://host:")), None);
    assert_eq!(host_of_identifier(&letters("https://host:80a/x")), None);
    assert_eq!(host_of_identifier(&letters("https://ho st/x")), None);
    assert_eq!(host_of_identifier(&letters("https://user@host/")), None);
}

#[test]
fn addresses_remote_host_excludes_the_local_host() {
    assert!(addresses_remote_host("https://remote.example/objects/42", "local.example"));
    assert!(!addresses_remote_host("https://local.example/post/1", "local.example"));
    assert!(!addresses_remote_host("https://LOCAL.Example/post/1", "local.example"));
    assert!(!addresses_remote_host("https://local.example:8536/post/1", "local.example"));
    assert!(addresses_remote_host("https://local.example.org/post/1", "local.example"));
}

#[test]
fn addresses_remote_host_refuses_plain_text() {
    assert!(!addresses_remote_host("cats", "local.example"));
    assert!(!addresses_remote_host("cats and https://remote.example/x", "local.example"));
    assert!(!addresses_remote_host("", "local.example"));
}
