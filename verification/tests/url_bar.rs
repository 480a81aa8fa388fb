use iced_blocks::text::trim_str;
use iced_blocks::url_bar::{input_to_url, parse_url, resolve_url_input, try_as_domain, try_as_file, try_as_search};

#[test]
fn empty_input_gives_nothing() {
    assert_eq!(input_to_url(""), None);
    assert_eq!(input_to_url("   \t\n"), None);
}

#[test]
fn direct_url_is_parsed() {
    assert_eq!(input_to_url("https://example.com").as_deref(), Some("https://example.com/"));
    assert_eq!(input_to_url("  https://example.com/a?b=c  ").as_deref(), Some("https://example.com/a?b=c"));
    assert_eq!(input_to_url("about:blank").as_deref(), Some("about:blank"));
}

#[test]
fn domain_gets_https() {
    assert_eq!(input_to_url("example.com").as_deref(), Some("https://example.com/"));
    assert_eq!(input_to_url("example.com/path").as_deref(), Some("https://example.com/path"));
    assert_eq!(input_to_url("localhost/index.html").as_deref(), Some("https://localhost/index.html"));
}

#[test]
fn words_become_search() {
    assert_eq!(input_to_url("rust").as_deref(), Some("https://duckduckgo.com/?q=rust"));
    assert_eq!(input_to_url("hello world").as_deref(), Some("https://duckduckgo.com/?q=hello%20world"));
    assert_eq!(input_to_url(".hidden").as_deref(), Some("https://duckduckgo.com/?q=.hidden"));
}

#[test]
fn absolute_path_becomes_file_url() {
    let r = input_to_url("/tmp/some file.txt").unwrap();
    assert!(r.starts_with("file://"));
    assert_eq!(r, "file:///tmp/some%20file.txt");
}

#[test]
fn try_as_file_needs_absolute_path() {
    assert_eq!(try_as_file("relative/path"), None);
    assert_eq!(try_as_file(""), None);
    assert_eq!(try_as_file("/etc/hosts").as_deref(), Some("file:///etc/hosts"));
}

#[test]
fn try_as_domain_rules() {
    assert_eq!(try_as_domain("has space.com"), None);
    assert_eq!(try_as_domain("nodots"), None);
    assert_eq!(try_as_domain(".com"), None);
    assert_eq!(try_as_domain("/abs"), None);
    assert_eq!(try_as_domain("a.b").as_deref(), Some("https://a.b/"));
}

#[test]
fn try_as_search_quotes_input() {
    assert_eq!(try_as_search("a b").as_deref(), Some("https://duckduckgo.com/?q=a%20b"));
}

#[test]
fn parse_url_rejects_relative() {
    assert_eq!(parse_url("not a url"), None);
    assert_eq!(parse_url("http://x.org").as_deref(), Some("http://x.org/"));
}

#[test]
fn resolve_prefers_direct_then_file() {
    let file = Some(String::from("file:///given"));
    assert_eq!(resolve_url_input("https://a.org", file.clone()).as_deref(), Some("https://a.org/"));
    assert_eq!(resolve_url_input("  x y  ", file.clone()).as_deref(), Some("file:///given"));
    assert_eq!(resolve_url_input("   ", file).as_deref(), None);
    assert_eq!(resolve_url_input("x y", None).as_deref(), Some("https://duckduckgo.com/?q=x%20y"));
}

#[test]
fn trim_removes_unicode_whitespace() {
    assert_eq!(trim_str("\u{3000} a b \t\u{2028}"), "a b");
    assert_eq!(trim_str("abc"), "abc");
    assert_eq!(trim_str("   "), "");
}

#[test]
fn surrounding_space_is_ignored() {
    assert_eq!(input_to_url("  hello world \t"), input_to_url("hello world"));
    assert_eq!(input_to_url("\u{3000}example.com\n"), input_to_url("example.com"));
    assert_eq!(input_to_url(" \u{2003} "), None);
}
