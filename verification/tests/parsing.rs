use tunnel_supervisor::pattern::SuccessPattern;
use tunnel_supervisor::text::{char_is_whitespace, chars_of, find, find_token_end, has, stands_at};

fn chars(text: &str) -> Vec<char> {
    text.chars().collect()
}

#[test]
fn extracts_the_address_up_to_the_space() {
    let pattern = SuccessPattern::new("https://", "example-tunnel.com");
    let found = pattern.extract_url("your url is: https://abcd1234.example-tunnel.com ready");
    assert_eq!(found, Some("https://abcd1234.example-tunnel.com".to_string()));
}

#[test]
fn rejects_an_address_without_the_provider_suffix() {
    let pattern = SuccessPattern::new("https://", "example-tunnel.com");
    assert_eq!(pattern.extract_url("https://not-the-provider.com"), None);
}

#[test]
fn standard_pattern_is_the_providers() {
    let pattern = SuccessPattern::standard();
    assert_eq!(pattern.marker(), "https://");
    assert_eq!(pattern.provider(), "trycloudflare.com");
    assert_eq!(pattern, SuccessPattern::new("https://", "trycloudflare.com"));
}

#[test]
fn standard_pattern_finds_the_address_in_a_log_line() {
    let pattern = SuccessPattern::standard();
    let line = "2024-05-01T10:00:00Z INF |  https://quiet-river-42.trycloudflare.com   |";
    assert_eq!(
        pattern.extract_url(line),
        Some("https://quiet-river-42.trycloudflare.com".to_string())
    );
}

#[test]
fn standard_pattern_rejects_the_example_provider() {
    let pattern = SuccessPattern::standard();
    assert_eq!(
        pattern.extract_url("your url is: https://abcd1234.example-tunnel.com ready"),
        None
    );
}

#[test]
fn address_runs_to_the_end_of_the_line_without_whitespace() {
    let pattern = SuccessPattern::standard();
    assert_eq!(
        pattern.extract_url("url=https://a.trycloudflare.com/path?x=1"),
        Some("https://a.trycloudflare.com/path?x=1".to_string())
    );
}

#[test]
fn address_ends_at_a_tab() {
    let pattern = SuccessPattern::standard();
    assert_eq!(
        pattern.extract_url("https://a.trycloudflare.com\tup"),
        Some("https://a.trycloudflare.com".to_string())
    );
}

#[test]
fn address_ends_at_a_wide_space() {
    let pattern = SuccessPattern::standard();
    assert_eq!(
        pattern.extract_url("https://a.trycloudflare.com\u{3000}up"),
        Some("https://a.trycloudflare.com".to_string())
    );
}

#[test]
fn line_without_the_marker_announces_nothing() {
    let pattern = SuccessPattern::standard();
    assert_eq!(pattern.extract_url("http://a.trycloudflare.com is plain"), None);
    assert_eq!(pattern.extract_url(""), None);
    assert_eq!(pattern.extract_url("trycloudflare.com"), None);
}

#[test]
fn only_the_first_marker_is_looked_at() {
    let pattern = SuccessPattern::standard();
    assert_eq!(
        pattern.extract_url("see https://docs.example.org and https://a.trycloudflare.com"),
        None
    );
}

#[test]
fn suffix_outside_the_candidate_does_not_count() {
    let pattern = SuccessPattern::standard();
    assert_eq!(pattern.extract_url("trycloudflare.com says https://other.org now"), None);
    assert_eq!(pattern.extract_url("https://other.org trycloudflare.com"), None);
}

#[test]
fn bare_marker_is_no_address() {
    let pattern = SuccessPattern::standard();
    assert_eq!(pattern.extract_url("visit https://"), None);
    assert_eq!(pattern.extract_url("visit https:// trycloudflare.com"), None);
}

#[test]
fn suffix_may_stand_anywhere_in_the_candidate() {
    let pattern = SuccessPattern::standard();
    assert_eq!(
        pattern.extract_url("https://trycloudflare.com.example.org/x y"),
        Some("https://trycloudflare.com.example.org/x".to_string())
    );
}

#[test]
fn characters_of_several_bytes_are_counted_as_one() {
    let pattern = SuccessPattern::standard();
    assert_eq!(
        pattern.extract_url("żółć → https://ü.trycloudflare.com ✓"),
        Some("https://ü.trycloudflare.com".to_string())
    );
}

#[test]
fn pattern_with_other_marker() {
    let pattern = SuccessPattern::new("tcp://", ".tunnel.test");
    assert_eq!(
        pattern.extract_url("open tcp://node7.tunnel.test:4000 now"),
        Some("tcp://node7.tunnel.test:4000".to_string())
    );
    assert_eq!(pattern.extract_url("open https://node7.tunnel.test:4000 now"), None);
}

#[test]
fn chars_of_gives_every_character() {
    assert_eq!(chars_of(""), Vec::<char>::new());
    assert_eq!(chars_of("aß→𝄞"), vec!['a', 'ß', '→', '𝄞']);
}

#[test]
fn whitespace_is_what_the_standard_library_calls_whitespace() {
    let mut code: u32 = 0;
    let mut seen = 0;
    while code <= 0x10ffff {
        if let Some(c) = char::from_u32(code) {
            assert_eq!(char_is_whitespace(c), c.is_whitespace(), "U+{:04X}", code);
            if char_is_whitespace(c) {
                seen += 1;
            }
        }
        code += 1;
    }
    assert_eq!(seen, 25);
}

#[test]
fn stands_at_compares_in_place() {
    let hay = chars("abcabc");
    assert!(stands_at(&hay, &chars("abc"), 0));
    assert!(stands_at(&hay, &chars("abc"), 3));
    assert!(!stands_at(&hay, &chars("abc"), 1));
    assert!(!stands_at(&hay, &chars("abc"), 4));
    assert!(!stands_at(&hay, &chars("abc"), 100));
    assert!(stands_at(&hay, &chars(""), 6));
    assert!(!stands_at(&hay, &chars(""), 7));
    assert!(!stands_at(&chars("ab"), &chars("abc"), 0));
}

#[test]
fn find_gives_the_first_occurrence() {
    assert_eq!(find(&chars("xxabxxab"), &chars("ab")), Some(2));
    assert_eq!(find(&chars("aaab"), &chars("aab")), Some(1));
    assert_eq!(find(&chars("abc"), &chars("abc")), Some(0));
    assert_eq!(find(&chars("abc"), &chars("c")), Some(2));
    assert_eq!(find(&chars("abc"), &chars("")), Some(0));
    assert_eq!(find(&chars(""), &chars("")), Some(0));
    assert_eq!(find(&chars(""), &chars("a")), None);
    assert_eq!(find(&chars("abc"), &chars("abcd")), None);
    assert_eq!(find(&chars("abc"), &chars("ac")), None);
}

#[test]
fn has_tells_whether_it_occurs() {
    assert!(has(&chars("https://a.trycloudflare.com"), &chars("trycloudflare.com")));
    assert!(!has(&chars("https://a.trycloudflare.co"), &chars("trycloudflare.com")));
    assert!(has(&chars(""), &chars("")));
}

#[test]
fn token_ends_at_whitespace_or_at_the_end() {
    let line = chars("ab cd\tef");
    assert_eq!(find_token_end(&line, 0), 2);
    assert_eq!(find_token_end(&line, 1), 2);
    assert_eq!(find_token_end(&line, 2), 2);
    assert_eq!(find_token_end(&line, 3), 5);
    assert_eq!(find_token_end(&line, 6), 8);
    assert_eq!(find_token_end(&line, 8), 8);
    assert_eq!(find_token_end(&chars(""), 0), 0);
    assert_eq!(find_token_end(&line, 9), 9);
    assert_eq!(find_token_end(&line, 100), 100);
}
