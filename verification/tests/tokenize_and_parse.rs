use tubegate::keywords::parse_keywords;
use tubegate::numparse::parse_i64_str;
use tubegate::strutil::{
    prefix_before, starts_with_str, str_eq, strip_prefix_str, trim_start_matches_char, trim_str,
};

#[test]
fn keyword_tokenizer_quoted_and_bare() {
    let tokens = parse_keywords("\"tag one\" two \"tag three\"");
    assert_eq!(tokens, vec!["tag one".to_string(), "two".to_string(), "tag three".to_string()]);
}

#[test]
fn keyword_tokenizer_unterminated_quote_flushes() {
    let tokens = parse_keywords("\"tag one\" two \"tag three");
    assert_eq!(tokens, vec!["tag one".to_string(), "two".to_string(), "tag three".to_string()]);
    assert_eq!(parse_keywords("\"abc"), vec!["abc".to_string()]);
}

#[test]
fn keyword_tokenizer_drops_backslash() {
    assert_eq!(parse_keywords("a\\b"), vec!["ab".to_string()]);
    assert_eq!(parse_keywords("\\"), Vec::<String>::new());
}

#[test]
fn keyword_tokenizer_trims_tokens() {
    assert_eq!(parse_keywords("\" x \""), vec!["x".to_string()]);
    assert_eq!(parse_keywords("  \"  \"  "), Vec::<String>::new());
    assert_eq!(parse_keywords(""), Vec::<String>::new());
    assert_eq!(parse_keywords("   "), Vec::<String>::new());
}

#[test]
fn keyword_tokenizer_quoted_spaces_join() {
    assert_eq!(parse_keywords("\"a b\"c"), vec!["a bc".to_string()]);
    assert_eq!(parse_keywords("a\"b c\"d"), vec!["ab cd".to_string()]);
}

#[test]
fn parse_i64_plain_and_signed() {
    assert_eq!(parse_i64_str("0"), Some(0));
    assert_eq!(parse_i64_str("007"), Some(7));
    assert_eq!(parse_i64_str("+42"), Some(42));
    assert_eq!(parse_i64_str("-42"), Some(-42));
    assert_eq!(parse_i64_str("123456789012"), Some(123456789012));
}

#[test]
fn parse_i64_range_edges() {
    assert_eq!(parse_i64_str("9223372036854775807"), Some(i64::MAX));
    assert_eq!(parse_i64_str("-9223372036854775808"), Some(i64::MIN));
    assert_eq!(parse_i64_str("9223372036854775808"), None);
    assert_eq!(parse_i64_str("-9223372036854775809"), None);
    assert_eq!(parse_i64_str("99999999999999999999999"), None);
}

#[test]
fn parse_i64_rejects_malformed() {
    assert_eq!(parse_i64_str(""), None);
    assert_eq!(parse_i64_str("-"), None);
    assert_eq!(parse_i64_str("+"), None);
    assert_eq!(parse_i64_str("1a"), None);
    assert_eq!(parse_i64_str(" 1"), None);
    assert_eq!(parse_i64_str("1 "), None);
    assert_eq!(parse_i64_str("+-3"), None);
    assert_eq!(parse_i64_str("1.5"), None);
}

#[test]
fn string_helpers() {
    assert!(str_eq("abc", "abc"));
    assert!(!str_eq("abc", "abd"));
    assert!(!str_eq("abc", "ab"));
    assert!(starts_with_str("youtube.com/@x", "youtube.com/@"));
    assert!(!starts_with_str("youtu", "youtube"));
    assert_eq!(strip_prefix_str("https://yt3.ggpht.com/pic=s88", "https://yt3.ggpht.com/"), Some("pic=s88"));
    assert_eq!(strip_prefix_str("https://other.com/pic", "https://yt3.ggpht.com/"), None);
    assert_eq!(prefix_before("pic=s88-c-k", '='), "pic");
    assert_eq!(prefix_before("nodelimiter", '='), "nodelimiter");
    assert_eq!(trim_str("  a b \t"), "a b");
    assert_eq!(trim_str("\u{00A0}x\u{3000}"), "x");
    assert_eq!(trim_start_matches_char("@@name", '@'), "name");
    assert_eq!(trim_start_matches_char("name", '@'), "name");
}
