use repo_mcp::config::{exec_enabled_setting, forge_host, parse_u16, port_setting, DEFAULT_PORT};
use repo_mcp::text::{
    blank, chars_of, count_occurrences, decimal_string, find_from, join_strings, signed_decimal_string,
    sort_strings, str_eq, trimmed,
};

fn strings(items: &[&str]) -> Vec<String> {
    items.iter().map(|s| s.to_string()).collect()
}

#[test]
fn decimal_notation_of_numbers() {
    assert_eq!(decimal_string(0), "0");
    assert_eq!(decimal_string(7), "7");
    assert_eq!(decimal_string(1234567890), "1234567890");
    assert_eq!(decimal_string(u64::MAX), u64::MAX.to_string());
}

#[test]
fn signed_decimal_notation() {
    assert_eq!(signed_decimal_string(-42), "-42");
    assert_eq!(signed_decimal_string(0), "0");
    assert_eq!(signed_decimal_string(i64::MIN), i64::MIN.to_string());
    assert_eq!(signed_decimal_string(i64::MAX), i64::MAX.to_string());
}

#[test]
fn string_equality() {
    assert!(str_eq("git_log", "git_log"));
    assert!(!str_eq("git_log", "git_lo"));
    assert!(!str_eq("é", "e"));
}

#[test]
fn trimming_whitespace() {
    assert_eq!(trimmed("  a b \t\r\n"), "a b");
    assert_eq!(trimmed("\u{3000}x\u{00A0}"), "x");
    assert_eq!(trimmed("   "), "");
    assert_eq!(trimmed("x"), "x");
    assert!(blank(" \n\t"));
    assert!(blank(""));
    assert!(!blank(" . "));
}

#[test]
fn counting_every_occurrence() {
    let c = |s: &str, p: &str| count_occurrences(&chars_of(s), &chars_of(p));
    assert_eq!(c("aaa", "aa"), 2);
    assert_eq!(c("aaaa", "aa"), 3);
    assert_eq!(c("abcabc", "abc"), 2);
    assert_eq!(c("abc", "x"), 0);
    assert_eq!(c("ab", ""), 3);
    assert_eq!(c("", ""), 1);
    assert_eq!(c("a", "ab"), 0);
}

#[test]
fn finding_from_a_position() {
    let s = chars_of("abcabc");
    let p = chars_of("bc");
    assert_eq!(find_from(&s, &p, 0), Some(1));
    assert_eq!(find_from(&s, &p, 2), Some(4));
    assert_eq!(find_from(&s, &p, 5), None);
}

#[test]
fn joining_strings() {
    assert_eq!(join_strings(&strings(&["a", "b", "c"]), "\n"), "a\nb\nc");
    assert_eq!(join_strings(&strings(&["only"]), ", "), "only");
    assert_eq!(join_strings(&strings(&[]), ", "), "");
}

#[test]
fn sorting_by_code_point() {
    let sorted = sort_strings(&strings(&["b", "é", "a", "B", "ab", "a"]));
    assert_eq!(sorted, strings(&["B", "a", "a", "ab", "b", "é"]));
    let mut expected = strings(&["zeta", "[file] x", "[dir] y", "Alpha"]);
    expected.sort();
    assert_eq!(sort_strings(&strings(&["zeta", "[file] x", "[dir] y", "Alpha"])), expected);
}

#[test]
fn parsing_ports() {
    assert_eq!(parse_u16("8080"), Some(8080));
    assert_eq!(parse_u16("+80"), Some(80));
    assert_eq!(parse_u16("0080"), Some(80));
    assert_eq!(parse_u16("65535"), Some(65535));
    assert_eq!(parse_u16("65536"), None);
    assert_eq!(parse_u16("99999999999"), None);
    assert_eq!(parse_u16(""), None);
    assert_eq!(parse_u16("+"), None);
    assert_eq!(parse_u16("-1"), None);
    assert_eq!(parse_u16("80a"), None);
    for s in ["0", "443", "+1", "65535", "65536", "", "x", " 1"] {
        assert_eq!(parse_u16(s), s.parse::<u16>().ok(), "{s}");
    }
}

#[test]
fn port_setting_falls_back_to_default() {
    assert_eq!(port_setting(Some("3000")), 3000);
    assert_eq!(port_setting(Some("http")), DEFAULT_PORT);
    assert_eq!(port_setting(None), 8080);
}

#[test]
fn exec_setting_reads_true_in_any_case() {
    assert!(exec_enabled_setting(Some("true")));
    assert!(exec_enabled_setting(Some("TRUE")));
    assert!(exec_enabled_setting(Some("tRuE")));
    assert!(!exec_enabled_setting(Some("yes")));
    assert!(!exec_enabled_setting(Some("true ")));
    assert!(!exec_enabled_setting(None));
}

#[test]
fn forge_host_is_bare() {
    assert_eq!(forge_host("https://git.example.com/"), "git.example.com");
    assert_eq!(forge_host("http://git.example.com"), "git.example.com");
    assert_eq!(forge_host("https://https://git.example.com//"), "git.example.com");
    assert_eq!(forge_host("git.example.com"), "git.example.com");
    assert_eq!(forge_host("http://https://h"), "https://h");
}
