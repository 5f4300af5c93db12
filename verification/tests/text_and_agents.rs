use netease::text::{chars_of, contains, decimal, parse_u64, same_text};
use netease::user_agent::{
    choose_user_agent, pool_entry, select_user_agent, AGENT_0, AGENT_12, AGENT_13, AGENT_7, AGENT_8,
    DESKTOP_COUNT, DESKTOP_START, MOBILE_COUNT, POOL_SIZE,
};

fn pool(from: usize, to: usize) -> Vec<&'static str> {
    (from..to).map(pool_entry).collect()
}

#[test]
fn decimal_writes_numerals() {
    assert_eq!(decimal(0), "0");
    assert_eq!(decimal(7), "7");
    assert_eq!(decimal(10), "10");
    assert_eq!(decimal(1002), "1002");
    assert_eq!(decimal(u64::MAX), "18446744073709551615");
}

#[test]
fn parse_u64_reads_numerals() {
    assert_eq!(parse_u64("0"), Some(0));
    assert_eq!(parse_u64("347230"), Some(347230));
    assert_eq!(parse_u64("+12"), Some(12));
    assert_eq!(parse_u64("007"), Some(7));
    assert_eq!(parse_u64("18446744073709551615"), Some(u64::MAX));
}

#[test]
fn parse_u64_refuses_what_is_no_numeral() {
    assert_eq!(parse_u64(""), None);
    assert_eq!(parse_u64("+"), None);
    assert_eq!(parse_u64("-1"), None);
    assert_eq!(parse_u64("12a"), None);
    assert_eq!(parse_u64(" 12"), None);
    assert_eq!(parse_u64("++1"), None);
    assert_eq!(parse_u64("18446744073709551616"), None);
    assert_eq!(parse_u64("99999999999999999999999"), None);
}

#[test]
fn parse_u64_agrees_with_std() {
    for text in ["", "+", "-", "0", "+0", "-0", "42", "4 2", "٣", "18446744073709551615", "18446744073709551616"] {
        assert_eq!(parse_u64(text), text.parse::<u64>().ok(), "{}", text);
    }
}

#[test]
fn decimal_then_parse_gives_the_number_back() {
    for n in [0u64, 1, 9, 10, 99, 100, 65535, 4294967296, u64::MAX] {
        assert_eq!(parse_u64(&decimal(n)), Some(n));
    }
}

#[test]
fn contains_finds_substrings() {
    assert!(contains("a=1; __csrf=abc", "__csrf"));
    assert!(contains("__csrf", "__csrf"));
    assert!(contains("anything", ""));
    assert!(contains("", ""));
    assert!(!contains("_csrf=abc", "__csrf"));
    assert!(!contains("", "x"));
    assert!(!contains("__csr", "__csrf"));
}

#[test]
fn same_text_compares_characters() {
    assert!(same_text("mobile", "mobile"));
    assert!(!same_text("mobile", "mobil"));
    assert!(!same_text("mobile", "Mobile"));
    assert!(same_text("", ""));
}

#[test]
fn chars_of_keeps_every_character() {
    assert_eq!(chars_of("a;é"), vec!['a', ';', 'é']);
    assert_eq!(chars_of(""), Vec::<char>::new());
}

#[test]
fn pool_has_its_fixed_entries() {
    assert_eq!(POOL_SIZE, 14);
    assert_eq!(MOBILE_COUNT, 7);
    assert_eq!(DESKTOP_START, 8);
    assert_eq!(DESKTOP_COUNT, 5);
    assert_eq!(pool_entry(0), AGENT_0);
    assert_eq!(pool_entry(13), AGENT_13);
    assert!(pool_entry(0).contains("iPhone"));
    assert!(pool_entry(7).contains("iPad"));
    assert!(pool_entry(8).contains("Macintosh"));
    assert!(pool_entry(13).contains("Edge"));
}

#[test]
fn select_user_agent_follows_the_draw() {
    assert_eq!(select_user_agent("mobile", 0), AGENT_0);
    assert_eq!(select_user_agent("mobile", 7), AGENT_0);
    assert_eq!(select_user_agent("mobile", 13), pool_entry(6));
    assert_eq!(select_user_agent("desktop", 0), AGENT_8);
    assert_eq!(select_user_agent("desktop", 4), AGENT_12);
    assert_eq!(select_user_agent("desktop", 5), AGENT_8);
    assert_eq!(select_user_agent("", 7), AGENT_7);
    assert_eq!(select_user_agent("", 27), AGENT_13);
    assert_eq!(select_user_agent("", usize::MAX), pool_entry(usize::MAX % 14));
    assert_eq!(select_user_agent("curl/8.0", 3), "curl/8.0");
}

#[test]
fn mobile_and_desktop_groups_are_disjoint() {
    let mobile = pool(0, MOBILE_COUNT);
    let desktop = pool(DESKTOP_START, DESKTOP_START + DESKTOP_COUNT);
    assert_eq!(mobile.len(), 7);
    assert_eq!(desktop.len(), 5);
    for agent in &desktop {
        assert!(!mobile.contains(agent));
    }
}

#[test]
fn choose_user_agent_stays_in_the_group() {
    let mobile = pool(0, MOBILE_COUNT);
    let desktop = pool(DESKTOP_START, DESKTOP_START + DESKTOP_COUNT);
    let all = pool(0, POOL_SIZE);
    for _ in 0..200 {
        assert!(mobile.contains(&choose_user_agent("mobile")));
        assert!(desktop.contains(&choose_user_agent("desktop")));
        assert!(all.contains(&choose_user_agent("")));
        assert_eq!(choose_user_agent("my-agent/1.0"), "my-agent/1.0");
    }
}

#[test]
fn choose_user_agent_draws_more_than_one_entry() {
    let mut seen: Vec<&str> = Vec::new();
    for _ in 0..400 {
        let agent = choose_user_agent("desktop");
        if !seen.contains(&agent) {
            seen.push(agent);
        }
    }
    assert!(seen.len() > 1);
}
