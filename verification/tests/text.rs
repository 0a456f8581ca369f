use git_files::text;

#[test]
fn characters_come_out_in_order() {
    assert_eq!(text::chars_of(""), Vec::<char>::new());
    assert_eq!(text::chars_of("aé√z"), vec!['a', 'é', '√', 'z']);
}

#[test]
fn prefix_is_taken_off() {
    assert_eq!(text::strip_prefix("git@host", "git@"), Some("host"));
    assert_eq!(text::strip_prefix("git@", "git@"), Some(""));
    assert_eq!(text::strip_prefix("abc", ""), Some("abc"));
    assert_eq!(text::strip_prefix("éàü", "é"), Some("àü"));
    assert_eq!(text::strip_prefix("host", "git@"), None);
    assert_eq!(text::strip_prefix("gi", "git@"), None);
}

#[test]
fn suffix_is_taken_off() {
    assert_eq!(text::strip_suffix("repo.git", ".git"), Some("repo"));
    assert_eq!(text::strip_suffix(".git", ".git"), Some(""));
    assert_eq!(text::strip_suffix("abc", ""), Some("abc"));
    assert_eq!(text::strip_suffix("dépôt√", "√"), Some("dépôt"));
    assert_eq!(text::strip_suffix("repo.git/", ".git"), None);
    assert_eq!(text::strip_suffix("git", ".git"), None);
}

#[test]
fn part_is_found_wherever_it_stands() {
    assert!(text::contains("https://x", "http"));
    assert!(text::contains("xhttpx", "http"));
    assert!(text::contains("xhttp", "http"));
    assert!(text::contains("http", "http"));
    assert!(text::contains("abc", ""));
    assert!(text::contains("", ""));
    assert!(text::contains("hthttp", "http"));
    assert!(text::contains("ééhttp", "http"));
    assert!(!text::contains("htt", "http"));
    assert!(!text::contains("htxtp", "http"));
    assert!(!text::contains("", "http"));
    assert!(!text::contains("HTTP", "http"));
}

#[test]
fn every_occurrence_is_replaced() {
    assert_eq!(text::replace("a:b:c", ':', "/"), "a/b/c");
    assert_eq!(text::replace(":a::b:", ':', "/"), "/a//b/");
    assert_eq!(text::replace("abc", ':', "/"), "abc");
    assert_eq!(text::replace("", ':', "/"), "");
    assert_eq!(text::replace("a:b", ':', ""), "ab");
    assert_eq!(text::replace("a:b", ':', "::"), "a::b");
    assert_eq!(text::replace("é:√", ':', "→"), "é→√");
    assert_eq!(text::replace("a:b:c", ':', "/"), "a:b:c".replace(':', "/"));
}

#[test]
fn capitals_are_folded_before_comparing() {
    assert!(text::reads_as("GitHub", "github"));
    assert!(text::reads_as("github", "github"));
    assert!(text::reads_as("AZ az", "az az"));
    assert!(text::reads_as("", ""));
    assert!(!text::reads_as("github", "GitHub"));
    assert!(!text::reads_as("githubs", "github"));
    assert!(!text::reads_as("@[`{", "`{`{"));
    assert!(!text::reads_as("É", "é"));
}

#[test]
fn match_at_an_index_is_told() {
    let s = text::chars_of("abcabc");
    let pat = text::chars_of("bc");
    assert!(text::matches_at(&s, &pat, 1));
    assert!(text::matches_at(&s, &pat, 4));
    assert!(!text::matches_at(&s, &pat, 0));
    assert!(!text::matches_at(&s, &pat, 5));
    assert!(!text::matches_at(&s, &pat, 6));
    assert!(!text::matches_at(&s, &pat, usize::MAX));
    assert!(text::matches_at(&s, &[], 6));
    assert!(!text::matches_at(&s, &[], 7));
}

#[test]
fn only_ascii_capitals_are_made_small() {
    for c in '\u{0}'..='\u{10FFFF}' {
        assert_eq!(text::to_ascii_lower(c), c.to_ascii_lowercase());
    }
    assert_eq!(text::to_ascii_lower('A'), 'a');
    assert_eq!(text::to_ascii_lower('Z'), 'z');
    assert_eq!(text::to_ascii_lower('@'), '@');
    assert_eq!(text::to_ascii_lower('['), '[');
    assert_eq!(text::to_ascii_lower('É'), 'É');
}
