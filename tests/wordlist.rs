use feroxbuster::wordlist::{get_unique_words_from_wordlist, is_word};

fn lines(items: &[&str]) -> Vec<String> {
    items.iter().map(|s| s.to_string()).collect()
}

#[test]
fn comments_and_blank_lines_give_an_empty_wordlist() {
    let w = get_unique_words_from_wordlist(&lines(&["# header", "", "#admin", ""]));
    assert_eq!(w.len(), 0);
    assert!(w.is_empty());
}

#[test]
fn duplicates_collapse_to_distinct_words() {
    let w = get_unique_words_from_wordlist(&lines(&["admin", "login", "admin", "", "# c", "login", "api"]));
    assert_eq!(w.len(), 3);
    assert!(w.contains(&"admin".to_string()));
    assert!(w.contains(&"login".to_string()));
    assert!(w.contains(&"api".to_string()));
    assert!(!w.contains(&"# c".to_string()));
    assert!(!w.contains(&"".to_string()));
    let mut words = w.words();
    words.sort();
    assert_eq!(words, lines(&["admin", "api", "login"]));
}

#[test]
fn comment_marker_only_counts_at_line_start() {
    assert!(is_word("a#b"));
    assert!(is_word(" #x"));
    assert!(!is_word("#x"));
    assert!(!is_word(""));
    let w = get_unique_words_from_wordlist(&lines(&["a#b", "#x"]));
    assert_eq!(w.words(), lines(&["a#b"]));
}

#[test]
fn empty_file_gives_an_empty_wordlist() {
    let w = get_unique_words_from_wordlist(&Vec::new());
    assert!(w.is_empty());
}

#[test]
fn large_wordlist_with_repeats_keeps_each_word_once() {
    let mut input = Vec::new();
    for round in 0..3 {
        for i in 0..20000 {
            input.push(format!("w{}", i));
        }
        input.push(format!("# pass {}", round));
        input.push(String::new());
    }
    let w = get_unique_words_from_wordlist(&input);
    assert_eq!(w.len(), 20000);
    assert!(w.contains(&"w0".to_string()));
    assert!(w.contains(&"w19999".to_string()));
    assert!(!w.contains(&"w20000".to_string()));
    assert!(!w.contains(&"# pass 0".to_string()));
    let mut words = w.words();
    words.sort();
    words.dedup();
    assert_eq!(words.len(), 20000);
}
