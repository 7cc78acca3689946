use minigrep::config::{Config, ConfigError};
use minigrep::search::{matching_lines, search, search_case_insensitive};

#[test]
fn case_sensitive() {
    let query = "duct";
    let contents = "\
Rust:
safe, fast, productive.
Pick three.
Duct tape.";

    assert_eq!(vec!["safe, fast, productive."], search(query, contents));
}

#[test]
fn case_insensitive() {
    let query = "rUsT";
    let contents = "\
Rust:
safe, fast, productive.
Pick three.
Trust me.";

    assert_eq!(vec!["Rust:", "Trust me."], search_case_insensitive(query, contents));
}

#[test]
fn search_finds_single_match() {
    let contents = "Rust:\nsafe, fast, productive.\nPick three.";
    assert_eq!(vec!["safe, fast, productive."], search("duct", contents));
}

#[test]
fn search_empty_query_returns_every_line() {
    let contents = "Rust:\nsafe, fast, productive.\n\nPick three.\n";
    assert_eq!(
        vec!["Rust:", "safe, fast, productive.", "", "Pick three."],
        search("", contents)
    );
}

#[test]
fn search_matches_are_case_insensitive_matches_too() {
    let contents = "Rust:\nrust belt\nTrust me.\nbusted";
    let sensitive = search("rust", contents);
    let insensitive = search_case_insensitive("rust", contents);
    assert_eq!(vec!["rust belt", "Trust me."], sensitive);
    assert_eq!(vec!["Rust:", "rust belt", "Trust me."], insensitive);
    let kept: Vec<&str> = insensitive.into_iter().filter(|l| l.contains("rust")).collect();
    assert_eq!(sensitive, kept);
}

#[test]
fn searching_twice_gives_the_same_lines() {
    let contents = "one\ntwo\nthree\nTwo";
    assert_eq!(search("o", contents), search("o", contents));
    assert_eq!(
        search_case_insensitive("TWO", contents),
        search_case_insensitive("TWO", contents)
    );
}

#[test]
fn search_without_match_is_empty() {
    assert!(search("xyz", "abc\ndef").is_empty());
    assert!(search_case_insensitive("XYZ", "abc\ndef").is_empty());
}

#[test]
fn search_on_empty_contents_is_empty() {
    assert!(search("", "").is_empty());
    assert!(search_case_insensitive("", "").is_empty());
}

#[test]
fn search_text_without_newline_is_one_line() {
    assert_eq!(vec!["needle in a haystack"], search("needle", "needle in a haystack"));
}

#[test]
fn search_trailing_newline_adds_no_line() {
    assert_eq!(vec!["a", "b"], search("", "a\nb\n"));
}

#[test]
fn search_strips_carriage_return_before_newline() {
    assert_eq!(vec!["first", "second"], search("", "first\r\nsecond\r\n"));
    assert_eq!(vec!["end\r"], search("end", "end\r"));
}

#[test]
fn search_keeps_equal_lines_apart() {
    assert_eq!(vec!["same", "same"], search("am", "same\nother\nsame"));
}

#[test]
fn case_insensitive_folds_non_ascii_text() {
    let contents = "ÄPFEL und Birnen\nkeine\nStraße";
    assert_eq!(vec!["ÄPFEL und Birnen"], search_case_insensitive("äpfel", contents));
    assert_eq!(vec!["Straße"], search_case_insensitive("STRAßE", contents));
    assert!(search("äpfel", contents).is_empty());
}

#[test]
fn case_insensitive_returns_lines_unfolded() {
    assert_eq!(vec!["HeLLo World"], search_case_insensitive("hello", "HeLLo World\nbye"));
}

fn args(items: &[&str]) -> Vec<String> {
    items.iter().map(|s| s.to_string()).collect()
}

#[test]
fn config_without_signal_is_case_sensitive() {
    let a = args(&["prog", "duct", "poem.txt"]);
    let config = Config::new(&a, None).unwrap();
    assert_eq!("duct", config.query);
    assert_eq!("poem.txt", config.filename);
    assert!(config.case_sensitive);
}

#[test]
fn config_with_signal_is_case_insensitive() {
    let a = args(&["prog", "duct", "poem.txt"]);
    assert!(!Config::new(&a, Some("1")).unwrap().case_sensitive);
    assert!(!Config::new(&a, Some("")).unwrap().case_sensitive);
}

#[test]
fn config_with_two_arguments_fails() {
    let a = args(&["prog", "duct"]);
    match Config::new(&a, None) {
        Err(e) => assert_eq!(ConfigError::InsufficientArguments, e),
        Ok(_) => panic!("two arguments were accepted"),
    }
}

#[test]
fn config_with_fewer_arguments_fails() {
    for n in 0..3 {
        let a = args(&["prog", "duct", "poem.txt"][..n]);
        assert!(matches!(
            Config::new(&a, Some("1")),
            Err(ConfigError::InsufficientArguments)
        ));
    }
}

#[test]
fn config_accepts_empty_and_extra_arguments() {
    let a = args(&["prog", "", "", "extra"]);
    let config = Config::new(&a, None).unwrap();
    assert_eq!("", config.query);
    assert_eq!("", config.filename);
}

#[test]
fn config_error_message() {
    assert_eq!(
        "Not enough command line arguments!",
        ConfigError::InsufficientArguments.message()
    );
}

#[test]
fn matching_lines_follows_case_setting() {
    let a = args(&["prog", "rUsT", "poem.txt"]);
    let contents = "Rust:\nsafe, fast, productive.\nPick three.\nTrust me.";
    let sensitive = Config::new(&a, None).unwrap();
    assert!(matching_lines(&sensitive, contents).is_empty());
    let insensitive = Config::new(&a, Some("1")).unwrap();
    assert_eq!(vec!["Rust:", "Trust me."], matching_lines(&insensitive, contents));
}

#[test]
fn case_insensitive_folds_final_sigma_by_context() {
    // A capital sigma at the end of a word folds to the final form, alone to
    // the medial one, so this case-sensitive match is no case-insensitive one.
    assert_eq!(vec!["ΑΣ"], search("Σ", "ΑΣ"));
    assert!(search_case_insensitive("Σ", "ΑΣ").is_empty());
}
