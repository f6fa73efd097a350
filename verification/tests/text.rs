use api_core::parameters::parse_settings;
use api_core::text::chars_of;
use api_core::text::contains_text;
use api_core::text::join_texts;
use api_core::text::split_text;

fn owned(parts: &[&str]) -> Vec<String> {
    parts.iter().map(|p| p.to_string()).collect()
}

fn pair(name: &str, value: &str) -> (String, String) {
    (name.to_string(), value.to_string())
}

#[test]
fn chars_of_gives_the_characters() {
    assert_eq!(chars_of(""), Vec::<char>::new());
    assert_eq!(chars_of("aé日"), vec!['a', 'é', '日']);
}

#[test]
fn contains_finds_a_text_anywhere() {
    assert!(contains_text("query { __schema { types } }", "__schema"));
    assert!(contains_text("__schema", "__schema"));
    assert!(contains_text("x__schema", "__schema"));
    assert!(contains_text("__schemax", "__schema"));
    assert!(!contains_text("_schema", "__schema"));
    assert!(!contains_text("__schem", "__schema"));
    assert!(!contains_text("__sche ma", "__schema"));
    assert!(!contains_text("", "__schema"));
}

#[test]
fn contains_takes_the_empty_text_everywhere() {
    assert!(contains_text("", ""));
    assert!(contains_text("abc", ""));
}

#[test]
fn contains_agrees_with_std() {
    let hays = ["", "a", "ab", "aab", "abab", "日本語日本", "aaa", "xyz_aa"];
    let needles = ["", "a", "b", "ab", "aab", "ba", "本語", "日本語日本語", "aa", "z_a"];
    for hay in hays {
        for needle in needles {
            assert_eq!(contains_text(hay, needle), hay.contains(needle));
        }
    }
}

#[test]
fn join_puts_the_separator_between() {
    assert_eq!(join_texts(&owned(&[]), ", "), "");
    assert_eq!(join_texts(&owned(&["a"]), ", "), "a");
    assert_eq!(join_texts(&owned(&["a", "b", "c"]), ", "), "a, b, c");
    assert_eq!(join_texts(&owned(&["", ""]), ","), ",");
    assert_eq!(join_texts(&owned(&["a", "b"]), ""), "ab");
}

#[test]
fn split_cuts_at_each_separator() {
    assert_eq!(split_text("", '='), owned(&[""]));
    assert_eq!(split_text("a", '='), owned(&["a"]));
    assert_eq!(split_text("a=b", '='), owned(&["a", "b"]));
    assert_eq!(split_text("a==b", '='), owned(&["a", "", "b"]));
    assert_eq!(split_text("=a", '='), owned(&["", "a"]));
    assert_eq!(split_text("a=", '='), owned(&["a", ""]));
    assert_eq!(split_text("=", '='), owned(&["", ""]));
    assert_eq!(split_text("鍵=値", '='), owned(&["鍵", "値"]));
}

#[test]
fn split_agrees_with_std() {
    let texts = ["", "\n", "a\nb", "a\n\nb\n", "\n\na", "no newline", "日\n本\n"];
    for text in texts {
        let expected: Vec<String> = text.split('\n').map(|p| p.to_string()).collect();
        assert_eq!(split_text(text, '\n'), expected);
    }
}

#[test]
fn join_undoes_split() {
    let texts = ["", "=", "a=b", "==a=", "plain"];
    for text in texts {
        assert_eq!(join_texts(&split_text(text, '='), "="), text);
    }
}

#[test]
fn settings_come_one_per_line() {
    assert_eq!(
        parse_settings("PORT=8000\nWITH_LAMBDA=false\n"),
        vec![pair("PORT", "8000"), pair("WITH_LAMBDA", "false")]
    );
}

#[test]
fn settings_pass_over_lines_that_are_no_pair() {
    assert_eq!(parse_settings(""), vec![]);
    assert_eq!(parse_settings("\n\n"), vec![]);
    assert_eq!(parse_settings("no separator"), vec![]);
    assert_eq!(parse_settings("A=B=C"), vec![]);
    assert_eq!(
        parse_settings("A=1\n\nnot a pair\nB=2=3\nC=4"),
        vec![pair("A", "1"), pair("C", "4")]
    );
}

#[test]
fn settings_keep_empty_names_and_values() {
    assert_eq!(parse_settings("A="), vec![pair("A", "")]);
    assert_eq!(parse_settings("=1"), vec![pair("", "1")]);
    assert_eq!(parse_settings("="), vec![pair("", "")]);
}

#[test]
fn settings_keep_spaces_and_carriage_returns() {
    assert_eq!(parse_settings(" A = 1 \r\nB=2"), vec![pair(" A ", " 1 \r"), pair("B", "2")]);
}
