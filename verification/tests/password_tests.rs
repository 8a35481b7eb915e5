use bad_password::config::Config;
use bad_password::decimal::decimal_string;
use bad_password::dictionary::split_lines;
use bad_password::dictionary::DictionaryError;
use bad_password::generate::generate;
use bad_password::transform::capitalize_first;
use bad_password::transform::number_suffix;
use bad_password::transform::transform;

fn cfg(caps: bool, numbers: bool, exclamation: bool) -> Config {
    Config { words: 1, symbols: 0, caps, numbers, exclamation }
}

#[test]
fn capitalizes_first_letter() {
    assert_eq!(capitalize_first("password"), "Password");
}

#[test]
fn capitalize_keeps_rest_unchanged() {
    assert_eq!(capitalize_first("hello world"), "Hello world");
}

#[test]
fn capitalize_of_empty_is_empty() {
    assert_eq!(capitalize_first(""), "");
}

#[test]
fn capitalize_of_single_char() {
    assert_eq!(capitalize_first("a"), "A");
}

#[test]
fn capitalize_of_already_capital() {
    assert_eq!(capitalize_first("Zebra"), "Zebra");
}

#[test]
fn split_lines_basic() {
    let lines = split_lines("alpha\nbeta\n");
    assert_eq!(lines, vec!["alpha".to_string(), "beta".to_string()]);
}

#[test]
fn split_lines_no_trailing_newline() {
    let lines = split_lines("alpha\nbeta");
    assert_eq!(lines, vec!["alpha".to_string(), "beta".to_string()]);
}

#[test]
fn split_lines_empty_text_has_no_lines() {
    let lines = split_lines("");
    assert!(lines.is_empty());
}

#[test]
fn split_lines_single_word() {
    let lines = split_lines("solo");
    assert_eq!(lines, vec!["solo".to_string()]);
}

#[test]
fn split_lines_strips_carriage_return_before_newline() {
    let lines = split_lines("one\r\ntwo\r\n");
    assert_eq!(lines, vec!["one".to_string(), "two".to_string()]);
}

#[test]
fn split_lines_keeps_lone_trailing_carriage_return() {
    let lines = split_lines("tail\r");
    assert_eq!(lines, vec!["tail\r".to_string()]);
}

#[test]
fn split_lines_keeps_interior_empty_lines() {
    let lines = split_lines("\n\n");
    assert_eq!(lines, vec!["".to_string(), "".to_string()]);
}

#[test]
fn decimal_of_year() {
    assert_eq!(decimal_string(2024), "2024");
}

#[test]
fn decimal_of_zero() {
    assert_eq!(decimal_string(0), "0");
}

#[test]
fn decimal_of_single_digit() {
    assert_eq!(decimal_string(7), "7");
}

#[test]
fn decimal_of_negative() {
    assert_eq!(decimal_string(-42), "-42");
}

#[test]
fn decimal_of_extremes() {
    assert_eq!(decimal_string(i32::MAX), "2147483647");
    assert_eq!(decimal_string(i32::MIN), "-2147483648");
}

#[test]
fn number_suffix_candidates_for_2024() {
    assert_eq!(number_suffix(2024, 0), "1");
    assert_eq!(number_suffix(2024, 1), "123");
    assert_eq!(number_suffix(2024, 2), "12345");
    assert_eq!(number_suffix(2024, 3), "2024");
    assert_eq!(number_suffix(2024, 4), "1234");
}

#[test]
fn transform_with_all_flags_gives_one_of_five() {
    let c = cfg(true, true, true);
    let expected = ["Password1!", "Password123!", "Password12345!", "Password2024!",
        "Password1234!"];
    for pick in 0..5 {
        let out = transform("password", &c, 2024, pick);
        assert_eq!(out.password, expected[pick]);
    }
}

#[test]
fn transform_without_flags_keeps_word() {
    let out = transform("password", &cfg(false, false, false), 2024, 0);
    assert_eq!(out.password, "password");
    assert!(out.number.is_none());
}

#[test]
fn transform_caps_only() {
    let out = transform("monkey", &cfg(true, false, false), 2024, 0);
    assert_eq!(out.password, "Monkey");
}

#[test]
fn transform_numbers_only_reports_chosen_literal() {
    let out = transform("monkey", &cfg(false, true, false), 2024, 1);
    assert_eq!(out.password, "monkey123");
    assert_eq!(out.number.as_deref(), Some("123"));
}

#[test]
fn transform_exclamation_only() {
    let out = transform("monkey", &cfg(false, false, true), 2024, 0);
    assert_eq!(out.password, "monkey!");
}

#[test]
fn exclamation_comes_after_number_suffix() {
    let out = transform("abc", &cfg(false, true, true), 1999, 3);
    assert_eq!(out.password, "abc1999!");
}

#[test]
fn generate_on_empty_dictionary_fails() {
    let dictionary: Vec<String> = Vec::new();
    let r = generate(&dictionary, &cfg(true, true, true));
    assert!(matches!(r, Err(DictionaryError::Empty)));
}

#[test]
fn generate_picks_the_only_word() {
    let dictionary = vec!["letmein".to_string()];
    let out = generate(&dictionary, &cfg(false, false, false)).unwrap();
    assert_eq!(out.password, "letmein");
    assert!(out.number.is_none());
}

#[test]
fn generate_picks_a_dictionary_word() {
    let dictionary =
        vec!["alpha".to_string(), "beta".to_string(), "gamma".to_string()];
    for _ in 0..20 {
        let out = generate(&dictionary, &cfg(false, false, false)).unwrap();
        assert!(dictionary.contains(&out.password));
    }
}

#[test]
fn generate_appends_a_predictable_number() {
    let year = chrono::Datelike::year(&chrono::Local::now()).to_string();
    let dictionary = vec!["password".to_string()];
    for _ in 0..20 {
        let out = generate(&dictionary, &cfg(false, true, false)).unwrap();
        let number = out.number.clone().unwrap();
        assert!(["1", "123", "12345", year.as_str(), "1234"]
            .contains(&number.as_str()));
        assert_eq!(out.password, format!("password{}", number));
    }
}

#[test]
fn generate_full_pipeline_output_shape() {
    let year = chrono::Datelike::year(&chrono::Local::now()).to_string();
    let dictionary = vec!["password".to_string()];
    for _ in 0..20 {
        let out = generate(&dictionary, &cfg(true, true, true)).unwrap();
        let mut expected: Vec<String> = Vec::new();
        for suffix in ["1", "123", "12345", year.as_str(), "1234"] {
            expected.push(format!("Password{}!", suffix));
        }
        assert!(expected.contains(&out.password));
    }
}

#[test]
fn default_config_applies_no_edits() {
    let c = Config::default();
    assert_eq!(c.words, 1);
    assert_eq!(c.symbols, 0);
    assert!(!c.caps && !c.numbers && !c.exclamation);
}

#[test]
fn warnings_follow_the_counts() {
    let mut c = Config::default();
    assert!(!c.warns_extra_words());
    assert!(!c.warns_symbols());
    c.words = 2;
    c.symbols = 1;
    assert!(c.warns_extra_words());
    assert!(c.warns_symbols());
}
