use hangman::dictionary::{next_word, parse_count, pick, word_count, DictionaryError, Source};

fn source(lines: &[&str]) -> Source {
    Source::Lines(lines.iter().map(|line| line.to_string()).collect())
}

fn broken(lines: &[&str]) -> Source {
    Source::Broken(lines.iter().map(|line| line.to_string()).collect())
}

#[test]
fn a_count_is_digits_with_or_without_a_plus() {
    assert_eq!(parse_count("3"), Some(3));
    assert_eq!(parse_count("+3"), Some(3));
    assert_eq!(parse_count("007"), Some(7));
    assert_eq!(parse_count("120"), Some(120));
    assert_eq!(parse_count("2147483647"), Some(2147483647));
    assert_eq!(parse_count("+0002147483647"), Some(2147483647));
}

#[test]
fn anything_else_is_no_count() {
    assert_eq!(parse_count(""), None);
    assert_eq!(parse_count("+"), None);
    assert_eq!(parse_count("0"), None);
    assert_eq!(parse_count("000"), None);
    assert_eq!(parse_count("+0"), None);
    assert_eq!(parse_count("-3"), None);
    assert_eq!(parse_count("-0"), None);
    assert_eq!(parse_count("++3"), None);
    assert_eq!(parse_count("3+"), None);
    assert_eq!(parse_count("12a"), None);
    assert_eq!(parse_count("a12"), None);
    assert_eq!(parse_count("3 "), None);
    assert_eq!(parse_count(" 3"), None);
    assert_eq!(parse_count("3.0"), None);
    assert_eq!(parse_count("three"), None);
    assert_eq!(parse_count("2147483648"), None);
    assert_eq!(parse_count("99999999999999999999999999"), None);
    assert_eq!(parse_count("\u{663}"), None);
}

#[test]
fn the_count_is_read_from_the_first_line() {
    assert_eq!(word_count(&source(&["3\n", "cat\n", "dog\n", "bird\n"])), Ok(3));
    assert_eq!(word_count(&source(&["1\r\n", "hangman\r\n"])), Ok(1));
    assert_eq!(word_count(&source(&["12"])), Ok(12));
    assert_eq!(word_count(&broken(&["2\n"])), Ok(2));
}

#[test]
fn a_missing_dictionary_is_not_found() {
    assert_eq!(word_count(&Source::Missing), Err(DictionaryError::NotFound));
    assert_eq!(pick(&Source::Missing, 0), Err(DictionaryError::NotFound));
    assert_eq!(next_word(&Source::Missing), Err(DictionaryError::NotFound));
}

#[test]
fn a_first_line_that_is_no_count_is_a_wrong_format() {
    assert_eq!(word_count(&source(&[])), Err(DictionaryError::WrongFormat));
    assert_eq!(word_count(&source(&["\n", "cat\n"])), Err(DictionaryError::WrongFormat));
    assert_eq!(word_count(&source(&["cat\n", "3\n"])), Err(DictionaryError::WrongFormat));
    assert_eq!(word_count(&source(&["-1\n", "cat\n"])), Err(DictionaryError::WrongFormat));
    assert_eq!(next_word(&source(&["many\n", "cat\n"])), Err(DictionaryError::WrongFormat));
}

#[test]
fn a_count_of_zero_is_a_wrong_format() {
    assert_eq!(word_count(&source(&["0\n"])), Err(DictionaryError::WrongFormat));
    assert_eq!(next_word(&source(&["0\n"])), Err(DictionaryError::WrongFormat));
    assert_eq!(next_word(&source(&["0\n", "cat\n"])), Err(DictionaryError::WrongFormat));
}

#[test]
fn a_first_line_that_could_not_be_read_is_a_read_error() {
    assert_eq!(word_count(&broken(&[])), Err(DictionaryError::ReadError));
    assert_eq!(next_word(&broken(&[])), Err(DictionaryError::ReadError));
}

#[test]
fn words_are_counted_from_zero_after_the_count() {
    let dictionary = source(&["3\n", "cat\n", "dog\r\n", "bird"]);
    assert_eq!(pick(&dictionary, 0), Ok("cat".to_string()));
    assert_eq!(pick(&dictionary, 1), Ok("dog".to_string()));
    assert_eq!(pick(&dictionary, 2), Ok("bird".to_string()));
}

#[test]
fn only_terminators_are_stripped_from_a_word() {
    let dictionary = source(&["2\n", " two words \n", "tab\t\r\n"]);
    assert_eq!(pick(&dictionary, 0), Ok(" two words ".to_string()));
    assert_eq!(pick(&dictionary, 1), Ok("tab\t".to_string()));
}

#[test]
fn past_the_end_of_the_file_the_word_is_empty() {
    let dictionary = source(&["3\n", "cat\n"]);
    assert_eq!(pick(&dictionary, 1), Ok(String::new()));
    assert_eq!(pick(&dictionary, 2), Ok(String::new()));
    assert_eq!(pick(&dictionary, usize::MAX), Ok(String::new()));
}

#[test]
fn past_a_failure_there_is_a_read_error() {
    let dictionary = broken(&["3\n", "cat\n"]);
    assert_eq!(pick(&dictionary, 0), Ok("cat".to_string()));
    assert_eq!(pick(&dictionary, 1), Err(DictionaryError::ReadError));
    assert_eq!(pick(&dictionary, usize::MAX), Err(DictionaryError::ReadError));
}

#[test]
fn lines_are_read_without_their_terminators() {
    let dictionary = source(&["2\r\n", "cat\n"]);
    assert_eq!(dictionary.read(0), Ok("2"));
    assert_eq!(dictionary.read(1), Ok("cat"));
    assert_eq!(dictionary.read(2), Ok(""));
    assert_eq!(broken(&["2\n"]).read(1), Err(DictionaryError::ReadError));
    assert_eq!(Source::Missing.read(0), Err(DictionaryError::NotFound));
}

#[test]
fn the_word_drawn_is_always_one_of_the_words() {
    let dictionary = source(&["3\n", "cat\n", "dog\n", "bird\n"]);
    for _ in 0..500 {
        let word = next_word(&dictionary).unwrap();
        assert!(word == "cat" || word == "dog" || word == "bird");
    }
}

#[test]
fn every_word_is_drawn_sooner_or_later() {
    let dictionary = source(&["3\n", "cat\n", "dog\n", "bird\n"]);
    let mut seen = [false, false, false];
    for _ in 0..2000 {
        match next_word(&dictionary).unwrap().as_str() {
            "cat" => seen[0] = true,
            "dog" => seen[1] = true,
            "bird" => seen[2] = true,
            other => panic!("{}", other),
        }
    }
    assert_eq!(seen, [true, true, true]);
}

#[test]
fn a_dictionary_of_one_word_gives_that_word() {
    let dictionary = source(&["1\n", "hangman\n"]);
    for _ in 0..50 {
        assert_eq!(next_word(&dictionary), Ok("hangman".to_string()));
    }
}

#[test]
fn words_beyond_the_count_are_never_drawn() {
    let dictionary = source(&["2\n", "cat\n", "dog\n", "bird\n"]);
    for _ in 0..500 {
        let word = next_word(&dictionary).unwrap();
        assert!(word == "cat" || word == "dog");
    }
}

#[test]
fn a_draw_past_a_failure_is_a_read_error() {
    let dictionary = broken(&["1\n"]);
    assert_eq!(next_word(&dictionary), Err(DictionaryError::ReadError));
}

#[test]
fn the_names_of_the_dictionary_errors() {
    assert_eq!(DictionaryError::NotFound.describe(), "DictionaryNotFound");
    assert_eq!(DictionaryError::WrongFormat.describe(), "WrongDictionaryFormat");
    assert_eq!(DictionaryError::ReadError.describe(), "ReadDictionaryError");
}

#[test]
fn a_count_is_what_std_parses_as_a_positive_i32() {
    let lines = [
        "1", "9", "10", "42", "+42", "0042", "2147483647", "2147483648", "4294967297", "0", "+0",
        "-0", "-1", "-2147483648", "", "+", "-", "+-1", "1+", "1 ", " 1", "1_000", "0x10", "1e3",
        "12a", "\u{663}", "\u{ff11}",
    ];
    for line in lines {
        let expected = line.parse::<i32>().ok().filter(|n| *n > 0);
        assert_eq!(parse_count(line), expected);
    }
}
