use hangman::stage::{
    decimal_text, drawing, print_stage, BOTH_ARMS, BOTH_LEGS, EMPTY_GALLOWS, HEAD, ONE_ARM,
    ONE_LEG, TORSO,
};

fn frame(rows: [&str; 3]) -> String {
    let mut text = String::from("\n");
    text.push_str("                    +---+\n");
    text.push_str("                    |   |\n");
    for row in rows {
        text.push_str(row);
        text.push('\n');
    }
    text.push_str("                        |\n");
    text.push_str("                    =========\n");
    text.push_str("                ");
    text
}

const POST: &str = "                        |";
const HEAD_ROW: &str = "                    O   |";

#[test]
fn the_seven_drawings() {
    assert_eq!(EMPTY_GALLOWS, frame([POST, POST, POST]));
    assert_eq!(HEAD, frame([HEAD_ROW, POST, POST]));
    assert_eq!(TORSO, frame([HEAD_ROW, "                    |   |", POST]));
    assert_eq!(ONE_ARM, frame([HEAD_ROW, "                   /|   |", POST]));
    assert_eq!(BOTH_ARMS, frame([HEAD_ROW, "                   /|\\  |", POST]));
    assert_eq!(
        ONE_LEG,
        frame([HEAD_ROW, "                   /|\\  |", "                   /    |"])
    );
    assert_eq!(
        BOTH_LEGS,
        frame([HEAD_ROW, "                   /|\\  |", "                   / \\  |"])
    );
}

#[test]
fn one_drawing_for_each_count_up_to_six() {
    assert_eq!(drawing(0), Some(EMPTY_GALLOWS));
    assert_eq!(drawing(1), Some(HEAD));
    assert_eq!(drawing(2), Some(TORSO));
    assert_eq!(drawing(3), Some(ONE_ARM));
    assert_eq!(drawing(4), Some(BOTH_ARMS));
    assert_eq!(drawing(5), Some(ONE_LEG));
    assert_eq!(drawing(6), Some(BOTH_LEGS));
    assert_eq!(drawing(7), None);
    assert_eq!(drawing(usize::MAX), None);
}

#[test]
fn numbers_in_decimal() {
    assert_eq!(decimal_text(0), "0");
    assert_eq!(decimal_text(6), "6");
    assert_eq!(decimal_text(9), "9");
    assert_eq!(decimal_text(10), "10");
    assert_eq!(decimal_text(105), "105");
    assert_eq!(decimal_text(1234567890), "1234567890");
    assert_eq!(decimal_text(usize::MAX), format!("{}", usize::MAX));
}

#[test]
fn a_stage_is_an_empty_line_the_drawing_the_count_and_the_mask() {
    let mut out = vec!["before".to_string()];
    print_stage(&mut out, &['*', 'a', '*'], 3);
    assert_eq!(
        out,
        vec![
            "before".to_string(),
            "".to_string(),
            ONE_ARM.to_string(),
            "mistakes - 3".to_string(),
            "['*', 'a', '*']".to_string(),
        ]
    );
}

#[test]
fn every_count_of_a_round_has_its_stage() {
    let drawings = [EMPTY_GALLOWS, HEAD, TORSO, ONE_ARM, BOTH_ARMS, ONE_LEG, BOTH_LEGS];
    for mistakes in 0..7 {
        let mut out = Vec::new();
        print_stage(&mut out, &['*'], mistakes);
        assert_eq!(out.len(), 4);
        assert_eq!(out[0], "");
        assert_eq!(out[1], drawings[mistakes]);
        assert_eq!(out[2], format!("mistakes - {}", mistakes));
        assert_eq!(out[3], "['*']");
    }
}

#[test]
fn a_count_beyond_six_has_no_drawing() {
    let mut out = Vec::new();
    print_stage(&mut out, &['*', '*'], 7);
    assert_eq!(
        out,
        vec!["".to_string(), "mistakes - 7".to_string(), "['*', '*']".to_string()]
    );
}

#[test]
fn the_mask_is_shown_as_a_list_of_quoted_characters() {
    let mut out = Vec::new();
    print_stage(&mut out, &[], 0);
    assert_eq!(out[3], "[]");
    let mut out = Vec::new();
    print_stage(&mut out, &['\'', '*', '\t', 'q'], 0);
    assert_eq!(out[3], "['\\'', '*', '\\t', 'q']");
    assert_eq!(out[3], format!("{:?}", ['\'', '*', '\t', 'q']));
}

#[test]
fn a_stage_around_a_given_mask_line() {
    let mut out = Vec::new();
    hangman::stage::write_stage(&mut out, "c a *", 6);
    assert_eq!(
        out,
        vec![
            "".to_string(),
            BOTH_LEGS.to_string(),
            "mistakes - 6".to_string(),
            "c a *".to_string(),
        ]
    );
    let mut out = Vec::new();
    hangman::stage::write_stage(&mut out, "", 12);
    assert_eq!(out, vec!["".to_string(), "mistakes - 12".to_string(), "".to_string()]);
}
