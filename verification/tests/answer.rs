use weather_fetch::answer::Answer;

#[test]
fn yes_in_any_case_is_yes() {
    for line in ["yes", "YES", "Yes", "yEs", "yeS", "YEs", "yES", "YeS"] {
        assert_eq!(Answer::read(line), Answer::Yes, "{:?}", line);
    }
}

#[test]
fn no_in_any_case_is_no() {
    for line in ["no", "NO", "No", "nO"] {
        assert_eq!(Answer::read(line), Answer::No, "{:?}", line);
    }
}

#[test]
fn white_space_around_the_answer_is_left_out() {
    assert_eq!(Answer::read("yes\n"), Answer::Yes);
    assert_eq!(Answer::read("  Yes \r\n"), Answer::Yes);
    assert_eq!(Answer::read("\tno\n"), Answer::No);
    assert_eq!(Answer::read("\u{a0}NO\u{3000}"), Answer::No);
}

#[test]
fn anything_else_is_unrecognized() {
    for line in ["", "\n", "maybe", "y", "n", "yes please", "ye s", "yess", "nope", "oui", "1", "true"] {
        assert_eq!(Answer::read(line), Answer::Unrecognized, "{:?}", line);
    }
}

#[test]
fn letters_that_only_look_alike_are_unrecognized() {
    assert_eq!(Answer::read("ye\u{17f}"), Answer::Unrecognized);
    assert_eq!(Answer::read("ｙｅｓ"), Answer::Unrecognized);
    assert_eq!(Answer::read("nо"), Answer::Unrecognized);
}

#[test]
fn only_yes_wants_the_current_weather() {
    assert!(Answer::Yes.wants_current_weather());
    assert!(!Answer::No.wants_current_weather());
    assert!(!Answer::Unrecognized.wants_current_weather());
}

#[test]
fn only_unrecognized_owes_a_warning() {
    assert!(!Answer::Yes.is_unrecognized());
    assert!(!Answer::No.is_unrecognized());
    assert!(Answer::Unrecognized.is_unrecognized());
}

#[test]
fn read_agrees_with_lowering_the_whole_line() {
    let lines = [
        "yes", "YES\n", " no ", "No", "maybe", "", "yEs ", "ye\u{17f}", "\u{130}", "ΝΟ", "NΟ",
        "YES!", "\u{212a}", "n\u{4f}",
    ];
    for line in lines {
        let lowered = line.trim().to_lowercase();
        let expected = match lowered.as_str() {
            "yes" => Answer::Yes,
            "no" => Answer::No,
            _ => Answer::Unrecognized,
        };
        assert_eq!(Answer::read(line), expected, "{:?}", line);
    }
}
