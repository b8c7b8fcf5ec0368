use sbcli::command::{parse_input, Command};

#[test]
fn logout_is_recognised() {
    let (c, rest) = parse_input("logout");
    assert_eq!(c, Command::Logout);
    assert_eq!(rest, "");
}

#[test]
fn logout_ignores_ascii_case() {
    assert_eq!(parse_input("LOGOUT").0, Command::Logout);
    assert_eq!(parse_input("LoGoUt").0, Command::Logout);
}

#[test]
fn only_the_first_word_counts() {
    assert_eq!(parse_input("logout now").0, Command::Logout);
    assert_eq!(parse_input("logout\tplease").0, Command::Logout);
    assert_eq!(parse_input("logout\r\n").0, Command::Logout);
    assert_eq!(parse_input("help logout").0, Command::Unknown);
}

#[test]
fn other_words_are_unknown() {
    assert_eq!(parse_input("logouts").0, Command::Unknown);
    assert_eq!(parse_input("log out").0, Command::Unknown);
    assert_eq!(parse_input("logou").0, Command::Unknown);
    assert_eq!(parse_input("").0, Command::Unknown);
    assert_eq!(parse_input("l\u{f6}gout").0, Command::Unknown);
}

#[test]
fn leading_whitespace_makes_an_empty_word() {
    assert_eq!(parse_input(" logout").0, Command::Unknown);
}

#[test]
fn the_remainder_is_always_empty() {
    assert_eq!(parse_input("logout and more").1, "");
    assert_eq!(parse_input("anything else").1, "");
}
