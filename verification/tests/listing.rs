use crsw::zeit::listing::{
    choose_id, digit_runs_fit, first_game_id, game_url, AVAILABLE, DIGITS,
};

#[test]
fn first_listed_puzzle_is_chosen() {
    assert_eq!(first_game_id("[{\"id\": 4711}, {\"id\": 12}]"), Ok(4711));
    assert_eq!(
        first_game_id(" [ { \"name\": \"x\", \"id\": 3 } ] "),
        Ok(3)
    );
    assert_eq!(first_game_id("[{\"id\": 0}]"), Ok(0));
}

#[test]
fn listing_without_a_number_is_reported() {
    let complaint = Err(String::from("Not able to parse game id"));
    assert_eq!(first_game_id("[]"), complaint);
    assert_eq!(first_game_id("{}"), complaint);
    assert_eq!(first_game_id("{\"id\": 5}"), complaint);
    assert_eq!(first_game_id("[{\"id\": \"5\"}]"), complaint);
    assert_eq!(first_game_id("[{\"id\": -5}]"), complaint);
    assert_eq!(first_game_id("[{\"id\": 1.5}]"), complaint);
    assert_eq!(first_game_id("[{\"nr\": 5}]"), complaint);
    assert_eq!(first_game_id("4711"), complaint);
    assert_eq!(first_game_id("null"), complaint);
}

#[test]
fn text_that_is_not_json_is_reported() {
    assert_eq!(
        first_game_id("[{\"id\": 4711}"),
        Err(String::from(
            "Unable to parse response as Json with error:\nUnexpected end of JSON"
        ))
    );
    assert_eq!(
        first_game_id(""),
        Err(String::from(
            "Unable to parse response as Json with error:\nUnexpected end of JSON"
        ))
    );
    assert_eq!(
        first_game_id("<html>"),
        Err(String::from(
            "Unable to parse response as Json with error:\nUnexpected character: < at (1:1)"
        ))
    );
}

#[test]
fn outcome_of_reading_decides_the_choice() {
    assert_eq!(choose_id(Ok(Some(9))), Ok(9));
    assert_eq!(
        choose_id(Ok(None)),
        Err(String::from("Not able to parse game id"))
    );
    assert_eq!(
        choose_id(Err(String::from("broken"))),
        Err(String::from(
            "Unable to parse response as Json with error:\nbroken"
        ))
    );
}

#[test]
fn address_of_a_puzzle_ends_in_its_number() {
    assert_eq!(game_url(4711), "https://spiele.zeit.de/eckeapi/game/4711");
    assert_eq!(game_url(0), "https://spiele.zeit.de/eckeapi/game/0");
    assert_eq!(
        AVAILABLE,
        "https://spiele.zeit.de/eckeapi/game/available/regular"
    );
}

/// A listing whose first entry has an `id` with `zeros` zeros behind the
/// decimal point.
fn listing_with_fraction(zeros: usize) -> String {
    format!("[{{\"id\": 0.{}}}]", "0".repeat(zeros))
}

#[test]
fn longest_run_of_digits_is_still_read() {
    let listing = listing_with_fraction(DIGITS);
    assert!(digit_runs_fit(&listing));
    assert_eq!(
        first_game_id(&listing),
        Err(String::from("Not able to parse game id"))
    );
    let listing = format!("[{{\"id\": 7, \"nr\": {}}}]", "9".repeat(DIGITS));
    assert_eq!(first_game_id(&listing), Ok(7));
}

#[test]
fn run_of_digits_beyond_the_limit_is_reported() {
    let complaint = Err(String::from(
        "Not able to read a listing with more than 32767 digits in a row",
    ));
    let listing = listing_with_fraction(DIGITS + 1);
    assert!(!digit_runs_fit(&listing));
    assert_eq!(first_game_id(&listing), complaint);
    assert_eq!(first_game_id(&listing_with_fraction(40_000)), complaint);
    assert_eq!(first_game_id(&"1".repeat(DIGITS + 1)), complaint);
    // The digits need not belong to a number, nor the text be JSON.
    assert_eq!(
        first_game_id(&format!("[{{\"id\": 7, \"name\": \"{}\"}}]", "5".repeat(DIGITS + 5))),
        complaint
    );
}

#[test]
fn runs_of_digits_are_counted_apart() {
    assert_eq!(DIGITS, 32_767);
    assert!(digit_runs_fit(""));
    assert!(digit_runs_fit("no digit at all"));
    let half = "8".repeat(DIGITS / 2 + 1);
    // Many digits, but no run is too long.
    let text = format!("[{}, {}, {}.{}]", half, half, half, half);
    assert!(digit_runs_fit(&text));
    assert!(!digit_runs_fit(&format!("{}{}", half, half)));
    assert!(digit_runs_fit(&format!("{}ä{}", half, half)));
    // A long listing passes as long as its runs are short.
    let long: String = (0..20_000).map(|i| format!("{{\"id\": {}}},", i)).collect();
    assert!(long.len() > 200_000);
    assert_eq!(first_game_id(&format!("[{}{{}}]", long)), Ok(0));
}
