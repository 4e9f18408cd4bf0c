//! The listing of the available puzzles, from which the puzzle to fetch is
//! chosen, and the addresses under which listing and puzzles are found.

use crate::text::{decimal, push_decimal};
use vstd::prelude::*;
use vstd::string::{StringExecFns, StringSliceAdditionalSpecFns};

verus! {

/// Where the listing of the available puzzles is found.
pub const AVAILABLE: &'static str = "https://spiele.zeit.de/eckeapi/game/available/regular";

/// The longest run of digits that is handed to the parser. The parser
/// counts the digits of a fraction in a 16-bit exponent, one step for each
/// digit, so a longer run could take the exponent out of its range.
pub const DIGITS: usize = 32_767;

/// The byte writes a decimal digit.
pub open spec fn is_digit(byte: u8) -> bool {
    48 <= byte <= 57
}

/// Every byte from position `from` up to, not including, position `to` is a
/// digit.
pub open spec fn all_digits(bytes: Seq<u8>, from: int, to: int) -> bool {
    forall|k: int| from <= k < to ==> is_digit(#[trigger] bytes[k])
}

/// Nowhere in `bytes` do more than `limit` digits stand in a row.
pub open spec fn digit_runs_within(bytes: Seq<u8>, limit: int) -> bool {
    forall|from: int, to: int|
        0 <= from <= to <= bytes.len() && #[trigger] all_digits(bytes, from, to) ==> to - from
            <= limit
}

/// What the `json` crate reads from a text: the number under `key` in the
/// entry at `index` of the document, `None` where the text is JSON but
/// holds no such number, or the parser's complaint where it is not JSON.
pub uninterp spec fn json_number_at(text: Seq<char>, index: usize, key: Seq<char>) -> Result<
    Option<usize>,
    Seq<char>,
>;

/// Trusted: parses `text` with `json::parse` and reads `[index][key]` of
/// the document with `JsonValue::as_usize`; a parse error is given as the
/// text that `json::Error` displays. The contract only names the outcome:
/// it is [`json_number_at`] of the arguments.
///
/// The parser lowers the 16-bit exponent of a number by one for each digit
/// of its fraction, unchecked, so it is only handed texts in which no more
/// than [`DIGITS`] digits stand in a row.
#[verifier::external_body]
fn read_number_at(text: &str, index: usize, key: &str) -> (parsed: Result<Option<usize>, String>)
    requires
        digit_runs_within(text.spec_bytes(), DIGITS as int),
    ensures
        match parsed {
            Ok(number) => json_number_at(text@, index, key@) == Ok::<_, Seq<char>>(number),
            Err(e) => json_number_at(text@, index, key@) == Err::<Option<usize>, _>(e@),
        },
{
    match json::parse(text) {
        Ok(document) => Ok(document[index][key].as_usize()),
        Err(err) => Err(format!("{}", err)),
    }
}

/// Whether no more than [`DIGITS`] digits stand in a row anywhere in the
/// text.
pub fn digit_runs_fit(text: &str) -> (fit: bool)
    ensures
        fit == digit_runs_within(text.spec_bytes(), DIGITS as int),
{
    let bytes = text.as_bytes();
    let mut run: usize = 0;
    for k in 0..bytes.len()
        invariant
            bytes@ == text.spec_bytes(),
            run <= k,
            run <= DIGITS,
            all_digits(bytes@, k - run, k as int),
            run < k ==> !is_digit(bytes@[k - run - 1]),
            forall|from: int, to: int|
                0 <= from <= to <= k && #[trigger] all_digits(bytes@, from, to) ==> to - from
                    <= DIGITS,
    {
        if 48 <= bytes[k] && bytes[k] <= 57 {
            run = run + 1;
            if run > DIGITS {
                assert(all_digits(bytes@, k + 1 - run, k + 1));
                return false;
            }
        } else {
            run = 0;
        }
        assert forall|from: int, to: int|
            0 <= from <= to <= k + 1 && #[trigger] all_digits(bytes@, from, to) implies to - from
            <= DIGITS by {
            if to == k + 1 && from <= k {
                assert(is_digit(bytes@[k as int]));
                if from < k + 1 - run {
                    assert(is_digit(bytes@[k + 1 - run - 1]));
                }
            } else if to <= k {
                assert(all_digits(bytes@, from, to));
            }
        }
    }
    true
}

/// What is read from a listing: the `id` of its first entry.
pub open spec fn first_id(listing: Seq<char>) -> Result<Option<usize>, Seq<char>> {
    json_number_at(listing, 0, "id"@)
}

/// The number of the puzzle to fetch, given what was read from the listing:
/// the number that was found, or a complaint that says what went wrong.
pub open spec fn chosen_id(parsed: Result<Option<usize>, Seq<char>>) -> Result<usize, Seq<char>> {
    match parsed {
        Ok(Some(id)) => Ok(id),
        Ok(None) => Err("Not able to parse game id"@),
        Err(e) => Err("Unable to parse response as Json with error:\n"@ + e),
    }
}

/// The text of an outcome.
pub open spec fn outcome_text(outcome: Result<usize, String>) -> Result<usize, Seq<char>> {
    match outcome {
        Ok(id) => Ok(id),
        Err(e) => Err(e@),
    }
}

/// Chooses the puzzle to fetch, given what was read from the listing.
pub fn choose_id(parsed: Result<Option<usize>, String>) -> (outcome: Result<usize, String>)
    ensures
        outcome_text(outcome) == chosen_id(
            match parsed {
                Ok(id) => Ok(id),
                Err(e) => Err(e@),
            },
        ),
{
    match parsed {
        Ok(Some(id)) => Ok(id),
        Ok(None) => Err(String::from_str("Not able to parse game id")),
        Err(err) => {
            let mut e = String::from_str("Unable to parse response as Json with error:\n");
            e.append(err.as_str());
            Err(e)
        },
    }
}

/// What is made of a listing: the choice among what is read from it, or a
/// complaint of its own where a run of digits is too long to be read.
pub open spec fn listing_outcome(listing: &str) -> Result<usize, Seq<char>> {
    if digit_runs_within(listing.spec_bytes(), DIGITS as int) {
        chosen_id(first_id(listing@))
    } else {
        Err("Not able to read a listing with more than 32767 digits in a row"@)
    }
}

/// Chooses the puzzle to fetch from the text of the listing: the first one
/// listed. A listing with a run of digits too long for the parser is
/// reported and not read.
pub fn first_game_id(listing: &str) -> (outcome: Result<usize, String>)
    ensures
        outcome_text(outcome) == listing_outcome(listing),
{
    if digit_runs_fit(listing) {
        choose_id(read_number_at(listing, 0, "id"))
    } else {
        Err(String::from_str("Not able to read a listing with more than 32767 digits in a row"))
    }
}

/// Where the puzzle with the number `id` is found.
pub fn game_url(id: usize) -> (url: String)
    ensures
        url@ == "https://spiele.zeit.de/eckeapi/game/"@ + decimal(id as nat),
{
    let mut url = String::from_str("https://spiele.zeit.de/eckeapi/game/");
    push_decimal(&mut url, id);
    url
}

} // verus!
