//! Puzzles of the weekly "Um die Ecke gedacht" series.

use crate::text::same_text;
use crate::zeit::game::{document_text, Game};
use crate::zeit::render::solution_text;
use crate::{Config, Module};
use vstd::prelude::*;
use vstd::string::StringExecFns;

pub mod cell;
pub mod construct;
pub mod game;
pub mod grid;
pub mod laws;
pub mod listing;
pub mod placement;
pub mod render;

verus! {

/// What `execute` does with the arguments `before` and with what was
/// fetched: the arguments it leaves and the text, or the complaint, it
/// returns.
///
/// A complaint about the fetch is handed on as it is, and the arguments
/// stay. With a puzzle and without an argument the whole document is
/// returned. Else the last argument is taken off: `solution` gives the
/// solution listing, anything else is reported as unknown.
pub open spec fn executed(
    before: Seq<String>,
    fetched: Result<Game, String>,
    after: Seq<String>,
    result: Result<String, String>,
) -> bool {
    match fetched {
        Err(complaint) => after == before && result == Err::<String, String>(complaint),
        Ok(game) => if before.len() == 0 {
            &&& after == before
            &&& result matches Ok(text)
            &&& text@ == document_text(game@.game_nr, game@.grid, game@.questions)
        } else if before.last()@ == "solution"@ {
            &&& after == before.drop_last()
            &&& result matches Ok(text)
            &&& text@ == solution_text(game@.grid, game@.questions)
        } else {
            &&& after == before.drop_last()
            &&& result matches Err(e)
            &&& e@ == "Unknown argument: "@ + before.last()@
        },
    }
}

/// Carries out what the arguments ask for on the puzzle that was fetched,
/// and returns the text to print. Where the fetch failed, its complaint is
/// returned and no argument is taken.
pub fn execute(config: &mut Config, fetched: Result<Game, String>) -> (result: Result<
    String,
    String,
>)
    requires
        old(config).module == Module::Zeit,
    ensures
        final(config).module == old(config).module,
        executed(old(config).args@, fetched, final(config).args@, result),
{
    let game = match fetched {
        Ok(game) => game,
        Err(complaint) => {
            return Err(complaint);
        },
    };
    if let Some(arg) = config.args.pop() {
        if same_text(arg.as_str(), "solution") {
            Ok(crate::Game::solution(&game))
        } else {
            let mut e = String::from_str("Unknown argument: ");
            e.append(arg.as_str());
            Err(e)
        }
    } else {
        Ok(game.document())
    }
}

} // verus!
