//! Scoring for an encoded rock-paper-scissors tournament.
//!
//! A tournament transcript is a list of round records, each a line of at
//! least three characters: the opponent's encoded choice, a separator, and
//! the player's encoded token.  The same token column can be read two ways:
//! literally, as the player's own choice, or corrected, as the outcome the
//! player must reach.  This crate models both readings, determines the
//! outcome of a choice pair, scores each round, and sums a whole transcript
//! under both strategies.

pub mod rounds;
pub mod rules;
pub mod tally;

pub use rounds::RecordError;
pub use rounds::checked_round_result;
pub use rounds::checked_round_result_corrected;
pub use rounds::convert_opp;
pub use rounds::convert_prot;
pub use rounds::convert_result;
pub use rounds::round_result;
pub use rounds::round_result_corrected;
pub use rules::Choice;
pub use rules::RoundResult;
pub use rules::determine_result;
pub use rules::get_choice_from_result;
pub use rules::score;
pub use tally::RecordFault;
pub use tally::tournament_totals;
