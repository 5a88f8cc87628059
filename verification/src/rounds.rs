//! The round decoder: turning a raw record into a scored round under the
//! literal and the corrected reading of the player's token.

use vstd::prelude::*;
use crate::rules::Choice;
use crate::rules::RoundResult;
use crate::rules::choice_for;
use crate::rules::determine_result;
use crate::rules::get_choice_from_result;
use crate::rules::outcome_of;
use crate::rules::score;
use crate::rules::score_of;

verus! {

/// Why a raw round record was rejected.
#[derive(Debug, PartialEq, Eq, Structural, Clone, Copy)]
pub enum RecordError {
    /// The record holds fewer than the three characters a round needs.
    TooShort,
    /// The opponent's character is outside its mapping.
    InvalidOpponentChar,
    /// The player's character is outside its mapping.
    InvalidPlayerChar,
}

/// Decoding of the opponent's column: `A`/`a` is rock, `B`/`b` is paper,
/// `C`/`c` is scissors; anything else is unrecognised.
pub open spec fn opp_choice_of(c: char) -> Option<Choice> {
    if c == 'A' || c == 'a' {
        Some(Choice::Rock)
    } else if c == 'B' || c == 'b' {
        Some(Choice::Paper)
    } else if c == 'C' || c == 'c' {
        Some(Choice::Scissors)
    } else {
        None
    }
}

/// Literal decoding of the player's column: `X`/`x` is rock, `Y`/`y` is
/// paper, `Z`/`z` is scissors; anything else is unrecognised.
pub open spec fn player_choice_of(c: char) -> Option<Choice> {
    if c == 'X' || c == 'x' {
        Some(Choice::Rock)
    } else if c == 'Y' || c == 'y' {
        Some(Choice::Paper)
    } else if c == 'Z' || c == 'z' {
        Some(Choice::Scissors)
    } else {
        None
    }
}

/// Corrected decoding of the player's column: `X`/`x` asks for a loss,
/// `Y`/`y` for a draw, `Z`/`z` for a win; anything else is unrecognised.
/// It recognises exactly the characters that the literal decoding does.
pub open spec fn desired_result_of(c: char) -> Option<RoundResult> {
    if c == 'X' || c == 'x' {
        Some(RoundResult::Lose)
    } else if c == 'Y' || c == 'y' {
        Some(RoundResult::Draw)
    } else if c == 'Z' || c == 'z' {
        Some(RoundResult::Win)
    } else {
        None
    }
}

/// The first fault in a raw record, if any: it must hold at least three
/// characters, its first character must decode as an opponent choice, and
/// its third as a player token.  Characters past the third are ignored, and
/// both decoding strategies accept exactly the same records.
pub open spec fn record_error(s: Seq<char>) -> Option<RecordError> {
    if s.len() < 3 {
        Some(RecordError::TooShort)
    } else if opp_choice_of(s[0]) is None {
        Some(RecordError::InvalidOpponentChar)
    } else if player_choice_of(s[2]) is None {
        Some(RecordError::InvalidPlayerChar)
    } else {
        None
    }
}

/// A record that decodes cleanly under either strategy.
pub open spec fn valid_record(s: Seq<char>) -> bool {
    record_error(s) is None
}

/// The score of a valid record under the literal reading: the player's
/// token is the choice actually played, and the round's result is
/// determined against the opponent's choice.
pub open spec fn literal_score(s: Seq<char>) -> int
    recommends
        valid_record(s),
{
    match (opp_choice_of(s[0]), player_choice_of(s[2])) {
        (Some(opp), Some(mine)) => score_of(mine, outcome_of(mine, opp)),
        _ => 0,
    }
}

/// The score of a valid record under the corrected reading: the player's
/// token is the desired result, and the choice needed to reach it against
/// the opponent's choice is derived before scoring.
pub open spec fn corrected_score(s: Seq<char>) -> int
    recommends
        valid_record(s),
{
    match (opp_choice_of(s[0]), desired_result_of(s[2])) {
        (Some(opp), Some(desired)) => score_of(choice_for(desired, opp), desired),
        _ => 0,
    }
}

/// Decodes the opponent's character, `None` on any character outside the
/// mapping.
pub fn convert_opp(choice: char) -> (r: Option<Choice>)
    ensures
        r == opp_choice_of(choice),
{
    match choice {
        'A' | 'a' => Some(Choice::Rock),
        'B' | 'b' => Some(Choice::Paper),
        'C' | 'c' => Some(Choice::Scissors),
        _ => None,
    }
}

/// Decodes the player's character as a literal choice, `None` on any
/// character outside the mapping.
pub fn convert_prot(choice: char) -> (r: Option<Choice>)
    ensures
        r == player_choice_of(choice),
{
    match choice {
        'X' | 'x' => Some(Choice::Rock),
        'Y' | 'y' => Some(Choice::Paper),
        'Z' | 'z' => Some(Choice::Scissors),
        _ => None,
    }
}

/// Decodes the player's character as a desired result, `None` on any
/// character outside the mapping.
pub fn convert_result(c: char) -> (r: Option<RoundResult>)
    ensures
        r == desired_result_of(c),
{
    match c {
        'X' | 'x' => Some(RoundResult::Lose),
        'Y' | 'y' => Some(RoundResult::Draw),
        'Z' | 'z' => Some(RoundResult::Win),
        _ => None,
    }
}

/// Scores one valid record under the literal strategy.
pub fn round_result(chars: &[char]) -> (s: u32)
    requires
        valid_record(chars@),
    ensures
        s == literal_score(chars@),
        1 <= s <= 9,
{
    let mine = convert_prot(chars[2]).unwrap();
    let opp = convert_opp(chars[0]).unwrap();
    let result = determine_result((&mine, &opp));
    score(&mine, &result)
}

/// Scores one valid record under the corrected strategy.
pub fn round_result_corrected(chars: &[char]) -> (s: u32)
    requires
        valid_record(chars@),
    ensures
        s == corrected_score(chars@),
        1 <= s <= 9,
{
    let desired_result = convert_result(chars[2]).unwrap();
    let opponent_choice = convert_opp(chars[0]).unwrap();
    let prot_choice = get_choice_from_result(&desired_result, &opponent_choice);

    score(&prot_choice, &desired_result)
}

/// Scores one record under the literal strategy, rejecting a malformed
/// record with the exact fault instead of demanding a valid one.
pub fn checked_round_result(chars: &[char]) -> (r: Result<u32, RecordError>)
    ensures
        match r {
            Ok(s) => valid_record(chars@) && s == literal_score(chars@),
            Err(e) => Some(e) == record_error(chars@),
        },
{
    if chars.len() < 3 {
        return Err(RecordError::TooShort);
    }
    if convert_opp(chars[0]).is_none() {
        return Err(RecordError::InvalidOpponentChar);
    }
    if convert_prot(chars[2]).is_none() {
        return Err(RecordError::InvalidPlayerChar);
    }
    Ok(round_result(chars))
}

/// Scores one record under the corrected strategy, rejecting a malformed
/// record with the exact fault instead of demanding a valid one.
pub fn checked_round_result_corrected(chars: &[char]) -> (r: Result<u32, RecordError>)
    ensures
        match r {
            Ok(s) => valid_record(chars@) && s == corrected_score(chars@),
            Err(e) => Some(e) == record_error(chars@),
        },
{
    if chars.len() < 3 {
        return Err(RecordError::TooShort);
    }
    if convert_opp(chars[0]).is_none() {
        return Err(RecordError::InvalidOpponentChar);
    }
    if convert_result(chars[2]).is_none() {
        return Err(RecordError::InvalidPlayerChar);
    }
    Ok(round_result_corrected(chars))
}

} // verus!
