//! The rule engine: choices, outcomes, outcome determination and scoring.

use vstd::prelude::*;

verus! {

/// One of the three hand shapes a player can throw in a round.
#[derive(Debug, PartialEq, Eq, Structural, Clone, Copy)]
pub enum Choice {
    Rock,
    Paper,
    Scissors,
}

/// The result of one round, seen from one player's side.
#[derive(Debug, PartialEq, Eq, Structural, Clone, Copy)]
pub enum RoundResult {
    Win,
    Lose,
    Draw,
}

/// `a` beats `b`: rock blunts scissors, scissors cut paper, paper wraps rock.
pub open spec fn beats(a: Choice, b: Choice) -> bool {
    ||| (a == Choice::Rock && b == Choice::Scissors)
    ||| (a == Choice::Scissors && b == Choice::Paper)
    ||| (a == Choice::Paper && b == Choice::Rock)
}

/// The result of a round from `mine`'s perspective when `mine` is played
/// against `theirs`.
pub open spec fn outcome_of(mine: Choice, theirs: Choice) -> RoundResult {
    if mine == theirs {
        RoundResult::Draw
    } else if beats(mine, theirs) {
        RoundResult::Win
    } else {
        RoundResult::Lose
    }
}

/// The points awarded for how a round ended: six for a win, three for a
/// draw, nothing for a loss.
pub open spec fn result_value(r: RoundResult) -> int {
    match r {
        RoundResult::Win => 6,
        RoundResult::Draw => 3,
        RoundResult::Lose => 0,
    }
}

/// The points awarded for the shape that was played: one for rock, two for
/// paper, three for scissors.
pub open spec fn choice_value(c: Choice) -> int {
    match c {
        Choice::Rock => 1,
        Choice::Paper => 2,
        Choice::Scissors => 3,
    }
}

/// A round's full score: the value of its result plus the value of the
/// choice that was played.
pub open spec fn score_of(c: Choice, r: RoundResult) -> int {
    result_value(r) + choice_value(c)
}

/// The choice a player must throw against `opp` so that the round ends in
/// `desired` from the player's perspective.
pub open spec fn choice_for(desired: RoundResult, opp: Choice) -> Choice {
    match desired {
        RoundResult::Draw => opp,
        RoundResult::Win => match opp {
            Choice::Rock => Choice::Paper,
            Choice::Paper => Choice::Scissors,
            Choice::Scissors => Choice::Rock,
        },
        RoundResult::Lose => match opp {
            Choice::Rock => Choice::Scissors,
            Choice::Paper => Choice::Rock,
            Choice::Scissors => Choice::Paper,
        },
    }
}

/// Determines the result of a round in which the first choice of the pair
/// is played against the second, from the first choice's perspective.
pub fn determine_result(choices: (&Choice, &Choice)) -> (r: RoundResult)
    ensures
        r == outcome_of(*choices.0, *choices.1),
{
    match (*choices.0, *choices.1) {
        (Choice::Scissors, Choice::Paper)
            | (Choice::Paper, Choice::Rock)
            | (Choice::Rock, Choice::Scissors) => RoundResult::Win,
        (Choice::Paper, Choice::Scissors)
            | (Choice::Scissors, Choice::Rock)
            | (Choice::Rock, Choice::Paper) => RoundResult::Lose,
        _ => RoundResult::Draw,
    }
}

/// Scores one round: the points for its result plus the points for the
/// choice that was played.  Every score lies between one and nine.
pub fn score(choice: &Choice, result: &RoundResult) -> (s: u32)
    ensures
        s == score_of(*choice, *result),
        1 <= s <= 9,
{
    let result_score: u32 = match result {
        RoundResult::Win => 6,
        RoundResult::Draw => 3,
        RoundResult::Lose => 0,
    };

    let choice_score: u32 = match choice {
        Choice::Rock => 1,
        Choice::Paper => 2,
        Choice::Scissors => 3,
    };

    result_score + choice_score
}

/// Derives the choice that reaches `result` against the opponent's choice
/// `opp`: the same shape for a draw, the beating shape for a win, the losing
/// shape for a loss.  Replaying the derived choice against `opp` yields
/// exactly `result`.
pub fn get_choice_from_result(result: &RoundResult, opp: &Choice) -> (c: Choice)
    ensures
        c == choice_for(*result, *opp),
        outcome_of(c, *opp) == *result,
{
    match result {
        RoundResult::Draw => *opp,
        RoundResult::Win => match opp {
            Choice::Rock => Choice::Paper,
            Choice::Paper => Choice::Scissors,
            Choice::Scissors => Choice::Rock,
        },
        RoundResult::Lose => match opp {
            Choice::Rock => Choice::Scissors,
            Choice::Paper => Choice::Rock,
            Choice::Scissors => Choice::Paper,
        },
    }
}

/// Outcome determination is anti-symmetric: a choice played against itself
/// always draws, and two distinct choices never draw — the two sides of the
/// same round see opposite results, one a win and the other a loss.
pub proof fn lemma_outcome_antisymmetric(a: Choice, b: Choice)
    ensures
        outcome_of(a, a) == RoundResult::Draw,
        a != b ==> (outcome_of(a, b) == RoundResult::Win <==> outcome_of(b, a)
            == RoundResult::Lose),
        a != b ==> (outcome_of(a, b) == RoundResult::Lose <==> outcome_of(b, a)
            == RoundResult::Win),
        a != b ==> outcome_of(a, b) != RoundResult::Draw,
{
}

/// Scoring is collision-free: every score lies between one and nine, and two
/// rounds score the same value only if they were played with the same choice
/// and ended with the same result.
pub proof fn lemma_score_distinct(c1: Choice, r1: RoundResult, c2: Choice, r2: RoundResult)
    ensures
        1 <= score_of(c1, r1) <= 9,
        score_of(c1, r1) == score_of(c2, r2) ==> c1 == c2 && r1 == r2,
{
}

/// Scoring covers the whole range: every value from one to nine is the score
/// of some choice and result pair.
pub proof fn lemma_score_onto(v: int)
    requires
        1 <= v <= 9,
    ensures
        exists|c: Choice, r: RoundResult| score_of(c, r) == v,
{
    assert(score_of(Choice::Rock, RoundResult::Lose) == 1);
    assert(score_of(Choice::Paper, RoundResult::Lose) == 2);
    assert(score_of(Choice::Scissors, RoundResult::Lose) == 3);
    assert(score_of(Choice::Rock, RoundResult::Draw) == 4);
    assert(score_of(Choice::Paper, RoundResult::Draw) == 5);
    assert(score_of(Choice::Scissors, RoundResult::Draw) == 6);
    assert(score_of(Choice::Rock, RoundResult::Win) == 7);
    assert(score_of(Choice::Paper, RoundResult::Win) == 8);
    assert(score_of(Choice::Scissors, RoundResult::Win) == 9);
}

/// Round trip between outcome determination and choice derivation: deriving
/// the choice for a desired result and replaying it against the same
/// opponent ends the round in exactly that result.
pub proof fn lemma_choice_round_trip(opp: Choice, desired: RoundResult)
    ensures
        outcome_of(choice_for(desired, opp), opp) == desired,
{
}

} // verus!
