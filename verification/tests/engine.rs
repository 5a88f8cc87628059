use rps::Choice;
use rps::RoundResult;
use rps::determine_result;
use rps::get_choice_from_result;
use rps::score;

#[test]
fn test_win_cons() {
    let result = determine_result((&Choice::Scissors, &Choice::Paper));
    assert_eq!(result, RoundResult::Win);
    let result = determine_result((&Choice::Paper, &Choice::Rock));
    assert_eq!(result, RoundResult::Win);
    let result = determine_result((&Choice::Rock, &Choice::Scissors));
    assert_eq!(result, RoundResult::Win);
}

#[test]
fn test_loss_cons() {
    let result = determine_result((&Choice::Paper, &Choice::Scissors));
    assert_eq!(result, RoundResult::Lose);
    let result = determine_result((&Choice::Rock, &Choice::Paper));
    assert_eq!(result, RoundResult::Lose);
    let result = determine_result((&Choice::Scissors, &Choice::Rock));
    assert_eq!(result, RoundResult::Lose);
}

#[test]
fn test_draw_cons() {
    let result = determine_result((&Choice::Paper, &Choice::Paper));
    assert_eq!(result, RoundResult::Draw);
    let result = determine_result((&Choice::Rock, &Choice::Rock));
    assert_eq!(result, RoundResult::Draw);
    let result = determine_result((&Choice::Scissors, &Choice::Scissors));
    assert_eq!(result, RoundResult::Draw);
}

#[test]
fn test_scoring_loss() {
    let result = score(&Choice::Rock, &RoundResult::Lose);
    assert_eq!(result, 1);
    let result = score(&Choice::Paper, &RoundResult::Lose);
    assert_eq!(result, 2);
    let result = score(&Choice::Scissors, &RoundResult::Lose);
    assert_eq!(result, 3);
}

#[test]
fn test_scoring_draw() {
    let result = score(&Choice::Rock, &RoundResult::Draw);
    assert_eq!(result, 4);
    let result = score(&Choice::Paper, &RoundResult::Draw);
    assert_eq!(result, 5);
    let result = score(&Choice::Scissors, &RoundResult::Draw);
    assert_eq!(result, 6);
}

#[test]
fn test_scoring_win() {
    let result = score(&Choice::Rock, &RoundResult::Win);
    assert_eq!(result, 7);
    let result = score(&Choice::Paper, &RoundResult::Win);
    assert_eq!(result, 8);
    let result = score(&Choice::Scissors, &RoundResult::Win);
    assert_eq!(result, 9);
}

#[test]
fn test_distinct_choices_see_opposite_results() {
    let choices = [Choice::Rock, Choice::Paper, Choice::Scissors];
    for a in choices {
        for b in choices {
            if a != b {
                let forward = determine_result((&a, &b));
                let backward = determine_result((&b, &a));
                assert_ne!(forward, RoundResult::Draw);
                assert_ne!(backward, RoundResult::Draw);
                assert_eq!(forward == RoundResult::Win, backward == RoundResult::Lose);
                assert_eq!(forward == RoundResult::Lose, backward == RoundResult::Win);
            }
        }
    }
}

#[test]
fn test_score_values_are_exactly_one_through_nine() {
    let choices = [Choice::Rock, Choice::Paper, Choice::Scissors];
    let results = [RoundResult::Lose, RoundResult::Draw, RoundResult::Win];
    let mut seen: Vec<u32> = Vec::new();
    for r in results {
        for c in choices {
            seen.push(score(&c, &r));
        }
    }
    seen.sort();
    assert_eq!(seen, vec![1, 2, 3, 4, 5, 6, 7, 8, 9]);
}

#[test]
fn test_derived_choice_replays_to_desired_result() {
    let choices = [Choice::Rock, Choice::Paper, Choice::Scissors];
    let results = [RoundResult::Win, RoundResult::Lose, RoundResult::Draw];
    for opp in choices {
        for desired in results {
            let derived = get_choice_from_result(&desired, &opp);
            assert_eq!(determine_result((&derived, &opp)), desired);
        }
    }
}
