//! Tournament totals: summing every round of a transcript under both
//! decoding strategies in one pass.

use vstd::prelude::*;
use crate::rounds::RecordError;
use crate::rounds::checked_round_result;
use crate::rounds::corrected_score;
use crate::rounds::literal_score;
use crate::rounds::record_error;
use crate::rounds::round_result_corrected;
use crate::rounds::valid_record;

verus! {

/// A rejected record: its position in the transcript and why it was
/// rejected.
#[derive(Debug, PartialEq, Eq, Structural, Clone, Copy)]
pub struct RecordFault {
    /// Position of the offending record, counted from zero.
    pub index: usize,
    /// Why that record was rejected.
    pub error: RecordError,
}

/// Every record of the transcript decodes cleanly.
pub open spec fn all_records_valid(rounds: Seq<Vec<char>>) -> bool {
    forall|i: int| 0 <= i < rounds.len() ==> valid_record(#[trigger] rounds[i]@)
}

/// The sum of the literal scores of every record of the transcript.
pub open spec fn literal_total(rounds: Seq<Vec<char>>) -> int
    decreases rounds.len(),
{
    if rounds.len() == 0 {
        0
    } else {
        literal_total(rounds.drop_last()) + literal_score(rounds.last()@)
    }
}

/// The sum of the corrected scores of every record of the transcript.
pub open spec fn corrected_total(rounds: Seq<Vec<char>>) -> int
    decreases rounds.len(),
{
    if rounds.len() == 0 {
        0
    } else {
        corrected_total(rounds.drop_last()) + corrected_score(rounds.last()@)
    }
}

/// Sums a whole transcript under both strategies in one pass.  On success
/// the pair holds the literal total and then the corrected total, each
/// exactly the sum of its per-round scores, so no state leaks between
/// rounds.  A malformed record aborts the run and is reported with its
/// position: every record before it was valid.
pub fn tournament_totals(rounds: &Vec<Vec<char>>) -> (r: Result<(u32, u32), RecordFault>)
    requires
        rounds@.len() * 9 <= u32::MAX,
    ensures
        match r {
            Ok(totals) => {
                &&& all_records_valid(rounds@)
                &&& totals.0 == literal_total(rounds@)
                &&& totals.1 == corrected_total(rounds@)
            },
            Err(fault) => {
                &&& fault.index < rounds@.len()
                &&& Some(fault.error) == record_error(rounds@[fault.index as int]@)
                &&& forall|j: int|
                    0 <= j < fault.index ==> valid_record(#[trigger] rounds@[j]@)
            },
        },
{
    let mut literal: u32 = 0;
    let mut corrected: u32 = 0;
    let n = rounds.len();

    for i in 0..n
        invariant
            n == rounds@.len(),
            rounds@.len() * 9 <= u32::MAX,
            forall|j: int| 0 <= j < i ==> valid_record(#[trigger] rounds@[j]@),
            literal == literal_total(rounds@.take(i as int)),
            corrected == corrected_total(rounds@.take(i as int)),
            literal <= 9 * i,
            corrected <= 9 * i,
    {
        let record = &rounds[i];
        let round_score = match checked_round_result(record.as_slice()) {
            Ok(s) => s,
            Err(e) => {
                return Err(RecordFault { index: i, error: e });
            },
        };
        let round_score_corrected = round_result_corrected(record.as_slice());
        proof {
            assert(rounds@.take(i + 1).drop_last() =~= rounds@.take(i as int));
            assert(rounds@.take(i + 1).last() == rounds@[i as int]);
        }
        literal = literal + round_score;
        corrected = corrected + round_score_corrected;
    }
    proof {
        assert(rounds@.take(n as int) =~= rounds@);
    }
    Ok((literal, corrected))
}

} // verus!
