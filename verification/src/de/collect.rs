//! Gathering a sequence of outcomes into one: the first error wins.

use super::deserialization_error::{DeserError, DeserResult};
use vstd::prelude::*;

verus! {

/// Whether `results[i]` is an error and nothing before it is.
pub open spec fn is_first_error<T>(results: Seq<DeserResult<T>>, i: int) -> bool {
    &&& 0 <= i < results.len()
    &&& results[i] is Err
    &&& forall|j: int| 0 <= j < i ==> (#[trigger] results[j]) is Ok
}

/// Whether every outcome is a success.
pub open spec fn all_ok<T>(results: Seq<DeserResult<T>>) -> bool {
    forall|i: int| 0 <= i < results.len() ==> (#[trigger] results[i]) is Ok
}

/// The values of a sequence of successes.
pub open spec fn values_of<T>(results: Seq<DeserResult<T>>) -> Seq<T> {
    Seq::new(results.len(), |i: int| results[i]->Ok_0)
}

/// All the values, if every outcome is a success; else the first error.
pub open spec fn collected<T>(results: Seq<DeserResult<T>>) -> DeserResult<Seq<T>> {
    if exists|i: int| is_first_error(results, i) {
        Err(results[choose|i: int| is_first_error(results, i)]->Err_0)
    } else {
        Ok(values_of(results))
    }
}

/// The first error of a sequence is the error of the whole.
pub proof fn lemma_collected_err<T>(results: Seq<DeserResult<T>>, i: int)
    requires
        is_first_error(results, i),
    ensures
        collected(results) == Err::<Seq<T>, DeserError>(results[i]->Err_0),
{
}

/// A sequence of successes is gathered into its values, and only such a
/// sequence is gathered into anything.
pub proof fn lemma_collected_ok<T>(results: Seq<DeserResult<T>>)
    ensures
        all_ok(results) <==> collected(results) is Ok,
        all_ok(results) ==> collected(results) == Ok::<Seq<T>, DeserError>(values_of(results)),
{
    if !all_ok(results) {
        let k = lemma_some_first_error(results);
        lemma_collected_err(results, k);
    }
}

/// Where not every outcome is a success, one of the errors is the first.
pub proof fn lemma_some_first_error<T>(results: Seq<DeserResult<T>>) -> (k: int)
    requires
        !all_ok(results),
    ensures
        is_first_error(results, k),
{
    let bad = choose|i: int| 0 <= i < results.len() && !((#[trigger] results[i]) is Ok);
    lemma_first_error_before(results, bad)
}

/// At or before any error stands the first one.
proof fn lemma_first_error_before<T>(results: Seq<DeserResult<T>>, bad: int) -> (k: int)
    requires
        0 <= bad < results.len(),
        results[bad] is Err,
    ensures
        0 <= k <= bad,
        is_first_error(results, k),
    decreases bad,
{
    if forall|j: int| 0 <= j < bad ==> (#[trigger] results[j]) is Ok {
        bad
    } else {
        let earlier = choose|j: int| 0 <= j < bad && !((#[trigger] results[j]) is Ok);
        lemma_first_error_before(results, earlier)
    }
}

} // verus!
