//! The nutritional scoring engine.
//!
//! A meal's score is `(calories + protein + fiber) * scale_factor`, the
//! additions performed left to right, every operation IEEE-754 binary64
//! arithmetic. Each numeric field is carried as the bit pattern of the
//! double it stands for, so the contracts pin every result down to the bit.

use vstd::prelude::*;
use crate::ieee;
use crate::ieee::add_bits;
use crate::ieee::mul_bits;
use rayon::iter::IntoParallelRefIterator;
use rayon::iter::ParallelIterator;

verus! {

/// A meal's nutritional components. Each field holds the IEEE-754 binary64
/// bit pattern of the value it stands for.
#[derive(Clone, Copy, Debug, PartialEq, Eq, Structural)]
pub struct Meal {
    pub calories: u64,
    pub protein: u64,
    pub fiber: u64,
    pub scale_factor: u64,
}

/// The score of a meal: `(calories + protein + fiber) * scale_factor`, the
/// additions left to right, all in IEEE-754 binary64 arithmetic on the bit
/// patterns.
pub open spec fn score_spec(m: Meal) -> u64 {
    mul_bits(add_bits(add_bits(m.calories, m.protein), m.fiber), m.scale_factor)
}

/// The scores of a batch of meals, in input order: the i-th score is the
/// score of the i-th record, and no record affects any other's result.
pub open spec fn batch_scores_spec(meals: Seq<Meal>) -> Seq<u64> {
    meals.map_values(|m: Meal| score_spec(m))
}

/// Calculate the nutritional score for a meal.
pub fn calculate_nutritional_score(meal: &Meal) -> (score: u64)
    ensures
        score == score_spec(*meal),
{
    let sum = ieee::add_double(meal.calories, meal.protein);
    let sum = ieee::add_double(sum, meal.fiber);
    ieee::mul_double(sum, meal.scale_factor)
}

/// Calculate the nutritional score for a meal structure.
pub fn calculate_meal_score(meal: &Meal) -> (score: u64)
    ensures
        score == score_spec(*meal),
{
    calculate_nutritional_score(meal)
}

/// Batch calculate nutritional scores sequentially (for comparison).
pub fn batch_calculate_scores_sequential(meals: &[Meal]) -> (scores: Vec<u64>)
    ensures
        scores@.len() == meals@.len(),
        forall|i: int| 0 <= i < meals@.len() ==> scores@[i] == score_spec(meals@[i]),
        scores@ == batch_scores_spec(meals@),
{
    let mut scores: Vec<u64> = Vec::new();
    let mut i: usize = 0;
    while i < meals.len()
        invariant
            i <= meals@.len(),
            scores@.len() == i,
            forall|j: int| 0 <= j < i ==> scores@[j] == score_spec(meals@[j]),
        decreases meals@.len() - i,
    {
        let s = calculate_meal_score(&meals[i]);
        scores.push(s);
        i = i + 1;
    }
    proof {
        assert(scores@ =~= batch_scores_spec(meals@));
    }
    scores
}

/// Relies on rayon's `par_iter`/`map`/`collect`: a parallel map over a slice
/// is indexed, so collecting into a `Vec` places each result at its input's
/// position; the closure is the verified scoring function, whose contract
/// gives each element's value.
#[verifier::external_body]
fn par_map_scores(meals: &[Meal]) -> (scores: Vec<u64>)
    ensures
        scores@.len() == meals@.len(),
        forall|i: int| 0 <= i < meals@.len() ==> scores@[i] == score_spec(meals@[i]),
{
    meals.par_iter().map(calculate_nutritional_score).collect()
}

/// Batch calculate nutritional scores for multiple meals in parallel.
///
/// The records are independent, so they may be evaluated concurrently; the
/// output order tracks the input order regardless of execution order, and
/// the scores are bit-identical to sequential evaluation.
pub fn batch_calculate_scores(meals: &[Meal]) -> (scores: Vec<u64>)
    ensures
        scores@.len() == meals@.len(),
        forall|i: int| 0 <= i < meals@.len() ==> scores@[i] == score_spec(meals@[i]),
        scores@ == batch_scores_spec(meals@),
{
    let scores = par_map_scores(meals);
    proof {
        assert(scores@ =~= batch_scores_spec(meals@));
    }
    scores
}

/// Law: an empty batch yields an empty list of scores.
pub proof fn lemma_batch_empty()
    ensures
        batch_scores_spec(Seq::<Meal>::empty()) == Seq::<u64>::empty(),
{
    assert(batch_scores_spec(Seq::<Meal>::empty()) =~= Seq::<u64>::empty());
}

/// Law: batch scoring keeps the batch's length, and the score at each index
/// is the score of the record at that index, so no record's evaluation
/// affects any other's.
pub proof fn lemma_batch_pointwise(meals: Seq<Meal>)
    ensures
        batch_scores_spec(meals).len() == meals.len(),
        forall|i: int| 0 <= i < meals.len() ==> batch_scores_spec(meals)[i] == score_spec(meals[i]),
{
}

/// Law: scoring is pure. Every scoring function's contract pins its result
/// to `score_spec` (or `batch_scores_spec`), a function of the input bit
/// patterns alone, so two calls on identical input yield bit-identical
/// output.
pub proof fn lemma_score_deterministic(a: Meal, b: Meal, x: Seq<Meal>, y: Seq<Meal>)
    requires
        a == b,
        x == y,
    ensures
        score_spec(a) == score_spec(b),
        batch_scores_spec(x) == batch_scores_spec(y),
{
}

} // verus!
