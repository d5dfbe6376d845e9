//! The diet filter: which meals a diet admits.

use vstd::prelude::*;
use crate::meals::models::{Diet, DietView, Meal, MealView};

verus! {

/// Whether an amount is known and no greater than a bound.
pub open spec fn at_most(amount: Option<i64>, bound: i64) -> bool {
    match amount {
        Some(a) => a <= bound,
        None => false,
    }
}

/// Whether a diet admits a meal: the meal's calories, sodium and sugar must
/// each be known and no greater than the diet's bound for it.
pub open spec fn within(meal: MealView, diet: DietView) -> bool {
    &&& at_most(meal.cal, diet.cal)
    &&& at_most(meal.sodium, diet.sodium)
    &&& at_most(meal.sugar, diet.sugar)
}

/// The views of the meals of a list.
pub open spec fn meals_view(meals: Seq<Meal>) -> Seq<MealView> {
    meals.map_values(|m: Meal| m@)
}

/// The meals that a diet admits, in the order of the list.
pub open spec fn admitted(meals: Seq<MealView>, diet: DietView) -> Seq<MealView> {
    meals.filter(|m: MealView| within(m, diet))
}

fn amount_at_most(amount: Option<i64>, bound: i64) -> (ok: bool)
    ensures
        ok == at_most(amount, bound),
{
    match amount {
        Some(a) => a <= bound,
        None => false,
    }
}

/// Tells whether a diet admits a meal.
pub fn meal_within(meal: &Meal, diet: &Diet) -> (ok: bool)
    ensures
        ok == within(meal@, diet@),
{
    amount_at_most(meal.cal, diet.cal) && amount_at_most(meal.sodium, diet.sodium)
        && amount_at_most(meal.sugar, diet.sugar)
}

/// Keeps the meals that a diet admits, in their order.
pub fn filter_meals(meals: Vec<Meal>, diet: &Diet) -> (kept: Vec<Meal>)
    ensures
        meals_view(kept@) == admitted(meals_view(meals@), diet@),
{
    let ghost all = meals_view(meals@);
    let ghost pred = |m: MealView| within(m, diet@);
    let mut kept: Vec<Meal> = Vec::new();
    let mut i: usize = 0;
    proof {
        reveal(Seq::filter);
        assert(all.take(0).filter(pred) =~= meals_view(kept@));
    }
    while i < meals.len()
        invariant
            i <= meals.len(),
            all == meals_view(meals@),
            pred == (|m: MealView| within(m, diet@)),
            meals_view(kept@) == all.take(i as int).filter(pred),
        decreases meals.len() - i,
    {
        let ghost before = meals_view(kept@);
        proof {
            let next = all.take(i + 1);
            assert(next.drop_last() =~= all.take(i as int));
            assert(next.last() == meals@[i as int]@);
            reveal(Seq::filter);
        }
        if meal_within(&meals[i], diet) {
            kept.push(meals[i].clone());
            assert(meals_view(kept@) =~= before.push(meals@[i as int]@));
        }
        i += 1;
    }
    assert(all.take(i as int) =~= all);
    kept
}

/// Every meal that the filter keeps is within each of the diet's bounds, and
/// a meal of which an amount is unknown is never kept.
pub proof fn admitted_meals_are_within(meals: Seq<MealView>, diet: DietView, i: int)
    requires
        0 <= i < admitted(meals, diet).len(),
    ensures
        within(admitted(meals, diet)[i], diet),
        admitted(meals, diet)[i].cal is Some && admitted(meals, diet)[i].cal->Some_0 <= diet.cal,
        admitted(meals, diet)[i].sodium is Some && admitted(meals, diet)[i].sodium->Some_0
            <= diet.sodium,
        admitted(meals, diet)[i].sugar is Some && admitted(meals, diet)[i].sugar->Some_0
            <= diet.sugar,
        meals.contains(admitted(meals, diet)[i]),
{
    let pred = |m: MealView| within(m, diet);
    meals.lemma_filter_pred(pred, i);
    assert(admitted(meals, diet).contains(admitted(meals, diet)[i]));
    meals.lemma_filter_contains_rev(pred, admitted(meals, diet)[i]);
}

/// The filter leaves out no meal that the diet admits.
pub proof fn meals_within_are_admitted(meals: Seq<MealView>, diet: DietView, i: int)
    requires
        0 <= i < meals.len(),
        within(meals[i], diet),
    ensures
        admitted(meals, diet).contains(meals[i]),
{
    let pred = |m: MealView| within(m, diet);
    meals.lemma_filter_contains(pred, i);
}

} // verus!
