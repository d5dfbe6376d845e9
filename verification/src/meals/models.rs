//! The records of the meals service and the requests that create them.
//!
//! Every amount (calories, sodium, sugar, serving size) is a whole number of
//! thousandths of its unit, so that sums and comparisons are exact.

use vstd::prelude::*;

verus! {

/// The view of an optional name.
pub open spec fn name_view(name: Option<String>) -> Option<Seq<char>> {
    match name {
        Some(s) => Some(s@),
        None => None,
    }
}

/// A copy of an optional name.
pub fn copy_name(name: &Option<String>) -> (copy: Option<String>)
    ensures
        name_view(copy) == name_view(*name),
{
    match name {
        Some(s) => Some(s.clone()),
        None => None,
    }
}

/// A dish as the store holds it.
#[derive(Debug, PartialEq, Eq)]
pub struct Dish {
    pub id: i32,
    pub name: String,
    pub cal: i64,
    pub sodium: i64,
    pub sugar: i64,
    pub size: i64,
}

/// The mathematical value of a [`Dish`].
pub struct DishView {
    pub id: i32,
    pub name: Seq<char>,
    pub cal: i64,
    pub sodium: i64,
    pub sugar: i64,
    pub size: i64,
}

impl View for Dish {
    type V = DishView;

    open spec fn view(&self) -> DishView {
        DishView {
            id: self.id,
            name: self.name@,
            cal: self.cal,
            sodium: self.sodium,
            sugar: self.sugar,
            size: self.size,
        }
    }
}

impl Clone for Dish {
    fn clone(&self) -> (res: Self)
        ensures
            res@ == self@,
    {
        Dish {
            id: self.id,
            name: self.name.clone(),
            cal: self.cal,
            sodium: self.sodium,
            sugar: self.sugar,
            size: self.size,
        }
    }
}

/// A dish that is to be inserted: a [`Dish`] without its id.
#[derive(Debug, PartialEq, Eq)]
pub struct NewDish {
    pub name: String,
    pub cal: i64,
    pub sodium: i64,
    pub sugar: i64,
    pub size: i64,
}

/// The mathematical value of a [`NewDish`].
pub struct NewDishView {
    pub name: Seq<char>,
    pub cal: i64,
    pub sodium: i64,
    pub sugar: i64,
    pub size: i64,
}

impl View for NewDish {
    type V = NewDishView;

    open spec fn view(&self) -> NewDishView {
        NewDishView {
            name: self.name@,
            cal: self.cal,
            sodium: self.sodium,
            sugar: self.sugar,
            size: self.size,
        }
    }
}

impl Clone for NewDish {
    fn clone(&self) -> (res: Self)
        ensures
            res@ == self@,
    {
        NewDish {
            name: self.name.clone(),
            cal: self.cal,
            sodium: self.sodium,
            sugar: self.sugar,
            size: self.size,
        }
    }
}

/// The body of a request that creates a dish. The name may be absent.
#[derive(Debug, PartialEq, Eq)]
pub struct ReqDish {
    pub name: Option<String>,
}

/// The mathematical value of a [`ReqDish`].
pub struct ReqDishView {
    pub name: Option<Seq<char>>,
}

impl View for ReqDish {
    type V = ReqDishView;

    open spec fn view(&self) -> ReqDishView {
        ReqDishView { name: name_view(self.name) }
    }
}

impl Clone for ReqDish {
    fn clone(&self) -> (res: Self)
        ensures
            res@ == self@,
    {
        ReqDish { name: copy_name(&self.name) }
    }
}

/// A meal as the store holds it: a name, up to three dishes, and the
/// nutrition of the whole where it is known.
#[derive(Debug, PartialEq, Eq)]
pub struct Meal {
    pub id: i32,
    pub name: String,
    pub appetizer: Option<i32>,
    pub main: Option<i32>,
    pub dessert: Option<i32>,
    pub cal: Option<i64>,
    pub sodium: Option<i64>,
    pub sugar: Option<i64>,
}

/// The mathematical value of a [`Meal`].
pub struct MealView {
    pub id: i32,
    pub name: Seq<char>,
    pub appetizer: Option<i32>,
    pub main: Option<i32>,
    pub dessert: Option<i32>,
    pub cal: Option<i64>,
    pub sodium: Option<i64>,
    pub sugar: Option<i64>,
}

impl View for Meal {
    type V = MealView;

    open spec fn view(&self) -> MealView {
        MealView {
            id: self.id,
            name: self.name@,
            appetizer: self.appetizer,
            main: self.main,
            dessert: self.dessert,
            cal: self.cal,
            sodium: self.sodium,
            sugar: self.sugar,
        }
    }
}

impl Clone for Meal {
    fn clone(&self) -> (res: Self)
        ensures
            res@ == self@,
    {
        Meal {
            id: self.id,
            name: self.name.clone(),
            appetizer: self.appetizer,
            main: self.main,
            dessert: self.dessert,
            cal: self.cal,
            sodium: self.sodium,
            sugar: self.sugar,
        }
    }
}

/// A meal that is to be inserted or that replaces another: a name and three dishes.
#[derive(Debug, PartialEq, Eq)]
pub struct NewMeal {
    pub name: String,
    pub appetizer: i32,
    pub main: i32,
    pub dessert: i32,
}

/// The mathematical value of a [`NewMeal`].
pub struct NewMealView {
    pub name: Seq<char>,
    pub appetizer: i32,
    pub main: i32,
    pub dessert: i32,
}

impl View for NewMeal {
    type V = NewMealView;

    open spec fn view(&self) -> NewMealView {
        NewMealView {
            name: self.name@,
            appetizer: self.appetizer,
            main: self.main,
            dessert: self.dessert,
        }
    }
}

impl Clone for NewMeal {
    fn clone(&self) -> (res: Self)
        ensures
            res@ == self@,
    {
        NewMeal {
            name: self.name.clone(),
            appetizer: self.appetizer,
            main: self.main,
            dessert: self.dessert,
        }
    }
}

/// The body of a request that creates or replaces a meal. Any field may be absent.
#[derive(Debug, PartialEq, Eq)]
pub struct ReqMeal {
    pub name: Option<String>,
    pub appetizer: Option<i32>,
    pub main: Option<i32>,
    pub dessert: Option<i32>,
}

/// The mathematical value of a [`ReqMeal`].
pub struct ReqMealView {
    pub name: Option<Seq<char>>,
    pub appetizer: Option<i32>,
    pub main: Option<i32>,
    pub dessert: Option<i32>,
}

impl View for ReqMeal {
    type V = ReqMealView;

    open spec fn view(&self) -> ReqMealView {
        ReqMealView {
            name: name_view(self.name),
            appetizer: self.appetizer,
            main: self.main,
            dessert: self.dessert,
        }
    }
}

impl Clone for ReqMeal {
    fn clone(&self) -> (res: Self)
        ensures
            res@ == self@,
    {
        ReqMeal {
            name: copy_name(&self.name),
            appetizer: self.appetizer,
            main: self.main,
            dessert: self.dessert,
        }
    }
}

/// The query of a meal listing: the diet by which to filter, if any.
#[derive(Debug, PartialEq, Eq)]
pub struct ReqDiet {
    pub diet: Option<String>,
}

/// The mathematical value of a [`ReqDiet`].
pub struct ReqDietView {
    pub diet: Option<Seq<char>>,
}

impl View for ReqDiet {
    type V = ReqDietView;

    open spec fn view(&self) -> ReqDietView {
        ReqDietView { diet: name_view(self.diet) }
    }
}

/// A diet as the diets service serves it: a name and three upper bounds.
#[derive(Debug, PartialEq, Eq)]
pub struct Diet {
    pub name: String,
    pub cal: i64,
    pub sodium: i64,
    pub sugar: i64,
}

/// The mathematical value of a [`Diet`].
pub struct DietView {
    pub name: Seq<char>,
    pub cal: i64,
    pub sodium: i64,
    pub sugar: i64,
}

impl View for Diet {
    type V = DietView;

    open spec fn view(&self) -> DietView {
        DietView { name: self.name@, cal: self.cal, sodium: self.sodium, sugar: self.sugar }
    }
}

impl Clone for Diet {
    fn clone(&self) -> (res: Self)
        ensures
            res@ == self@,
    {
        Diet { name: self.name.clone(), cal: self.cal, sodium: self.sodium, sugar: self.sugar }
    }
}

} // verus!
