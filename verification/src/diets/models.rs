//! The records of the diets service and the request that creates one.

use vstd::prelude::*;
use crate::meals::models::{copy_name, name_view};

verus! {

/// A diet as the store holds it: a name and an upper bound for each of
/// calories, sodium and sugar, in thousandths of their units.
#[derive(Debug, PartialEq, Eq)]
pub struct Diet {
    pub id: i32,
    pub name: String,
    pub cal: i64,
    pub sodium: i64,
    pub sugar: i64,
}

/// The mathematical value of a [`Diet`].
pub struct DietView {
    pub id: i32,
    pub name: Seq<char>,
    pub cal: i64,
    pub sodium: i64,
    pub sugar: i64,
}

impl View for Diet {
    type V = DietView;

    open spec fn view(&self) -> DietView {
        DietView {
            id: self.id,
            name: self.name@,
            cal: self.cal,
            sodium: self.sodium,
            sugar: self.sugar,
        }
    }
}

impl Clone for Diet {
    fn clone(&self) -> (res: Self)
        ensures
            res@ == self@,
    {
        Diet {
            id: self.id,
            name: self.name.clone(),
            cal: self.cal,
            sodium: self.sodium,
            sugar: self.sugar,
        }
    }
}

/// The body of a request that creates a diet. Any field may be absent; an
/// amount that is not a number counts as absent.
#[derive(Debug, PartialEq, Eq)]
pub struct ReqDiet {
    pub name: Option<String>,
    pub cal: Option<i64>,
    pub sodium: Option<i64>,
    pub sugar: Option<i64>,
}

/// The mathematical value of a [`ReqDiet`].
pub struct ReqDietView {
    pub name: Option<Seq<char>>,
    pub cal: Option<i64>,
    pub sodium: Option<i64>,
    pub sugar: Option<i64>,
}

impl View for ReqDiet {
    type V = ReqDietView;

    open spec fn view(&self) -> ReqDietView {
        ReqDietView {
            name: name_view(self.name),
            cal: self.cal,
            sodium: self.sodium,
            sugar: self.sugar,
        }
    }
}

impl Clone for ReqDiet {
    fn clone(&self) -> (res: Self)
        ensures
            res@ == self@,
    {
        ReqDiet {
            name: copy_name(&self.name),
            cal: self.cal,
            sodium: self.sodium,
            sugar: self.sugar,
        }
    }
}

/// A diet that is to be inserted: a [`Diet`] without its id.
#[derive(Debug, PartialEq, Eq)]
pub struct NewDiet {
    pub name: String,
    pub cal: i64,
    pub sodium: i64,
    pub sugar: i64,
}

/// The mathematical value of a [`NewDiet`].
pub struct NewDietView {
    pub name: Seq<char>,
    pub cal: i64,
    pub sodium: i64,
    pub sugar: i64,
}

impl View for NewDiet {
    type V = NewDietView;

    open spec fn view(&self) -> NewDietView {
        NewDietView { name: self.name@, cal: self.cal, sodium: self.sodium, sugar: self.sugar }
    }
}

impl Clone for NewDiet {
    fn clone(&self) -> (res: Self)
        ensures
            res@ == self@,
    {
        NewDiet { name: self.name.clone(), cal: self.cal, sodium: self.sodium, sugar: self.sugar }
    }
}

} // verus!
