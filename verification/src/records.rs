//! What the three kinds of entity have in common: a record has a kind, an id
//! and a name, and records travel to and from the store under one type.

use vstd::prelude::*;
use crate::diets::models::{Diet, DietView, NewDiet, NewDietView, ReqDiet, ReqDietView};
use crate::meals::models::{
    Dish, DishView, Meal, MealView, NewDish, NewDishView, NewMeal, NewMealView, ReqDish,
    ReqDishView, ReqMeal, ReqMealView,
};

verus! {

/// The kinds of entity.
#[derive(Clone, Copy, Debug, PartialEq, Eq, Structural)]
pub enum Kind {
    Dish,
    Meal,
    Diet,
}

/// A stored record of any kind.
#[derive(Debug, PartialEq, Eq)]
pub enum Record {
    Dish(Dish),
    Meal(Meal),
    Diet(Diet),
}

/// The mathematical value of a [`Record`].
pub enum RecordView {
    Dish(DishView),
    Meal(MealView),
    Diet(DietView),
}

impl View for Record {
    type V = RecordView;

    open spec fn view(&self) -> RecordView {
        match self {
            Record::Dish(d) => RecordView::Dish(d@),
            Record::Meal(m) => RecordView::Meal(m@),
            Record::Diet(d) => RecordView::Diet(d@),
        }
    }
}

impl RecordView {
    pub open spec fn kind(self) -> Kind {
        match self {
            RecordView::Dish(_) => Kind::Dish,
            RecordView::Meal(_) => Kind::Meal,
            RecordView::Diet(_) => Kind::Diet,
        }
    }

    pub open spec fn id(self) -> i32 {
        match self {
            RecordView::Dish(d) => d.id,
            RecordView::Meal(m) => m.id,
            RecordView::Diet(d) => d.id,
        }
    }

    pub open spec fn name(self) -> Seq<char> {
        match self {
            RecordView::Dish(d) => d.name,
            RecordView::Meal(m) => m.name,
            RecordView::Diet(d) => d.name,
        }
    }
}

impl Clone for Record {
    fn clone(&self) -> (res: Self)
        ensures
            res@ == self@,
    {
        match self {
            Record::Dish(d) => Record::Dish(d.clone()),
            Record::Meal(m) => Record::Meal(m.clone()),
            Record::Diet(d) => Record::Diet(d.clone()),
        }
    }
}

impl Record {
    /// Whether the record has this name.
    pub fn is_named(&self, name: &String) -> (b: bool)
        ensures
            b == (self@.name() == name@),
    {
        match self {
            Record::Dish(d) => d.name == *name,
            Record::Meal(m) => m.name == *name,
            Record::Diet(d) => d.name == *name,
        }
    }

    /// The kind of the record.
    pub fn kind(&self) -> (k: Kind)
        ensures
            k == self@.kind(),
    {
        match self {
            Record::Dish(_) => Kind::Dish,
            Record::Meal(_) => Kind::Meal,
            Record::Diet(_) => Kind::Diet,
        }
    }

    /// The id under which the store holds the record.
    pub fn id(&self) -> (id: i32)
        ensures
            id == self@.id(),
    {
        match self {
            Record::Dish(d) => d.id,
            Record::Meal(m) => m.id,
            Record::Diet(d) => d.id,
        }
    }
}

/// A record that is to be inserted.
#[derive(Debug, PartialEq, Eq)]
pub enum NewRecord {
    Dish(NewDish),
    Meal(NewMeal),
    Diet(NewDiet),
}

/// The mathematical value of a [`NewRecord`].
pub enum NewRecordView {
    Dish(NewDishView),
    Meal(NewMealView),
    Diet(NewDietView),
}

impl View for NewRecord {
    type V = NewRecordView;

    open spec fn view(&self) -> NewRecordView {
        match self {
            NewRecord::Dish(d) => NewRecordView::Dish(d@),
            NewRecord::Meal(m) => NewRecordView::Meal(m@),
            NewRecord::Diet(d) => NewRecordView::Diet(d@),
        }
    }
}

impl NewRecordView {
    pub open spec fn kind(self) -> Kind {
        match self {
            NewRecordView::Dish(_) => Kind::Dish,
            NewRecordView::Meal(_) => Kind::Meal,
            NewRecordView::Diet(_) => Kind::Diet,
        }
    }

    pub open spec fn name(self) -> Seq<char> {
        match self {
            NewRecordView::Dish(d) => d.name,
            NewRecordView::Meal(m) => m.name,
            NewRecordView::Diet(d) => d.name,
        }
    }
}

impl NewRecord {
    /// The kind of the record.
    pub fn kind(&self) -> (k: Kind)
        ensures
            k == self@.kind(),
    {
        match self {
            NewRecord::Dish(_) => Kind::Dish,
            NewRecord::Meal(_) => Kind::Meal,
            NewRecord::Diet(_) => Kind::Diet,
        }
    }

    /// A copy of the name under which the record is to be stored.
    pub fn name(&self) -> (name: String)
        ensures
            name@ == self@.name(),
    {
        match self {
            NewRecord::Dish(d) => d.name.clone(),
            NewRecord::Meal(m) => m.name.clone(),
            NewRecord::Diet(d) => d.name.clone(),
        }
    }
}

/// All the records of one kind, in the order in which the store lists them.
#[derive(Debug, PartialEq, Eq)]
pub enum Rows {
    Dishes(Vec<Dish>),
    Meals(Vec<Meal>),
    Diets(Vec<Diet>),
}

/// The mathematical value of a [`Rows`].
pub enum RowsView {
    Dishes(Seq<DishView>),
    Meals(Seq<MealView>),
    Diets(Seq<DietView>),
}

impl View for Rows {
    type V = RowsView;

    open spec fn view(&self) -> RowsView {
        match self {
            Rows::Dishes(v) => RowsView::Dishes(v@.map_values(|d: Dish| d@)),
            Rows::Meals(v) => RowsView::Meals(v@.map_values(|m: Meal| m@)),
            Rows::Diets(v) => RowsView::Diets(v@.map_values(|d: Diet| d@)),
        }
    }
}

impl RowsView {
    pub open spec fn kind(self) -> Kind {
        match self {
            RowsView::Dishes(_) => Kind::Dish,
            RowsView::Meals(_) => Kind::Meal,
            RowsView::Diets(_) => Kind::Diet,
        }
    }
}

impl Rows {
    /// The kind of the records.
    pub fn kind(&self) -> (k: Kind)
        ensures
            k == self@.kind(),
    {
        match self {
            Rows::Dishes(_) => Kind::Dish,
            Rows::Meals(_) => Kind::Meal,
            Rows::Diets(_) => Kind::Diet,
        }
    }
}

/// A request body once it is decoded, in the shape that its kind of entity expects.
#[derive(Debug, PartialEq, Eq)]
pub enum Body {
    Dish(ReqDish),
    Meal(ReqMeal),
    Diet(ReqDiet),
}

/// The mathematical value of a [`Body`].
pub enum BodyView {
    Dish(ReqDishView),
    Meal(ReqMealView),
    Diet(ReqDietView),
}

impl View for Body {
    type V = BodyView;

    open spec fn view(&self) -> BodyView {
        match self {
            Body::Dish(d) => BodyView::Dish(d@),
            Body::Meal(m) => BodyView::Meal(m@),
            Body::Diet(d) => BodyView::Diet(d@),
        }
    }
}

impl Clone for Body {
    fn clone(&self) -> (res: Self)
        ensures
            res@ == self@,
    {
        match self {
            Body::Dish(d) => Body::Dish(d.clone()),
            Body::Meal(m) => Body::Meal(m.clone()),
            Body::Diet(d) => Body::Diet(d.clone()),
        }
    }
}

} // verus!
