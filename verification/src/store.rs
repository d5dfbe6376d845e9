//! What the handlers expect of a store: three tables with unique ids and
//! names, where every dish of a meal exists. This is the meaning of the
//! store's commands, stated as mathematics; the laws of the service are
//! stated against it.

use vstd::prelude::*;
use crate::diets::models::DietView;
use crate::meals::models::{DishView, MealView, NewMealView};
use crate::meals::ninjas_api::clamp;
use crate::protocol::{CommandView, OutcomeView};
use crate::records::{Kind, NewRecordView, RecordView, RowsView};

verus! {

/// The records of one kind, in the order in which they were inserted, and
/// the id that the next one gets.
pub struct Table {
    pub rows: Seq<RecordView>,
    pub next_id: int,
}

impl Table {
    /// Whether a record has this id.
    pub open spec fn has_id(self, id: i32) -> bool {
        exists|i: int| 0 <= i < self.rows.len() && (#[trigger] self.rows[i]).id() == id
    }

    /// Whether a record has this name.
    pub open spec fn has_name(self, name: Seq<char>) -> bool {
        exists|i: int| 0 <= i < self.rows.len() && (#[trigger] self.rows[i]).name() == name
    }

    /// The place of a record with this id.
    pub open spec fn index_of_id(self, id: i32) -> int {
        choose|i: int| 0 <= i < self.rows.len() && (#[trigger] self.rows[i]).id() == id
    }

    /// The place of a record with this name.
    pub open spec fn index_of_name(self, name: Seq<char>) -> int {
        choose|i: int| 0 <= i < self.rows.len() && (#[trigger] self.rows[i]).name() == name
    }

    /// The record with this id, if there is one.
    pub open spec fn by_id(self, id: i32) -> Option<RecordView> {
        if self.has_id(id) {
            Some(self.rows[self.index_of_id(id)])
        } else {
            None
        }
    }

    /// The record with this name, if there is one.
    pub open spec fn by_name(self, name: Seq<char>) -> Option<RecordView> {
        if self.has_name(name) {
            Some(self.rows[self.index_of_name(name)])
        } else {
            None
        }
    }

    /// A table of a kind is well formed when all its records are of that
    /// kind, no two share an id or a name, and every id is positive and
    /// below the next one to give.
    pub open spec fn wf(self, kind: Kind) -> bool {
        &&& 1 <= self.next_id <= i32::MAX + 1
        &&& forall|i: int|
            0 <= i < self.rows.len() ==> (#[trigger] self.rows[i]).kind() == kind && 1
                <= self.rows[i].id() < self.next_id
        &&& forall|i: int, j: int|
            0 <= i < j < self.rows.len() ==> (#[trigger] self.rows[i]).id() != (
            #[trigger] self.rows[j]).id() && self.rows[i].name() != self.rows[j].name()
    }

    /// The table without the record at a place.
    pub open spec fn without(self, i: int) -> Table {
        Table { rows: self.rows.remove(i), next_id: self.next_id }
    }
}

/// The records of a table as a list of their kind.
pub open spec fn rows_of(kind: Kind, rows: Seq<RecordView>) -> RowsView {
    match kind {
        Kind::Dish => RowsView::Dishes(rows.map_values(|r: RecordView| r->Dish_0)),
        Kind::Meal => RowsView::Meals(rows.map_values(|r: RecordView| r->Meal_0)),
        Kind::Diet => RowsView::Diets(rows.map_values(|r: RecordView| r->Diet_0)),
    }
}

/// Whether a meal holds the dish with this id.
pub open spec fn refers_to(meal: MealView, dish: i32) -> bool {
    meal.appetizer == Some(dish) || meal.main == Some(dish) || meal.dessert == Some(dish)
}

/// All that a store holds.
pub struct Db {
    pub dishes: Table,
    pub meals: Table,
    pub diets: Table,
}

impl Db {
    /// The table of a kind.
    pub open spec fn table(self, kind: Kind) -> Table {
        match kind {
            Kind::Dish => self.dishes,
            Kind::Meal => self.meals,
            Kind::Diet => self.diets,
        }
    }

    /// The store with another table of a kind.
    pub open spec fn with_table(self, kind: Kind, table: Table) -> Db {
        match kind {
            Kind::Dish => Db { dishes: table, ..self },
            Kind::Meal => Db { meals: table, ..self },
            Kind::Diet => Db { diets: table, ..self },
        }
    }

    /// Whether some meal holds the dish with this id.
    pub open spec fn dish_in_use(self, dish: i32) -> bool {
        exists|i: int|
            0 <= i < self.meals.rows.len() && refers_to(
                (#[trigger] self.meals.rows[i])->Meal_0,
                dish,
            )
    }

    /// A store is well formed when its tables are and every dish that a
    /// meal holds exists.
    pub open spec fn wf(self) -> bool {
        &&& self.dishes.wf(Kind::Dish)
        &&& self.meals.wf(Kind::Meal)
        &&& self.diets.wf(Kind::Diet)
        &&& forall|i: int, dish: i32|
            0 <= i < self.meals.rows.len() && refers_to(
                (#[trigger] self.meals.rows[i])->Meal_0,
                dish,
            ) ==> #[trigger] self.dishes.has_id(dish)
    }

    /// The sum of one amount over the three dishes of a meal.
    pub open spec fn meal_total(self, meal: NewMealView, amount: spec_fn(DishView) -> i64) -> i64 {
        clamp(
            amount(self.dishes.by_id(meal.appetizer)->Some_0->Dish_0) + amount(
                self.dishes.by_id(meal.main)->Some_0->Dish_0,
            ) + amount(self.dishes.by_id(meal.dessert)->Some_0->Dish_0),
        )
    }

    /// The record that a new one becomes under an id. A dish and a diet keep
    /// their fields; a meal gets the nutrition of its three dishes together.
    pub open spec fn stored(self, new: NewRecordView, id: i32) -> RecordView {
        match new {
            NewRecordView::Dish(d) => RecordView::Dish(
                DishView {
                    id,
                    name: d.name,
                    cal: d.cal,
                    sodium: d.sodium,
                    sugar: d.sugar,
                    size: d.size,
                },
            ),
            NewRecordView::Meal(m) => RecordView::Meal(
                MealView {
                    id,
                    name: m.name,
                    appetizer: Some(m.appetizer),
                    main: Some(m.main),
                    dessert: Some(m.dessert),
                    cal: Some(self.meal_total(m, |d: DishView| d.cal)),
                    sodium: Some(self.meal_total(m, |d: DishView| d.sodium)),
                    sugar: Some(self.meal_total(m, |d: DishView| d.sugar)),
                },
            ),
            NewRecordView::Diet(d) => RecordView::Diet(
                DietView { id, name: d.name, cal: d.cal, sodium: d.sodium, sugar: d.sugar },
            ),
        }
    }

    /// Whether every dish that a new record refers to exists.
    pub open spec fn admits(self, new: NewRecordView) -> bool {
        match new {
            NewRecordView::Meal(m) => self.dishes.has_id(m.appetizer) && self.dishes.has_id(
                m.main,
            ) && self.dishes.has_id(m.dessert),
            _ => true,
        }
    }

    /// Inserts a record. A name that is taken is a conflict; a dish that
    /// does not exist, or ids that have run out, a rejection; otherwise the
    /// record is stored last in its table under the next id.
    pub open spec fn insert(self, new: NewRecordView) -> (Db, OutcomeView) {
        let table = self.table(new.kind());
        if table.has_name(new.name()) {
            (self, OutcomeView::Conflict)
        } else if !self.admits(new) || table.next_id > i32::MAX {
            (self, OutcomeView::Rejected)
        } else {
            let record = self.stored(new, table.next_id as i32);
            (
                self.with_table(
                    new.kind(),
                    Table { rows: table.rows.push(record), next_id: table.next_id + 1 },
                ),
                OutcomeView::Created(record),
            )
        }
    }

    /// Replaces the fields of a meal. A meal that does not exist is missing;
    /// a name that another meal has, or a dish that does not exist, makes
    /// the store fail; otherwise the meal keeps its id and its place.
    pub open spec fn update(self, id: i32, meal: NewMealView) -> (Db, OutcomeView) {
        if !self.meals.has_id(id) {
            (self, OutcomeView::Missing)
        } else {
            let at = self.meals.index_of_id(id);
            if self.meals.without(at).has_name(meal.name) || !self.admits(
                NewRecordView::Meal(meal),
            ) {
                (self, OutcomeView::Failed)
            } else {
                let record = self.stored(NewRecordView::Meal(meal), id);
                (
                    Db {
                        meals: Table {
                            rows: self.meals.rows.update(at, record),
                            next_id: self.meals.next_id,
                        },
                        ..self
                    },
                    OutcomeView::Applied,
                )
            }
        }
    }

    /// Deletes the record at a place of a table. A dish that a meal holds
    /// cannot be deleted: the store fails.
    pub open spec fn delete_at(self, kind: Kind, at: int) -> (Db, OutcomeView) {
        let table = self.table(kind);
        if kind == Kind::Dish && self.dish_in_use(table.rows[at].id()) {
            (self, OutcomeView::Failed)
        } else {
            (self.with_table(kind, table.without(at)), OutcomeView::Applied)
        }
    }

    /// What a command does to the store and what comes of it. The commands
    /// that are not for the store leave it as it is and fail.
    pub open spec fn answer(self, command: CommandView) -> (Db, OutcomeView) {
        match command {
            CommandView::List(kind) => (
                self,
                OutcomeView::Listed(rows_of(kind, self.table(kind).rows)),
            ),
            CommandView::FindById(kind, id) => match self.table(kind).by_id(id) {
                Some(record) => (self, OutcomeView::Found(record)),
                None => (self, OutcomeView::Missing),
            },
            CommandView::FindByName(kind, name) => match self.table(kind).by_name(name) {
                Some(record) => (self, OutcomeView::Found(record)),
                None => (self, OutcomeView::Missing),
            },
            CommandView::Insert(new) => self.insert(new),
            CommandView::Update(id, meal) => self.update(id, meal),
            CommandView::DeleteById(kind, id) => if self.table(kind).has_id(id) {
                self.delete_at(kind, self.table(kind).index_of_id(id))
            } else {
                (self, OutcomeView::Missing)
            },
            CommandView::DeleteByName(kind, name) => if self.table(kind).has_name(name) {
                self.delete_at(kind, self.table(kind).index_of_name(name))
            } else {
                (self, OutcomeView::Missing)
            },
            _ => (self, OutcomeView::Failed),
        }
    }
}

/// The empty store.
pub open spec fn empty_db() -> Db {
    let table = Table { rows: Seq::<RecordView>::empty(), next_id: 1 };
    Db { dishes: table, meals: table, diets: table }
}

} // verus!
