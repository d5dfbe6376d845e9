//! A store that keeps its records in memory and answers the commands of the
//! handlers as a store is meant to.

use vstd::prelude::*;
use crate::diets::models::Diet;
use crate::meals::models::{Dish, Meal, NewMeal};
use crate::meals::ninjas_api::clamp;
use crate::protocol::{Command, Outcome};
use crate::records::{Kind, NewRecord, NewRecordView, Record, RecordView, Rows};
use crate::store::{refers_to, rows_of, Db, Table};
use crate::store_laws::{lemma_found, lemma_unique, store_stays_well_formed};

verus! {

/// The views of the records of a list.
pub open spec fn records_view(rows: Seq<Record>) -> Seq<RecordView> {
    rows.map_values(|r: Record| r@)
}

/// The records of one kind.
#[derive(Debug, PartialEq, Eq)]
struct MemoryTable {
    rows: Vec<Record>,
    next_id: i64,
}

impl View for MemoryTable {
    type V = Table;

    closed spec fn view(&self) -> Table {
        Table { rows: records_view(self.rows@), next_id: self.next_id as int }
    }
}

impl MemoryTable {
    fn new() -> (table: MemoryTable)
        ensures
            table@ == (Table { rows: Seq::<RecordView>::empty(), next_id: 1 }),
    {
        let table = MemoryTable { rows: Vec::new(), next_id: 1 };
        assert(table@.rows =~= Seq::<RecordView>::empty());
        table
    }

    /// The place of the first record with this id.
    fn find_id(&self, id: i32) -> (place: Option<usize>)
        ensures
            match place {
                Some(i) => i < self@.rows.len() && self@.rows[i as int].id() == id,
                None => !self@.has_id(id),
            },
    {
        let mut i: usize = 0;
        while i < self.rows.len()
            invariant
                i <= self.rows.len(),
                forall|j: int| 0 <= j < i ==> (#[trigger] self@.rows[j]).id() != id,
            decreases self.rows.len() - i,
        {
            if self.rows[i].id() == id {
                return Some(i);
            }
            i += 1;
        }
        None
    }

    /// The place of the first record with this name, not counting the
    /// record at `skip`.
    fn find_name(&self, name: &String, skip: Option<usize>) -> (place: Option<usize>)
        ensures
            match place {
                Some(i) => i < self@.rows.len() && self@.rows[i as int].name() == name@ && skip
                    != Some(i),
                None => forall|j: int|
                    0 <= j < self@.rows.len() && !(skip matches Some(s) && s == j) ==> (
                    #[trigger] self@.rows[j]).name() != name@,
            },
    {
        let mut i: usize = 0;
        while i < self.rows.len()
            invariant
                i <= self.rows.len(),
                forall|j: int|
                    0 <= j < i && !(skip matches Some(s) && s == j) ==> (
                    #[trigger] self@.rows[j]).name() != name@,
            decreases self.rows.len() - i,
        {
            let skipped = match skip {
                Some(s) => s == i,
                None => false,
            };
            if !skipped && self.rows[i].is_named(name) {
                return Some(i);
            }
            i += 1;
        }
        None
    }

    /// A copy of the record at a place.
    fn copy_at(&self, at: usize) -> (record: Record)
        requires
            at < self@.rows.len(),
        ensures
            record@ == self@.rows[at as int],
    {
        self.rows[at].clone()
    }

    /// Copies of all the records, as a list of their kind.
    fn list(&self, kind: Kind) -> (rows: Rows)
        requires
            self@.wf(kind),
        ensures
            rows@ == rows_of(kind, self@.rows),
    {
        match kind {
            Kind::Dish => {
                let mut out: Vec<Dish> = Vec::new();
                let mut i: usize = 0;
                while i < self.rows.len()
                    invariant
                        i <= self.rows.len(),
                        self@.wf(Kind::Dish),
                        out@.map_values(|d: Dish| d@) =~= self@.rows.take(i as int).map_values(
                            |r: RecordView| r->Dish_0,
                        ),
                    decreases self.rows.len() - i,
                {
                    let ghost before = out@.map_values(|d: Dish| d@);
                    assert(self@.rows[i as int].kind() == Kind::Dish);
                    if let Record::Dish(d) = &self.rows[i] {
                        out.push(d.clone());
                        assert(out@.map_values(|d: Dish| d@) =~= before.push(d@));
                    }
                    assert(self@.rows.take(i + 1) =~= self@.rows.take(i as int).push(
                        self@.rows[i as int],
                    ));
                    i += 1;
                }
                assert(self@.rows.take(i as int) =~= self@.rows);
                Rows::Dishes(out)
            },
            Kind::Meal => {
                let mut out: Vec<Meal> = Vec::new();
                let mut i: usize = 0;
                while i < self.rows.len()
                    invariant
                        i <= self.rows.len(),
                        self@.wf(Kind::Meal),
                        out@.map_values(|m: Meal| m@) =~= self@.rows.take(i as int).map_values(
                            |r: RecordView| r->Meal_0,
                        ),
                    decreases self.rows.len() - i,
                {
                    let ghost before = out@.map_values(|m: Meal| m@);
                    assert(self@.rows[i as int].kind() == Kind::Meal);
                    if let Record::Meal(m) = &self.rows[i] {
                        out.push(m.clone());
                        assert(out@.map_values(|m: Meal| m@) =~= before.push(m@));
                    }
                    assert(self@.rows.take(i + 1) =~= self@.rows.take(i as int).push(
                        self@.rows[i as int],
                    ));
                    i += 1;
                }
                assert(self@.rows.take(i as int) =~= self@.rows);
                Rows::Meals(out)
            },
            Kind::Diet => {
                let mut out: Vec<Diet> = Vec::new();
                let mut i: usize = 0;
                while i < self.rows.len()
                    invariant
                        i <= self.rows.len(),
                        self@.wf(Kind::Diet),
                        out@.map_values(|d: Diet| d@) =~= self@.rows.take(i as int).map_values(
                            |r: RecordView| r->Diet_0,
                        ),
                    decreases self.rows.len() - i,
                {
                    let ghost before = out@.map_values(|d: Diet| d@);
                    assert(self@.rows[i as int].kind() == Kind::Diet);
                    if let Record::Diet(d) = &self.rows[i] {
                        out.push(d.clone());
                        assert(out@.map_values(|d: Diet| d@) =~= before.push(d@));
                    }
                    assert(self@.rows.take(i + 1) =~= self@.rows.take(i as int).push(
                        self@.rows[i as int],
                    ));
                    i += 1;
                }
                assert(self@.rows.take(i as int) =~= self@.rows);
                Rows::Diets(out)
            },
        }
    }

    /// Appends a record under the next id.
    fn append(&mut self, record: Record)
        requires
            old(self).next_id <= i32::MAX,
        ensures
            final(self)@ == (Table {
                rows: old(self)@.rows.push(record@),
                next_id: old(self)@.next_id + 1,
            }),
    {
        self.rows.push(record);
        self.next_id = self.next_id + 1;
        assert(self@.rows =~= old(self)@.rows.push(record@));
    }

    /// Puts a record in the place of another.
    fn replace(&mut self, at: usize, record: Record)
        requires
            at < old(self)@.rows.len(),
        ensures
            final(self)@ == (Table {
                rows: old(self)@.rows.update(at as int, record@),
                next_id: old(self)@.next_id,
            }),
    {
        self.rows.set(at, record);
        assert(self@.rows =~= old(self)@.rows.update(at as int, record@));
    }

    /// Takes out the record at a place.
    fn take_out(&mut self, at: usize)
        requires
            at < old(self)@.rows.len(),
        ensures
            final(self)@ == old(self)@.without(at as int),
    {
        let _ = self.rows.remove(at);
        assert(self@.rows =~= old(self)@.rows.remove(at as int));
    }
}

/// The sum of three amounts, held to the range of an amount.
fn sum_of_three(a: i64, b: i64, c: i64) -> (sum: i64)
    ensures
        sum == clamp(a + b + c),
{
    let total: i128 = a as i128 + b as i128 + c as i128;
    if total > i64::MAX as i128 {
        i64::MAX
    } else if total < i64::MIN as i128 {
        i64::MIN
    } else {
        total as i64
    }
}

/// A store in memory: dishes, meals and diets, each with unique ids and
/// names, where every dish of a meal exists.
#[derive(Debug, PartialEq, Eq)]
pub struct MemoryStore {
    dishes: MemoryTable,
    meals: MemoryTable,
    diets: MemoryTable,
}

impl View for MemoryStore {
    type V = Db;

    closed spec fn view(&self) -> Db {
        Db { dishes: self.dishes@, meals: self.meals@, diets: self.diets@ }
    }
}

impl MemoryStore {
    /// A store that holds nothing.
    pub fn new() -> (store: MemoryStore)
        ensures
            store@ == crate::store::empty_db(),
            store@.wf(),
    {
        MemoryStore {
            dishes: MemoryTable::new(),
            meals: MemoryTable::new(),
            diets: MemoryTable::new(),
        }
    }

    fn table(&self, kind: Kind) -> (table: &MemoryTable)
        ensures
            table@ == self@.table(kind),
    {
        match kind {
            Kind::Dish => &self.dishes,
            Kind::Meal => &self.meals,
            Kind::Diet => &self.diets,
        }
    }

    /// The calories, sodium and sugar of the dish with an id, if there is one.
    fn dish_amounts(&self, id: i32) -> (amounts: Option<(i64, i64, i64)>)
        requires
            self@.wf(),
        ensures
            match amounts {
                Some((cal, sodium, sugar)) => {
                    &&& self@.dishes.has_id(id)
                    &&& cal == self@.dishes.by_id(id)->Some_0->Dish_0.cal
                    &&& sodium == self@.dishes.by_id(id)->Some_0->Dish_0.sodium
                    &&& sugar == self@.dishes.by_id(id)->Some_0->Dish_0.sugar
                },
                None => !self@.dishes.has_id(id),
            },
    {
        match self.dishes.find_id(id) {
            Some(at) => {
                proof {
                    lemma_unique(self@.dishes, Kind::Dish, at as int);
                }
                match &self.dishes.rows[at] {
                    Record::Dish(d) => Some((d.cal, d.sodium, d.sugar)),
                    _ => None,
                }
            },
            None => None,
        }
    }

    /// Whether some meal holds the dish with this id.
    fn in_use(&self, dish: i32) -> (b: bool)
        requires
            self@.wf(),
        ensures
            b == self@.dish_in_use(dish),
    {
        let mut i: usize = 0;
        while i < self.meals.rows.len()
            invariant
                i <= self.meals.rows.len(),
                self@.wf(),
                forall|j: int|
                    0 <= j < i ==> !refers_to((#[trigger] self@.meals.rows[j])->Meal_0, dish),
            decreases self.meals.rows.len() - i,
        {
            assert(self@.meals.rows[i as int].kind() == Kind::Meal);
            if let Record::Meal(m) = &self.meals.rows[i] {
                let appetizer = match m.appetizer {
                    Some(d) => d == dish,
                    None => false,
                };
                let main = match m.main {
                    Some(d) => d == dish,
                    None => false,
                };
                let dessert = match m.dessert {
                    Some(d) => d == dish,
                    None => false,
                };
                if appetizer || main || dessert {
                    return true;
                }
            }
            i += 1;
        }
        false
    }

    /// The meal that a new one becomes under an id, where all its dishes exist.
    fn meal_record(&self, meal: NewMeal, id: i32) -> (record: Option<Record>)
        requires
            self@.wf(),
        ensures
            match record {
                Some(r) => self@.admits(NewRecordView::Meal(meal@)) && r@ == self@.stored(
                    NewRecordView::Meal(meal@),
                    id,
                ),
                None => !self@.admits(NewRecordView::Meal(meal@)),
            },
    {
        let appetizer = self.dish_amounts(meal.appetizer);
        let main = self.dish_amounts(meal.main);
        let dessert = self.dish_amounts(meal.dessert);
        match (appetizer, main, dessert) {
            (Some(a), Some(m), Some(d)) => Some(
                Record::Meal(
                    Meal {
                        id,
                        name: meal.name,
                        appetizer: Some(meal.appetizer),
                        main: Some(meal.main),
                        dessert: Some(meal.dessert),
                        cal: Some(sum_of_three(a.0, m.0, d.0)),
                        sodium: Some(sum_of_three(a.1, m.1, d.1)),
                        sugar: Some(sum_of_three(a.2, m.2, d.2)),
                    },
                ),
            ),
            _ => None,
        }
    }

    /// The record that a new one becomes under an id, where every dish that
    /// it refers to exists.
    fn record_of(&self, new: NewRecord, id: i32) -> (record: Option<Record>)
        requires
            self@.wf(),
        ensures
            match record {
                Some(r) => self@.admits(new@) && r@ == self@.stored(new@, id),
                None => !self@.admits(new@),
            },
    {
        match new {
            NewRecord::Dish(d) => Some(
                Record::Dish(
                    Dish {
                        id,
                        name: d.name,
                        cal: d.cal,
                        sodium: d.sodium,
                        sugar: d.sugar,
                        size: d.size,
                    },
                ),
            ),
            NewRecord::Meal(m) => self.meal_record(m, id),
            NewRecord::Diet(d) => Some(
                Record::Diet(
                    Diet { id, name: d.name, cal: d.cal, sodium: d.sodium, sugar: d.sugar },
                ),
            ),
        }
    }

    fn insert(&mut self, new: NewRecord) -> (outcome: Outcome)
        requires
            old(self)@.wf(),
        ensures
            final(self)@ == old(self)@.insert(new@).0,
            outcome@ == old(self)@.insert(new@).1,
    {
        let kind = new.kind();
        let name = new.name();
        if self.table(kind).find_name(&name, None).is_some() {
            return Outcome::Conflict;
        }
        let next: i64 = self.table(kind).next_id;
        if next > 2147483647 {
            return Outcome::Rejected;
        }
        match self.record_of(new, next as i32) {
            Some(record) => {
                let created = record.clone();
                match kind {
                    Kind::Dish => self.dishes.append(record),
                    Kind::Meal => self.meals.append(record),
                    Kind::Diet => self.diets.append(record),
                }
                Outcome::Created(created)
            },
            None => Outcome::Rejected,
        }
    }

    fn update(&mut self, id: i32, meal: NewMeal) -> (outcome: Outcome)
        requires
            old(self)@.wf(),
        ensures
            final(self)@ == old(self)@.update(id, meal@).0,
            outcome@ == old(self)@.update(id, meal@).1,
    {
        let found = self.meals.find_id(id);
        match found {
            None => Outcome::Missing,
            Some(at) => {
                let ghost less = self@.meals.without(at as int);
                proof {
                    lemma_unique(self@.meals, Kind::Meal, at as int);
                    assert(self@.meals.index_of_id(id) == at);
                    assert forall|k: int| 0 <= k < less.rows.len() implies #[trigger] less.rows[k]
                        == self@.meals.rows[if k < at {
                        k
                    } else {
                        k + 1
                    }] by {}
                }
                let other = self.meals.find_name(&meal.name, Some(at));
                match other {
                    Some(other) => {
                        proof {
                            let k = if other < at {
                                other as int
                            } else {
                                other - 1
                            };
                            assert(less.rows[k] == self@.meals.rows[other as int]);
                            assert(less.has_name(meal@.name));
                        }
                        Outcome::Failed
                    },
                    None => {
                        proof {
                            if less.has_name(meal@.name) {
                                let k = less.index_of_name(meal@.name);
                                let j = if k < at {
                                    k
                                } else {
                                    k + 1
                                };
                                assert(less.rows[k] == self@.meals.rows[j]);
                                assert(0 <= k < less.rows.len());
                                assert(self@.meals.rows[j].name() != meal@.name);
                            }
                            assert(!less.has_name(meal@.name));
                        }
                        match self.meal_record(meal, id) {
                            Some(record) => {
                                self.meals.replace(at, record);
                                Outcome::Applied
                            },
                            None => Outcome::Failed,
                        }
                    },
                }
            },
        }
    }

    fn delete_at(&mut self, kind: Kind, at: usize) -> (outcome: Outcome)
        requires
            old(self)@.wf(),
            at < old(self)@.table(kind).rows.len(),
        ensures
            final(self)@ == old(self)@.delete_at(kind, at as int).0,
            outcome@ == old(self)@.delete_at(kind, at as int).1,
    {
        match kind {
            Kind::Dish => {
                let id = self.dishes.rows[at].id();
                if self.in_use(id) {
                    Outcome::Failed
                } else {
                    self.dishes.take_out(at);
                    Outcome::Applied
                }
            },
            Kind::Meal => {
                self.meals.take_out(at);
                Outcome::Applied
            },
            Kind::Diet => {
                self.diets.take_out(at);
                Outcome::Applied
            },
        }
    }

    /// Carries out a command of a handler and says what came of it. The
    /// commands that are not for a store fail and change nothing.
    pub fn execute(&mut self, command: Command) -> (outcome: Outcome)
        requires
            old(self)@.wf(),
        ensures
            final(self)@ == old(self)@.answer(command@).0,
            outcome@ == old(self)@.answer(command@).1,
            final(self)@.wf(),
    {
        proof {
            store_stays_well_formed(self@, command@);
            lemma_found(self@.dishes, Kind::Dish);
            lemma_found(self@.meals, Kind::Meal);
            lemma_found(self@.diets, Kind::Diet);
        }
        match command {
            Command::List(kind) => Outcome::Listed(self.table(kind).list(kind)),
            Command::FindById(kind, id) => {
                let table = self.table(kind);
                match table.find_id(id) {
                    Some(at) => {
                        proof {
                            lemma_unique(table@, kind, at as int);
                        }
                        Outcome::Found(table.copy_at(at))
                    },
                    None => Outcome::Missing,
                }
            },
            Command::FindByName(kind, name) => {
                let table = self.table(kind);
                match table.find_name(&name, None) {
                    Some(at) => {
                        proof {
                            lemma_unique(table@, kind, at as int);
                        }
                        Outcome::Found(table.copy_at(at))
                    },
                    None => Outcome::Missing,
                }
            },
            Command::Insert(new) => self.insert(new),
            Command::Update(id, meal) => self.update(id, meal),
            Command::DeleteById(kind, id) => {
                match self.table(kind).find_id(id) {
                    Some(at) => {
                        proof {
                            lemma_unique(self@.table(kind), kind, at as int);
                        }
                        self.delete_at(kind, at)
                    },
                    None => Outcome::Missing,
                }
            },
            Command::DeleteByName(kind, name) => {
                match self.table(kind).find_name(&name, None) {
                    Some(at) => {
                        proof {
                            lemma_unique(self@.table(kind), kind, at as int);
                        }
                        self.delete_at(kind, at)
                    },
                    None => Outcome::Missing,
                }
            },
            _ => Outcome::Failed,
        }
    }
}

} // verus!
