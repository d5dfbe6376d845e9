//! What holds of the store whatever is asked of it.

use vstd::prelude::*;
use crate::meals::models::NewMealView;
use crate::protocol::CommandView;
use crate::records::{Kind, NewRecordView};
use crate::store::{empty_db, refers_to, Db, Table};

verus! {

/// In a well-formed table the record with an id is the only one with it,
/// and likewise the record with a name.
pub proof fn lemma_unique(table: Table, kind: Kind, i: int)
    requires
        table.wf(kind),
        0 <= i < table.rows.len(),
    ensures
        table.has_id(table.rows[i].id()),
        table.index_of_id(table.rows[i].id()) == i,
        table.by_id(table.rows[i].id()) == Some(table.rows[i]),
        table.has_name(table.rows[i].name()),
        table.index_of_name(table.rows[i].name()) == i,
        table.by_name(table.rows[i].name()) == Some(table.rows[i]),
{
    let a = table.index_of_id(table.rows[i].id());
    let b = table.index_of_name(table.rows[i].name());
    assert(0 <= a < table.rows.len() && table.rows[a].id() == table.rows[i].id());
    assert(0 <= b < table.rows.len() && table.rows[b].name() == table.rows[i].name());
    if a < i {
        assert(table.rows[a].id() != table.rows[i].id());
    }
    if i < a {
        assert(table.rows[i].id() != table.rows[a].id());
    }
    if b < i {
        assert(table.rows[b].name() != table.rows[i].name());
    }
    if i < b {
        assert(table.rows[i].name() != table.rows[b].name());
    }
}

/// A record that a table yields for an id or a name is one of its rows and
/// has that id or name.
pub proof fn lemma_found(table: Table, kind: Kind)
    requires
        table.wf(kind),
    ensures
        forall|id: i32| #[trigger]
            table.has_id(id) ==> 0 <= table.index_of_id(id) < table.rows.len()
                && table.rows[table.index_of_id(id)].id() == id
                && table.rows[table.index_of_id(id)].kind() == kind,
        forall|name: Seq<char>| #[trigger]
            table.has_name(name) ==> 0 <= table.index_of_name(name) < table.rows.len()
                && table.rows[table.index_of_name(name)].name() == name
                && table.rows[table.index_of_name(name)].kind() == kind,
{
}

/// The empty store is well formed.
pub proof fn empty_store_is_well_formed()
    ensures
        empty_db().wf(),
{
}

/// A table without one of its records is well formed, holds the other
/// records still, and holds none with the id or the name of the one removed.
pub proof fn lemma_removed(table: Table, kind: Kind, at: int)
    requires
        table.wf(kind),
        0 <= at < table.rows.len(),
    ensures
        table.without(at).wf(kind),
        forall|id: i32|
            id != table.rows[at].id() && table.has_id(id) ==> #[trigger] table.without(at).has_id(
                id,
            ),
        !table.without(at).has_id(table.rows[at].id()),
        !table.without(at).has_name(table.rows[at].name()),
{
    let less = table.without(at);
    assert forall|k: int| 0 <= k < less.rows.len() implies #[trigger] less.rows[k] == table.rows[if k
        < at {
        k
    } else {
        k + 1
    }] by {}
    assert forall|i: int, j: int| 0 <= i < j < less.rows.len() implies (#[trigger] less.rows[i]).id()
        != (#[trigger] less.rows[j]).id() && less.rows[i].name() != less.rows[j].name() by {
        let a = if i < at { i } else { i + 1 };
        let b = if j < at { j } else { j + 1 };
        assert(table.rows[a].id() != table.rows[b].id());
    }
    assert forall|id: i32| id != table.rows[at].id() && table.has_id(id) implies #[trigger] less.has_id(
        id,
    ) by {
        let w = table.index_of_id(id);
        let k = if w < at { w } else { w - 1 };
        assert(less.rows[k].id() == id);
    }
    if less.has_id(table.rows[at].id()) {
        let k = less.index_of_id(table.rows[at].id());
        let a = if k < at { k } else { k + 1 };
        assert(less.rows[k] == table.rows[a]);
        if a < at {
            assert(table.rows[a].id() != table.rows[at].id());
        } else {
            assert(table.rows[at].id() != table.rows[a].id());
        }
    }
    if less.has_name(table.rows[at].name()) {
        let k = less.index_of_name(table.rows[at].name());
        let a = if k < at { k } else { k + 1 };
        assert(less.rows[k] == table.rows[a]);
        if a < at {
            assert(table.rows[a].name() != table.rows[at].name());
        } else {
            assert(table.rows[at].name() != table.rows[a].name());
        }
    }
}

proof fn lemma_insert_keeps_wf(db: Db, new: NewRecordView)
    requires
        db.wf(),
    ensures
        db.insert(new).0.wf(),
{
    let kind = new.kind();
    let table = db.table(kind);
    let after = db.insert(new).0;
    if after != db {
        let record = db.stored(new, table.next_id as i32);
        let grown = after.table(kind);
        assert(record.kind() == kind && record.name() == new.name() && record.id()
            == table.next_id);
        assert(grown.rows =~= table.rows.push(record));
        assert forall|i: int, j: int| 0 <= i < j < grown.rows.len() implies (
        #[trigger] grown.rows[i]).id() != (#[trigger] grown.rows[j]).id() && grown.rows[i].name()
            != grown.rows[j].name() by {
            if j == table.rows.len() {
                assert(table.rows[i].id() < table.next_id);
                if table.rows[i].name() == new.name() {
                    assert(table.has_name(new.name()));
                }
            } else {
                assert(table.rows[i].id() != table.rows[j].id());
            }
        }
        assert(grown.wf(kind));
        assert forall|i: int, dish: i32|
            0 <= i < after.meals.rows.len() && refers_to(
                (#[trigger] after.meals.rows[i])->Meal_0,
                dish,
            ) implies #[trigger] after.dishes.has_id(dish) by {
            if kind == Kind::Meal && i == table.rows.len() {
                assert(db.dishes.has_id(dish));
            } else {
                assert(after.meals.rows[i] == db.meals.rows[i]);
                assert(db.dishes.has_id(dish));
                let w = db.dishes.index_of_id(dish);
                assert(after.dishes.rows[w].id() == dish);
            }
        }
    }
}

proof fn lemma_update_keeps_wf(db: Db, id: i32, meal: NewMealView)
    requires
        db.wf(),
    ensures
        db.update(id, meal).0.wf(),
{
    let after = db.update(id, meal).0;
    if after != db {
        let at = db.meals.index_of_id(id);
        let record = db.stored(NewRecordView::Meal(meal), id);
        assert(after.meals.rows =~= db.meals.rows.update(at, record));
        assert(record.id() == id && record.name() == meal.name);
        let less = db.meals.without(at);
        assert forall|k: int| 0 <= k < db.meals.rows.len() && k != at implies (
        #[trigger] db.meals.rows[k]).name() != meal.name by {
            let w = if k < at { k } else { k - 1 };
            assert(less.rows[w] == db.meals.rows[k]);
            if db.meals.rows[k].name() == meal.name {
                assert(less.has_name(meal.name));
            }
        }
        assert forall|i: int, j: int| 0 <= i < j < after.meals.rows.len() implies (
        #[trigger] after.meals.rows[i]).id() != (#[trigger] after.meals.rows[j]).id()
            && after.meals.rows[i].name() != after.meals.rows[j].name() by {
            assert(db.meals.rows[i].id() != db.meals.rows[j].id());
            assert(db.meals.rows[i].name() != db.meals.rows[j].name());
        }
        assert(after.meals.wf(Kind::Meal));
        assert forall|i: int, dish: i32|
            0 <= i < after.meals.rows.len() && refers_to(
                (#[trigger] after.meals.rows[i])->Meal_0,
                dish,
            ) implies #[trigger] after.dishes.has_id(dish) by {
            if i != at {
                assert(after.meals.rows[i] == db.meals.rows[i]);
            }
        }
    }
}

proof fn lemma_delete_keeps_wf(db: Db, kind: Kind, at: int)
    requires
        db.wf(),
        0 <= at < db.table(kind).rows.len(),
    ensures
        db.delete_at(kind, at).0.wf(),
{
    let after = db.delete_at(kind, at).0;
    if after != db {
        let table = db.table(kind);
        lemma_removed(table, kind, at);
        assert(after.table(kind) == table.without(at));
        assert forall|i: int, dish: i32|
            0 <= i < after.meals.rows.len() && refers_to(
                (#[trigger] after.meals.rows[i])->Meal_0,
                dish,
            ) implies #[trigger] after.dishes.has_id(dish) by {
            if kind == Kind::Meal {
                let k = if i < at { i } else { i + 1 };
                assert(after.meals.rows[i] == db.meals.rows[k]);
                assert(db.dishes.has_id(dish));
            } else if kind == Kind::Dish {
                assert(after.meals.rows[i] == db.meals.rows[i]);
                assert(db.dishes.has_id(dish));
                assert(!db.dish_in_use(table.rows[at].id()));
                assert(dish != table.rows[at].id());
            } else {
                assert(after.meals.rows[i] == db.meals.rows[i]);
            }
        }
    }
}

/// Whatever is asked of a well-formed store, it stays well formed: names
/// and ids stay unique, and every dish that a meal holds exists.
pub proof fn store_stays_well_formed(db: Db, command: CommandView)
    requires
        db.wf(),
    ensures
        db.answer(command).0.wf(),
{
    match command {
        CommandView::Insert(new) => lemma_insert_keeps_wf(db, new),
        CommandView::Update(id, meal) => lemma_update_keeps_wf(db, id, meal),
        CommandView::DeleteById(kind, id) => {
            if db.table(kind).has_id(id) {
                lemma_delete_keeps_wf(db, kind, db.table(kind).index_of_id(id));
            }
        },
        CommandView::DeleteByName(kind, name) => {
            if db.table(kind).has_name(name) {
                lemma_delete_keeps_wf(db, kind, db.table(kind).index_of_name(name));
            }
        },
        _ => {},
    }
}

/// Only an insertion, an update or a deletion that succeeds changes the store.
pub proof fn store_changes_only_by_writes(db: Db, command: CommandView)
    ensures
        !command.writes() ==> db.answer(command).0 == db,
        !(db.answer(command).1 is Created || db.answer(command).1 is Applied) ==> db.answer(
            command,
        ).0 == db,
{
}

} // verus!
