//! The repository of foods.

use vstd::prelude::*;
use crate::foods::{
    food_of_row, lemma_food_row_reads_back, AllFoods, Food, FoodId, FoodRecord, FoodsError,
};
use crate::model::{after, left_by, lemma_after_wf, listed_under, runs, settles, Tables};
use crate::store::{
    keyed, row_views, Cell, Exchange, ExchangeView, Query, Reply, ReplyView, RowError, RowView,
    SqlValue, Statement, StatementView,
};
use crate::users::UserId;
use crate::{RepositoryAllReader, RepositoryTargetReader, RepositoryWriter};

verus! {

/// The repository of foods: which statements serve each call on `food_table`,
/// and what their replies mean. `P` is the handle of the store that the
/// statements are meant for.
pub struct FoodsRepository<P> {
    /// The handle of the store, as the caller provided it. The repository
    /// never looks into it.
    pub pool: P,
}

/// The exchange of `insert`: the four fields of the food in the order of the
/// column list, then the lookup of the food's key.
pub open spec fn insert_food(food: FoodRecord) -> ExchangeView {
    ExchangeView {
        statement: StatementView {
            query: Query::InsertFood,
            binds: seq![
                Cell::Text(food.food_id),
                Cell::Text(food.food_name),
                Cell::Date(food.exp),
                Cell::Text(food.user_id),
            ],
        },
        read_back: Some(keyed(Query::SelectFood, food.food_id)),
    }
}

/// The exchange of `update`: the new name and day, and the key of the row to
/// change, then the lookup of that key. The key and the owner of the payload
/// are not sent: a food keeps both.
pub open spec fn update_food(id: Seq<char>, food: FoodRecord) -> ExchangeView {
    ExchangeView {
        statement: StatementView {
            query: Query::UpdateFood,
            binds: seq![Cell::Text(food.food_name), Cell::Date(food.exp), Cell::Text(id)],
        },
        read_back: Some(keyed(Query::SelectFood, id)),
    }
}

/// The exchange of `delete`.
pub open spec fn delete_food(id: Seq<char>) -> ExchangeView {
    ExchangeView { statement: keyed(Query::DeleteFood, id), read_back: None }
}

/// The exchange of `read`.
pub open spec fn read_food(id: Seq<char>) -> ExchangeView {
    ExchangeView { statement: keyed(Query::SelectFood, id), read_back: None }
}

/// The exchange of `read_all`.
pub open spec fn read_foods_of(owner: Seq<char>) -> ExchangeView {
    ExchangeView { statement: keyed(Query::SelectFoodsOfUser, owner), read_back: None }
}

/// What a lookup by key found: the food of the row. Any other reply, and a
/// row that is no food, count as not found.
pub open spec fn food_found(reply: ReplyView) -> Result<FoodRecord, FoodsError> {
    match reply {
        ReplyView::Row(row) => match food_of_row(row) {
            Ok(food) => Ok(food),
            Err(_) => Err(FoodsError::NotFound),
        },
        _ => Err(FoodsError::NotFound),
    }
}

/// Every row of the list is a food.
pub open spec fn all_foods(rows: Seq<RowView>) -> bool {
    forall|i: int| 0 <= i < rows.len() ==> food_of_row(#[trigger] rows[i]) is Ok
}

/// What a lookup by owner found: the foods of the rows, in the rows' order.
/// Any other reply, and a list with a row that is no food, count as not
/// found.
pub open spec fn foods_found(reply: ReplyView) -> Result<Seq<FoodRecord>, FoodsError> {
    match reply {
        ReplyView::Rows(rows) => if all_foods(rows) {
            Ok(Seq::new(rows.len(), |i: int| food_of_row(rows[i])->Ok_0))
        } else {
            Err(FoodsError::NotFound)
        },
        _ => Err(FoodsError::NotFound),
    }
}

/// What a delete came to: done if the statement ran and removed a row, not
/// found otherwise.
pub open spec fn food_removed(reply: ReplyView) -> Result<(), FoodsError> {
    match reply {
        ReplyView::Executed(n) => if n > 0 {
            Ok(())
        } else {
            Err(FoodsError::NotFound)
        },
        _ => Err(FoodsError::NotFound),
    }
}

impl<P> FoodsRepository<P> {
    /// The repository for the store behind `pool`.
    pub fn new(pool: P) -> (repo: Self)
        ensures
            repo.pool == pool,
    {
        FoodsRepository { pool }
    }

    /// The handle on which the caller runs the repository's statements.
    pub fn pool(&self) -> (pool: &P)
        ensures
            *pool == self.pool,
    {
        &self.pool
    }
}

impl<P> RepositoryTargetReader<FoodId> for FoodsRepository<P> {
    type QueryRes = Food;

    type QueryErr = FoodsError;

    fn read(&self, id: &FoodId) -> (exchange: Exchange)
        ensures
            exchange@ == read_food(id@),
    {
        Exchange { statement: Statement::by_key(Query::SelectFood, &id.0), read_back: None }
    }

    fn found(&self, reply: Reply) -> (r: Result<Food, FoodsError>)
        ensures
            match r {
                Ok(food) => food_found(reply@) == Ok::<FoodRecord, FoodsError>(food@),
                Err(e) => food_found(reply@) == Err::<FoodRecord, FoodsError>(e),
            },
    {
        match reply {
            Reply::Row(row) => match Food::from_row(&row) {
                Ok(food) => Ok(food),
                Err(_) => Err(FoodsError::NotFound),
            },
            _ => Err(FoodsError::NotFound),
        }
    }
}

impl<P> RepositoryWriter<Food, FoodId> for FoodsRepository<P> {
    type Output = Food;

    type Error = FoodsError;

    fn insert(&self, payload: &Food) -> (exchange: Exchange)
        ensures
            exchange@ == insert_food(payload@),
    {
        let mut binds: Vec<SqlValue> = Vec::new();
        binds.push(SqlValue::Text(payload.food_id.0.clone()));
        binds.push(SqlValue::Text(payload.food_name.0.clone()));
        binds.push(SqlValue::Date(payload.exp));
        binds.push(SqlValue::Text(payload.user_id.0.clone()));
        let exchange = Exchange {
            statement: Statement { query: Query::InsertFood, binds },
            read_back: Some(Statement::by_key(Query::SelectFood, &payload.food_id.0)),
        };
        proof {
            assert(exchange@.statement.binds =~= insert_food(payload@).statement.binds);
        }
        exchange
    }

    fn update(&self, id: &FoodId, payload: &Food) -> (exchange: Exchange)
        ensures
            exchange@ == update_food(id@, payload@),
    {
        let mut binds: Vec<SqlValue> = Vec::new();
        binds.push(SqlValue::Text(payload.food_name.0.clone()));
        binds.push(SqlValue::Date(payload.exp));
        binds.push(SqlValue::Text(id.0.clone()));
        let exchange = Exchange {
            statement: Statement { query: Query::UpdateFood, binds },
            read_back: Some(Statement::by_key(Query::SelectFood, &id.0)),
        };
        proof {
            assert(exchange@.statement.binds =~= update_food(id@, payload@).statement.binds);
        }
        exchange
    }

    fn delete(&self, id: &FoodId) -> (exchange: Exchange)
        ensures
            exchange@ == delete_food(id@),
    {
        Exchange { statement: Statement::by_key(Query::DeleteFood, &id.0), read_back: None }
    }

    fn written(&self, reply: Reply) -> (r: Result<Food, FoodsError>)
        ensures
            match r {
                Ok(food) => food_found(reply@) == Ok::<FoodRecord, FoodsError>(food@),
                Err(e) => food_found(reply@) == Err::<FoodRecord, FoodsError>(e),
            },
    {
        self.found(reply)
    }

    fn deleted(&self, reply: Reply) -> (r: Result<(), FoodsError>)
        ensures
            r == food_removed(reply@),
    {
        match reply {
            Reply::Executed(n) => if n > 0 {
                Ok(())
            } else {
                Err(FoodsError::NotFound)
            },
            _ => Err(FoodsError::NotFound),
        }
    }
}

impl<P> RepositoryAllReader<UserId> for FoodsRepository<P> {
    type QueryRes = AllFoods;

    type QueryErr = FoodsError;

    fn read_all(&self, id: UserId) -> (exchange: Exchange)
        ensures
            exchange@ == read_foods_of(id@),
    {
        Exchange { statement: Statement::by_key(Query::SelectFoodsOfUser, &id.0), read_back: None }
    }

    fn found_all(&self, reply: Reply) -> (r: Result<AllFoods, FoodsError>)
        ensures
            match r {
                Ok(all) => foods_found(reply@) == Ok::<Seq<FoodRecord>, FoodsError>(all@),
                Err(e) => foods_found(reply@) == Err::<Seq<FoodRecord>, FoodsError>(e),
            },
    {
        match reply {
            Reply::Rows(rows) => {
                let mut foods: Vec<Food> = Vec::new();
                let mut i: usize = 0;
                while i < rows.len()
                    invariant
                        reply@ == ReplyView::Rows(row_views(rows@)),
                        0 <= i <= rows@.len(),
                        foods@.len() == i,
                        forall|j: int|
                            0 <= j < i ==> food_of_row(#[trigger] row_views(rows@)[j])
                                == Ok::<FoodRecord, RowError>(foods@[j]@),
                    decreases rows@.len() - i,
                {
                    match Food::from_row(&rows[i]) {
                        Ok(food) => {
                            foods.push(food);
                        },
                        Err(_) => {
                            proof {
                                assert(food_of_row(row_views(rows@)[i as int]) is Err);
                                assert(!all_foods(row_views(rows@)));
                            }
                            return Err(FoodsError::NotFound);
                        },
                    }
                    i += 1;
                }
                let all = AllFoods { foods };
                proof {
                    assert(all_foods(row_views(rows@)));
                    assert(all@ =~= foods_found(reply@)->Ok_0);
                }
                Ok(all)
            },
            _ => Err(FoodsError::NotFound),
        }
    }
}

/// An insert hands back the food that was sent, field for field, and a read
/// of its key afterwards hands back the same.
pub proof fn lemma_insert_then_read(
    db: Tables,
    food: FoodRecord,
    inserted: ReplyView,
    out: FoodRecord,
    read: ReplyView,
)
    requires
        db.wf(),
        settles(db, insert_food(food), inserted),
        food_found(inserted) == Ok::<FoodRecord, FoodsError>(out),
        settles(left_by(db, insert_food(food)), read_food(out.food_id), read),
    ensures
        out == food,
        food_found(read) == Ok::<FoodRecord, FoodsError>(out),
{
    lemma_food_row_reads_back(food);
}

/// After a delete that succeeded, a read of the same key finds nothing.
pub proof fn lemma_delete_then_read(db: Tables, id: Seq<char>, deleted: ReplyView, read: ReplyView)
    requires
        db.wf(),
        settles(db, delete_food(id), deleted),
        food_removed(deleted) is Ok,
        settles(left_by(db, delete_food(id)), read_food(id), read),
    ensures
        food_found(read) == Err::<FoodRecord, FoodsError>(FoodsError::NotFound),
{
}

/// An update that succeeded hands back the row as it now is: the name and the
/// day of the payload in place of the old ones, under the key it was filed
/// under and with the owner it had. A read of the key afterwards hands back
/// the same.
pub proof fn lemma_update_then_read(
    db: Tables,
    id: Seq<char>,
    food: FoodRecord,
    updated: ReplyView,
    out: FoodRecord,
    read: ReplyView,
)
    requires
        db.wf(),
        settles(db, update_food(id, food), updated),
        food_found(updated) == Ok::<FoodRecord, FoodsError>(out),
        settles(left_by(db, update_food(id, food)), read_food(id), read),
    ensures
        db.has_food(id),
        out == (FoodRecord {
            food_id: id,
            food_name: food.food_name,
            exp: food.exp,
            user_id: db.foods[id].user_id,
        }),
        food_found(read) == Ok::<FoodRecord, FoodsError>(out),
{
    let st = update_food(id, food).statement;
    assert(runs(db, st));
    let db1 = after(db, st);
    if db.has_food(id) {
        lemma_food_row_reads_back(db1.foods[id]);
    }
}

/// A read of all foods of an owner hands back foods of that owner only, each
/// as the store holds it, and leaves none of them out.
pub proof fn lemma_read_all_scoped(db: Tables, owner: Seq<char>, listed: ReplyView)
    requires
        db.wf(),
        settles(db, read_foods_of(owner), listed),
    ensures
        foods_found(listed) matches Ok(foods) && {
            &&& forall|i: int|
                0 <= i < foods.len() ==> {
                    &&& (#[trigger] foods[i]).user_id == owner
                    &&& db.has_food(foods[i].food_id)
                    &&& db.foods[foods[i].food_id] == foods[i]
                }
            &&& forall|k: Seq<char>|
                db.has_food(k) && db.foods[k].user_id == owner ==> foods.contains(
                    #[trigger] db.foods[k],
                )
        },
{
    let rows = listed->Rows_0;
    let keys = choose|keys: Seq<Seq<char>>| listed_under(db, owner, rows, keys);
    assert forall|i: int| 0 <= i < rows.len() implies food_of_row(#[trigger] rows[i]) == Ok::<
        FoodRecord,
        RowError,
    >(db.foods[keys[i]]) by {
        assert(db.has_food(keys[i]));
        lemma_food_row_reads_back(db.foods[keys[i]]);
    }
    assert(all_foods(rows));
    let foods = foods_found(listed)->Ok_0;
    assert forall|i: int| 0 <= i < foods.len() implies {
        &&& (#[trigger] foods[i]).user_id == owner
        &&& db.has_food(foods[i].food_id)
        &&& db.foods[foods[i].food_id] == foods[i]
    } by {
        assert(db.has_food(keys[i]));
        assert(foods[i] == food_of_row(rows[i])->Ok_0);
    }
    assert forall|k: Seq<char>| db.has_food(k) && db.foods[k].user_id == owner implies foods.contains(
        #[trigger] db.foods[k],
    ) by {
        assert(keys.contains(k));
        let i = choose|i: int| 0 <= i < keys.len() && keys[i] == k;
        assert(foods[i] == food_of_row(rows[i])->Ok_0);
        assert(foods[i] == db.foods[k]);
    }
}

/// A food inserted for one user is not among the foods of another.
pub proof fn lemma_insert_stays_with_owner(
    db: Tables,
    food: FoodRecord,
    inserted: ReplyView,
    other: Seq<char>,
    listed: ReplyView,
)
    requires
        db.wf(),
        settles(db, insert_food(food), inserted),
        food_found(inserted) is Ok,
        other != food.user_id,
        settles(left_by(db, insert_food(food)), read_foods_of(other), listed),
    ensures
        foods_found(listed) matches Ok(foods) && forall|i: int|
            0 <= i < foods.len() ==> (#[trigger] foods[i]).food_id != food.food_id,
{
    let db1 = left_by(db, insert_food(food));
    lemma_after_wf(db, insert_food(food).statement);
    lemma_read_all_scoped(db1, other, listed);
    let foods = foods_found(listed)->Ok_0;
    assert forall|i: int| 0 <= i < foods.len() implies (#[trigger] foods[i]).food_id
        != food.food_id by {
        assert(db1.foods[foods[i].food_id] == foods[i]);
        if foods[i].food_id == food.food_id {
            assert(db1.foods[food.food_id] == food);
        }
    }
}

/// After a delete that succeeded, no owner's foods include the food that was
/// deleted.
pub proof fn lemma_delete_then_read_all(
    db: Tables,
    id: Seq<char>,
    deleted: ReplyView,
    owner: Seq<char>,
    listed: ReplyView,
)
    requires
        db.wf(),
        settles(db, delete_food(id), deleted),
        food_removed(deleted) is Ok,
        settles(left_by(db, delete_food(id)), read_foods_of(owner), listed),
    ensures
        foods_found(listed) matches Ok(foods) && forall|i: int|
            0 <= i < foods.len() ==> (#[trigger] foods[i]).food_id != id,
{
    let db1 = left_by(db, delete_food(id));
    lemma_after_wf(db, delete_food(id).statement);
    lemma_read_all_scoped(db1, owner, listed);
    let foods = foods_found(listed)->Ok_0;
    assert forall|i: int| 0 <= i < foods.len() implies (#[trigger] foods[i]).food_id != id by {
        assert(db1.has_food(foods[i].food_id));
    }
}

} // verus!
