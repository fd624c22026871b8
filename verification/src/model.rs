//! The relational store, as far as the repositories rely on it.
//!
//! Two tables, each keyed by its entity's id. A statement either goes through
//! and leaves the tables in a definite state, or it does not and leaves them
//! as they were. Nothing here is executable: it is the meaning against which
//! the repositories' statements and their reading of replies are proved.

use vstd::prelude::*;
use crate::foods::{food_row, FoodRecord};
use crate::store::{next_step, ExchangeView, Query, ReplyView, RowView, StatementView, StepView};
use crate::users::{pub_user_row, UserRecord};

verus! {

/// `user_table` and `food_table`, each row under its key.
pub struct Tables {
    pub users: Map<Seq<char>, UserRecord>,
    pub foods: Map<Seq<char>, FoodRecord>,
}

impl Tables {
    /// Every row is filed under its own id.
    pub open spec fn wf(self) -> bool {
        &&& forall|k: Seq<char>| #[trigger] self.users.dom().contains(k) ==> self.users[k].user_id == k
        &&& forall|k: Seq<char>| #[trigger] self.foods.dom().contains(k) ==> self.foods[k].food_id == k
    }

    /// The store holds a food of this key.
    pub open spec fn has_food(self, id: Seq<char>) -> bool {
        self.foods.dom().contains(id)
    }

    /// The store holds a user of this key.
    pub open spec fn has_user(self, id: Seq<char>) -> bool {
        self.users.dom().contains(id)
    }
}

/// The placeholder of a statement that stands for a day, if it has one. All
/// others stand for texts.
pub open spec fn date_at(query: Query) -> int {
    match query {
        Query::InsertFood => 2,
        Query::UpdateFood => 1,
        _ => -1,
    }
}

/// The values bound to a statement fit its placeholders, in number and in
/// type.
pub open spec fn well_bound(st: StatementView) -> bool {
    &&& st.fully_bound()
    &&& forall|i: int|
        0 <= i < st.binds.len() ==> if i == date_at(st.query) {
            #[trigger] st.binds[i] is Date
        } else {
            st.binds[i] is Text
        }
}

/// The text bound to placeholder `i`.
pub open spec fn text_at(st: StatementView, i: int) -> Seq<char> {
    st.binds[i]->Text_0
}

/// The statement goes through on `db`. An insert under a key that is taken
/// does not; neither does a lookup by a key that nothing is filed under. An
/// update or a delete that matches no row goes through and touches nothing.
pub open spec fn runs(db: Tables, st: StatementView) -> bool {
    &&& well_bound(st)
    &&& match st.query {
        Query::InsertFood => !db.has_food(text_at(st, 0)),
        Query::InsertUser => !db.has_user(text_at(st, 0)),
        Query::SelectFood => db.has_food(text_at(st, 0)),
        Query::SelectUser => db.has_user(text_at(st, 0)),
        _ => true,
    }
}

/// The tables after the statement went through.
pub open spec fn after(db: Tables, st: StatementView) -> Tables {
    match st.query {
        Query::InsertFood => Tables {
            foods: db.foods.insert(
                text_at(st, 0),
                FoodRecord {
                    food_id: text_at(st, 0),
                    food_name: text_at(st, 1),
                    exp: st.binds[2]->Date_0,
                    user_id: text_at(st, 3),
                },
            ),
            ..db
        },
        Query::UpdateFood => if db.has_food(text_at(st, 2)) {
            Tables {
                foods: db.foods.insert(
                    text_at(st, 2),
                    FoodRecord {
                        food_name: text_at(st, 0),
                        exp: st.binds[1]->Date_0,
                        ..db.foods[text_at(st, 2)]
                    },
                ),
                ..db
            }
        } else {
            db
        },
        Query::DeleteFood => Tables { foods: db.foods.remove(text_at(st, 0)), ..db },
        Query::InsertUser => Tables {
            users: db.users.insert(
                text_at(st, 0),
                UserRecord {
                    user_id: text_at(st, 0),
                    user_name: text_at(st, 1),
                    mail: text_at(st, 2),
                    password: text_at(st, 3),
                },
            ),
            ..db
        },
        Query::UpdateUser => if db.has_user(text_at(st, 3)) {
            Tables {
                users: db.users.insert(
                    text_at(st, 3),
                    UserRecord {
                        user_name: text_at(st, 0),
                        mail: text_at(st, 1),
                        password: text_at(st, 2),
                        ..db.users[text_at(st, 3)]
                    },
                ),
                ..db
            }
        } else {
            db
        },
        Query::DeleteUser => Tables { users: db.users.remove(text_at(st, 0)), ..db },
        Query::SelectFood | Query::SelectFoodsOfUser | Query::SelectUser => db,
    }
}

/// The number of rows that a write touches.
pub open spec fn touched(db: Tables, st: StatementView) -> u64 {
    match st.query {
        Query::UpdateFood => if db.has_food(text_at(st, 2)) { 1 } else { 0 },
        Query::DeleteFood => if db.has_food(text_at(st, 0)) { 1 } else { 0 },
        Query::UpdateUser => if db.has_user(text_at(st, 3)) { 1 } else { 0 },
        Query::DeleteUser => if db.has_user(text_at(st, 0)) { 1 } else { 0 },
        _ => 1,
    }
}

/// `rows` are the rows of the foods filed under `keys`, in that order, and
/// `keys` are the keys of the foods of `owner`, each of them once.
pub open spec fn listed_under(
    db: Tables,
    owner: Seq<char>,
    rows: Seq<RowView>,
    keys: Seq<Seq<char>>,
) -> bool {
    &&& keys.len() == rows.len()
    &&& keys.no_duplicates()
    &&& forall|i: int|
        0 <= i < keys.len() ==> {
            &&& db.has_food(#[trigger] keys[i])
            &&& db.foods[keys[i]].user_id == owner
            &&& rows[i] == food_row(db.foods[keys[i]])
        }
    &&& forall|k: Seq<char>|
        db.has_food(k) && db.foods[k].user_id == owner ==> #[trigger] keys.contains(k)
}

/// `rows` lists the foods of `owner`: each of them once, no other row, in
/// any order.
pub open spec fn lists_foods_of(db: Tables, owner: Seq<char>, rows: Seq<RowView>) -> bool {
    exists|keys: Seq<Seq<char>>| listed_under(db, owner, rows, keys)
}

/// `reply` is what the store says to `st` on `db`.
pub open spec fn answers(db: Tables, st: StatementView, reply: ReplyView) -> bool {
    if !runs(db, st) {
        reply is Failed
    } else {
        match st.query {
            Query::SelectFood => reply == ReplyView::Row(food_row(db.foods[text_at(st, 0)])),
            Query::SelectUser => reply == ReplyView::Row(pub_user_row(db.users[text_at(st, 0)])),
            Query::SelectFoodsOfUser => reply matches ReplyView::Rows(rows) && lists_foods_of(
                db,
                text_at(st, 0),
                rows,
            ),
            _ => reply == ReplyView::Executed(touched(db, st)),
        }
    }
}

/// The tables that an exchange leaves behind: those after its statement, if
/// that went through. A read-back changes nothing.
pub open spec fn left_by(db: Tables, exchange: ExchangeView) -> Tables {
    if runs(db, exchange.statement) {
        after(db, exchange.statement)
    } else {
        db
    }
}

/// `last` is a reply on which the exchange can settle when it starts on `db`:
/// the store's reply to its statement or, for a write with a read-back, the
/// store's reply to the read-back on the tables that the write left, and
/// `Failed` if the write did not go through.
pub open spec fn settles(db: Tables, exchange: ExchangeView, last: ReplyView) -> bool {
    match exchange.read_back {
        None => answers(db, exchange.statement, last),
        Some(lookup) => if runs(db, exchange.statement) {
            answers(after(db, exchange.statement), lookup, last)
        } else {
            last is Failed
        },
    }
}

/// A statement that goes through leaves every row under its own id.
pub proof fn lemma_after_wf(db: Tables, st: StatementView)
    requires
        db.wf(),
        runs(db, st),
    ensures
        after(db, st).wf(),
{
}

/// The steps of `next_step`, each answered by the store, end on a reply on
/// which the exchange settles.
pub proof fn lemma_steps_settle(db: Tables, exchange: ExchangeView, first: ReplyView, second: ReplyView)
    requires
        exchange.well_formed(),
        answers(db, exchange.statement, first),
        next_step(exchange, first) matches StepView::Send(lookup) ==> answers(
            left_by(db, exchange),
            lookup.statement,
            second,
        ),
    ensures
        match next_step(exchange, first) {
            StepView::Settle(last) => settles(db, exchange, last),
            StepView::Send(lookup) => next_step(lookup, second) == StepView::Settle(second)
                && settles(db, exchange, second),
        },
{
}

} // verus!
