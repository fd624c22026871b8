//! The boundary to the relational store.
//!
//! The repositories never talk to a database. They say which statement is to
//! be run, with which values bound to its placeholders, and they are told
//! what the store replied. Running a statement is the caller's business; what
//! to run next and what a reply means is decided here.

use vstd::prelude::*;
use chrono::NaiveDate;

verus! {

/// `chrono::NaiveDate`, a calendar date without a time of day. Nothing is
/// assumed of it: the library only carries dates from payloads into
/// statements and from rows into entities.
#[verifier::external_type_specification]
#[verifier::external_body]
pub struct ExNaiveDate(chrono::NaiveDate);

/// A value as the store holds it: a text or a calendar date.
pub enum Cell {
    Text(Seq<char>),
    Date(NaiveDate),
}

/// A value bound to a placeholder of a statement, or read out of a row.
#[derive(Debug, PartialEq)]
pub enum SqlValue {
    Text(String),
    Date(NaiveDate),
}

impl View for SqlValue {
    type V = Cell;

    open spec fn view(&self) -> Cell {
        match *self {
            SqlValue::Text(s) => Cell::Text(s@),
            SqlValue::Date(d) => Cell::Date(d),
        }
    }
}

impl Clone for SqlValue {
    fn clone(&self) -> (r: Self)
        ensures
            r == *self,
    {
        match self {
            SqlValue::Text(s) => SqlValue::Text(s.clone()),
            SqlValue::Date(d) => SqlValue::Date(*d),
        }
    }
}

/// The values of a list, each by its view.
pub open spec fn cells(values: Seq<SqlValue>) -> Seq<Cell> {
    Seq::new(values.len(), |i: int| values[i]@)
}

/// How the reply to a statement is to be collected.
#[derive(Debug, Clone, Copy, PartialEq, Eq, Structural)]
pub enum Fetch {
    /// Run the statement and report how many rows it touched.
    Nothing,
    /// Hand back the first row; having none is a failure.
    One,
    /// Hand back every row.
    All,
}

/// The statements that the repositories issue.
#[derive(Debug, Clone, Copy, PartialEq, Eq, Structural)]
pub enum Query {
    InsertFood,
    UpdateFood,
    DeleteFood,
    SelectFood,
    SelectFoodsOfUser,
    InsertUser,
    UpdateUser,
    DeleteUser,
    SelectUser,
}

impl Query {
    /// The text of each statement, one `?` for each bound value.
    pub open spec fn sql_text(self) -> Seq<char> {
        match self {
            Query::InsertFood => "INSERT INTO food_table (food_id, food_name, exp, user_id) VALUES (?, ?, ?, ?)"@,
            Query::UpdateFood => "UPDATE food_table SET food_name = ?, exp = ? WHERE food_id = ?"@,
            Query::DeleteFood => "DELETE FROM food_table WHERE food_id = ?"@,
            Query::SelectFood => "SELECT food_id, food_name, exp, user_id FROM food_table WHERE food_id = ?"@,
            Query::SelectFoodsOfUser => "SELECT food_id, food_name, exp, user_id FROM food_table WHERE user_id = ?"@,
            Query::InsertUser => "INSERT INTO user_table (user_id, user_name, mail, password) VALUES (?, ?, ?, ?)"@,
            Query::UpdateUser => "UPDATE user_table SET user_name = ?, mail = ?, password = ? WHERE user_id = ?"@,
            Query::DeleteUser => "DELETE FROM user_table WHERE user_id = ?"@,
            Query::SelectUser => "SELECT user_id, user_name FROM user_table WHERE user_id = ?"@,
        }
    }

    /// Writes are run for their effect, a lookup by key wants one row, a
    /// lookup by owner wants all of them.
    pub open spec fn fetch_mode(self) -> Fetch {
        match self {
            Query::SelectFood | Query::SelectUser => Fetch::One,
            Query::SelectFoodsOfUser => Fetch::All,
            _ => Fetch::Nothing,
        }
    }

    /// The number of placeholders in the statement's text.
    pub open spec fn arity(self) -> nat {
        match self {
            Query::InsertFood | Query::InsertUser | Query::UpdateUser => 4,
            Query::UpdateFood => 3,
            _ => 1,
        }
    }

    pub fn sql(&self) -> (text: &'static str)
        ensures
            text@ == self.sql_text(),
    {
        match self {
            Query::InsertFood => "INSERT INTO food_table (food_id, food_name, exp, user_id) VALUES (?, ?, ?, ?)",
            Query::UpdateFood => "UPDATE food_table SET food_name = ?, exp = ? WHERE food_id = ?",
            Query::DeleteFood => "DELETE FROM food_table WHERE food_id = ?",
            Query::SelectFood => "SELECT food_id, food_name, exp, user_id FROM food_table WHERE food_id = ?",
            Query::SelectFoodsOfUser => "SELECT food_id, food_name, exp, user_id FROM food_table WHERE user_id = ?",
            Query::InsertUser => "INSERT INTO user_table (user_id, user_name, mail, password) VALUES (?, ?, ?, ?)",
            Query::UpdateUser => "UPDATE user_table SET user_name = ?, mail = ?, password = ? WHERE user_id = ?",
            Query::DeleteUser => "DELETE FROM user_table WHERE user_id = ?",
            Query::SelectUser => "SELECT user_id, user_name FROM user_table WHERE user_id = ?",
        }
    }

    pub fn fetch(&self) -> (mode: Fetch)
        ensures
            mode == self.fetch_mode(),
    {
        match self {
            Query::SelectFood | Query::SelectUser => Fetch::One,
            Query::SelectFoodsOfUser => Fetch::All,
            _ => Fetch::Nothing,
        }
    }
}

/// A statement as the store receives it.
pub struct StatementView {
    pub query: Query,
    pub binds: Seq<Cell>,
}

/// A parameterized statement: the text is fixed by `query`, the values are
/// bound to its placeholders in order. No value is ever spliced into the text.
#[derive(Debug, PartialEq)]
pub struct Statement {
    pub query: Query,
    pub binds: Vec<SqlValue>,
}

impl View for Statement {
    type V = StatementView;

    open spec fn view(&self) -> StatementView {
        StatementView { query: self.query, binds: cells(self.binds@) }
    }
}

impl StatementView {
    /// Every placeholder has its value, and no value is left over.
    pub open spec fn fully_bound(self) -> bool {
        self.binds.len() == self.query.arity()
    }
}

/// The statement `query` with `key` as its one bound value.
pub open spec fn keyed(query: Query, key: Seq<char>) -> StatementView {
    StatementView { query, binds: seq![Cell::Text(key)] }
}

impl Statement {
    /// The statement `query` with `key` as its one bound value.
    pub fn by_key(query: Query, key: &String) -> (st: Statement)
        ensures
            st@ == keyed(query, key@),
    {
        let mut binds: Vec<SqlValue> = Vec::new();
        binds.push(SqlValue::Text(key.clone()));
        let st = Statement { query, binds };
        proof {
            assert(st@.binds =~= seq![Cell::Text(key@)]);
        }
        st
    }
}

/// A row as the store hands it out: named columns in the order of the select
/// list.
pub type RowView = Seq<(Seq<char>, Cell)>;

#[derive(Debug, PartialEq)]
pub struct Column {
    pub name: String,
    pub value: SqlValue,
}

#[derive(Debug, PartialEq)]
pub struct Row {
    pub columns: Vec<Column>,
}

impl View for Row {
    type V = RowView;

    open spec fn view(&self) -> RowView {
        Seq::new(self.columns@.len(), |i: int| (self.columns@[i].name@, self.columns@[i].value@))
    }
}

/// Why a row could not be read as an entity.
#[derive(Debug, Clone, Copy, PartialEq, Eq, Structural)]
pub enum RowError {
    /// The row has no column of the name asked for.
    ColumnNotFound,
    /// The column holds a value of another type than the one asked for.
    ColumnDecode,
}

/// `i` is the position of the first column of `row` called `name`.
pub open spec fn first_named(row: RowView, name: Seq<char>, i: int) -> bool {
    &&& 0 <= i < row.len()
    &&& row[i].0 == name
    &&& forall|j: int| 0 <= j < i ==> (#[trigger] row[j]).0 != name
}

/// The value of the first column of `row` called `name`.
pub open spec fn column(row: RowView, name: Seq<char>) -> Option<Cell> {
    if exists|i: int| first_named(row, name, i) {
        Some(row[choose|i: int| first_named(row, name, i)].1)
    } else {
        None
    }
}

/// The text in column `name`.
pub open spec fn column_text(row: RowView, name: Seq<char>) -> Result<Seq<char>, RowError> {
    match column(row, name) {
        None => Err(RowError::ColumnNotFound),
        Some(Cell::Text(s)) => Ok(s),
        Some(Cell::Date(_)) => Err(RowError::ColumnDecode),
    }
}

/// The date in column `name`.
pub open spec fn column_date(row: RowView, name: Seq<char>) -> Result<NaiveDate, RowError> {
    match column(row, name) {
        None => Err(RowError::ColumnNotFound),
        Some(Cell::Date(d)) => Ok(d),
        Some(Cell::Text(_)) => Err(RowError::ColumnDecode),
    }
}

/// There is at most one first column of a name.
pub proof fn lemma_first_named_unique(row: RowView, name: Seq<char>, i: int, j: int)
    requires
        first_named(row, name, i),
        first_named(row, name, j),
    ensures
        i == j,
{
    if i < j {
        assert(row[i].0 != name);
    } else if j < i {
        assert(row[j].0 != name);
    }
}

/// Once the first column of a name is found, `column` is its value.
pub proof fn lemma_column_at(row: RowView, name: Seq<char>, i: int)
    requires
        first_named(row, name, i),
    ensures
        column(row, name) == Some(row[i].1),
{
    let k = choose|k: int| first_named(row, name, k);
    lemma_first_named_unique(row, name, i, k);
}

impl Row {
    /// The value of the first column called `name`.
    pub fn try_get(&self, name: &str) -> (r: Result<&SqlValue, RowError>)
        ensures
            match r {
                Ok(value) => column(self@, name@) == Some(value@),
                Err(e) => e == RowError::ColumnNotFound && column(self@, name@) is None,
            },
    {
        let wanted = name.to_owned();
        let mut i: usize = 0;
        while i < self.columns.len()
            invariant
                0 <= i <= self.columns@.len(),
                wanted@ == name@,
                forall|j: int| 0 <= j < i ==> (#[trigger] self@[j]).0 != name@,
            decreases self.columns@.len() - i,
        {
            if self.columns[i].name == wanted {
                proof {
                    assert(self@[i as int].0 == name@);
                    lemma_column_at(self@, name@, i as int);
                }
                return Ok(&self.columns[i].value);
            }
            i += 1;
        }
        proof {
            assert forall|k: int| !first_named(self@, name@, k) by {
                if 0 <= k < self@.len() {
                    assert(self@[k].0 != name@);
                }
            }
        }
        Err(RowError::ColumnNotFound)
    }

    /// The text in the first column called `name`.
    pub fn text(&self, name: &str) -> (r: Result<String, RowError>)
        ensures
            match r {
                Ok(s) => column_text(self@, name@) == Ok::<Seq<char>, RowError>(s@),
                Err(e) => column_text(self@, name@) == Err::<Seq<char>, RowError>(e),
            },
    {
        match self.try_get(name) {
            Ok(SqlValue::Text(s)) => Ok(s.clone()),
            Ok(SqlValue::Date(_)) => Err(RowError::ColumnDecode),
            Err(e) => Err(e),
        }
    }

    /// The date in the first column called `name`.
    pub fn date(&self, name: &str) -> (r: Result<NaiveDate, RowError>)
        ensures
            r == column_date(self@, name@),
    {
        match self.try_get(name) {
            Ok(SqlValue::Date(d)) => Ok(*d),
            Ok(SqlValue::Text(_)) => Err(RowError::ColumnDecode),
            Err(e) => Err(e),
        }
    }
}

/// The rows of a list, each by its view.
pub open spec fn row_views(rows: Seq<Row>) -> Seq<RowView> {
    Seq::new(rows.len(), |i: int| rows[i]@)
}

/// A reply as the store gives it.
pub enum ReplyView {
    Executed(u64),
    Row(RowView),
    Rows(Seq<RowView>),
    Failed,
}

/// What came back for a statement.
#[derive(Debug, PartialEq)]
pub enum Reply {
    /// The statement ran; so many rows were touched.
    Executed(u64),
    /// The first row of the result.
    Row(Row),
    /// All rows of the result, in the store's order.
    Rows(Vec<Row>),
    /// The statement did not run, or a single row was asked for and there was
    /// none. The store does not say which.
    Failed,
}

impl View for Reply {
    type V = ReplyView;

    open spec fn view(&self) -> ReplyView {
        match *self {
            Reply::Executed(n) => ReplyView::Executed(n),
            Reply::Row(row) => ReplyView::Row(row@),
            Reply::Rows(rows) => ReplyView::Rows(row_views(rows@)),
            Reply::Failed => ReplyView::Failed,
        }
    }
}

pub struct ExchangeView {
    pub statement: StatementView,
    pub read_back: Option<StatementView>,
}

/// One repository call in flight: the statement to run now and, for a write,
/// the lookup that reads the row back once the write has gone through.
#[derive(Debug, PartialEq)]
pub struct Exchange {
    pub statement: Statement,
    pub read_back: Option<Statement>,
}

impl View for Exchange {
    type V = ExchangeView;

    open spec fn view(&self) -> ExchangeView {
        ExchangeView {
            statement: self.statement@,
            read_back: match self.read_back {
                Some(st) => Some(st@),
                None => None,
            },
        }
    }
}

impl ExchangeView {
    /// Every placeholder of the exchange has its value, and a read-back
    /// follows nothing but a write and asks for one row.
    pub open spec fn well_formed(self) -> bool {
        &&& self.statement.fully_bound()
        &&& self.read_back matches Some(lookup) ==> {
            &&& self.statement.query.fetch_mode() == Fetch::Nothing
            &&& lookup.fully_bound()
            &&& lookup.query.fetch_mode() == Fetch::One
        }
    }
}

pub enum StepView {
    Send(ExchangeView),
    Settle(ReplyView),
}

/// What the caller does next with a call in flight.
#[derive(Debug, PartialEq)]
pub enum Step {
    /// Run the statement of this exchange and come back with the reply.
    Send(Exchange),
    /// The call is over; this reply decides its result.
    Settle(Reply),
}

impl View for Step {
    type V = StepView;

    open spec fn view(&self) -> StepView {
        match *self {
            Step::Send(exchange) => StepView::Send(exchange@),
            Step::Settle(reply) => StepView::Settle(reply@),
        }
    }
}

/// The read-back policy. A call without a read-back settles on the reply it
/// got. A write that went through is followed by its read-back, and the
/// read-back's reply settles the call; a write that did not go through
/// settles as failed, whatever came back.
pub open spec fn next_step(exchange: ExchangeView, reply: ReplyView) -> StepView {
    match exchange.read_back {
        None => StepView::Settle(reply),
        Some(lookup) => if reply is Executed {
            StepView::Send(ExchangeView { statement: lookup, read_back: None })
        } else {
            StepView::Settle(ReplyView::Failed)
        },
    }
}

/// Takes a call in flight one step further, given the reply to its statement.
/// What is sent next is well formed if the exchange was, and has no read-back
/// of its own: a call takes two statements at most.
pub fn advance(exchange: Exchange, reply: Reply) -> (step: Step)
    ensures
        step@ == next_step(exchange@, reply@),
        step@ matches StepView::Send(next) ==> next.read_back is None && (
        exchange@.well_formed() ==> next.well_formed()),
{
    match exchange.read_back {
        None => Step::Settle(reply),
        Some(lookup) => match reply {
            Reply::Executed(_) => Step::Send(Exchange { statement: lookup, read_back: None }),
            _ => Step::Settle(Reply::Failed),
        },
    }
}

} // verus!
