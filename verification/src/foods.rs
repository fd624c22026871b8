//! Foods: what a user keeps track of, each with a name, the day it expires
//! and the user it belongs to.

use vstd::prelude::*;
use vstd::std_specs::cmp::PartialEqSpecImpl;
use vstd::std_specs::convert::FromSpecImpl;
use chrono::NaiveDate;
use crate::store::{column_date, column_text, first_named, lemma_column_at, Cell, Row, RowError, RowView};
use crate::users::{PubUserInfo, UserId};
use crate::util::{fresh_uuid_text, is_uuid_text};

pub mod repo;

verus! {

/// The columns of `food_table`.
pub const FOOD_ID_COLUMN: &'static str = "food_id";

pub const FOOD_NAME_COLUMN: &'static str = "food_name";

pub const FOOD_EXP_COLUMN: &'static str = "exp";

pub const USER_ID_COLUMN: &'static str = "user_id";

/// The key of a food: made once, when the food is created, and never changed.
#[derive(Debug)]
pub struct FoodId(pub String);

impl View for FoodId {
    type V = Seq<char>;

    open spec fn view(&self) -> Seq<char> {
        self.0@
    }
}

impl Clone for FoodId {
    fn clone(&self) -> (r: Self)
        ensures
            r == *self,
    {
        FoodId(self.0.clone())
    }
}

impl PartialEq for FoodId {
    fn eq(&self, other: &Self) -> (r: bool) {
        self.0 == other.0
    }
}

/// Two values are equal when they hold the same text.
impl PartialEqSpecImpl for FoodId {
    open spec fn obeys_eq_spec() -> bool {
        true
    }

    open spec fn eq_spec(&self, other: &Self) -> bool {
        self@ == other@
    }
}

impl From<String> for FoodId {
    fn from(value: String) -> (r: Self) {
        FoodId(value)
    }
}

impl FromSpecImpl<String> for FoodId {
    open spec fn obeys_from_spec() -> bool {
        true
    }

    open spec fn from_spec(value: String) -> Self {
        FoodId(value)
    }
}

impl From<&String> for FoodId {
    fn from(value: &String) -> (r: Self) {
        FoodId(value.clone())
    }
}

impl FromSpecImpl<&String> for FoodId {
    open spec fn obeys_from_spec() -> bool {
        true
    }

    open spec fn from_spec(value: &String) -> Self {
        FoodId(*value)
    }
}

impl From<&str> for FoodId {
    fn from(value: &str) -> (r: Self)
        ensures
            r@ == value@,
    {
        FoodId(value.to_string())
    }
}

/// A `String` is known to the verifier only through its characters, so the
/// conversion from a string slice is stated on the view, by the `ensures`
/// of `from`, and not as a value.
impl FromSpecImpl<&str> for FoodId {
    open spec fn obeys_from_spec() -> bool {
        false
    }

    open spec fn from_spec(value: &str) -> Self {
        arbitrary()
    }
}

impl From<FoodId> for String {
    fn from(value: FoodId) -> (r: Self) {
        value.0
    }
}

impl FromSpecImpl<FoodId> for String {
    open spec fn obeys_from_spec() -> bool {
        true
    }

    open spec fn from_spec(value: FoodId) -> Self {
        value.0
    }
}

/// What a food is called.
#[derive(Debug)]
pub struct FoodName(pub String);

impl View for FoodName {
    type V = Seq<char>;

    open spec fn view(&self) -> Seq<char> {
        self.0@
    }
}

impl Clone for FoodName {
    fn clone(&self) -> (r: Self)
        ensures
            r == *self,
    {
        FoodName(self.0.clone())
    }
}

impl PartialEq for FoodName {
    fn eq(&self, other: &Self) -> (r: bool) {
        self.0 == other.0
    }
}

/// Two values are equal when they hold the same text.
impl PartialEqSpecImpl for FoodName {
    open spec fn obeys_eq_spec() -> bool {
        true
    }

    open spec fn eq_spec(&self, other: &Self) -> bool {
        self@ == other@
    }
}

impl From<String> for FoodName {
    fn from(value: String) -> (r: Self) {
        FoodName(value)
    }
}

impl FromSpecImpl<String> for FoodName {
    open spec fn obeys_from_spec() -> bool {
        true
    }

    open spec fn from_spec(value: String) -> Self {
        FoodName(value)
    }
}

impl From<&String> for FoodName {
    fn from(value: &String) -> (r: Self) {
        FoodName(value.clone())
    }
}

impl FromSpecImpl<&String> for FoodName {
    open spec fn obeys_from_spec() -> bool {
        true
    }

    open spec fn from_spec(value: &String) -> Self {
        FoodName(*value)
    }
}

impl From<&str> for FoodName {
    fn from(value: &str) -> (r: Self)
        ensures
            r@ == value@,
    {
        FoodName(value.to_string())
    }
}

/// A `String` is known to the verifier only through its characters, so the
/// conversion from a string slice is stated on the view, by the `ensures`
/// of `from`, and not as a value.
impl FromSpecImpl<&str> for FoodName {
    open spec fn obeys_from_spec() -> bool {
        false
    }

    open spec fn from_spec(value: &str) -> Self {
        arbitrary()
    }
}

impl From<FoodName> for String {
    fn from(value: FoodName) -> (r: Self) {
        value.0
    }
}

impl FromSpecImpl<FoodName> for String {
    open spec fn obeys_from_spec() -> bool {
        true
    }

    open spec fn from_spec(value: FoodName) -> Self {
        value.0
    }
}

/// What a caller supplies to have a food created.
#[derive(Debug)]
pub struct CreateFoodPayload {
    pub food_name: FoodName,
    pub exp: NaiveDate,
}

impl Clone for CreateFoodPayload {
    fn clone(&self) -> (r: Self)
        ensures
            r == *self,
    {
        CreateFoodPayload { food_name: self.food_name.clone(), exp: self.exp }
    }
}

/// A food as the store holds it.
pub struct FoodRecord {
    pub food_id: Seq<char>,
    pub food_name: Seq<char>,
    pub exp: NaiveDate,
    pub user_id: Seq<char>,
}

/// A food. `exp` is a calendar day; `user_id` is the key of the owner.
#[derive(Debug, PartialEq)]
pub struct Food {
    pub food_id: FoodId,
    pub food_name: FoodName,
    pub exp: NaiveDate,
    pub user_id: UserId,
}

impl View for Food {
    type V = FoodRecord;

    open spec fn view(&self) -> FoodRecord {
        FoodRecord {
            food_id: self.food_id@,
            food_name: self.food_name@,
            exp: self.exp,
            user_id: self.user_id@,
        }
    }
}

impl Clone for Food {
    fn clone(&self) -> (r: Self)
        ensures
            r == *self,
    {
        Food {
            food_id: self.food_id.clone(),
            food_name: self.food_name.clone(),
            exp: self.exp,
            user_id: self.user_id.clone(),
        }
    }
}

/// The food that a row of `food_table` stands for: its four columns, read in
/// the order of the fields, the first failure reported.
pub open spec fn food_of_row(row: RowView) -> Result<FoodRecord, RowError> {
    match column_text(row, FOOD_ID_COLUMN@) {
        Err(e) => Err(e),
        Ok(food_id) => match column_text(row, FOOD_NAME_COLUMN@) {
            Err(e) => Err(e),
            Ok(food_name) => match column_date(row, FOOD_EXP_COLUMN@) {
                Err(e) => Err(e),
                Ok(exp) => match column_text(row, USER_ID_COLUMN@) {
                    Err(e) => Err(e),
                    Ok(user_id) => Ok(FoodRecord { food_id, food_name, exp, user_id }),
                },
            },
        },
    }
}

/// The row that a select on `food_table` hands out for a food.
pub open spec fn food_row(food: FoodRecord) -> RowView {
    seq![
        (FOOD_ID_COLUMN@, Cell::Text(food.food_id)),
        (FOOD_NAME_COLUMN@, Cell::Text(food.food_name)),
        (FOOD_EXP_COLUMN@, Cell::Date(food.exp)),
        (USER_ID_COLUMN@, Cell::Text(food.user_id)),
    ]
}

/// A food's row reads back as that food.
pub proof fn lemma_food_row_reads_back(food: FoodRecord)
    ensures
        food_of_row(food_row(food)) == Ok::<FoodRecord, RowError>(food),
{
    reveal_strlit("food_id");
    reveal_strlit("food_name");
    reveal_strlit("exp");
    reveal_strlit("user_id");
    let row = food_row(food);
    assert(first_named(row, FOOD_ID_COLUMN@, 0));
    lemma_column_at(row, FOOD_ID_COLUMN@, 0);
    assert(row[0].0[5] != FOOD_NAME_COLUMN@[5]);
    assert(first_named(row, FOOD_NAME_COLUMN@, 1));
    lemma_column_at(row, FOOD_NAME_COLUMN@, 1);
    assert(row[0].0.len() != FOOD_EXP_COLUMN@.len());
    assert(row[1].0.len() != FOOD_EXP_COLUMN@.len());
    assert(first_named(row, FOOD_EXP_COLUMN@, 2));
    lemma_column_at(row, FOOD_EXP_COLUMN@, 2);
    assert(row[0].0[0] != USER_ID_COLUMN@[0]);
    assert(row[1].0[0] != USER_ID_COLUMN@[0]);
    assert(row[2].0[0] != USER_ID_COLUMN@[0]);
    assert(first_named(row, USER_ID_COLUMN@, 3));
    lemma_column_at(row, USER_ID_COLUMN@, 3);
}

impl Food {
    /// The food of `payload`, owned by `user`, under the key `food_id`.
    pub fn with_id(food_id: FoodId, payload: CreateFoodPayload, user: PubUserInfo) -> (food: Food)
        ensures
            food == (Food {
                food_id,
                food_name: payload.food_name,
                exp: payload.exp,
                user_id: user.user_id,
            }),
    {
        Food { food_id, food_name: payload.food_name, exp: payload.exp, user_id: user.user_id }
    }

    /// Creates the food of `payload`, owned by `user`, under a fresh key.
    pub fn new(payload: CreateFoodPayload, user: PubUserInfo) -> (food: Food)
        ensures
            is_uuid_text(food.food_id@),
            food.food_name == payload.food_name,
            food.exp == payload.exp,
            food.user_id == user.user_id,
    {
        Food::with_id(FoodId(fresh_uuid_text()), payload, user)
    }

    /// Reads a row of `food_table` as a food.
    pub fn from_row(row: &Row) -> (r: Result<Food, RowError>)
        ensures
            match r {
                Ok(food) => food_of_row(row@) == Ok::<FoodRecord, RowError>(food@),
                Err(e) => food_of_row(row@) == Err::<FoodRecord, RowError>(e),
            },
    {
        let food_id = row.text(FOOD_ID_COLUMN)?;
        let food_name = row.text(FOOD_NAME_COLUMN)?;
        let exp = row.date(FOOD_EXP_COLUMN)?;
        let user_id = row.text(USER_ID_COLUMN)?;
        Ok(Food { food_id: FoodId(food_id), food_name: FoodName(food_name), exp, user_id: UserId(user_id) })
    }
}

/// The foods of a list, each by its view.
pub open spec fn food_records(foods: Seq<Food>) -> Seq<FoodRecord> {
    Seq::new(foods.len(), |i: int| foods[i]@)
}

/// The foods of one user, in the order in which the store handed them out.
/// That order means nothing.
#[derive(Debug, PartialEq)]
pub struct AllFoods {
    pub foods: Vec<Food>,
}

impl View for AllFoods {
    type V = Seq<FoodRecord>;

    open spec fn view(&self) -> Seq<FoodRecord> {
        food_records(self.foods@)
    }
}

/// The one failure that the food repository reports.
#[derive(Debug, Clone, Copy, PartialEq, Eq, Structural)]
pub enum FoodsError {
    /// The row does not exist, the store refused the statement, or the store
    /// could not be reached. The repository cannot tell these apart.
    NotFound,
}

impl FoodsError {
    pub open spec fn message_text(self) -> Seq<char> {
        "Not found"@
    }

    /// The text of the error.
    pub fn message(&self) -> (text: String)
        ensures
            text@ == self.message_text(),
    {
        "Not found".to_string()
    }
}

} // verus!
