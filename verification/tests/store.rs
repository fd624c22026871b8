use chrono::NaiveDate;
use food_tracker::store::{
    advance, Column, Exchange, Fetch, Query, Reply, Row, RowError, SqlValue, Statement, Step,
};

fn day() -> NaiveDate {
    NaiveDate::from_ymd_opt(2025, 4, 8).unwrap_or_default()
}

fn row() -> Row {
    Row {
        columns: vec![
            Column { name: "a".to_string(), value: SqlValue::Text("one".to_string()) },
            Column { name: "b".to_string(), value: SqlValue::Date(day()) },
            Column { name: "a".to_string(), value: SqlValue::Text("two".to_string()) },
        ],
    }
}

fn write_then_read() -> Exchange {
    Exchange {
        statement: Statement::by_key(Query::DeleteFood, &"w".to_string()),
        read_back: Some(Statement::by_key(Query::SelectFood, &"r".to_string())),
    }
}

#[test]
fn every_statement_has_one_placeholder_for_each_value() {
    let all = [
        (Query::InsertFood, 4),
        (Query::UpdateFood, 3),
        (Query::DeleteFood, 1),
        (Query::SelectFood, 1),
        (Query::SelectFoodsOfUser, 1),
        (Query::InsertUser, 4),
        (Query::UpdateUser, 4),
        (Query::DeleteUser, 1),
        (Query::SelectUser, 1),
    ];
    for (query, placeholders) in all {
        assert_eq!(query.sql().matches('?').count(), placeholders);
    }
}

#[test]
fn statement_texts() {
    assert_eq!(
        Query::InsertFood.sql(),
        "INSERT INTO food_table (food_id, food_name, exp, user_id) VALUES (?, ?, ?, ?)"
    );
    assert_eq!(Query::UpdateFood.sql(), "UPDATE food_table SET food_name = ?, exp = ? WHERE food_id = ?");
    assert_eq!(Query::DeleteFood.sql(), "DELETE FROM food_table WHERE food_id = ?");
    assert_eq!(
        Query::SelectFood.sql(),
        "SELECT food_id, food_name, exp, user_id FROM food_table WHERE food_id = ?"
    );
    assert_eq!(
        Query::SelectFoodsOfUser.sql(),
        "SELECT food_id, food_name, exp, user_id FROM food_table WHERE user_id = ?"
    );
    assert_eq!(
        Query::InsertUser.sql(),
        "INSERT INTO user_table (user_id, user_name, mail, password) VALUES (?, ?, ?, ?)"
    );
    assert_eq!(
        Query::UpdateUser.sql(),
        "UPDATE user_table SET user_name = ?, mail = ?, password = ? WHERE user_id = ?"
    );
    assert_eq!(Query::DeleteUser.sql(), "DELETE FROM user_table WHERE user_id = ?");
    assert_eq!(Query::SelectUser.sql(), "SELECT user_id, user_name FROM user_table WHERE user_id = ?");
}

#[test]
fn fetch_modes() {
    assert_eq!(Query::SelectFood.fetch(), Fetch::One);
    assert_eq!(Query::SelectUser.fetch(), Fetch::One);
    assert_eq!(Query::SelectFoodsOfUser.fetch(), Fetch::All);
    for query in [
        Query::InsertFood,
        Query::UpdateFood,
        Query::DeleteFood,
        Query::InsertUser,
        Query::UpdateUser,
        Query::DeleteUser,
    ] {
        assert_eq!(query.fetch(), Fetch::Nothing);
    }
}

#[test]
fn statement_by_key_binds_the_key() {
    let st = Statement::by_key(Query::SelectUser, &"u-1".to_string());
    assert_eq!(st.query, Query::SelectUser);
    assert_eq!(st.binds, vec![SqlValue::Text("u-1".to_string())]);
}

#[test]
fn row_lookup_takes_the_first_column_of_a_name() {
    assert_eq!(row().try_get("a"), Ok(&SqlValue::Text("one".to_string())));
    assert_eq!(row().try_get("b"), Ok(&SqlValue::Date(day())));
    assert_eq!(row().try_get("c"), Err(RowError::ColumnNotFound));
    assert_eq!(row().try_get(""), Err(RowError::ColumnNotFound));
    assert_eq!(row().try_get("A"), Err(RowError::ColumnNotFound));
}

#[test]
fn row_text_and_date() {
    assert_eq!(row().text("a"), Ok("one".to_string()));
    assert_eq!(row().text("b"), Err(RowError::ColumnDecode));
    assert_eq!(row().text("c"), Err(RowError::ColumnNotFound));
    assert_eq!(row().date("b"), Ok(day()));
    assert_eq!(row().date("a"), Err(RowError::ColumnDecode));
    assert_eq!(row().date("c"), Err(RowError::ColumnNotFound));
}

#[test]
fn a_call_without_read_back_settles_on_its_reply() {
    let exchange =
        Exchange { statement: Statement::by_key(Query::SelectFood, &"r".to_string()), read_back: None };
    assert_eq!(advance(exchange, Reply::Row(row())), Step::Settle(Reply::Row(row())));
    let exchange =
        Exchange { statement: Statement::by_key(Query::DeleteFood, &"r".to_string()), read_back: None };
    assert_eq!(advance(exchange, Reply::Executed(0)), Step::Settle(Reply::Executed(0)));
    let exchange =
        Exchange { statement: Statement::by_key(Query::DeleteFood, &"r".to_string()), read_back: None };
    assert_eq!(advance(exchange, Reply::Failed), Step::Settle(Reply::Failed));
}

#[test]
fn a_write_that_went_through_is_read_back() {
    let next = Exchange {
        statement: Statement::by_key(Query::SelectFood, &"r".to_string()),
        read_back: None,
    };
    assert_eq!(advance(write_then_read(), Reply::Executed(1)), Step::Send(next));
    let next = Exchange {
        statement: Statement::by_key(Query::SelectFood, &"r".to_string()),
        read_back: None,
    };
    assert_eq!(advance(write_then_read(), Reply::Executed(0)), Step::Send(next));
}

#[test]
fn a_write_that_failed_is_not_read_back() {
    assert_eq!(advance(write_then_read(), Reply::Failed), Step::Settle(Reply::Failed));
    assert_eq!(advance(write_then_read(), Reply::Row(row())), Step::Settle(Reply::Failed));
    assert_eq!(advance(write_then_read(), Reply::Rows(vec![])), Step::Settle(Reply::Failed));
}
