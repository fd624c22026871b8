use chrono::NaiveDate;
use food_tracker::foods::{CreateFoodPayload, Food, FoodId, FoodName};
use food_tracker::store::{Column, Row, RowError, SqlValue};
use food_tracker::users::{
    CreateUserPayload, Mail, Password, PubUserInfo, User, UserId, UserName,
};
use food_tracker::util::{default_hash_password, verify_pass, HashError};

fn day() -> NaiveDate {
    NaiveDate::from_ymd_opt(2025, 4, 8).unwrap_or_default()
}

fn alice() -> CreateUserPayload {
    CreateUserPayload {
        user_name: UserName::from("alice"),
        mail: Mail::from("a@x.com"),
        password: Password::from("secret"),
    }
}

fn owner() -> PubUserInfo {
    PubUserInfo { user_id: UserId::from("test_user_id"), user_name: UserName::from("test_user_name") }
}

fn milk() -> CreateFoodPayload {
    CreateFoodPayload { food_name: FoodName::from("milk"), exp: day() }
}

fn text(name: &str, value: &str) -> Column {
    Column { name: name.to_string(), value: SqlValue::Text(value.to_string()) }
}

fn date(name: &str, value: NaiveDate) -> Column {
    Column { name: name.to_string(), value: SqlValue::Date(value) }
}

fn is_uuid_text(text: &str) -> bool {
    let chars: Vec<char> = text.chars().collect();
    chars.len() == 36
        && chars.iter().enumerate().all(|(i, c)| match i {
            8 | 13 | 18 | 23 => *c == '-',
            _ => matches!(c, '0'..='9' | 'a'..='f'),
        })
        && chars[14] == '4'
        && matches!(chars[19], '8' | '9' | 'a' | 'b')
}

#[test]
fn new_food_takes_payload_and_owner() {
    let food = Food::new(milk(), owner());
    assert_eq!(food.food_name, FoodName::from("milk"));
    assert_eq!(food.exp, day());
    assert_eq!(food.user_id, UserId::from("test_user_id"));
}

#[test]
fn new_food_has_a_fresh_uuid_for_key() {
    let first = Food::new(milk(), owner());
    let second = Food::new(milk(), owner());
    assert!(is_uuid_text(&first.food_id.0));
    assert!(is_uuid_text(&second.food_id.0));
    assert_ne!(first.food_id, second.food_id);
}

#[test]
fn food_with_id_is_exact() {
    let food = Food::with_id(FoodId::from("f-1"), milk(), owner());
    assert_eq!(
        food,
        Food {
            food_id: FoodId::from("f-1"),
            food_name: FoodName::from("milk"),
            exp: day(),
            user_id: UserId::from("test_user_id"),
        }
    );
}

#[test]
fn new_user_hashes_the_password() {
    let user = User::new(alice(), Box::new(default_hash_password)).unwrap();
    assert!(is_uuid_text(&user.user_id.0));
    assert_eq!(user.user_name, UserName::from("alice"));
    assert_eq!(user.mail, Mail::from("a@x.com"));
    assert_ne!(user.password, Password::from("secret"));
    assert_eq!(verify_pass("secret", &user.password.0), Ok(()));
}

#[test]
fn new_user_takes_any_hashing_function() {
    let stub = |plain: &str| Ok::<String, HashError>(format!("hashed:{}", plain));
    let user = User::new(alice(), stub).unwrap();
    assert_eq!(user.password, Password::from("hashed:secret"));
    assert_eq!(user.user_name, UserName::from("alice"));
    assert_eq!(user.mail, Mail::from("a@x.com"));
}

#[test]
fn new_user_fails_when_hashing_fails() {
    let salt = |_plain: &str| Err::<String, HashError>(HashError::Salt);
    assert_eq!(User::new(alice(), salt), Err(HashError::Salt));
    let hash = |_plain: &str| Err::<String, HashError>(HashError::Hash);
    assert_eq!(User::new(alice(), hash), Err(HashError::Hash));
}

#[test]
fn new_users_get_different_keys() {
    let stub = |plain: &str| Ok::<String, HashError>(plain.to_uppercase());
    let first = User::new(alice(), stub).unwrap();
    let second = User::new(alice(), stub).unwrap();
    assert_ne!(first.user_id, second.user_id);
    assert_eq!(first.password, second.password);
}

#[test]
fn assemble_user_is_exact() {
    let made = User::assemble(UserId::from("u-1"), alice(), Ok("h".to_string()));
    assert_eq!(
        made,
        Ok(User {
            user_id: UserId::from("u-1"),
            user_name: UserName::from("alice"),
            mail: Mail::from("a@x.com"),
            password: Password::from("h"),
        })
    );
    let failed = User::assemble(UserId::from("u-1"), alice(), Err(HashError::Hash));
    assert_eq!(failed, Err(HashError::Hash));
}

#[test]
fn food_from_row() {
    let row = Row {
        columns: vec![
            text("food_id", "f-1"),
            text("food_name", "milk"),
            date("exp", day()),
            text("user_id", "u-1"),
        ],
    };
    assert_eq!(
        Food::from_row(&row),
        Ok(Food {
            food_id: FoodId::from("f-1"),
            food_name: FoodName::from("milk"),
            exp: day(),
            user_id: UserId::from("u-1"),
        })
    );
}

#[test]
fn food_from_row_goes_by_name_not_by_position() {
    let row = Row {
        columns: vec![
            text("user_id", "u-1"),
            date("exp", day()),
            text("extra", "x"),
            text("food_name", "milk"),
            text("food_id", "f-1"),
        ],
    };
    let food = Food::from_row(&row).unwrap();
    assert_eq!(food.food_id, FoodId::from("f-1"));
    assert_eq!(food.food_name, FoodName::from("milk"));
    assert_eq!(food.user_id, UserId::from("u-1"));
}

#[test]
fn food_from_row_reports_the_first_failure() {
    let no_name = Row { columns: vec![text("food_id", "f-1"), date("exp", day()), text("user_id", "u-1")] };
    assert_eq!(Food::from_row(&no_name), Err(RowError::ColumnNotFound));
    let text_for_date = Row {
        columns: vec![
            text("food_id", "f-1"),
            text("food_name", "milk"),
            text("exp", "2025-04-08"),
            text("user_id", "u-1"),
        ],
    };
    assert_eq!(Food::from_row(&text_for_date), Err(RowError::ColumnDecode));
    let date_for_id = Row { columns: vec![date("food_id", day())] };
    assert_eq!(Food::from_row(&date_for_id), Err(RowError::ColumnDecode));
    let empty = Row { columns: vec![] };
    assert_eq!(Food::from_row(&empty), Err(RowError::ColumnNotFound));
}

#[test]
fn user_from_row() {
    let row = Row {
        columns: vec![
            text("user_id", "u-1"),
            text("user_name", "alice"),
            text("mail", "a@x.com"),
            text("password", "h"),
        ],
    };
    assert_eq!(
        User::from_row(&row),
        Ok(User {
            user_id: UserId::from("u-1"),
            user_name: UserName::from("alice"),
            mail: Mail::from("a@x.com"),
            password: Password::from("h"),
        })
    );
    let short = Row { columns: vec![text("user_id", "u-1"), text("user_name", "alice")] };
    assert_eq!(User::from_row(&short), Err(RowError::ColumnNotFound));
}

#[test]
fn pub_user_info_from_row_leaves_out_mail_and_password() {
    let row = Row {
        columns: vec![
            text("user_id", "u-1"),
            text("user_name", "alice"),
            text("mail", "a@x.com"),
            text("password", "h"),
        ],
    };
    assert_eq!(
        PubUserInfo::from_row(&row),
        Ok(PubUserInfo { user_id: UserId::from("u-1"), user_name: UserName::from("alice") })
    );
    let short = Row { columns: vec![text("user_id", "u-1")] };
    assert_eq!(PubUserInfo::from_row(&short), Err(RowError::ColumnNotFound));
}
