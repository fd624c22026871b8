use food_tracker::foods::{FoodId, FoodName, FoodsError};
use food_tracker::users::{Mail, Password, UserError, UserId, UserName};

#[test]
fn value_objects_wrap_any_string() {
    assert_eq!(UserId::from("u-1"), UserId("u-1".to_string()));
    assert_eq!(UserId::from("u-1".to_string()), UserId::from("u-1"));
    assert_eq!(UserId::from(&"u-1".to_string()), UserId::from("u-1"));
    assert_eq!(UserName::from("alice"), UserName("alice".to_string()));
    assert_eq!(Mail::from("a@x.com"), Mail("a@x.com".to_string()));
    assert_eq!(Password::from("secret"), Password("secret".to_string()));
    assert_eq!(FoodId::from("f-1"), FoodId("f-1".to_string()));
    assert_eq!(FoodName::from("milk"), FoodName("milk".to_string()));
}

#[test]
fn value_objects_do_not_validate() {
    assert_eq!(String::from(UserId::from("")), "");
    assert_eq!(String::from(Mail::from("not a mail")), "not a mail");
    assert_eq!(String::from(FoodName::from("  ")), "  ");
}

#[test]
fn value_objects_unwrap_to_their_string() {
    assert_eq!(String::from(UserId::from("u-1")), "u-1");
    assert_eq!(String::from(UserName::from("alice")), "alice");
    assert_eq!(String::from(Mail::from("a@x.com")), "a@x.com");
    assert_eq!(String::from(Password::from("secret")), "secret");
    assert_eq!(String::from(FoodId::from("f-1")), "f-1");
    assert_eq!(<FoodName as Into<String>>::into(FoodName::from("milk")), "milk");
}

#[test]
fn equality_is_by_value() {
    assert_eq!(FoodName::from("milk"), FoodName::from("milk".to_string()));
    assert_ne!(FoodName::from("milk"), FoodName::from("Milk"));
    assert_ne!(UserId::from("a"), UserId::from("b"));
    let id = FoodId::from("f-1");
    assert_eq!(id.clone(), id);
}

#[test]
fn repository_error_messages() {
    assert_eq!(FoodsError::NotFound.message(), "Not found");
    assert_eq!(UserError::NotFound.message(), "error");
}
