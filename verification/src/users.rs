//! Users: the value objects of their fields, the account as it is stored and
//! the part of it that may be shown to anyone.

use vstd::prelude::*;
use vstd::std_specs::cmp::PartialEqSpecImpl;
use vstd::std_specs::convert::FromSpecImpl;
use crate::store::{column_text, first_named, lemma_column_at, Cell, Row, RowError, RowView};
use crate::util::{fresh_uuid_text, hashes_to, is_uuid_text, may_hash, HashError, HashFunc};

pub mod repo;

verus! {

/// The columns of `user_table`.
pub const USER_ID_COLUMN: &'static str = "user_id";

pub const USER_NAME_COLUMN: &'static str = "user_name";

pub const MAIL_COLUMN: &'static str = "mail";

pub const PASSWORD_COLUMN: &'static str = "password";

/// The key of a user: made once, when the account is created, and never changed.
#[derive(Debug)]
pub struct UserId(pub String);

impl View for UserId {
    type V = Seq<char>;

    open spec fn view(&self) -> Seq<char> {
        self.0@
    }
}

impl Clone for UserId {
    fn clone(&self) -> (r: Self)
        ensures
            r == *self,
    {
        UserId(self.0.clone())
    }
}

impl PartialEq for UserId {
    fn eq(&self, other: &Self) -> (r: bool) {
        self.0 == other.0
    }
}

/// Two values are equal when they hold the same text.
impl PartialEqSpecImpl for UserId {
    open spec fn obeys_eq_spec() -> bool {
        true
    }

    open spec fn eq_spec(&self, other: &Self) -> bool {
        self@ == other@
    }
}

impl From<String> for UserId {
    fn from(value: String) -> (r: Self) {
        UserId(value)
    }
}

impl FromSpecImpl<String> for UserId {
    open spec fn obeys_from_spec() -> bool {
        true
    }

    open spec fn from_spec(value: String) -> Self {
        UserId(value)
    }
}

impl From<&String> for UserId {
    fn from(value: &String) -> (r: Self) {
        UserId(value.clone())
    }
}

impl FromSpecImpl<&String> for UserId {
    open spec fn obeys_from_spec() -> bool {
        true
    }

    open spec fn from_spec(value: &String) -> Self {
        UserId(*value)
    }
}

impl From<&str> for UserId {
    fn from(value: &str) -> (r: Self)
        ensures
            r@ == value@,
    {
        UserId(value.to_string())
    }
}

/// A `String` is known to the verifier only through its characters, so the
/// conversion from a string slice is stated on the view, by the `ensures`
/// of `from`, and not as a value.
impl FromSpecImpl<&str> for UserId {
    open spec fn obeys_from_spec() -> bool {
        false
    }

    open spec fn from_spec(value: &str) -> Self {
        arbitrary()
    }
}

impl From<UserId> for String {
    fn from(value: UserId) -> (r: Self) {
        value.0
    }
}

impl FromSpecImpl<UserId> for String {
    open spec fn obeys_from_spec() -> bool {
        true
    }

    open spec fn from_spec(value: UserId) -> Self {
        value.0
    }
}

/// The name a user goes by.
#[derive(Debug)]
pub struct UserName(pub String);

impl View for UserName {
    type V = Seq<char>;

    open spec fn view(&self) -> Seq<char> {
        self.0@
    }
}

impl Clone for UserName {
    fn clone(&self) -> (r: Self)
        ensures
            r == *self,
    {
        UserName(self.0.clone())
    }
}

impl PartialEq for UserName {
    fn eq(&self, other: &Self) -> (r: bool) {
        self.0 == other.0
    }
}

/// Two values are equal when they hold the same text.
impl PartialEqSpecImpl for UserName {
    open spec fn obeys_eq_spec() -> bool {
        true
    }

    open spec fn eq_spec(&self, other: &Self) -> bool {
        self@ == other@
    }
}

impl From<String> for UserName {
    fn from(value: String) -> (r: Self) {
        UserName(value)
    }
}

impl FromSpecImpl<String> for UserName {
    open spec fn obeys_from_spec() -> bool {
        true
    }

    open spec fn from_spec(value: String) -> Self {
        UserName(value)
    }
}

impl From<&String> for UserName {
    fn from(value: &String) -> (r: Self) {
        UserName(value.clone())
    }
}

impl FromSpecImpl<&String> for UserName {
    open spec fn obeys_from_spec() -> bool {
        true
    }

    open spec fn from_spec(value: &String) -> Self {
        UserName(*value)
    }
}

impl From<&str> for UserName {
    fn from(value: &str) -> (r: Self)
        ensures
            r@ == value@,
    {
        UserName(value.to_string())
    }
}

/// A `String` is known to the verifier only through its characters, so the
/// conversion from a string slice is stated on the view, by the `ensures`
/// of `from`, and not as a value.
impl FromSpecImpl<&str> for UserName {
    open spec fn obeys_from_spec() -> bool {
        false
    }

    open spec fn from_spec(value: &str) -> Self {
        arbitrary()
    }
}

impl From<UserName> for String {
    fn from(value: UserName) -> (r: Self) {
        value.0
    }
}

impl FromSpecImpl<UserName> for String {
    open spec fn obeys_from_spec() -> bool {
        true
    }

    open spec fn from_spec(value: UserName) -> Self {
        value.0
    }
}

/// A user's mail address.
#[derive(Debug)]
pub struct Mail(pub String);

impl View for Mail {
    type V = Seq<char>;

    open spec fn view(&self) -> Seq<char> {
        self.0@
    }
}

impl Clone for Mail {
    fn clone(&self) -> (r: Self)
        ensures
            r == *self,
    {
        Mail(self.0.clone())
    }
}

impl PartialEq for Mail {
    fn eq(&self, other: &Self) -> (r: bool) {
        self.0 == other.0
    }
}

/// Two values are equal when they hold the same text.
impl PartialEqSpecImpl for Mail {
    open spec fn obeys_eq_spec() -> bool {
        true
    }

    open spec fn eq_spec(&self, other: &Self) -> bool {
        self@ == other@
    }
}

impl From<String> for Mail {
    fn from(value: String) -> (r: Self) {
        Mail(value)
    }
}

impl FromSpecImpl<String> for Mail {
    open spec fn obeys_from_spec() -> bool {
        true
    }

    open spec fn from_spec(value: String) -> Self {
        Mail(value)
    }
}

impl From<&String> for Mail {
    fn from(value: &String) -> (r: Self) {
        Mail(value.clone())
    }
}

impl FromSpecImpl<&String> for Mail {
    open spec fn obeys_from_spec() -> bool {
        true
    }

    open spec fn from_spec(value: &String) -> Self {
        Mail(*value)
    }
}

impl From<&str> for Mail {
    fn from(value: &str) -> (r: Self)
        ensures
            r@ == value@,
    {
        Mail(value.to_string())
    }
}

/// A `String` is known to the verifier only through its characters, so the
/// conversion from a string slice is stated on the view, by the `ensures`
/// of `from`, and not as a value.
impl FromSpecImpl<&str> for Mail {
    open spec fn obeys_from_spec() -> bool {
        false
    }

    open spec fn from_spec(value: &str) -> Self {
        arbitrary()
    }
}

impl From<Mail> for String {
    fn from(value: Mail) -> (r: Self) {
        value.0
    }
}

impl FromSpecImpl<Mail> for String {
    open spec fn obeys_from_spec() -> bool {
        true
    }

    open spec fn from_spec(value: Mail) -> Self {
        value.0
    }
}

/// A user's password: as typed in a payload, hashed in an account.
#[derive(Debug)]
pub struct Password(pub String);

impl View for Password {
    type V = Seq<char>;

    open spec fn view(&self) -> Seq<char> {
        self.0@
    }
}

impl Clone for Password {
    fn clone(&self) -> (r: Self)
        ensures
            r == *self,
    {
        Password(self.0.clone())
    }
}

impl PartialEq for Password {
    fn eq(&self, other: &Self) -> (r: bool) {
        self.0 == other.0
    }
}

/// Two values are equal when they hold the same text.
impl PartialEqSpecImpl for Password {
    open spec fn obeys_eq_spec() -> bool {
        true
    }

    open spec fn eq_spec(&self, other: &Self) -> bool {
        self@ == other@
    }
}

impl From<String> for Password {
    fn from(value: String) -> (r: Self) {
        Password(value)
    }
}

impl FromSpecImpl<String> for Password {
    open spec fn obeys_from_spec() -> bool {
        true
    }

    open spec fn from_spec(value: String) -> Self {
        Password(value)
    }
}

impl From<&String> for Password {
    fn from(value: &String) -> (r: Self) {
        Password(value.clone())
    }
}

impl FromSpecImpl<&String> for Password {
    open spec fn obeys_from_spec() -> bool {
        true
    }

    open spec fn from_spec(value: &String) -> Self {
        Password(*value)
    }
}

impl From<&str> for Password {
    fn from(value: &str) -> (r: Self)
        ensures
            r@ == value@,
    {
        Password(value.to_string())
    }
}

/// A `String` is known to the verifier only through its characters, so the
/// conversion from a string slice is stated on the view, by the `ensures`
/// of `from`, and not as a value.
impl FromSpecImpl<&str> for Password {
    open spec fn obeys_from_spec() -> bool {
        false
    }

    open spec fn from_spec(value: &str) -> Self {
        arbitrary()
    }
}

impl From<Password> for String {
    fn from(value: Password) -> (r: Self) {
        value.0
    }
}

impl FromSpecImpl<Password> for String {
    open spec fn obeys_from_spec() -> bool {
        true
    }

    open spec fn from_spec(value: Password) -> Self {
        value.0
    }
}

/// What a caller supplies to have an account created. The password is the
/// plaintext.
#[derive(Debug, PartialEq)]
pub struct CreateUserPayload {
    pub user_name: UserName,
    pub mail: Mail,
    pub password: Password,
}

impl Clone for CreateUserPayload {
    fn clone(&self) -> (r: Self)
        ensures
            r == *self,
    {
        CreateUserPayload {
            user_name: self.user_name.clone(),
            mail: self.mail.clone(),
            password: self.password.clone(),
        }
    }
}

/// An account as the store holds it.
pub struct UserRecord {
    pub user_id: Seq<char>,
    pub user_name: Seq<char>,
    pub mail: Seq<char>,
    pub password: Seq<char>,
}

/// An account. `password` holds what the hashing function made of the
/// plaintext.
#[derive(Debug, PartialEq)]
pub struct User {
    pub user_id: UserId,
    pub user_name: UserName,
    pub mail: Mail,
    pub password: Password,
}

impl View for User {
    type V = UserRecord;

    open spec fn view(&self) -> UserRecord {
        UserRecord {
            user_id: self.user_id@,
            user_name: self.user_name@,
            mail: self.mail@,
            password: self.password@,
        }
    }
}

impl Clone for User {
    fn clone(&self) -> (r: Self)
        ensures
            r == *self,
    {
        User {
            user_id: self.user_id.clone(),
            user_name: self.user_name.clone(),
            mail: self.mail.clone(),
            password: self.password.clone(),
        }
    }
}

/// The account that a row of `user_table` stands for: its four columns, read
/// in the order of the fields, the first failure reported.
pub open spec fn user_of_row(row: RowView) -> Result<UserRecord, RowError> {
    match column_text(row, USER_ID_COLUMN@) {
        Err(e) => Err(e),
        Ok(user_id) => match column_text(row, USER_NAME_COLUMN@) {
            Err(e) => Err(e),
            Ok(user_name) => match column_text(row, MAIL_COLUMN@) {
                Err(e) => Err(e),
                Ok(mail) => match column_text(row, PASSWORD_COLUMN@) {
                    Err(e) => Err(e),
                    Ok(password) => Ok(UserRecord { user_id, user_name, mail, password }),
                },
            },
        },
    }
}

/// What `User::new` makes of a key, a payload and the hashing function's
/// answer: the account, or the hashing function's failure.
pub open spec fn assembled(
    user_id: UserId,
    payload: CreateUserPayload,
    hashed: Result<String, HashError>,
) -> Result<User, HashError> {
    match hashed {
        Ok(hash) => Ok(
            User {
                user_id,
                user_name: payload.user_name,
                mail: payload.mail,
                password: Password(hash),
            },
        ),
        Err(e) => Err(e),
    }
}

impl User {
    /// Puts an account together from a key, a payload and what the hashing
    /// function returned for the payload's password. A failed hash gives no
    /// account: the plaintext is never stored in its place.
    pub fn assemble(
        user_id: UserId,
        payload: CreateUserPayload,
        hashed: Result<String, HashError>,
    ) -> (r: Result<User, HashError>)
        ensures
            r == assembled(user_id, payload, hashed),
    {
        match hashed {
            Ok(hash) => Ok(
                User {
                    user_id,
                    user_name: payload.user_name,
                    mail: payload.mail,
                    password: Password(hash),
                },
            ),
            Err(e) => Err(e),
        }
    }

    /// Creates an account for `payload`: a fresh key, the name and mail of the
    /// payload, and as password what `hasher` returns for the payload's
    /// plaintext. Fails exactly when `hasher` does, with its error.
    pub fn new<H: HashFunc>(payload: CreateUserPayload, hasher: H) -> (r: Result<User, HashError>)
        requires
            may_hash(hasher, payload.password@),
        ensures
            exists|user_id: UserId, hashed: Result<String, HashError>|
                is_uuid_text(user_id@) && hashes_to(hasher, payload.password@, hashed)
                    && r == #[trigger] assembled(user_id, payload, hashed),
    {
        let user_id = UserId(fresh_uuid_text());
        let hashed = hasher(payload.password.0.as_str());
        let r = User::assemble(user_id, payload, hashed);
        proof {
            assert(r == assembled(user_id, payload, hashed));
        }
        r
    }

    /// Reads a row of `user_table` as an account.
    pub fn from_row(row: &Row) -> (r: Result<User, RowError>)
        ensures
            match r {
                Ok(user) => user_of_row(row@) == Ok::<UserRecord, RowError>(user@),
                Err(e) => user_of_row(row@) == Err::<UserRecord, RowError>(e),
            },
    {
        let user_id = row.text(USER_ID_COLUMN)?;
        let user_name = row.text(USER_NAME_COLUMN)?;
        let mail = row.text(MAIL_COLUMN)?;
        let password = row.text(PASSWORD_COLUMN)?;
        Ok(
            User {
                user_id: UserId(user_id),
                user_name: UserName(user_name),
                mail: Mail(mail),
                password: Password(password),
            },
        )
    }
}

/// The part of an account that any caller may see.
pub struct PubUserRecord {
    pub user_id: Seq<char>,
    pub user_name: Seq<char>,
}

/// The part of an account that any caller may see: the key and the name,
/// never the mail or the password.
#[derive(Debug, PartialEq)]
pub struct PubUserInfo {
    pub user_id: UserId,
    pub user_name: UserName,
}

impl View for PubUserInfo {
    type V = PubUserRecord;

    open spec fn view(&self) -> PubUserRecord {
        PubUserRecord { user_id: self.user_id@, user_name: self.user_name@ }
    }
}

impl Clone for PubUserInfo {
    fn clone(&self) -> (r: Self)
        ensures
            r == *self,
    {
        PubUserInfo { user_id: self.user_id.clone(), user_name: self.user_name.clone() }
    }
}

/// What an account shows of itself.
pub open spec fn redacted(user: UserRecord) -> PubUserRecord {
    PubUserRecord { user_id: user.user_id, user_name: user.user_name }
}

/// The public part of the account that a row stands for: the columns
/// `user_id` and `user_name`, whatever else the row holds.
pub open spec fn pub_user_of_row(row: RowView) -> Result<PubUserRecord, RowError> {
    match column_text(row, USER_ID_COLUMN@) {
        Err(e) => Err(e),
        Ok(user_id) => match column_text(row, USER_NAME_COLUMN@) {
            Err(e) => Err(e),
            Ok(user_name) => Ok(PubUserRecord { user_id, user_name }),
        },
    }
}

/// The row that the select on `user_table` hands out for an account: the key
/// and the name, nothing else.
pub open spec fn pub_user_row(user: UserRecord) -> RowView {
    seq![(USER_ID_COLUMN@, Cell::Text(user.user_id)), (USER_NAME_COLUMN@, Cell::Text(user.user_name))]
}

/// An account's row reads back as the public part of that account.
pub proof fn lemma_pub_user_row_reads_back(user: UserRecord)
    ensures
        pub_user_of_row(pub_user_row(user)) == Ok::<PubUserRecord, RowError>(redacted(user)),
{
    reveal_strlit("user_id");
    reveal_strlit("user_name");
    let row = pub_user_row(user);
    assert(first_named(row, USER_ID_COLUMN@, 0));
    lemma_column_at(row, USER_ID_COLUMN@, 0);
    assert(row[0].0.len() != USER_NAME_COLUMN@.len());
    assert(first_named(row, USER_NAME_COLUMN@, 1));
    lemma_column_at(row, USER_NAME_COLUMN@, 1);
}

impl PubUserInfo {
    /// Reads the public part of an account out of a row.
    pub fn from_row(row: &Row) -> (r: Result<PubUserInfo, RowError>)
        ensures
            match r {
                Ok(info) => pub_user_of_row(row@) == Ok::<PubUserRecord, RowError>(info@),
                Err(e) => pub_user_of_row(row@) == Err::<PubUserRecord, RowError>(e),
            },
    {
        let user_id = row.text(USER_ID_COLUMN)?;
        let user_name = row.text(USER_NAME_COLUMN)?;
        Ok(PubUserInfo { user_id: UserId(user_id), user_name: UserName(user_name) })
    }
}

/// The one failure that the user repository reports.
#[derive(Debug, Clone, Copy, PartialEq, Eq, Structural)]
pub enum UserError {
    /// The row does not exist, the store refused the statement, or the store
    /// could not be reached. The repository cannot tell these apart.
    NotFound,
}

impl UserError {
    pub open spec fn message_text(self) -> Seq<char> {
        "error"@
    }

    /// The text of the error.
    pub fn message(&self) -> (text: String)
        ensures
            text@ == self.message_text(),
    {
        "error".to_string()
    }
}

} // verus!
