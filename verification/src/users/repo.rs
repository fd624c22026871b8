//! The repository of user accounts.

use vstd::prelude::*;
use crate::store::{
    keyed, Cell, Exchange, ExchangeView, Query, Reply, ReplyView, SqlValue, Statement,
    StatementView,
};
use crate::model::{after, left_by, runs, settles, Tables};
use crate::users::{
    lemma_pub_user_row_reads_back, pub_user_of_row, redacted, PubUserInfo, PubUserRecord, User,
    UserError, UserId, UserRecord,
};
use crate::{RepositoryTargetReader, RepositoryWriter};

verus! {

/// The repository of user accounts: which statements serve each call on
/// `user_table`, and what their replies mean. What it hands out of an account
/// is the public part. `P` is the handle of the store that the statements are
/// meant for.
pub struct UserRepository<P> {
    /// The handle of the store, as the caller provided it. The repository
    /// never looks into it.
    pub pool: P,
}

/// The exchange of `insert`: the four fields of the account in the order of
/// the column list, then the lookup of the account's key.
pub open spec fn insert_user(user: UserRecord) -> ExchangeView {
    ExchangeView {
        statement: StatementView {
            query: Query::InsertUser,
            binds: seq![
                Cell::Text(user.user_id),
                Cell::Text(user.user_name),
                Cell::Text(user.mail),
                Cell::Text(user.password),
            ],
        },
        read_back: Some(keyed(Query::SelectUser, user.user_id)),
    }
}

/// The exchange of `update`: the new name, mail and password, and the key of
/// the row to change, then the lookup of that key. The key of the payload is
/// not sent: an account keeps its key.
pub open spec fn update_user(id: Seq<char>, user: UserRecord) -> ExchangeView {
    ExchangeView {
        statement: StatementView {
            query: Query::UpdateUser,
            binds: seq![
                Cell::Text(user.user_name),
                Cell::Text(user.mail),
                Cell::Text(user.password),
                Cell::Text(id),
            ],
        },
        read_back: Some(keyed(Query::SelectUser, id)),
    }
}

/// The exchange of `delete`.
pub open spec fn delete_user(id: Seq<char>) -> ExchangeView {
    ExchangeView { statement: keyed(Query::DeleteUser, id), read_back: None }
}

/// The exchange of `read`.
pub open spec fn read_user(id: Seq<char>) -> ExchangeView {
    ExchangeView { statement: keyed(Query::SelectUser, id), read_back: None }
}

/// What a lookup by key found: the public part of the account of the row.
/// Any other reply, and a row that is no account, count as not found.
pub open spec fn user_found(reply: ReplyView) -> Result<PubUserRecord, UserError> {
    match reply {
        ReplyView::Row(row) => match pub_user_of_row(row) {
            Ok(info) => Ok(info),
            Err(_) => Err(UserError::NotFound),
        },
        _ => Err(UserError::NotFound),
    }
}

/// What a delete came to: done if the statement ran and removed a row, not
/// found otherwise.
pub open spec fn user_removed(reply: ReplyView) -> Result<(), UserError> {
    match reply {
        ReplyView::Executed(n) => if n > 0 {
            Ok(())
        } else {
            Err(UserError::NotFound)
        },
        _ => Err(UserError::NotFound),
    }
}

impl<P> UserRepository<P> {
    /// The repository for the store behind `pool`.
    pub fn new(pool: P) -> (repo: Self)
        ensures
            repo.pool == pool,
    {
        UserRepository { pool }
    }

    /// The handle on which the caller runs the repository's statements.
    pub fn pool(&self) -> (pool: &P)
        ensures
            *pool == self.pool,
    {
        &self.pool
    }
}

impl<P> RepositoryTargetReader<UserId> for UserRepository<P> {
    type QueryRes = PubUserInfo;

    type QueryErr = UserError;

    fn read(&self, id: &UserId) -> (exchange: Exchange)
        ensures
            exchange@ == read_user(id@),
    {
        Exchange { statement: Statement::by_key(Query::SelectUser, &id.0), read_back: None }
    }

    fn found(&self, reply: Reply) -> (r: Result<PubUserInfo, UserError>)
        ensures
            match r {
                Ok(info) => user_found(reply@) == Ok::<PubUserRecord, UserError>(info@),
                Err(e) => user_found(reply@) == Err::<PubUserRecord, UserError>(e),
            },
    {
        match reply {
            Reply::Row(row) => match PubUserInfo::from_row(&row) {
                Ok(info) => Ok(info),
                Err(_) => Err(UserError::NotFound),
            },
            _ => Err(UserError::NotFound),
        }
    }
}

impl<P> RepositoryWriter<User, UserId> for UserRepository<P> {
    type Output = PubUserInfo;

    type Error = UserError;

    fn insert(&self, payload: &User) -> (exchange: Exchange)
        ensures
            exchange@ == insert_user(payload@),
    {
        let mut binds: Vec<SqlValue> = Vec::new();
        binds.push(SqlValue::Text(payload.user_id.0.clone()));
        binds.push(SqlValue::Text(payload.user_name.0.clone()));
        binds.push(SqlValue::Text(payload.mail.0.clone()));
        binds.push(SqlValue::Text(payload.password.0.clone()));
        let exchange = Exchange {
            statement: Statement { query: Query::InsertUser, binds },
            read_back: Some(Statement::by_key(Query::SelectUser, &payload.user_id.0)),
        };
        proof {
            assert(exchange@.statement.binds =~= insert_user(payload@).statement.binds);
        }
        exchange
    }

    fn update(&self, id: &UserId, payload: &User) -> (exchange: Exchange)
        ensures
            exchange@ == update_user(id@, payload@),
    {
        let mut binds: Vec<SqlValue> = Vec::new();
        binds.push(SqlValue::Text(payload.user_name.0.clone()));
        binds.push(SqlValue::Text(payload.mail.0.clone()));
        binds.push(SqlValue::Text(payload.password.0.clone()));
        binds.push(SqlValue::Text(id.0.clone()));
        let exchange = Exchange {
            statement: Statement { query: Query::UpdateUser, binds },
            read_back: Some(Statement::by_key(Query::SelectUser, &id.0)),
        };
        proof {
            assert(exchange@.statement.binds =~= update_user(id@, payload@).statement.binds);
        }
        exchange
    }

    fn delete(&self, id: &UserId) -> (exchange: Exchange)
        ensures
            exchange@ == delete_user(id@),
    {
        Exchange { statement: Statement::by_key(Query::DeleteUser, &id.0), read_back: None }
    }

    fn written(&self, reply: Reply) -> (r: Result<PubUserInfo, UserError>)
        ensures
            match r {
                Ok(info) => user_found(reply@) == Ok::<PubUserRecord, UserError>(info@),
                Err(e) => user_found(reply@) == Err::<PubUserRecord, UserError>(e),
            },
    {
        self.found(reply)
    }

    fn deleted(&self, reply: Reply) -> (r: Result<(), UserError>)
        ensures
            r == user_removed(reply@),
    {
        match reply {
            Reply::Executed(n) => if n > 0 {
                Ok(())
            } else {
                Err(UserError::NotFound)
            },
            _ => Err(UserError::NotFound),
        }
    }
}

/// An insert files the account as it was sent and hands back its public
/// part; a read of its key afterwards hands back the same.
pub proof fn lemma_insert_then_read(
    db: Tables,
    user: UserRecord,
    inserted: ReplyView,
    out: PubUserRecord,
    read: ReplyView,
)
    requires
        db.wf(),
        settles(db, insert_user(user), inserted),
        user_found(inserted) == Ok::<PubUserRecord, UserError>(out),
        settles(left_by(db, insert_user(user)), read_user(out.user_id), read),
    ensures
        out == redacted(user),
        left_by(db, insert_user(user)).users[user.user_id] == user,
        user_found(read) == Ok::<PubUserRecord, UserError>(out),
{
    lemma_pub_user_row_reads_back(user);
}

/// After a delete that succeeded, a read of the same key finds nothing.
pub proof fn lemma_delete_then_read(db: Tables, id: Seq<char>, deleted: ReplyView, read: ReplyView)
    requires
        db.wf(),
        settles(db, delete_user(id), deleted),
        user_removed(deleted) is Ok,
        settles(left_by(db, delete_user(id)), read_user(id), read),
    ensures
        user_found(read) == Err::<PubUserRecord, UserError>(UserError::NotFound),
{
}

/// An update that succeeded leaves the row with the name, the mail and the
/// password of the payload in place of the old ones, under the key it was
/// filed under, and hands back its public part. A read of the key afterwards
/// hands back the same.
pub proof fn lemma_update_then_read(
    db: Tables,
    id: Seq<char>,
    user: UserRecord,
    updated: ReplyView,
    out: PubUserRecord,
    read: ReplyView,
)
    requires
        db.wf(),
        settles(db, update_user(id, user), updated),
        user_found(updated) == Ok::<PubUserRecord, UserError>(out),
        settles(left_by(db, update_user(id, user)), read_user(id), read),
    ensures
        db.has_user(id),
        left_by(db, update_user(id, user)).users[id] == (UserRecord { user_id: id, ..user }),
        out == (PubUserRecord { user_id: id, user_name: user.user_name }),
        user_found(read) == Ok::<PubUserRecord, UserError>(out),
{
    let st = update_user(id, user).statement;
    assert(runs(db, st));
    let db1 = after(db, st);
    if db.has_user(id) {
        lemma_pub_user_row_reads_back(db1.users[id]);
    }
}

} // verus!
