//! A persistence layer for keeping track of food: user accounts and the foods
//! each user owns, stored in a relational store.
//!
//! Every entity is served by a repository of the same shape, made of three
//! capabilities: writing (insert, update, delete), reading one row by its key,
//! and reading all rows of an owner. A repository does not run statements. It
//! starts an [`store::Exchange`], the caller runs the statement and hands the
//! reply to [`store::advance`], and the repository reads the reply on which
//! the exchange settled.

use vstd::prelude::*;
use crate::store::{Exchange, Fetch, Reply};

pub mod foods;
pub mod model;
pub mod store;
pub mod users;
pub mod util;

verus! {

/// Reading one row by its key.
pub trait RepositoryTargetReader<Target> {
    type QueryRes;

    type QueryErr;

    /// Starts the lookup of the row filed under `id`: one statement that asks
    /// for one row.
    fn read(&self, id: &Target) -> (exchange: Exchange)
        ensures
            exchange@.well_formed(),
            exchange@.read_back is None,
            exchange@.statement.query.fetch_mode() == Fetch::One,
    ;

    /// The result of a lookup that settled on `reply`. Only a row can be a
    /// success.
    fn found(&self, reply: Reply) -> (r: Result<Self::QueryRes, Self::QueryErr>)
        ensures
            !(reply is Row) ==> r is Err,
    ;
}

/// Writing: insert, update and delete. An insert and an update read the row
/// back once the write has gone through, so their result is what the store
/// holds, not what the caller sent.
pub trait RepositoryWriter<Payload, Target>: RepositoryTargetReader<Target> {
    type Output;

    type Error;

    /// Starts the insert of `payload`: a write, then the lookup of the new row.
    fn insert(&self, payload: &Payload) -> (exchange: Exchange)
        ensures
            exchange@.well_formed(),
            exchange@.statement.query.fetch_mode() == Fetch::Nothing,
            exchange@.read_back is Some,
    ;

    /// Starts the update of the row filed under `id` to the fields of
    /// `payload`: a write, then the lookup of the row.
    fn update(&self, id: &Target, payload: &Payload) -> (exchange: Exchange)
        ensures
            exchange@.well_formed(),
            exchange@.statement.query.fetch_mode() == Fetch::Nothing,
            exchange@.read_back is Some,
    ;

    /// Starts the removal of the row filed under `id`: a write and nothing
    /// after it.
    fn delete(&self, id: &Target) -> (exchange: Exchange)
        ensures
            exchange@.well_formed(),
            exchange@.statement.query.fetch_mode() == Fetch::Nothing,
            exchange@.read_back is None,
    ;

    /// The result of an insert or an update that settled on `reply`. Only the
    /// row that was read back can be a success.
    fn written(&self, reply: Reply) -> (r: Result<Self::Output, Self::Error>)
        ensures
            !(reply is Row) ==> r is Err,
    ;

    /// The result of a delete that settled on `reply`: a success exactly when
    /// the statement ran and removed a row.
    fn deleted(&self, reply: Reply) -> (r: Result<(), Self::Error>)
        ensures
            r is Ok <==> (reply matches Reply::Executed(n) && n > 0),
    ;
}

/// Reading all rows of one owner.
pub trait RepositoryAllReader<Id> {
    type QueryRes;

    type QueryErr;

    /// Starts the lookup of the rows that belong to `id`: one statement that
    /// asks for all rows.
    fn read_all(&self, id: Id) -> (exchange: Exchange)
        ensures
            exchange@.well_formed(),
            exchange@.read_back is None,
            exchange@.statement.query.fetch_mode() == Fetch::All,
    ;

    /// The result of a lookup that settled on `reply`. Only a list of rows can
    /// be a success.
    fn found_all(&self, reply: Reply) -> (r: Result<Self::QueryRes, Self::QueryErr>)
        ensures
            !(reply is Rows) ==> r is Err,
    ;
}

} // verus!
