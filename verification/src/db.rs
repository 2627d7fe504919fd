//! The repository: typed access to the four tables of the hierarchy through
//! one connection that every operation holds exclusively while it runs.
//!
//! What the store answers is not known to the verifier, so the contracts of
//! the operations say what holds of every answer: a read never reports a
//! missing row as an error, and every value that a read returns was read,
//! column by column, from a row that the operation's own statement yielded
//! with the operation's own key bound ([`crate::decode::read_from`]). What
//! the repository itself decides is stated exactly, in functions that take
//! the store's answer as an argument: which statement an operation sends
//! ([`crate::statements`]), how a row becomes a value ([`crate::decode`]),
//! what a lookup makes of the first answer of the rows
//! ([`first_row_outcome`]), what a listing makes of each answer
//! ([`collect_row`]), and how the store's answer becomes the operation's
//! result ([`read_outcome`], [`write_outcome`]).

use crate::decode::{all_read_from, read_from, FromRow};
use crate::models::{District, FullAdminData, Province, Regency, Village};
use crate::sqlite::{
    error_display, error_text, execute, last_insert_rowid, next_row, open_with_flags, prepare, query,
    row_source, rows_source,
};
use crate::statements::{
    delete_district_by_id, delete_province_by_id, delete_regency_by_id, delete_village_by_id,
    insert_district, insert_province, insert_regency, insert_village, select_all_provinces,
    select_district_by_id, select_districts_by_regency, select_full_admin_data_by_village,
    select_province_by_id, select_regencies_by_province, select_regency_by_id,
    select_village_by_id, select_villages_by_district, update_district_by_id,
    update_province_by_id, update_regency_by_id, update_village_by_id, keyed, plain,
    SqlStatement, SELECT_ALL_PROVINCES, SELECT_DISTRICTS_BY_REGENCY, SELECT_DISTRICT_BY_ID,
    SELECT_FULL_ADMIN_DATA_BY_VILLAGE, SELECT_PROVINCE_BY_ID, SELECT_REGENCIES_BY_PROVINCE,
    SELECT_REGENCY_BY_ID, SELECT_VILLAGES_BY_DISTRICT, SELECT_VILLAGE_BY_ID,
};
use crate::sync::{guarded, into_guard, lock, new_mutex};
use std::sync::{Arc, Mutex, MutexGuard};
use vstd::prelude::*;
use vstd::std_specs::convert::FromSpecImpl;
use vstd::string::StringExecFns;

verus! {

/// Why a repository operation did not succeed.
#[derive(Debug)]
pub enum DatabaseError {
    /// The store failed; the cause is carried along.
    SQLiteError(rusqlite::Error),
    /// A rewrite or a removal matched no row.
    NotFound,
}

impl From<rusqlite::Error> for DatabaseError {
    fn from(cause: rusqlite::Error) -> (error: DatabaseError) {
        DatabaseError::SQLiteError(cause)
    }
}

impl FromSpecImpl<rusqlite::Error> for DatabaseError {
    open spec fn obeys_from_spec() -> bool {
        true
    }

    open spec fn from_spec(cause: rusqlite::Error) -> DatabaseError {
        DatabaseError::SQLiteError(cause)
    }
}

/// Opens the store for reading and writing.
pub const OPEN_READ_WRITE: i32 = 0x2;

/// Creates the store if it does not exist yet.
pub const OPEN_CREATE: i32 = 0x4;

/// Has the store serialise every use of the connection.
pub const OPEN_FULL_MUTEX: i32 = 0x1_0000;

/// The flags that the repository opens its store with: for reading and
/// writing, created if it does not exist, every use of the connection
/// serialised by the store.
pub fn open_flags() -> (flags: i32)
    ensures
        flags == OPEN_READ_WRITE | OPEN_CREATE | OPEN_FULL_MUTEX,
        flags == 0x1_0006,
{
    assert(0x2i32 | 0x4i32 | 0x1_0000i32 == 0x1_0006i32) by (bit_vector);
    OPEN_READ_WRITE | OPEN_CREATE | OPEN_FULL_MUTEX
}

pub const NOT_FOUND_MESSAGE: &'static str = "No data found";

pub const STORE_FAILURE_PREFIX: &'static str = "SQLite error: ";

/// The message of a store failure whose cause reads `detail`.
pub fn store_failure_message(detail: &str) -> (message: String)
    ensures
        message@ == STORE_FAILURE_PREFIX@ + detail@,
{
    String::from_str(STORE_FAILURE_PREFIX).concat(detail)
}

impl DatabaseError {
    /// The error as a line of text: for a missing row a fixed sentence, for a
    /// store failure a fixed prefix followed by the line that the cause gives
    /// of itself.
    pub open spec fn spec_message(&self) -> Seq<char> {
        match self {
            DatabaseError::NotFound => NOT_FOUND_MESSAGE@,
            DatabaseError::SQLiteError(cause) => STORE_FAILURE_PREFIX@ + error_display(cause),
        }
    }

    /// The error as a line of text.
    pub fn message(&self) -> (message: String)
        ensures
            message@ == self.spec_message(),
    {
        match self {
            DatabaseError::NotFound => String::from_str(NOT_FOUND_MESSAGE),
            DatabaseError::SQLiteError(cause) => {
                let detail = error_text(cause);
                store_failure_message(detail.as_str())
            },
        }
    }
}

/// What a read or an insertion reports for the store's answer `answer`: the
/// answer itself, or the store's failure with its cause. A read never
/// reports a missing row as an error.
pub open spec fn spec_read_outcome<T>(answer: Result<T, rusqlite::Error>) -> Result<
    T,
    DatabaseError,
> {
    match answer {
        Ok(value) => Ok(value),
        Err(cause) => Err(DatabaseError::SQLiteError(cause)),
    }
}

/// What a rewrite or a removal reports when the store answers `answer`, the
/// number of rows that the statement touched: success for one row or more,
/// a missing row for none, and the store's failure with its cause.
pub open spec fn spec_write_outcome(answer: Result<usize, rusqlite::Error>) -> Result<
    (),
    DatabaseError,
> {
    match answer {
        Ok(affected) => if affected == 0 {
            Err(DatabaseError::NotFound)
        } else {
            Ok(())
        },
        Err(cause) => Err(DatabaseError::SQLiteError(cause)),
    }
}

/// Turns the store's answer to a read or an insertion into the operation's
/// result.
pub fn read_outcome<T>(answer: Result<T, rusqlite::Error>) -> (r: Result<T, DatabaseError>)
    ensures
        r == spec_read_outcome(answer),
{
    match answer {
        Ok(value) => Ok(value),
        Err(cause) => Err(DatabaseError::from(cause)),
    }
}

/// Turns the store's answer to a rewrite or a removal into the operation's
/// result: a statement that touched no row found nothing to write.
pub fn write_outcome(answer: Result<usize, rusqlite::Error>) -> (r: Result<(), DatabaseError>)
    ensures
        r == spec_write_outcome(answer),
{
    match answer {
        Ok(affected) => {
            if affected == 0 {
                Err(DatabaseError::NotFound)
            } else {
                Ok(())
            }
        },
        Err(cause) => Err(DatabaseError::from(cause)),
    }
}

/// What a lookup makes of the first answer `next` of a statement's rows: no
/// row is no value, a row is decoded and returned, and a row that cannot be
/// read, or a failure of the store, is that error.
pub fn first_row_outcome<T: FromRow>(
    next: Result<Option<&rusqlite::Row<'_>>, rusqlite::Error>,
) -> (r: Result<Option<T>, rusqlite::Error>)
    ensures
        match next {
            Ok(Some(row)) => match T::decoded(row) {
                Some(value) => r matches Ok(Some(item)) && item@ == value,
                None => r is Err,
            },
            Ok(None) => r matches Ok(None),
            Err(cause) => r == Err::<Option<T>, rusqlite::Error>(cause),
        },
{
    match next {
        Ok(Some(row)) => match T::from_row(row) {
            Ok(item) => Ok(Some(item)),
            Err(cause) => Err(cause),
        },
        Ok(None) => Ok(None),
        Err(cause) => Err(cause),
    }
}

/// What a listing makes of one answer `next` of a statement's rows. A row is
/// decoded and appended to `found`, and the listing goes on (`true`); no row
/// ends the listing (`false`); a row that cannot be read, or a failure of the
/// store, is that error. But for the appended row `found` is left as it was.
pub fn collect_row<T: FromRow>(
    found: &mut Vec<T>,
    next: Result<Option<&rusqlite::Row<'_>>, rusqlite::Error>,
) -> (r: Result<bool, rusqlite::Error>)
    ensures
        match next {
            Ok(Some(row)) => match T::decoded(row) {
                Some(value) => r == Ok::<bool, rusqlite::Error>(true)
                    && final(found)@.len() == old(found)@.len() + 1
                    && final(found)@.drop_last() == old(found)@
                    && final(found)@.last()@ == value,
                None => r is Err && final(found)@ == old(found)@,
            },
            Ok(None) => r == Ok::<bool, rusqlite::Error>(false) && final(found)@ == old(found)@,
            Err(cause) => r == Err::<bool, rusqlite::Error>(cause) && final(found)@ == old(found)@,
        },
{
    match next {
        Ok(Some(row)) => match T::from_row(row) {
            Ok(item) => {
                found.push(item);
                assert(found@.drop_last() =~= old(found)@);
                Ok(true)
            },
            Err(cause) => Err(cause),
        },
        Ok(None) => Ok(false),
        Err(cause) => Err(cause),
    }
}

/// Runs `statement` and reads every row that it yields, in the order in
/// which the store yields them: each answer of the rows goes through
/// [`collect_row`]. The first row that cannot be read, or the first failure
/// of the store, ends the read with that error.
fn fetch_all<T: FromRow>(conn: &rusqlite::Connection, statement: &SqlStatement) -> (r: Result<
    Vec<T>,
    rusqlite::Error,
>)
    ensures
        r matches Ok(found) ==> all_read_from::<T>(statement@, found@),
{
    let mut prepared = prepare(conn, statement.text)?;
    let mut rows = query(&mut prepared, &statement.params)?;
    let mut found: Vec<T> = Vec::new();
    // No vector holds more items than this bound, so it never cuts a result short.
    while found.len() < usize::MAX
        invariant
            rows_source(&rows) == statement@,
            all_read_from::<T>(statement@, found@),
        decreases usize::MAX - found.len(),
    {
        let ghost before = found@;
        let next = next_row(&mut rows);
        let ghost answer = next;
        let more = collect_row::<T>(&mut found, next)?;
        if !more {
            return Ok(found);
        }
        proof {
            let row = answer->Ok_0->Some_0;
            assert(row_source(row) == statement@ && T::decoded(row) == Some(found@.last()@));
            assert(read_from::<T>(statement@, found@.last()@));
            assert forall|i: int| 0 <= i < found@.len() implies read_from::<T>(
                statement@,
                #[trigger] found@[i]@,
            ) by {
                if i < before.len() {
                    assert(found@[i] == found@.drop_last()[i]);
                }
            }
        }
    }
    Ok(found)
}

/// Runs `statement` and makes of the first answer of its rows what
/// [`first_row_outcome`] says. Further rows are not looked at.
fn fetch_first<T: FromRow>(conn: &rusqlite::Connection, statement: &SqlStatement) -> (r: Result<
    Option<T>,
    rusqlite::Error,
>)
    ensures
        r matches Ok(Some(item)) ==> read_from::<T>(statement@, item@),
{
    let mut prepared = prepare(conn, statement.text)?;
    let mut rows = query(&mut prepared, &statement.params)?;
    let next = next_row(&mut rows);
    let ghost answer = next;
    let outcome = first_row_outcome::<T>(next);
    proof {
        if outcome is Ok && outcome->Ok_0 is Some {
            let row = answer->Ok_0->Some_0;
            let item = outcome->Ok_0->Some_0;
            assert(row_source(row) == statement@ && T::decoded(row) == Some(item@));
        }
    }
    outcome
}

/// Runs the insertion `statement` and asks the store for the key that it
/// gave to the new row.
fn insert_row(conn: &rusqlite::Connection, statement: &SqlStatement) -> Result<
    i64,
    rusqlite::Error,
> {
    execute(conn, statement.text, &statement.params)?;
    Ok(last_insert_rowid(conn))
}

/// A handle to the store. Clones share the one connection, and every
/// operation takes the lock on it for as long as it runs, so no two
/// operations ever use the connection at the same time.
#[derive(Clone)]
pub struct Database {
    conn: Arc<Mutex<rusqlite::Connection>>,
}

impl Database {
    /// Opens the store at `path` with the flags of [`open_flags`]: for reading
    /// and writing, creating the file if it does not exist. The tables are
    /// expected to be there.
    pub fn new(path: &str) -> (r: Result<Database, DatabaseError>)
        ensures
            r is Err ==> r->Err_0 is SQLiteError,
    {
        match open_with_flags(path, open_flags()) {
            Ok(conn) => Ok(Database { conn: Arc::new(new_mutex(conn)) }),
            Err(cause) => Err(DatabaseError::from(cause)),
        }
    }

    /// Takes the lock on the connection. A lock that a panicking holder left
    /// poisoned is taken all the same: the connection itself is still sound.
    fn acquire(&self) -> MutexGuard<'_, rusqlite::Connection> {
        match lock(&*self.conn) {
            Ok(guard) => guard,
            Err(poisoned) => into_guard(poisoned),
        }
    }

    fn read_all<T: FromRow>(&self, statement: SqlStatement) -> (r: Result<Vec<T>, DatabaseError>)
        ensures
            r is Err ==> r->Err_0 is SQLiteError,
            r matches Ok(found) ==> all_read_from::<T>(statement@, found@),
    {
        let guard = self.acquire();
        read_outcome(fetch_all::<T>(guarded(&guard), &statement))
    }

    fn read_one<T: FromRow>(&self, statement: SqlStatement) -> (r: Result<
        Option<T>,
        DatabaseError,
    >)
        ensures
            r is Err ==> r->Err_0 is SQLiteError,
            r matches Ok(Some(item)) ==> read_from::<T>(statement@, item@),
    {
        let guard = self.acquire();
        read_outcome(fetch_first::<T>(guarded(&guard), &statement))
    }

    fn create(&self, statement: SqlStatement) -> (r: Result<i64, DatabaseError>)
        ensures
            r is Err ==> r->Err_0 is SQLiteError,
    {
        let guard = self.acquire();
        read_outcome(insert_row(guarded(&guard), &statement))
    }

    fn write(&self, statement: SqlStatement) -> Result<(), DatabaseError> {
        let guard = self.acquire();
        write_outcome(execute(guarded(&guard), statement.text, &statement.params))
    }

    /// Every province, in the order in which the store yields them. An empty
    /// list is no error.
    pub fn get_all_provinces(&self) -> (r: Result<Vec<Province>, DatabaseError>)
        ensures
            r is Err ==> r->Err_0 is SQLiteError,
            r matches Ok(found) ==> all_read_from::<Province>(
                plain(SELECT_ALL_PROVINCES),
                found@,
            ),
    {
        self.read_all(select_all_provinces())
    }

    /// The province with the key `province_id`, or `None` where there is none: a
    /// missing row is no error.
    pub fn get_one_province(&self, province_id: i64) -> (r: Result<Option<Province>, DatabaseError>)
        ensures
            r is Err ==> r->Err_0 is SQLiteError,
            r matches Ok(Some(found)) ==> read_from::<Province>(
                keyed(SELECT_PROVINCE_BY_ID, province_id),
                found@,
            ),
    {
        self.read_one(select_province_by_id(province_id))
    }

    /// Stores `province` as a new row and returns the key that the store gave it.
    /// The `id` of `province` is not looked at, and an equal code or name may
    /// already be stored.
    pub fn create_province(&self, province: &Province) -> (r: Result<i64, DatabaseError>)
        ensures
            r is Err ==> r->Err_0 is SQLiteError,
    {
        self.create(insert_province(province))
    }

    /// Rewrites every field but the key of the province with the key `id`.
    /// Where no such province is stored the result is `NotFound`; a rewrite with
    /// the values that are already stored succeeds.
    pub fn update_province(&self, id: i64, province: &Province) -> Result<(), DatabaseError> {
        self.write(update_province_by_id(id, province))
    }

    /// Removes the province with the key `id`. Where no such province is stored
    /// the result is `NotFound`. Its regencies are left as they
    /// are, pointing at a province that is gone.
    pub fn delete_province(&self, id: i64) -> Result<(), DatabaseError> {
        self.write(delete_province_by_id(id))
    }

    /// The regencies of the province `province_id`, in the order in which the
    /// store yields them. A province without regencies, or one that does not
    /// exist, gives an empty list and no error.
    pub fn get_regencies_by_province(&self, province_id: i64) -> (r: Result<Vec<Regency>, DatabaseError>)
        ensures
            r is Err ==> r->Err_0 is SQLiteError,
            r matches Ok(found) ==> all_read_from::<Regency>(
                keyed(SELECT_REGENCIES_BY_PROVINCE, province_id),
                found@,
            ),
    {
        self.read_all(select_regencies_by_province(province_id))
    }

    /// The regency with the key `regency_id`, or `None` where there is none: a
    /// missing row is no error.
    pub fn get_one_regency(&self, regency_id: i64) -> (r: Result<Option<Regency>, DatabaseError>)
        ensures
            r is Err ==> r->Err_0 is SQLiteError,
            r matches Ok(Some(found)) ==> read_from::<Regency>(
                keyed(SELECT_REGENCY_BY_ID, regency_id),
                found@,
            ),
    {
        self.read_one(select_regency_by_id(regency_id))
    }

    /// Stores `regency` as a new row and returns the key that the store gave it.
    /// The `id` of `regency` is not looked at, and an equal code or name may
    /// already be stored.
    pub fn create_regency(&self, regency: &Regency) -> (r: Result<i64, DatabaseError>)
        ensures
            r is Err ==> r->Err_0 is SQLiteError,
    {
        self.create(insert_regency(regency))
    }

    /// Rewrites every field but the key of the regency with the key `id`.
    /// Where no such regency is stored the result is `NotFound`; a rewrite with
    /// the values that are already stored succeeds.
    pub fn update_regency(&self, id: i64, regency: &Regency) -> Result<(), DatabaseError> {
        self.write(update_regency_by_id(id, regency))
    }

    /// Removes the regency with the key `id`. Where no such regency is stored
    /// the result is `NotFound`. Its districts are left as they
    /// are, pointing at a regency that is gone.
    pub fn delete_regency(&self, id: i64) -> Result<(), DatabaseError> {
        self.write(delete_regency_by_id(id))
    }

    /// The districts of the regency `regency_id`, in the order in which the
    /// store yields them. A regency without districts, or one that does not
    /// exist, gives an empty list and no error.
    pub fn get_districts_by_regency(&self, regency_id: i64) -> (r: Result<Vec<District>, DatabaseError>)
        ensures
            r is Err ==> r->Err_0 is SQLiteError,
            r matches Ok(found) ==> all_read_from::<District>(
                keyed(SELECT_DISTRICTS_BY_REGENCY, regency_id),
                found@,
            ),
    {
        self.read_all(select_districts_by_regency(regency_id))
    }

    /// The district with the key `district_id`, or `None` where there is none: a
    /// missing row is no error.
    pub fn get_one_district(&self, district_id: i64) -> (r: Result<Option<District>, DatabaseError>)
        ensures
            r is Err ==> r->Err_0 is SQLiteError,
            r matches Ok(Some(found)) ==> read_from::<District>(
                keyed(SELECT_DISTRICT_BY_ID, district_id),
                found@,
            ),
    {
        self.read_one(select_district_by_id(district_id))
    }

    /// Stores `district` as a new row and returns the key that the store gave it.
    /// The `id` of `district` is not looked at, and an equal code or name may
    /// already be stored.
    pub fn create_district(&self, district: &District) -> (r: Result<i64, DatabaseError>)
        ensures
            r is Err ==> r->Err_0 is SQLiteError,
    {
        self.create(insert_district(district))
    }

    /// Rewrites every field but the key of the district with the key `id`.
    /// Where no such district is stored the result is `NotFound`; a rewrite with
    /// the values that are already stored succeeds.
    pub fn update_district(&self, id: i64, district: &District) -> Result<(), DatabaseError> {
        self.write(update_district_by_id(id, district))
    }

    /// Removes the district with the key `id`. Where no such district is stored
    /// the result is `NotFound`. Its villages are left as they
    /// are, pointing at a district that is gone.
    pub fn delete_district(&self, id: i64) -> Result<(), DatabaseError> {
        self.write(delete_district_by_id(id))
    }

    /// The villages of the district `district_id`, in the order in which the
    /// store yields them. A district without villages, or one that does not
    /// exist, gives an empty list and no error.
    pub fn get_villages_by_district(&self, district_id: i64) -> (r: Result<Vec<Village>, DatabaseError>)
        ensures
            r is Err ==> r->Err_0 is SQLiteError,
            r matches Ok(found) ==> all_read_from::<Village>(
                keyed(SELECT_VILLAGES_BY_DISTRICT, district_id),
                found@,
            ),
    {
        self.read_all(select_villages_by_district(district_id))
    }

    /// The village with the key `village_id`, or `None` where there is none: a
    /// missing row is no error.
    pub fn get_one_village(&self, village_id: i64) -> (r: Result<Option<Village>, DatabaseError>)
        ensures
            r is Err ==> r->Err_0 is SQLiteError,
            r matches Ok(Some(found)) ==> read_from::<Village>(
                keyed(SELECT_VILLAGE_BY_ID, village_id),
                found@,
            ),
    {
        self.read_one(select_village_by_id(village_id))
    }

    /// Stores `village` as a new row and returns the key that the store gave it.
    /// The `id` of `village` is not looked at, and an equal code or name may
    /// already be stored.
    pub fn create_village(&self, village: &Village) -> (r: Result<i64, DatabaseError>)
        ensures
            r is Err ==> r->Err_0 is SQLiteError,
    {
        self.create(insert_village(village))
    }

    /// Rewrites every field but the key of the village with the key `id`.
    /// Where no such village is stored the result is `NotFound`; a rewrite with
    /// the values that are already stored succeeds.
    pub fn update_village(&self, id: i64, village: &Village) -> Result<(), DatabaseError> {
        self.write(update_village_by_id(id, village))
    }

    /// Removes the village with the key `id`. Where no such village is stored
    /// the result is `NotFound`.
    pub fn delete_village(&self, id: i64) -> Result<(), DatabaseError> {
        self.write(delete_village_by_id(id))
    }

    /// The codes and names of the village with the key `village_id` and of its
    /// district, regency and province. Where the village does not exist, or a
    /// link of the chain above it leads nowhere, the result is `None`: the
    /// record is given whole or not at all.
    pub fn get_full_admin_data(&self, village_id: i64) -> (r: Result<
        Option<FullAdminData>,
        DatabaseError,
    >)
        ensures
            r is Err ==> r->Err_0 is SQLiteError,
            r matches Ok(Some(found)) ==> read_from::<FullAdminData>(
                keyed(SELECT_FULL_ADMIN_DATA_BY_VILLAGE, village_id),
                found@,
            ),
    {
        self.read_one(select_full_admin_data_by_village(village_id))
    }
}

} // verus!
