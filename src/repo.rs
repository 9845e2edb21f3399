use crate::outcome::{
    after_insert, finish_read, finish_write, settle_clock, settle_time, store_error, DbFailure, Row,
};
use crate::user::{select_inserted, settle_row_id, users_from_rows, StoreError, User, UserInsert};
use diesel::result::DatabaseErrorKind;
use diesel::result::Error as DieselError;
use diesel::sql_types::{BigInt, Integer, Text, Timestamp};
use diesel::sqlite::SqliteConnection;
use diesel::RunQueryDsl;
use vstd::prelude::*;

verus! {

/// Declares diesel's SQLite connection, carried through as an opaque handle.
#[verifier::external_type_specification]
#[verifier::external_body]
pub struct ExSqliteConnection(diesel::sqlite::SqliteConnection);

/// Relies on diesel's `sql_query(..).bind(..).execute`: runs one INSERT that
/// supplies only the email; the store picks `id` and `created_at`. Diesel's
/// error is told apart by its variants.
#[verifier::external_body]
fn insert_email(conn: &SqliteConnection, email: &str) -> (r: Result<usize, DbFailure>)
    ensures
        r matches Err(f) ==> f != DbFailure::NotFound,
{
    match diesel::sql_query("INSERT INTO users (email) VALUES (?)").bind::<Text, _>(email).execute(
        conn,
    ) {
        Ok(n) => Ok(n),
        Err(DieselError::DatabaseError(DatabaseErrorKind::UniqueViolation, _)) => Err(
            DbFailure::UniqueViolation,
        ),
        Err(DieselError::DatabaseError(DatabaseErrorKind::ForeignKeyViolation, _)) => Err(
            DbFailure::ForeignKeyViolation,
        ),
        Err(_) => Err(DbFailure::Other),
    }
}

/// Relies on diesel's `sql(..).get_result`: asks this connection for
/// SQLite's `last_insert_rowid()`, the row id of its own latest insert.
/// Diesel's error is told apart by its variants.
#[verifier::external_body]
fn last_insert_rowid(conn: &SqliteConnection) -> (r: Result<i64, DbFailure>) {
    match diesel::dsl::sql::<BigInt>("SELECT last_insert_rowid()").get_result::<i64>(conn) {
        Ok(v) => Ok(v),
        Err(DieselError::NotFound) => Err(DbFailure::NotFound),
        Err(_) => Err(DbFailure::Other),
    }
}

/// Relies on diesel's `sql(..).bind(..).load`: fetches the rows whose primary
/// key equals `user_id`. `load` never reports a missing row as an error.
#[verifier::external_body]
fn select_by_id(conn: &SqliteConnection, user_id: i32) -> (r: Result<Vec<Row>, DbFailure>)
    ensures
        r matches Err(f) ==> f != DbFailure::NotFound,
{
    match diesel::dsl::sql::<(Integer, Text, Timestamp)>(
        "SELECT id, email, created_at FROM users WHERE id = ",
    ).bind::<Integer, _>(user_id).load::<Row>(conn) {
        Ok(rows) => Ok(rows),
        Err(_) => Err(DbFailure::Other),
    }
}

/// Relies on diesel's `sql(..).load`: fetches every row of the table. `load`
/// never reports a missing row as an error.
#[verifier::external_body]
fn select_all(conn: &SqliteConnection) -> (r: Result<Vec<Row>, DbFailure>)
    ensures
        r matches Err(f) ==> f != DbFailure::NotFound,
{
    match diesel::dsl::sql::<(Integer, Text, Timestamp)>(
        "SELECT id, email, created_at FROM users",
    ).load::<Row>(conn) {
        Ok(rows) => Ok(rows),
        Err(_) => Err(DbFailure::Other),
    }
}

/// Relies on diesel's `sql_query(..).bind(..).execute`: sets `created_at` of
/// the row whose primary key equals `user_id`, if there is one, and counts the
/// rows touched. Diesel's error is told apart by its variants.
#[verifier::external_body]
fn update_created_at(conn: &SqliteConnection, user_id: i32, at: chrono::NaiveDateTime) -> (r:
    Result<usize, DbFailure>)
    ensures
        r matches Err(f) ==> f != DbFailure::NotFound,
{
    match diesel::sql_query("UPDATE users SET created_at = ? WHERE id = ?").bind::<Timestamp, _>(
        at,
    ).bind::<Integer, _>(user_id).execute(conn) {
        Ok(n) => Ok(n),
        Err(DieselError::DatabaseError(DatabaseErrorKind::UniqueViolation, _)) => Err(
            DbFailure::UniqueViolation,
        ),
        Err(DieselError::DatabaseError(DatabaseErrorKind::ForeignKeyViolation, _)) => Err(
            DbFailure::ForeignKeyViolation,
        ),
        Err(_) => Err(DbFailure::Other),
    }
}

/// Relies on diesel's `sql_query(..).bind(..).execute`: removes the row whose
/// primary key equals `user_id`, if there is one, and counts the rows
/// touched. Diesel's error is told apart by its variants.
#[verifier::external_body]
fn delete_by_id(conn: &SqliteConnection, user_id: i32) -> (r: Result<usize, DbFailure>)
    ensures
        r matches Err(f) ==> f != DbFailure::NotFound,
{
    match diesel::sql_query("DELETE FROM users WHERE id = ?").bind::<Integer, _>(user_id).execute(
        conn,
    ) {
        Ok(n) => Ok(n),
        Err(DieselError::DatabaseError(DatabaseErrorKind::UniqueViolation, _)) => Err(
            DbFailure::UniqueViolation,
        ),
        Err(DieselError::DatabaseError(DatabaseErrorKind::ForeignKeyViolation, _)) => Err(
            DbFailure::ForeignKeyViolation,
        ),
        Err(_) => Err(DbFailure::Other),
    }
}

/// Declares std's reading of the system clock, carried through as it is.
#[verifier::external_type_specification]
#[verifier::external_body]
pub struct ExSystemTime(std::time::SystemTime);

/// Relies on std's `SystemTime::now`: the current reading of the system
/// clock.
#[verifier::external_body]
fn system_now() -> (r: std::time::SystemTime) {
    std::time::SystemTime::now()
}

/// Relies on std's `SystemTime::duration_since(UNIX_EPOCH)`: the whole
/// seconds and the nanoseconds of the second since 1970-01-01 UTC, or `None`
/// where the reading is earlier than that.
#[verifier::external_body]
fn since_epoch(t: std::time::SystemTime) -> (r: Option<(u64, u32)>)
    ensures
        r matches Some(p) ==> p.1 < 1_000_000_000,
{
    match t.duration_since(std::time::UNIX_EPOCH) {
        Ok(d) => Some((d.as_secs(), d.subsec_nanos())),
        Err(_) => None,
    }
}

/// Relies on chrono's `DateTime::<Utc>::from_timestamp` and `naive_utc`: the
/// UTC time `secs` seconds and `nanos` nanoseconds after 1970-01-01, without
/// an offset, or `None` where chrono cannot represent it.
#[verifier::external_body]
fn naive_utc_at(secs: i64, nanos: u32) -> (r: Option<chrono::NaiveDateTime>) {
    match chrono::DateTime::<chrono::Utc>::from_timestamp(secs, nanos) {
        Some(d) => Some(d.naive_utc()),
        None => None,
    }
}

/// What a create call with `email` promises of its outcome: a row it hands
/// back carries that email.
pub open spec fn holds_own_row(email: Seq<char>, r: Result<User, StoreError>) -> bool {
    r matches Ok(u) ==> u.email@ == email
}

/// Creates with different emails never hand back the same row, whatever
/// other connections insert meanwhile: each caller gets the row that carries
/// its own email, never another caller's.
pub proof fn lemma_create_returns_own_row(
    e1: Seq<char>,
    e2: Seq<char>,
    r1: Result<User, StoreError>,
    r2: Result<User, StoreError>,
)
    requires
        e1 != e2,
        holds_own_row(e1, r1),
        holds_own_row(e2, r2),
        r1 is Ok,
        r2 is Ok,
    ensures
        r1->Ok_0.email@ == e1,
        r2->Ok_0.email@ == e2,
        r1->Ok_0 != r2->Ok_0,
{
}

/// Inserts a row with the given email and hands back that very row, as the
/// store now holds it. The row is found again by the row id that this
/// connection reports for its own latest insert, never by the largest id in
/// the table, so that inserts on other connections cannot be mistaken for it.
/// A row handed back carries the email that was inserted.
pub fn create_user(conn: &SqliteConnection, new_user_form: UserInsert) -> (r: Result<
    User,
    StoreError,
>)
    ensures
        holds_own_row(new_user_form.email@, r),
{
    if let Some(e) = after_insert(insert_email(conn, new_user_form.email.as_str())) {
        return Err(e);
    }
    let row_id = match last_insert_rowid(conn) {
        Ok(v) => v,
        Err(f) => {
            return Err(store_error(f));
        },
    };
    let id = match settle_row_id(row_id) {
        Ok(v) => v,
        Err(e) => {
            return Err(e);
        },
    };
    let rows = match select_by_id(conn, id) {
        Ok(v) => v,
        Err(f) => {
            return Err(store_error(f));
        },
    };
    select_inserted(&new_user_form.email, id, users_from_rows(&rows))
}

/// Every row of the table, in the order in which the store returns them. A
/// failure is never `NotFound`: an empty table is `Ok` of no rows.
pub fn read_users(conn: &SqliteConnection) -> (r: Result<Vec<User>, StoreError>)
    ensures
        r matches Err(e) ==> e != StoreError::NotFound,
{
    finish_read(select_all(conn))
}

/// Sets `created_at` of the row with the given id to the current UTC time. No
/// row with that id is no error: nothing changes. A clock that gives no time
/// the store can hold is a `ClockError`, and the row is left alone. A failure
/// is never `NotFound`.
pub fn update_user_created_at(conn: &SqliteConnection, user_id: i32) -> (r: Result<(), StoreError>)
    ensures
        r matches Err(e) ==> e != StoreError::NotFound,
{
    let (secs, nanos) = match settle_clock(since_epoch(system_now())) {
        Ok(v) => v,
        Err(e) => {
            return Err(e);
        },
    };
    let now = match settle_time(naive_utc_at(secs, nanos)) {
        Ok(t) => t,
        Err(e) => {
            return Err(e);
        },
    };
    finish_write(update_created_at(conn, user_id, now))
}

/// Removes the row with the given id. No row with that id is no error:
/// nothing changes. A failure is never `NotFound`.
pub fn delete_user_by_user_id(conn: &SqliteConnection, user_id: i32) -> (r: Result<(), StoreError>)
    ensures
        r matches Err(e) ==> e != StoreError::NotFound,
{
    finish_write(delete_by_id(conn, user_id))
}

} // verus!
