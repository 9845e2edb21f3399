use crate::user::{user_of_row, users_from_rows, StoreError, User};
use vstd::prelude::*;

verus! {

/// A row as fetched: `id, email, created_at`.
pub type Row = (i32, String, chrono::NaiveDateTime);

/// How the driver reported a failed statement, before the library names it.
#[derive(Debug, Clone, Copy, PartialEq, Eq, Structural)]
pub enum DbFailure {
    /// A unique key (the email) refused the write.
    UniqueViolation,
    /// A foreign key refused the write.
    ForeignKeyViolation,
    /// A query that had to return a row returned none.
    NotFound,
    /// Any other failure of the driver or the connection.
    Other,
}

/// The library's error for a driver failure: a rule of the store that
/// refused a write is a constraint violation, a missing row stays missing,
/// and anything else is a failure of the connection.
pub open spec fn store_error_of(f: DbFailure) -> StoreError {
    match f {
        DbFailure::UniqueViolation => StoreError::ConstraintViolation,
        DbFailure::ForeignKeyViolation => StoreError::ConstraintViolation,
        DbFailure::NotFound => StoreError::NotFound,
        DbFailure::Other => StoreError::ConnectionError,
    }
}

/// Names a driver failure in the library's terms.
pub fn store_error(f: DbFailure) -> (r: StoreError)
    ensures
        r == store_error_of(f),
{
    match f {
        DbFailure::UniqueViolation => StoreError::ConstraintViolation,
        DbFailure::ForeignKeyViolation => StoreError::ConstraintViolation,
        DbFailure::NotFound => StoreError::NotFound,
        DbFailure::Other => StoreError::ConnectionError,
    }
}

/// Settles an INSERT: `None` lets the create go on; a failure stops it with
/// its own error (a duplicate email as `ConstraintViolation`).
pub fn after_insert(res: Result<usize, DbFailure>) -> (r: Option<StoreError>)
    ensures
        r == (match res {
            Ok(_) => None,
            Err(f) => Some(store_error_of(f)),
        }),
{
    match res {
        Ok(_) => None,
        Err(f) => Some(store_error(f)),
    }
}

/// Settles an UPDATE or a DELETE: success, whatever the number of rows it
/// touched (none included), is `Ok(())`; a failure is its own error.
pub fn finish_write(res: Result<usize, DbFailure>) -> (r: Result<(), StoreError>)
    ensures
        r == (match res {
            Ok(_) => Ok(()),
            Err(f) => Err(store_error_of(f)),
        }),
{
    match res {
        Ok(_) => Ok(()),
        Err(f) => Err(store_error(f)),
    }
}

/// Settles a SELECT of whole rows: the fetched rows as users, one for one and
/// in order, or the failure's own error and no rows at all.
pub fn finish_read(res: Result<Vec<Row>, DbFailure>) -> (r: Result<Vec<User>, StoreError>)
    ensures
        match res {
            Ok(rows) => r matches Ok(users) && users@ == rows@.map_values(|row: Row| user_of_row(row)),
            Err(f) => r == Err::<Vec<User>, StoreError>(store_error_of(f)),
        },
{
    match res {
        Ok(rows) => Ok(users_from_rows(&rows)),
        Err(f) => Err(store_error(f)),
    }
}

/// Settles a reading of the system clock, as whole seconds and nanoseconds
/// since 1970-01-01 UTC: `None` (a clock before that day) and a count of
/// seconds beyond `i64` are clock errors; anything else is kept as it is.
pub fn settle_clock(reading: Option<(u64, u32)>) -> (r: Result<(i64, u32), StoreError>)
    ensures
        r == (match reading {
            Some((secs, nanos)) => if secs <= i64::MAX {
                Ok((secs as i64, nanos))
            } else {
                Err(StoreError::ClockError)
            },
            None => Err(StoreError::ClockError),
        }),
{
    match reading {
        Some((secs, nanos)) => {
            if secs <= i64::MAX as u64 {
                Ok((secs as i64, nanos))
            } else {
                Err(StoreError::ClockError)
            }
        },
        None => Err(StoreError::ClockError),
    }
}

/// Settles a time to store: one that the calendar could not represent is a
/// clock error.
pub fn settle_time(at: Option<chrono::NaiveDateTime>) -> (r: Result<
    chrono::NaiveDateTime,
    StoreError,
>)
    ensures
        r == (match at {
            Some(t) => Ok(t),
            None => Err(StoreError::ClockError),
        }),
{
    match at {
        Some(t) => Ok(t),
        None => Err(StoreError::ClockError),
    }
}

} // verus!
