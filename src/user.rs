use vstd::prelude::*;

verus! {

/// Declares chrono's timestamp without time zone. The library carries it
/// through and never reads it.
#[verifier::external_type_specification]
#[verifier::external_body]
pub struct ExNaiveDateTime(chrono::NaiveDateTime);

/// One row of the `users` table.
#[derive(Debug, PartialEq)]
pub struct User {
    pub id: i32,
    pub email: String,
    pub created_at: chrono::NaiveDateTime,
}

/// What a caller supplies to create a row: the store picks `id` and
/// `created_at` itself.
pub struct UserInsert {
    pub email: String,
}

/// What went wrong in a store operation.
#[derive(Debug, Clone, Copy, PartialEq, Eq, Structural)]
pub enum StoreError {
    /// A rule of the store (the unique email) refused the write.
    ConstraintViolation,
    /// The row that had to be there could not be fetched.
    NotFound,
    /// The driver or the connection failed.
    ConnectionError,
    /// The system clock gave no time that the store can hold.
    ClockError,
}

impl User {
    /// Maps one fetched row, in the column order `id, email, created_at`.
    pub fn from_row(row: (i32, String, chrono::NaiveDateTime)) -> (r: User)
        ensures
            r == user_of_row(row),
    {
        let (id, email, created_at) = row;
        User { id, email, created_at }
    }
}

/// The user that a fetched row stands for.
pub open spec fn user_of_row(row: (i32, String, chrono::NaiveDateTime)) -> User {
    User { id: row.0, email: row.1, created_at: row.2 }
}

/// Maps fetched rows to users, one for one and in the order fetched.
pub fn users_from_rows(rows: &Vec<(i32, String, chrono::NaiveDateTime)>) -> (r: Vec<User>)
    ensures
        r@ == rows@.map_values(|row: (i32, String, chrono::NaiveDateTime)| user_of_row(row)),
{
    let mut out: Vec<User> = Vec::new();
    let mut i: usize = 0;
    while i < rows.len()
        invariant
            i <= rows@.len(),
            out@ == rows@.subrange(0, i as int).map_values(
                |row: (i32, String, chrono::NaiveDateTime)| user_of_row(row),
            ),
        decreases rows@.len() - i,
    {
        let row = &rows[i];
        out.push(User::from_row((row.0, row.1.clone(), row.2)));
        proof {
            assert(rows@.subrange(0, i + 1) == rows@.subrange(0, i as int).push(rows@[i as int]));
        }
        i = i + 1;
    }
    proof {
        assert(rows@.subrange(0, i as int) == rows@);
    }
    out
}

/// The identifier of a stored row, as a row id the store reported, where the
/// `id` column can hold it.
pub open spec fn row_id_fits(row_id: i64) -> bool {
    i32::MIN <= row_id <= i32::MAX
}

/// Settles the row id that the store reported for a new row: it becomes the
/// id to fetch by where the `id` column can hold it; any other row id names
/// no row that the table can hold, so the new row counts as not found.
pub fn settle_row_id(row_id: i64) -> (r: Result<i32, StoreError>)
    ensures
        r == (if row_id_fits(row_id) {
            Ok::<i32, StoreError>(row_id as i32)
        } else {
            Err(StoreError::NotFound)
        }),
{
    if i32::MIN as i64 <= row_id && row_id <= i32::MAX as i64 {
        Ok(row_id as i32)
    } else {
        Err(StoreError::NotFound)
    }
}

/// Whether `u` is the row that was inserted with `email` and given `id`.
pub open spec fn is_inserted_row(u: User, email: Seq<char>, id: i32) -> bool {
    u.id == id && u.email@ == email
}

/// Settles what a create call hands back, from the rows fetched by the
/// generated id: the first of them, if it is the row that was inserted (that
/// id and that email); anything else means the new row could not be fetched
/// again.
pub fn select_inserted(email: &String, id: i32, fetched: Vec<User>) -> (r: Result<User, StoreError>)
    ensures
        r == (if fetched@.len() > 0 && is_inserted_row(fetched@[0], email@, id) {
            Ok(fetched@[0])
        } else {
            Err(StoreError::NotFound)
        }),
{
    let mut fetched = fetched;
    if fetched.len() == 0 {
        return Err(StoreError::NotFound);
    }
    let first = fetched.remove(0);
    if first.id == id && first.email == *email {
        Ok(first)
    } else {
        Err(StoreError::NotFound)
    }
}

} // verus!
