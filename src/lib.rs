//! A small data-access layer for the `users` table: create, read, update and
//! delete rows over one SQLite connection, with the row just inserted found
//! again through the connection's own last-insert row id.
pub mod user;
pub mod outcome;
pub mod repo;

pub use repo::{create_user, delete_user_by_user_id, read_users, update_user_created_at};
pub use outcome::{
    after_insert, finish_read, finish_write, settle_clock, settle_time, store_error, DbFailure, Row,
};
pub use user::{select_inserted, settle_row_id, users_from_rows, StoreError, User, UserInsert};
