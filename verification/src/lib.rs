//! A thin SQL adapter over one embedded database connection.
//!
//! Statements are raw SQL text; result rows come back as [`DsValue`]s, a
//! tagged value that keeps callers clear of the driver's own types.

pub mod driver;
pub mod error;
pub mod storage;
pub mod value;

pub use error::{settle, DsError};
pub use storage::{after_close, collect_rows, id_of, read_row, row_of_step, rows_of_compiled};
pub use storage::{rows_of_started, DStorage};
pub use value::{DsValue, RawValue, Scalar};
