//! Cursor-based pagination for SQL queries.
//!
//! A caller describes a query once (source, projection, filter, order), renders
//! it to SQL text with `to_sql`, executes it externally with one extra
//! lookahead row, and feeds the rows back through `get_pager` to learn whether
//! adjacent pages exist. Page positions travel as opaque, URL-safe cursor
//! tokens produced by the codec in [`utils`].

pub mod error;
pub mod pager;
pub mod sql;
pub mod utils;

pub use error::Error;
pub use pager::Container;
pub use pager::PageInfo;
pub use pager::Pager;
pub use pager::Paginator;
pub use sql::SqlQuery;
pub use sql::SqlQueryBuilder;
pub use utils::decode_u64;
pub use utils::encode_u64;
