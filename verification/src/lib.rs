//! Rendering of a repository health dashboard: the data model of a repository's
//! pipeline and dependency health, the metrics derived from it, and the markup of
//! the index rows and of the fragments that a row loads on demand.
//!
//! Every function states what it returns over plain values: a record is spoken of
//! by its view, markup by the sequence of its characters. Text that comes from a
//! record is escaped before it is written into markup. Addresses are built by the
//! `url` crate and are known by name only, see `links`.
//!
//! - `status`, `triggers`, `record`: the data model.
//! - `metrics`, `text`: the freshness rate, the tiers, run times and numbers as
//!   they are displayed.
//! - `escape`, `links`: escaped text, and the addresses written into markup.
//! - `row`, `detail`, `deps`: the row of a repository, its detail fragment and
//!   its dependency list.
//! - `layout`, `landing`, `dashboard`: the page shell, the two pages and the
//!   answers to the requests for fragments.
//! - `mocks`: the fixed records that stand in for a data source.

pub mod dashboard;
pub mod deps;
pub mod detail;
pub mod escape;
pub mod landing;
pub mod layout;
pub mod links;
pub mod metrics;
pub mod mocks;
pub mod record;
pub mod row;
pub mod status;
pub mod text;
pub mod triggers;
