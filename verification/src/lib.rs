//! A small persistent store of package records.
//!
//! The store keeps an ordered collection of [`PackageState`] records in
//! memory together with the name of its backing file. Everything that
//! decides what the store holds, what is written and when an open attempt
//! fails lives here and is verified; reading and writing the file and
//! turning text into records is left to the caller, who reports each
//! outcome back as a plain value.

pub mod clock;
pub mod db;
pub mod error;
pub mod flush;
pub mod format;
pub mod laws;
pub mod open;
pub mod outcome;
pub mod package_state;
pub mod state;
pub mod text;

pub use db::{DatabaseThing, DatabaseThingView};
pub use error::{DbError, DbErrorView, ErrorKind};
pub use flush::{Flush, Flushing, Writing};
pub use format::PrettyConfig;
pub use open::{Creating, Loading, Opening, Parsing, Storing};
pub use package_state::{PackageIssueFiled, PackageNew, PackageState, Repository};
pub use state::{StoreState, StoreStateView};
