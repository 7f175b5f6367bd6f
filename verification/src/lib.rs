//! Variables that are kept in step with files.
//!
//! A [`BoundVariables`] registry maps variable names to file paths. Loading
//! reads a variable's first value from its file where the file exists, and
//! every later assignment is written back so that a reader of the file never
//! sees a half-written value.
//!
//! The library touches no file itself. Loading and writing are state machines:
//! each step takes the outcome of the last request and answers with the next
//! request, which the caller performs.

pub mod durability;
pub mod error;
pub mod files;
pub mod hydration;
pub mod loader;
pub mod registry;
pub mod source;
pub mod text;
pub mod value;
pub mod writer;

pub use error::{Error, ErrorKind};
pub use loader::{LoadAction, LoadEvent, Loader};
pub use registry::BoundVariables;
pub use source::{Pos, SourceInfo};
pub use text::hydrated_text;
pub use value::Value;
pub use writer::{Outcome, WriteAction, WriteStage, Writer, OWNER_READ_WRITE};
