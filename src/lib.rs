//! Listing and concatenating the objects of a storage bucket whose keys
//! pass substring filters.
//!
//! The library decides everything: which listed keys are kept, what `ls`
//! writes, which object `cat` fetches next and what it writes, and how the
//! command line is read. The caller performs the storage requests and the
//! console writes that the library asks for.

pub mod cat;
pub mod command;
pub mod listing;
pub mod text;

pub use cat::CatAction;
pub use cat::CatEvent;
pub use cat::CatSession;
pub use command::parse_args;
pub use command::usage;
pub use command::Command;
pub use command::Invocation;
pub use listing::lines_of;
pub use listing::S3Ctx;
