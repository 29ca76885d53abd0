//! What each subcommand prints and decides, apart from the reading and
//! writing.

pub mod help;
pub mod profile;
pub mod translate;
