//! Pure cores of the first generation of coreutils-style commands.

pub mod echo;
pub mod find;
pub mod ls;
