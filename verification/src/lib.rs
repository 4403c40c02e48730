//! Verified core of a small suite of command-line tools: a to-do list
//! manager backed by a relational store (query building, repository
//! semantics, command dispatch, and result rendering), together with the
//! pure cores of several coreutils-style commands and the typed payloads
//! of two small API servers.

use vstd::prelude::*;

pub mod cat;
pub mod cli;
pub mod cliutils;
pub mod convert;
pub mod echo;
pub mod grep;
pub mod laws;
pub mod ls;
pub mod metered;
pub mod metered2;
pub mod prefix;
pub mod query;
pub mod render;
pub mod repo;
pub mod store;
pub mod util;

pub use prefix::UnitPrefix;
pub use prefix::map_error;
pub use prefix::map_step_error;
pub use store::Store;
pub use store::TodoListRow;
pub use store::TodoListItemRow;
pub use cli::TodoCli;
pub use cli::SubCommand;
pub use cli::CliError;
pub use cli::CliOutput;
pub use cli::AddArgs;
pub use cli::CreateTodoListArgs;
pub use cli::ClearArgs;
pub use cli::DoneArgs;
pub use cli::EditArgs;
pub use cli::ListArgs;
pub use cli::RemoveArgs;
pub use cli::ShowListsArgs;

verus! {

} // verus!
