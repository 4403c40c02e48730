//! The pure core of the second ls command: flag logic and block
//! accounting. Directory walking, metadata and human-readable size
//! scaling live in the unverified shell.

use vstd::prelude::*;

verus! {

/// The parsed ls command line.
pub struct LsCommand {
    pub all: bool,
    pub almost_all: bool,
    pub long_format: bool,
    pub human_readable: bool,
    pub path: String,
}

impl LsCommand {
    /// Whether sizes are scaled for human reading.
    pub fn human_readable(&self) -> (r: bool)
        ensures
            r == self.human_readable,
    {
        self.human_readable
    }

    /// Hidden entries are listed under either all flag.
    fn almost_all(&self) -> (r: bool)
        ensures
            r == (self.all || self.almost_all),
    {
        self.all || self.almost_all
    }

    /// Adds an entry's block count to the running total. The count
    /// arrives in 512-byte blocks and is accounted in 1024-byte blocks,
    /// so it is halved.
    fn process_blocks(total_blocks: Option<u64>, blocks: u64) -> (r: Option<u64>)
        requires
            (match total_blocks {
                Some(v) => v,
                None => 0,
            }) + blocks / 2 <= u64::MAX,
        ensures
            r == Some(
                (match total_blocks {
                    Some(v) => v,
                    None => 0,
                } + blocks / 2) as u64,
            ),
    {
        let total_blocks_so_far = match total_blocks {
            Some(v) => v,
            None => 0,
        };
        Some(total_blocks_so_far + blocks / 2)
    }
}

} // verus!
