//! The find command's result: the collected entry paths and their
//! rendering, one per line. Walking the file system itself is left to
//! the unverified shell.

use vstd::prelude::*;

verus! {

/// The parsed find command line.
pub struct FindCommand {
    pub path: String,
}

/// The entry paths a traversal collected, in visiting order.
pub struct FindCommandResult {
    pub entries: Vec<String>,
}

/// The entries joined by single newlines, without a trailing one.
pub open spec fn joined_entries(entries: Seq<String>) -> Seq<char>
    decreases entries.len(),
{
    if entries.len() == 0 {
        Seq::empty()
    } else if entries.len() == 1 {
        entries[0]@
    } else {
        joined_entries(entries.drop_last()) + "\n"@ + entries.last()@
    }
}

impl FindCommandResult {
    pub fn new(entries: Vec<String>) -> (r: Self)
        ensures
            r.entries == entries,
    {
        FindCommandResult { entries }
    }

    /// Renders the collected entries, one per line.
    pub fn render(&self) -> (r: String)
        ensures
            r@ == joined_entries(self.entries@),
    {
        let mut out = String::new();
        let mut i: usize = 0;
        while i < self.entries.len()
            invariant
                i <= self.entries@.len(),
                out@ == joined_entries(self.entries@.take(i as int)),
            decreases self.entries@.len() - i,
        {
            proof {
                assert(self.entries@.take(i + 1).drop_last() =~= self.entries@.take(i as int));
                assert(self.entries@.take(i + 1).last() == self.entries@[i as int]);
            }
            if i > 0 {
                out.append("\n");
            }
            out.append(self.entries[i].as_str());
            proof {
                assert(out@ =~= joined_entries(self.entries@.take(i + 1)));
            }
            i = i + 1;
        }
        proof {
            assert(self.entries@.take(self.entries@.len() as int) =~= self.entries@);
        }
        out
    }
}

} // verus!
