//! The pure core of the first ls command: flag logic and permission
//! rendering. Directory walking and metadata live in the unverified
//! shell.

use vstd::prelude::*;
use crate::util::push_char;

verus! {

/// The parsed ls command line.
pub struct LsCommand {
    pub all: bool,
    pub almost_all: bool,
    pub long_format: bool,
    pub path: String,
}

/// The `rwx` rendering of one three-bit permission group.
pub open spec fn perm_group(mode_part: u32) -> Seq<char> {
    seq![
        if mode_part & 4 > 0 {
            'r'
        } else {
            '-'
        },
        if mode_part & 2 > 0 {
            'w'
        } else {
            '-'
        },
        if mode_part & 1 > 0 {
            'x'
        } else {
            '-'
        },
    ]
}

/// The full ten-character permission string: a directory marker and
/// the owner, group and other permission groups of the low nine mode
/// bits.
pub open spec fn perm_string(is_dir: bool, mode: u32) -> Seq<char> {
    let m = mode % 512;
    seq![
        if is_dir {
            'd'
        } else {
            '-'
        },
    ] + perm_group(m / 64) + perm_group(m % 64 / 8) + perm_group(m % 8)
}

impl LsCommand {
    /// Hidden entries are listed under either all flag.
    fn almost_all(&self) -> (r: bool)
        ensures
            r == (self.all || self.almost_all),
    {
        self.all || self.almost_all
    }

    /// Renders one three-bit permission group.
    fn get_permissions_substring(&self, mode_part: u32) -> (r: String)
        ensures
            r@ == perm_group(mode_part),
    {
        let mut output = String::new();
        if mode_part & 4 > 0 {
            push_char(&mut output, 'r');
        } else {
            push_char(&mut output, '-');
        }
        if mode_part & 2 > 0 {
            push_char(&mut output, 'w');
        } else {
            push_char(&mut output, '-');
        }
        if mode_part & 1 > 0 {
            push_char(&mut output, 'x');
        } else {
            push_char(&mut output, '-');
        }
        proof {
            assert(output@ =~= perm_group(mode_part));
        }
        output
    }

    /// Renders the full permission string of an entry with the given
    /// directory flag and mode bits.
    fn get_permissions_string(&self, is_dir: bool, mode: u32) -> (r: String)
        ensures
            r@ == perm_string(is_dir, mode),
    {
        let mut string = String::new();
        push_char(&mut string, if is_dir {
            'd'
        } else {
            '-'
        });
        let m = mode % 512;
        let first_part = m / 64;
        let second_part = m % 64 / 8;
        let third_part = m % 8;
        let g1 = self.get_permissions_substring(first_part);
        string.append(g1.as_str());
        let g2 = self.get_permissions_substring(second_part);
        string.append(g2.as_str());
        let g3 = self.get_permissions_substring(third_part);
        string.append(g3.as_str());
        proof {
            assert(string@ =~= perm_string(is_dir, mode));
        }
        string
    }
}

} // verus!
