//! The pure core of the cat command: line numbering, blank-line
//! squeezing, tab and line-end marking over a file's lines. Reading
//! files lives in the unverified shell.

use vstd::prelude::*;
use crate::render::{spaces, u32_dec};
use crate::render::u32_to_string;
use crate::util::push_char;

verus! {

/// The parsed cat command line.
pub struct CatCommand {
    pub number_nonblank: bool,
    pub number: bool,
    pub show_ends: bool,
    pub squeeze_blank: bool,
    pub show_tabs: bool,
    pub file_paths: Vec<String>,
}

/// A file that could not be read.
pub enum CatError {
    NoSuchFile { path: String },
}

impl CatError {
    /// The user-facing description of the failure.
    pub fn message(&self) -> (r: String)
        ensures
            (match self {
                CatError::NoSuchFile { path } => r@ == "No such file \""@ + path@ + "\""@,
            }),
    {
        match self {
            CatError::NoSuchFile { path } => {
                let mut out = String::from_str("No such file \"");
                out.append(path.as_str());
                out.append("\"");
                out
            },
        }
    }
}

/// Right-aligned padding to a column of `w` characters.
pub open spec fn pad_left(s: Seq<char>, w: nat) -> Seq<char> {
    if s.len() >= w {
        s
    } else {
        spaces((w - s.len()) as nat) + s
    }
}

/// Pads text on the left to a column of `w` characters.
fn pad_left_str(s: &str, w: usize) -> (r: String)
    ensures
        r@ == pad_left(s@, w as nat),
{
    let len = s.unicode_len();
    if len >= w {
        return s.to_owned();
    }
    let mut out = String::new();
    let mut k: usize = 0;
    while k < w - len
        invariant
            k <= w - len,
            len == s@.len(),
            out@ == spaces(k as nat),
        decreases w - len - k,
    {
        push_char(&mut out, ' ');
        k = k + 1;
    }
    out.append(s);
    out
}

/// Each tab replaced by the visible `^I` marker.
pub open spec fn tabs_replaced(s: Seq<char>) -> Seq<char>
    decreases s.len(),
{
    if s.len() == 0 {
        Seq::empty()
    } else {
        tabs_replaced(s.drop_last()) + (if s.last() == '\t' {
            "^I"@
        } else {
            seq![s.last()]
        })
    }
}

/// Replaces each tab by the visible `^I` marker.
fn replace_tabs(s: &str) -> (r: String)
    ensures
        r@ == tabs_replaced(s@),
{
    let n = s.unicode_len();
    let mut out = String::new();
    let mut i: usize = 0;
    while i < n
        invariant
            i <= n,
            n == s@.len(),
            out@ == tabs_replaced(s@.take(i as int)),
        decreases n - i,
    {
        proof {
            assert(s@.take(i + 1).drop_last() =~= s@.take(i as int));
            assert(s@.take(i + 1).last() == s@[i as int]);
        }
        let c = s.get_char(i);
        if c == '\t' {
            out.append("^I");
        } else {
            push_char(&mut out, c);
            proof {
                assert(tabs_replaced(s@.take(i as int)).push(c) =~= tabs_replaced(
                    s@.take(i as int),
                ) + seq![c]);
            }
        }
        i = i + 1;
    }
    proof {
        assert(s@.take(n as int) =~= s@);
    }
    out
}

/// Whether the text holds a tab.
fn has_tab(s: &str) -> (r: bool)
    ensures
        r == s@.contains('\t'),
{
    let n = s.unicode_len();
    let mut i: usize = 0;
    while i < n
        invariant
            i <= n,
            n == s@.len(),
            forall|j: int| 0 <= j < i ==> s@[j] != '\t',
        decreases n - i,
    {
        if s.get_char(i) == '\t' {
            return true;
        }
        i = i + 1;
    }
    false
}

/// One output line's body: tabs made visible when asked, a `$` end
/// marker when asked, and the closing newline.
pub open spec fn rendered_line(line: Seq<char>, show_tabs: bool, show_ends: bool) -> Seq<char> {
    let body = if show_tabs && line.contains('\t') {
        tabs_replaced(line)
    } else {
        line
    };
    body + (if show_ends {
        "$"@
    } else {
        Seq::empty()
    }) + "\n"@
}

/// The whole output of one file: the text produced, the next line
/// number, and whether the last line seen was blank.
///
/// A line is numbered when all lines are, or when non-blank lines are
/// and it is not blank; the number is printed right-aligned in six
/// columns before the line. A blank line directly following another
/// blank one is swallowed when squeezing, though a number it earned is
/// already out — exactly as the original tool behaves.
pub open spec fn cat_fold(lines: Seq<String>, cmd: CatCommand, num: int, prev_empty: bool) -> (
    Seq<char>,
    int,
    bool,
)
    decreases lines.len(),
{
    if lines.len() == 0 {
        (Seq::empty(), num, prev_empty)
    } else {
        let line = lines[0]@;
        let numbered = cmd.number || (cmd.number_nonblank && line.len() > 0);
        let prefix = if numbered {
            pad_left(u32_dec(num as nat), 6) + "\t"@
        } else {
            Seq::empty()
        };
        let num2 = if numbered {
            num + 1
        } else {
            num
        };
        if line.len() == 0 && cmd.squeeze_blank && prev_empty {
            let rest = cat_fold(lines.drop_first(), cmd, num2, true);
            (prefix + rest.0, rest.1, rest.2)
        } else {
            let body = rendered_line(line, cmd.show_tabs, cmd.show_ends);
            let rest = cat_fold(lines.drop_first(), cmd, num2, line.len() == 0);
            (prefix + body + rest.0, rest.1, rest.2)
        }
    }
}

impl CatCommand {
    /// Renders one file's lines, numbering on from `line_number`, and
    /// hands back the text and the next line number.
    #[verifier::loop_isolation(false)]
    #[verifier::rlimit(60)]
    pub fn render_file(&self, lines: &[String], line_number: u32) -> (r: (String, u32))
        requires
            line_number as int + lines@.len() <= u32::MAX as int,
        ensures
            r.0@ == cat_fold(lines@, *self, line_number as int, false).0,
            r.1 as int == cat_fold(lines@, *self, line_number as int, false).1,
    {
        let ghost full = cat_fold(lines@, *self, line_number as int, false);
        let mut out = String::new();
        let mut num: u32 = line_number;
        let mut prev_empty: bool = false;
        let mut i: usize = 0;
        proof {
            assert(lines@.skip(0) =~= lines@);
        }
        while i < lines.len()
            invariant
                i <= lines@.len(),
                num as int + (lines@.len() - i) <= u32::MAX as int,
                ({
                    let rest = cat_fold(
                        lines@.skip(i as int),
                        *self,
                        num as int,
                        prev_empty,
                    );
                    full.0 == out@ + rest.0 && full.1 == rest.1
                }),
            decreases lines@.len() - i,
        {
            proof {
                assert(lines@.skip(i as int).drop_first() =~= lines@.skip(i + 1));
                assert(lines@.skip(i as int)[0] == lines@[i as int]);
            }
            let line = &lines[i];
            let blank = line.as_str().is_empty();
            let numbered = self.number || (self.number_nonblank && !blank);
            let ghost out_before = out@;
            if numbered {
                let digits = u32_to_string(num);
                let padded = pad_left_str(digits.as_str(), 6);
                out.append(padded.as_str());
                out.append("\t");
                num = num + 1;
            }
            let ghost out_prefixed = out@;
            if blank && self.squeeze_blank && prev_empty {
                prev_empty = true;
            } else {
                if self.show_tabs && has_tab(line.as_str()) {
                    let replaced = replace_tabs(line.as_str());
                    out.append(replaced.as_str());
                } else {
                    out.append(line.as_str());
                }
                if self.show_ends {
                    out.append("$");
                }
                out.append("\n");
                proof {
                    assert(out@ =~= out_prefixed + rendered_line(
                        lines@[i as int]@,
                        self.show_tabs,
                        self.show_ends,
                    ));
                }
                prev_empty = blank;
            }
            proof {
                let rest_now = cat_fold(lines@.skip(i + 1), *self, num as int, prev_empty);
                assert(full.0 =~= out@ + rest_now.0);
            }
            i = i + 1;
        }
        proof {
            assert(lines@.skip(lines@.len() as int).len() == 0);
            assert(full.0 =~= out@);
        }
        (out, num)
    }
}

} // verus!
