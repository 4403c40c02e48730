//! The pure core of the grep command: substring search and match
//! collection over a file's lines. Reading files lives in the
//! unverified shell.

use vstd::prelude::*;

verus! {

/// The parsed grep command line.
pub struct GrepCommand {
    pub pattern: String,
    pub files: Vec<String>,
}

/// Whether `needle` occurs in `hay` as a contiguous run of characters.
pub open spec fn contains_sub(hay: Seq<char>, needle: Seq<char>) -> bool {
    exists|i: int|
        0 <= i <= hay.len() - needle.len() && #[trigger] hay.subrange(i, i + needle.len())
            == needle
}

/// Character-by-character substring test at one position.
fn match_at(hay: &str, needle: &str, i: usize) -> (r: bool)
    requires
        i + needle@.len() <= hay@.len(),
        hay@.len() <= usize::MAX,
    ensures
        r == (hay@.subrange(i as int, i as int + needle@.len() as int) == needle@),
{
    let m = needle.unicode_len();
    let mut k: usize = 0;
    while k < m
        invariant
            k <= m,
            m == needle@.len(),
            i + m <= hay@.len(),
            hay@.len() <= usize::MAX,
            forall|l: int| 0 <= l < k ==> hay@[i + l] == needle@[l],
        decreases m - k,
    {
        if hay.get_char(i + k) != needle.get_char(k) {
            proof {
                assert(hay@.subrange(i as int, i as int + m as int)[k as int] == hay@[i + k]);
            }
            return false;
        }
        k = k + 1;
    }
    proof {
        assert(hay@.subrange(i as int, i as int + m as int) =~= needle@);
    }
    true
}

/// Substring search, as each line is tested against the pattern.
pub fn str_contains(hay: &str, needle: &str) -> (r: bool)
    ensures
        r == contains_sub(hay@, needle@),
{
    let n = hay.unicode_len();
    let m = needle.unicode_len();
    if m > n {
        return false;
    }
    if m == 0 {
        proof {
            assert(hay@.subrange(0, 0 + needle@.len() as int) =~= needle@);
        }
        return true;
    }
    let mut i: usize = 0;
    while i <= n - m
        invariant
            1 <= m <= n,
            n == hay@.len(),
            m == needle@.len(),
            i <= n - m + 1,
            forall|j: int|
                0 <= j < i ==> #[trigger] hay@.subrange(j, j + needle@.len() as int) != needle@,
        decreases n - m - i + 1,
    {
        if match_at(hay, needle, i) {
            return true;
        }
        i = i + 1;
    }
    false
}

/// The first position at or after `i` where `needle` occurs in `hay`;
/// meaningful only when such a position exists.
pub open spec fn first_index_from(hay: Seq<char>, needle: Seq<char>, i: int) -> int
    decreases hay.len() - i + 1,
{
    if i < 0 || i + needle.len() > hay.len() {
        i
    } else if hay.subrange(i, i + needle.len()) == needle {
        i
    } else {
        first_index_from(hay, needle, i + 1)
    }
}

/// The first position where `needle` occurs in `hay`.
pub open spec fn first_match_index(hay: Seq<char>, needle: Seq<char>) -> int {
    first_index_from(hay, needle, 0)
}

/// The position of the first occurrence of `needle` in `hay`, if any.
fn find_first(hay: &str, needle: &str) -> (r: Option<usize>)
    ensures
        (r is Some) == contains_sub(hay@, needle@),
        r matches Some(i) ==> i == first_match_index(hay@, needle@) && i + needle@.len()
            <= hay@.len() && hay@.subrange(i as int, i as int + needle@.len() as int) == needle@,
{
    let n = hay.unicode_len();
    let m = needle.unicode_len();
    if m > n {
        return None;
    }
    if m == 0 {
        proof {
            assert(hay@.subrange(0, 0 + needle@.len() as int) =~= needle@);
        }
        return Some(0);
    }
    let mut i: usize = 0;
    while i <= n - m
        invariant
            1 <= m <= n,
            n == hay@.len(),
            m == needle@.len(),
            i <= n - m + 1,
            first_match_index(hay@, needle@) == first_index_from(hay@, needle@, i as int),
            forall|j: int|
                0 <= j < i ==> #[trigger] hay@.subrange(j, j + needle@.len() as int) != needle@,
        decreases n - m - i + 1,
    {
        if match_at(hay, needle, i) {
            return Some(i);
        }
        i = i + 1;
    }
    None
}

/// Text in the file-name color.
pub open spec fn purple_of(s: Seq<char>) -> Seq<char> {
    "\u{1b}[35m"@ + s + "\u{1b}[0m"@
}

/// Text in the separator color.
pub open spec fn cyan_of(s: Seq<char>) -> Seq<char> {
    "\u{1b}[36m"@ + s + "\u{1b}[0m"@
}

/// Text in the pattern-highlight color.
pub open spec fn red_of(s: Seq<char>) -> Seq<char> {
    "\u{1b}[31m"@ + s + "\u{1b}[0m"@
}

/// One rendered match: the colored file tag when one is carried, then
/// the line with its first occurrence of the pattern highlighted.
pub open spec fn match_render(m: GrepCommandMatch, pattern: Seq<char>) -> Seq<char> {
    let tag = match m.file {
        Some(f) => purple_of(f@) + cyan_of(":"@),
        None => Seq::empty(),
    };
    let i = first_match_index(m.line@, pattern);
    tag + m.line@.subrange(0, i) + red_of(pattern) + m.line@.subrange(
        i + pattern.len(),
        m.line@.len() as int,
    )
}

/// All rendered matches, one per line.
pub open spec fn matches_render(ms: Seq<GrepCommandMatch>, pattern: Seq<char>) -> Seq<char>
    decreases ms.len(),
{
    if ms.len() == 0 {
        Seq::empty()
    } else if ms.len() == 1 {
        match_render(ms[0], pattern)
    } else {
        matches_render(ms.drop_last(), pattern) + "\n"@ + match_render(ms.last(), pattern)
    }
}

/// One matching line, together with its source file when several files
/// are searched.
pub struct GrepCommandMatch {
    pub line: String,
    pub file: Option<String>,
}

impl GrepCommandMatch {
    pub fn new(line: &str, file: Option<&str>) -> (r: Self)
        ensures
            r.line@ == line@,
            (match file {
                Some(f) => r.file matches Some(g) && g@ == f@,
                None => r.file is None,
            }),
    {
        let file = match file {
            Some(file_path) => Some(file_path.to_owned()),
            None => None,
        };
        Self { line: line.to_owned(), file }
    }
}

/// All matches of one search, with the pattern they were found by.
pub struct GrepCommandResult {
    pub pattern: String,
    pub matches: Vec<GrepCommandMatch>,
}

/// Wraps text in the file-name color.
fn purple(s: &str) -> (r: String)
    ensures
        r@ == purple_of(s@),
{
    let mut out = String::from_str("\u{1b}[35m");
    out.append(s);
    out.append("\u{1b}[0m");
    out
}

/// Wraps text in the separator color.
fn cyan(s: &str) -> (r: String)
    ensures
        r@ == cyan_of(s@),
{
    let mut out = String::from_str("\u{1b}[36m");
    out.append(s);
    out.append("\u{1b}[0m");
    out
}

/// Wraps text in the pattern-highlight color.
fn red(s: &str) -> (r: String)
    ensures
        r@ == red_of(s@),
{
    let mut out = String::from_str("\u{1b}[31m");
    out.append(s);
    out.append("\u{1b}[0m");
    out
}

impl GrepCommandResult {
    pub fn new(matches: Vec<GrepCommandMatch>, pattern: String) -> (r: Self)
        ensures
            r.matches == matches,
            r.pattern == pattern,
    {
        Self { matches, pattern }
    }

    /// Renders the matches as the command prints them: one per line,
    /// the file tag and the first occurrence of the pattern in color.
    /// Every carried line must really hold the pattern, as the ones a
    /// search collected do.
    #[verifier::loop_isolation(false)]
    pub fn render(&self) -> (r: String)
        requires
            forall|k: int|
                0 <= k < self.matches@.len() ==> contains_sub(
                    #[trigger] self.matches@[k].line@,
                    self.pattern@,
                ),
        ensures
            r@ == matches_render(self.matches@, self.pattern@),
    {
        let mut out = String::new();
        let mut k: usize = 0;
        while k < self.matches.len()
            invariant
                k <= self.matches@.len(),
                out@ == matches_render(self.matches@.take(k as int), self.pattern@),
            decreases self.matches@.len() - k,
        {
            proof {
                assert(self.matches@.take(k + 1).drop_last() =~= self.matches@.take(k as int));
                assert(self.matches@.take(k + 1).last() == self.matches@[k as int]);
            }
            if k > 0 {
                out.append("\n");
            }
            let m = &self.matches[k];
            match &m.file {
                Some(f) => {
                    let tag = purple(f.as_str());
                    out.append(tag.as_str());
                    let sep = cyan(":");
                    out.append(sep.as_str());
                },
                None => {},
            }
            let i = match find_first(m.line.as_str(), self.pattern.as_str()) {
                Some(i) => i,
                None => vstd::pervasive::unreached(),
            };
            let plen = self.pattern.as_str().unicode_len();
            let llen = m.line.as_str().unicode_len();
            let prefix = m.line.as_str().substring_char(0, i);
            out.append(prefix);
            let highlighted = red(self.pattern.as_str());
            out.append(highlighted.as_str());
            let suffix = m.line.as_str().substring_char(i + plen, llen);
            out.append(suffix);
            proof {
                assert(out@ =~= matches_render(self.matches@.take(k + 1), self.pattern@));
            }
            k = k + 1;
        }
        proof {
            assert(self.matches@.take(self.matches@.len() as int) =~= self.matches@);
        }
        out
    }
}

/// Every line a search collected really holds the pattern, so the
/// renderer's demand is met by construction.
pub proof fn lemma_matching_lines_contain(lines: Seq<String>, pattern: Seq<char>)
    ensures
        forall|k: int|
            0 <= k < matching_lines(lines, pattern).len() ==> contains_sub(
                #[trigger] matching_lines(lines, pattern)[k],
                pattern,
            ),
    decreases lines.len(),
{
    if lines.len() > 0 {
        lemma_matching_lines_contain(lines.drop_last(), pattern);
        let all = matching_lines(lines, pattern);
        let rest = matching_lines(lines.drop_last(), pattern);
        assert forall|k: int| 0 <= k < all.len() implies contains_sub(
            #[trigger] all[k],
            pattern,
        ) by {
            if k < rest.len() {
                assert(rest[k] == all[k]);
            }
        }
    }
}

/// The lines of a file that hold the pattern, in file order.
pub open spec fn matching_lines(lines: Seq<String>, pattern: Seq<char>) -> Seq<Seq<char>>
    decreases lines.len(),
{
    if lines.len() == 0 {
        Seq::empty()
    } else {
        let rest = matching_lines(lines.drop_last(), pattern);
        if contains_sub(lines.last()@, pattern) {
            rest.push(lines.last()@)
        } else {
            rest
        }
    }
}

/// Collects the matches of one file's lines: exactly the lines holding
/// the pattern, each tagged with the file name when one is given.
pub fn match_lines(pattern: &str, file: Option<&str>, lines: &[String]) -> (r: Vec<
    GrepCommandMatch,
>)
    ensures
        r@.len() == matching_lines(lines@, pattern@).len(),
        forall|k: int|
            0 <= k < r@.len() ==> #[trigger] r@[k].line@ == matching_lines(lines@, pattern@)[k],
        forall|k: int|
            0 <= k < r@.len() ==> (match file {
                Some(f) => #[trigger] r@[k].file matches Some(g) && g@ == f@,
                None => r@[k].file is None,
            }),
{
    let mut out: Vec<GrepCommandMatch> = Vec::new();
    let mut i: usize = 0;
    while i < lines.len()
        invariant
            i <= lines@.len(),
            out@.len() == matching_lines(lines@.take(i as int), pattern@).len(),
            forall|k: int|
                0 <= k < out@.len() ==> #[trigger] out@[k].line@ == matching_lines(
                    lines@.take(i as int),
                    pattern@,
                )[k],
            forall|k: int|
                0 <= k < out@.len() ==> (match file {
                    Some(f) => #[trigger] out@[k].file matches Some(g) && g@ == f@,
                    None => out@[k].file is None,
                }),
        decreases lines@.len() - i,
    {
        proof {
            assert(lines@.take(i + 1).drop_last() =~= lines@.take(i as int));
            assert(lines@.take(i + 1).last() == lines@[i as int]);
        }
        if str_contains(lines[i].as_str(), pattern) {
            out.push(GrepCommandMatch::new(lines[i].as_str(), file));
        }
        i = i + 1;
    }
    proof {
        assert(lines@.take(lines@.len() as int) =~= lines@);
    }
    out
}

} // verus!
