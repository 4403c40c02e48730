//! The result formatter: pure rendering of result variants as tabular
//! text. Completed items are struck through with terminal styling;
//! nothing here touches the store.

use vstd::prelude::*;
use crate::store::{TodoListRow, TodoListItemRow};
use crate::cli::CliOutput;
use crate::util::push_char;

verus! {

/// `n` spaces.
pub open spec fn spaces(n: nat) -> Seq<char>
    decreases n,
{
    if n == 0 {
        Seq::empty()
    } else {
        spaces((n - 1) as nat).push(' ')
    }
}

/// `n` ruler characters.
pub open spec fn eq_signs(n: nat) -> Seq<char>
    decreases n,
{
    if n == 0 {
        Seq::empty()
    } else {
        eq_signs((n - 1) as nat).push('=')
    }
}

/// Left-aligned padding to a column of `w` characters; text wider than
/// the column is kept whole.
pub open spec fn pad_right(s: Seq<char>, w: nat) -> Seq<char> {
    if s.len() >= w {
        s
    } else {
        s + spaces((w - s.len()) as nat)
    }
}

/// The character for one decimal digit.
pub open spec fn dec_digit_char(d: int) -> char {
    (48 + d) as u8 as char
}

/// The decimal notation of a number.
pub open spec fn u32_dec(n: nat) -> Seq<char>
    decreases n,
{
    if n < 10 {
        seq![dec_digit_char(n as int)]
    } else {
        u32_dec(n / 10) + seq![dec_digit_char((n % 10) as int)]
    }
}

/// Text wrapped in the terminal's strike-through style.
pub open spec fn strike_of(s: Seq<char>) -> Seq<char> {
    "\u{1b}[9m"@ + s + "\u{1b}[29m"@
}

/// The timestamp text the formatter prints: what chrono's
/// `DateTime::<Utc>::to_rfc2822` renders for this many seconds since
/// the epoch. The text depends on the seconds alone.
pub uninterp spec fn rfc2822_of(secs: u32) -> Seq<char>;

/// Relies on chrono: `DateTime::from_timestamp` accepts every second
/// count that fits in `u32` (the result is `Some` well past the year
/// 2100), and `to_rfc2822` renders the timestamp as a function of its
/// value alone.
#[verifier::external_body]
pub(crate) fn rfc2822_utc(secs: u32) -> (r: String)
    ensures
        r@ == rfc2822_of(secs),
{
    chrono::DateTime::from_timestamp(secs as i64, 0).unwrap().to_rfc2822()
}

/// Pads text on the right to a column of `w` characters.
pub fn pad_right_str(s: &str, w: usize) -> (r: String)
    ensures
        r@ == pad_right(s@, w as nat),
{
    let len = s.unicode_len();
    let mut out = s.to_owned();
    if len >= w {
        return out;
    }
    let mut k: usize = len;
    while k < w
        invariant
            len <= k <= w,
            len == s@.len(),
            out@ == s@ + spaces((k - len) as nat),
        decreases w - k,
    {
        push_char(&mut out, ' ');
        proof {
            assert(s@ + spaces((k + 1 - len) as nat) =~= (s@ + spaces((k - len) as nat)).push(
                ' ',
            ));
        }
        k = k + 1;
    }
    out
}

/// A ruler of `n` characters.
fn eq_signs_str(n: usize) -> (r: String)
    ensures
        r@ == eq_signs(n as nat),
{
    let mut out = String::new();
    let mut k: usize = 0;
    while k < n
        invariant
            k <= n,
            out@ == eq_signs(k as nat),
        decreases n - k,
    {
        push_char(&mut out, '=');
        k = k + 1;
    }
    out
}

/// The decimal notation of a number.
pub fn u32_to_string(n: u32) -> (r: String)
    ensures
        r@ == u32_dec(n as nat),
    decreases n,
{
    if n < 10 {
        let mut s = String::new();
        push_char(&mut s, ((48 + n) as u8) as char);
        proof {
            assert(s@ =~= seq![dec_digit_char(n as int)]);
        }
        s
    } else {
        let mut s = u32_to_string(n / 10);
        push_char(&mut s, ((48 + n % 10) as u8) as char);
        proof {
            assert(s@ =~= u32_dec((n / 10) as nat) + seq![dec_digit_char((n % 10) as int)]);
        }
        s
    }
}

/// Wraps text in the terminal's strike-through style.
pub fn strike(s: &str) -> (r: String)
    ensures
        r@ == strike_of(s@),
{
    let mut out = String::from_str("\u{1b}[9m");
    out.append(s);
    out.append("\u{1b}[29m");
    out
}

/// The header of the list table.
pub open spec fn lists_header() -> Seq<char> {
    " "@ + pad_right("list"@, 30) + "| "@ + pad_right("created at"@, 30) + "\n"@ + eq_signs(31)
        + "|"@ + eq_signs(31)
}

/// One row of the list table.
pub open spec fn list_row(l: TodoListRow) -> Seq<char> {
    "\n "@ + pad_right(l.title@, 30) + "| "@ + pad_right(rfc2822_of(l.created_at), 30)
}

/// The rows of the list table, in table order.
pub open spec fn list_rows(ls: Seq<TodoListRow>) -> Seq<char>
    decreases ls.len(),
{
    if ls.len() == 0 {
        Seq::empty()
    } else {
        list_rows(ls.drop_last()) + list_row(ls.last())
    }
}

/// The rendered list table, or the empty-table message.
pub open spec fn spec_fmt_todo_lists(ls: Seq<TodoListRow>) -> Seq<char> {
    if ls.len() == 0 {
        "No lists created"@
    } else {
        lists_header() + list_rows(ls)
    }
}

/// The header of the item table.
pub open spec fn items_header() -> Seq<char> {
    " "@ + pad_right("id"@, 5) + "| "@ + pad_right("item"@, 30) + "| "@ + pad_right(
        "created at"@,
        30,
    ) + "| "@ + pad_right("done at"@, 30) + "\n"@ + eq_signs(6) + "|"@ + eq_signs(31) + "|"@
        + eq_signs(31) + "|"@ + eq_signs(31)
}

/// One row of the item table: a completed item's id and title are
/// struck through, and its completion timestamp fills the last column.
pub open spec fn item_row(it: TodoListItemRow) -> Seq<char> {
    let id_txt = if it.done_at is Some {
        strike_of(u32_dec(it.id as nat))
    } else {
        u32_dec(it.id as nat)
    };
    let title_txt = if it.done_at is Some {
        strike_of(it.title@)
    } else {
        it.title@
    };
    let done_txt = match it.done_at {
        Some(t) => rfc2822_of(t),
        None => Seq::empty(),
    };
    "\n "@ + pad_right(id_txt, 5) + "| "@ + pad_right(title_txt, 30) + "| "@ + pad_right(
        rfc2822_of(it.created_at),
        30,
    ) + "| "@ + pad_right(done_txt, 30)
}

/// The rows of the item table, in table order.
pub open spec fn item_rows(its: Seq<TodoListItemRow>) -> Seq<char>
    decreases its.len(),
{
    if its.len() == 0 {
        Seq::empty()
    } else {
        item_rows(its.drop_last()) + item_row(its.last())
    }
}

/// The rendered item table, or the empty-table message.
pub open spec fn spec_fmt_todo_list_items(its: Seq<TodoListItemRow>) -> Seq<char> {
    if its.len() == 0 {
        "list is empty"@
    } else {
        items_header() + item_rows(its)
    }
}

/// What one dispatched result renders as.
pub open spec fn spec_render_output(o: CliOutput<'_>) -> Seq<char> {
    match o {
        CliOutput::TodoItemsOutput(rows) => spec_fmt_todo_list_items(rows@),
        CliOutput::TodoListsOutput(rows) => spec_fmt_todo_lists(rows@),
        CliOutput::TodoListCreatedOutput(t) => "Created a new list '"@ + t@ + "'"@,
        CliOutput::TodoListClearedOutput(t) => "'"@ + t@ + "' list has been cleared"@,
    }
}

/// Renders the list table.
pub fn fmt_todo_lists(todo_lists: &[TodoListRow]) -> (r: String)
    ensures
        r@ == spec_fmt_todo_lists(todo_lists@),
{
    if todo_lists.len() == 0 {
        return String::from_str("No lists created");
    }
    let mut out = String::from_str(" ");
    let pad_list = pad_right_str("list", 30);
    out.append(pad_list.as_str());
    out.append("| ");
    let pad_created = pad_right_str("created at", 30);
    out.append(pad_created.as_str());
    out.append("\n");
    let ruler = eq_signs_str(31);
    out.append(ruler.as_str());
    out.append("|");
    out.append(ruler.as_str());
    proof {
        assert(out@ =~= lists_header());
    }
    let mut i: usize = 0;
    while i < todo_lists.len()
        invariant
            i <= todo_lists@.len(),
            out@ == lists_header() + list_rows(todo_lists@.take(i as int)),
        decreases todo_lists@.len() - i,
    {
        let l = &todo_lists[i];
        out.append("\n ");
        let pad_title = pad_right_str(l.title(), 30);
        out.append(pad_title.as_str());
        out.append("| ");
        let created = rfc2822_utc(l.created_at());
        let pad_created_row = pad_right_str(created.as_str(), 30);
        out.append(pad_created_row.as_str());
        proof {
            assert(todo_lists@.take(i + 1).drop_last() =~= todo_lists@.take(i as int));
            assert(todo_lists@.take(i + 1).last() == todo_lists@[i as int]);
            assert(out@ =~= lists_header() + list_rows(todo_lists@.take(i + 1)));
        }
        i = i + 1;
    }
    proof {
        assert(todo_lists@.take(todo_lists@.len() as int) =~= todo_lists@);
        assert(out@ + list_rows(Seq::empty()) =~= out@);
    }
    out
}

/// Renders the item table.
#[verifier::rlimit(60)]
pub fn fmt_todo_list_items(todo_list_items: &[TodoListItemRow]) -> (r: String)
    ensures
        r@ == spec_fmt_todo_list_items(todo_list_items@),
{
    if todo_list_items.len() == 0 {
        return String::from_str("list is empty");
    }
    let mut out = String::from_str(" ");
    let pad_id = pad_right_str("id", 5);
    out.append(pad_id.as_str());
    out.append("| ");
    let pad_item = pad_right_str("item", 30);
    out.append(pad_item.as_str());
    out.append("| ");
    let pad_created = pad_right_str("created at", 30);
    out.append(pad_created.as_str());
    out.append("| ");
    let pad_done = pad_right_str("done at", 30);
    out.append(pad_done.as_str());
    out.append("\n");
    let short_ruler = eq_signs_str(6);
    out.append(short_ruler.as_str());
    let ruler = eq_signs_str(31);
    out.append("|");
    out.append(ruler.as_str());
    out.append("|");
    out.append(ruler.as_str());
    out.append("|");
    out.append(ruler.as_str());
    proof {
        assert(out@ =~= items_header());
    }
    let mut i: usize = 0;
    while i < todo_list_items.len()
        invariant
            i <= todo_list_items@.len(),
            out@ == items_header() + item_rows(todo_list_items@.take(i as int)),
        decreases todo_list_items@.len() - i,
    {
        let it = &todo_list_items[i];
        out.append("\n ");
        let id_str = u32_to_string(it.id());
        let id_txt = if it.is_done() {
            strike(id_str.as_str())
        } else {
            id_str
        };
        let pad_id_row = pad_right_str(id_txt.as_str(), 5);
        out.append(pad_id_row.as_str());
        out.append("| ");
        let title_txt = if it.is_done() {
            strike(it.title())
        } else {
            it.title().to_owned()
        };
        let pad_title_row = pad_right_str(title_txt.as_str(), 30);
        out.append(pad_title_row.as_str());
        out.append("| ");
        let created = rfc2822_utc(it.created_at());
        let pad_created_row = pad_right_str(created.as_str(), 30);
        out.append(pad_created_row.as_str());
        out.append("| ");
        let done_txt = match it.done_at() {
            Some(t) => rfc2822_utc(t),
            None => String::new(),
        };
        let pad_done_row = pad_right_str(done_txt.as_str(), 30);
        out.append(pad_done_row.as_str());
        proof {
            assert(todo_list_items@.take(i + 1).drop_last() =~= todo_list_items@.take(i as int));
            assert(todo_list_items@.take(i + 1).last() == todo_list_items@[i as int]);
            assert(out@ =~= items_header() + item_rows(todo_list_items@.take(i + 1)));
        }
        i = i + 1;
    }
    proof {
        assert(todo_list_items@.take(todo_list_items@.len() as int) =~= todo_list_items@);
    }
    out
}

impl CliOutput<'_> {
    /// Renders this result as display text.
    pub fn render(&self) -> (r: String)
        ensures
            r@ == spec_render_output(*self),
    {
        match self {
            CliOutput::TodoItemsOutput(rows) => fmt_todo_list_items(rows.as_slice()),
            CliOutput::TodoListsOutput(rows) => fmt_todo_lists(rows.as_slice()),
            CliOutput::TodoListCreatedOutput(title) => {
                let mut out = String::from_str("Created a new list '");
                out.append(title);
                out.append("'");
                out
            },
            CliOutput::TodoListClearedOutput(title) => {
                let mut out = String::from_str("'");
                out.append(title);
                out.append("' list has been cleared");
                out
            },
        }
    }
}

} // verus!
