use vstd::prelude::*;
use vstd::string::StrSliceExecFns;
use vstd::string::StringExecFns;

use crate::branch::{prefix_of, BranchItem, SHORT_ID_LEN};
use crate::session::{Mode, Session};
use crate::text::push_char;

verus! {

/// Blank cells kept between the list and each edge of the display surface.
pub const PADDING: usize = 2;

/// Extra cells a summary column takes beyond its configured length: two quotes
/// and a three-dot ellipsis, plus one blank.
pub const SUMMARY_EXTRA: usize = 6;

/// Cells an ellipsis takes.
pub const ELLIPSIS_LEN: usize = 3;

/// One line to draw, anchored at column `PADDING` (the truncation notice two
/// cells further in), in row `y` counted from the top.
pub enum Row {
    /// A branch: its text, and how to emphasise it. After the text come the
    /// annotations "no upstream" and "gone" where `no_upstream` and `gone` are set.
    Branch { y: usize, text: String, selected: bool, current: bool, gone: bool, no_upstream: bool },
    /// How many branches did not fit.
    Truncated { y: usize, hidden: usize },
    /// The list is empty.
    Empty { y: usize },
}

/// `s` cut to `k` characters with an ellipsis appended, where it is longer.
pub open spec fn clip(s: Seq<char>, k: nat) -> Seq<char> {
    if s.len() > k {
        s.subrange(0, k as int) + seq!['.', '.', '.']
    } else {
        s
    }
}

/// `s` followed by blanks up to `w` characters.
pub open spec fn pad(s: Seq<char>, w: nat) -> Seq<char> {
    if s.len() < w {
        s + Seq::new((w - s.len()) as nat, |_i: int| ' ')
    } else {
        s
    }
}

/// Some name in `items` is at least `limit` characters long.
pub open spec fn any_long_name(items: Seq<BranchItem>, limit: nat) -> bool {
    exists|i: int| 0 <= i < items.len() && #[trigger] items[i].name@.len() >= limit
}

/// The length of the longest name in `items`.
pub open spec fn longest_name(items: Seq<BranchItem>) -> nat
    decreases items.len(),
{
    if items.len() == 0 {
        0
    } else {
        let rest = longest_name(items.drop_last());
        let c = items.last().name@.len();
        if c > rest {
            c
        } else {
            rest
        }
    }
}

/// The width of the name column: the longest name, or the clipped width where
/// some name reaches the limit.
pub open spec fn name_column(items: Seq<BranchItem>, limit: nat) -> nat {
    if any_long_name(items, limit) {
        (limit + ELLIPSIS_LEN) as nat
    } else {
        longest_name(items)
    }
}

/// The text of a branch's row: selection marker, short id, name and quoted
/// summary, the last two clipped and padded to their columns.
pub open spec fn row_text(
    item: BranchItem,
    selected: bool,
    name_width: nat,
    name_len: nat,
    summary_len: nat,
) -> Seq<char> {
    seq![if selected {
        '>'
    } else {
        ' '
    }, ' '] + prefix_of(item.oid@, SHORT_ID_LEN as nat) + seq![' '] + pad(
        clip(item.name@, name_len),
        name_width,
    ) + seq![' ', ' '] + pad(
        seq!['\''] + clip(item.summary@, summary_len) + seq!['\''],
        (summary_len + SUMMARY_EXTRA) as nat,
    )
}

/// How many branch rows fit on a surface `height` rows high.
pub open spec fn capacity(height: nat) -> nat {
    if height >= 2 * PADDING {
        (height - 2 * PADDING) as nat
    } else {
        0
    }
}

/// The row `y` at which list index `i` is drawn: index 0 lowest.
pub open spec fn row_y(height: nat, i: nat) -> int {
    height - 1 - PADDING - i
}

fn append_clipped(s: &mut String, t: &str, k: usize)
    ensures
        final(s)@ == old(s)@ + clip(t@, k as nat),
{
    let n = t.unicode_len();
    if n > k {
        s.append(t.substring_char(0, k));
        push_char(s, '.');
        push_char(s, '.');
        push_char(s, '.');
        assert(final(s)@ =~= old(s)@ + clip(t@, k as nat));
    } else {
        s.append(t);
    }
}

fn pad_to(s: &mut String, start: usize, w: usize)
    requires
        start <= old(s)@.len(),
    ensures
        final(s)@ == old(s)@.subrange(0, start as int) + pad(
            old(s)@.subrange(start as int, old(s)@.len() as int),
            w as nat,
        ),
{
    let ghost head = s@.subrange(0, start as int);
    let ghost field = s@.subrange(start as int, s@.len() as int);
    let len = s.as_str().unicode_len() - start;
    let mut k: usize = len;
    while k < w
        invariant
            start + len == old(s)@.len(),
            len == field.len(),
            len <= k <= w || (w < len && k == len),
            s@ == head + field + Seq::new((k - len) as nat, |_i: int| ' '),
            head + field == old(s)@,
        decreases w - k,
    {
        push_char(s, ' ');
        assert(Seq::new((k + 1 - len) as nat, |_i: int| ' ') =~= Seq::new(
            (k - len) as nat,
            |_i: int| ' ',
        ).push(' '));
        k = k + 1;
    }
    proof {
        assert(head + field =~= old(s)@);
        if len < w {
            assert(s@ =~= head + pad(field, w as nat));
        } else {
            assert(s@ =~= head + field);
        }
    }
}

/// The text of a branch's row.
pub fn format_row(
    item: &BranchItem,
    selected: bool,
    name_width: usize,
    name_len: usize,
    summary_len: usize,
) -> (r: String)
    requires
        summary_len + SUMMARY_EXTRA <= usize::MAX,
    ensures
        r@ == row_text(*item, selected, name_width as nat, name_len as nat, summary_len as nat),
{
    let mut s = String::new();
    push_char(&mut s, if selected {
        '>'
    } else {
        ' '
    });
    push_char(&mut s, ' ');
    let short = item.short_oid();
    s.append(short.as_str());
    push_char(&mut s, ' ');
    let ghost before_name = s@;
    let name_start = s.as_str().unicode_len();
    append_clipped(&mut s, item.name.as_str(), name_len);
    proof {
        assert(s@.subrange(0, name_start as int) =~= before_name);
        assert(s@.subrange(name_start as int, s@.len() as int) =~= clip(item.name@, name_len as nat));
    }
    pad_to(&mut s, name_start, name_width);
    push_char(&mut s, ' ');
    push_char(&mut s, ' ');
    let ghost before_summary = s@;
    let summary_start = s.as_str().unicode_len();
    push_char(&mut s, '\'');
    append_clipped(&mut s, item.summary.as_str(), summary_len);
    push_char(&mut s, '\'');
    proof {
        assert(s@.subrange(0, summary_start as int) =~= before_summary);
        assert(s@.subrange(summary_start as int, s@.len() as int) =~= seq!['\''] + clip(
            item.summary@,
            summary_len as nat,
        ) + seq!['\'']);
    }
    pad_to(&mut s, summary_start, summary_len + SUMMARY_EXTRA);
    assert(s@ =~= row_text(*item, selected, name_width as nat, name_len as nat, summary_len as nat));
    s
}


/// The width of the name column for `items` when names are clipped at `limit`.
pub fn name_column_width(items: &Vec<BranchItem>, limit: usize) -> (r: usize)
    requires
        limit + ELLIPSIS_LEN <= usize::MAX,
    ensures
        r == name_column(items@, limit as nat),
{
    let mut longest: usize = 0;
    let mut long = false;
    let mut i: usize = 0;
    while i < items.len()
        invariant
            i <= items@.len(),
            longest == longest_name(items@.subrange(0, i as int)),
            long == any_long_name(items@.subrange(0, i as int), limit as nat),
        decreases items@.len() - i,
    {
        let c = items[i].name.as_str().unicode_len();
        proof {
            let pre = items@.subrange(0, i as int);
            let next = items@.subrange(0, i + 1);
            assert(next.drop_last() =~= pre);
            assert(next.last() == items@[i as int]);
            assert(next[i as int] == items@[i as int]);
            if any_long_name(pre, limit as nat) {
                let j = choose|j: int| 0 <= j < pre.len() && #[trigger] pre[j].name@.len() >= limit;
                assert(next[j] == pre[j]);
            }
            if any_long_name(next, limit as nat) && c < limit {
                let j = choose|j: int| 0 <= j < next.len() && #[trigger] next[j].name@.len() >= limit;
                assert(pre[j] == next[j]);
            }
        }
        if c >= limit {
            long = true;
        }
        if c > longest {
            longest = c;
        }
        i = i + 1;
    }
    assert(items@.subrange(0, items@.len() as int) =~= items@);
    if long {
        limit + ELLIPSIS_LEN
    } else {
        longest
    }
}

/// `r` is the row of list index `i`, showing `item`.
pub open spec fn branch_row(
    r: Row,
    item: BranchItem,
    i: nat,
    selected: nat,
    height: nat,
    name_width: nat,
    name_len: nat,
    summary_len: nat,
) -> bool {
    match r {
        Row::Branch { y, text, selected: marked, current, gone, no_upstream } => {
            &&& y == row_y(height, i)
            &&& marked == (i == selected)
            &&& text@ == row_text(item, i == selected, name_width, name_len, summary_len)
            &&& current == item.is_head
            &&& gone == item.is_gone
            &&& no_upstream == !item.has_upstream
        },
        _ => false,
    }
}

/// The rows that draw `items` on a surface `height` rows high, bottom-anchored:
/// index 0 lowest, one row each while they fit, then a row that counts the rest.
/// An empty list gives a single row that says so. A surface of `PADDING` rows
/// or fewer has no room for any row and gives none.
pub fn project(
    items: &Vec<BranchItem>,
    selected: usize,
    height: u16,
    name_len: usize,
    summary_len: usize,
) -> (r: Vec<Row>)
    requires
        name_len + ELLIPSIS_LEN <= usize::MAX,
        summary_len + SUMMARY_EXTRA <= usize::MAX,
    ensures
        height <= PADDING ==> r@.len() == 0,
        height > PADDING && items@.len() == 0 ==> r@.len() == 1 && (r@[0] matches Row::Empty {
            y,
        } && y == row_y(height as nat, 0)),
        height > PADDING && items@.len() > 0 ==> {
            let n = items@.len();
            let cap = capacity(height as nat);
            let shown = if n <= cap {
                n
            } else {
                cap
            };
            let width = name_column(items@, name_len as nat);
            &&& r@.len() == shown + if n > cap {
                1int
            } else {
                0int
            }
            &&& forall|i: int|
                0 <= i < shown ==> branch_row(
                    #[trigger] r@[i],
                    items@[i],
                    i as nat,
                    selected as nat,
                    height as nat,
                    width,
                    name_len as nat,
                    summary_len as nat,
                )
            &&& n > cap ==> (r@[shown as int] matches Row::Truncated { y, hidden } && y == row_y(
                height as nat,
                shown,
            ) && hidden == n - cap)
        },
{
    let mut rows: Vec<Row> = Vec::new();
    let h = height as usize;
    if h <= PADDING {
        return rows;
    }
    let max_y = h - 1 - PADDING;
    let n = items.len();
    if n == 0 {
        rows.push(Row::Empty { y: max_y });
        return rows;
    }
    let cap = if h >= 2 * PADDING {
        h - 2 * PADDING
    } else {
        0
    };
    let width = name_column_width(items, name_len);
    let mut i: usize = 0;
    while i < n && i < cap
        invariant
            n == items@.len(),
            cap == capacity(height as nat),
            max_y == height - 1 - PADDING,
            cap <= max_y,
            h == height,
            i <= n,
            i <= cap,
            width == name_column(items@, name_len as nat),
            summary_len + SUMMARY_EXTRA <= usize::MAX,
            rows@.len() == i,
            forall|j: int|
                0 <= j < i ==> branch_row(
                    #[trigger] rows@[j],
                    items@[j],
                    j as nat,
                    selected as nat,
                    height as nat,
                    width as nat,
                    name_len as nat,
                    summary_len as nat,
                ),
        decreases n - i,
    {
        let item = &items[i];
        let text = format_row(item, i == selected, width, name_len, summary_len);
        rows.push(
            Row::Branch {
                y: max_y - i,
                text,
                selected: i == selected,
                current: item.is_head,
                gone: item.is_gone,
                no_upstream: !item.has_upstream,
            },
        );
        i = i + 1;
    }
    if n > cap {
        rows.push(Row::Truncated { y: max_y - cap, hidden: n - cap });
    }
    rows
}


/// The search prompt, `/ ` and the search string, shown while searching or
/// while a search string is set.
pub fn search_prompt(session: &Session) -> (r: Option<String>)
    ensures
        r is Some <==> (session.mode == Mode::Searching || session.search@.len() > 0),
        r matches Some(t) ==> t@ == seq!['/', ' '] + session.search@,
{
    let searching = match session.mode {
        Mode::Searching => true,
        Mode::Browsing => false,
    };
    if !searching && session.search.as_str().unicode_len() == 0 {
        return None;
    }
    let mut t = String::new();
    push_char(&mut t, '/');
    push_char(&mut t, ' ');
    t.append(session.search.as_str());
    assert(t@ =~= seq!['/', ' '] + session.search@);
    Some(t)
}

} // verus!
