//! A displayed list of vault rows: selection, scrolling, alphabetic group
//! headers, and the lines and window that are drawn.

use vstd::prelude::*;
use vstd::string::StringExecFns;
use crate::text::{ascii_upper, ascii_upper_of};
use crate::vault::{row_views, RowView, VaultRow};

verus! {

/// The most rows a list may hold, so that every line number fits a `usize`.
pub const MAX_ROWS: usize = 0x7fff_ffff;

/// The letter a row is grouped under: the first character of its account in
/// upper case, or `?` where the account is empty.
pub open spec fn group_letter(r: RowView) -> char {
    if r.account.len() == 0 {
        '?'
    } else {
        ascii_upper_of(r.account[0])
    }
}

/// Row `i` is the first of its group: it opens the list, or its letter is not
/// that of the row before it.
pub open spec fn starts_group(rows: Seq<RowView>, i: int) -> bool {
    i == 0 || group_letter(rows[i]) != group_letter(rows[i - 1])
}

/// How many of the first `n` rows are the first of their group.
pub open spec fn headers_upto(rows: Seq<RowView>, n: int) -> int
    decreases n,
{
    if n <= 0 {
        0
    } else {
        headers_upto(rows, n - 1) + if starts_group(rows, n - 1) {
            1int
        } else {
            0int
        }
    }
}

/// The line on which row `i` is drawn: with headers, one line more for each
/// header at or above it.
pub open spec fn line_of(rows: Seq<RowView>, show_headers: bool, i: int) -> int {
    if show_headers {
        i + headers_upto(rows, i + 1)
    } else {
        i
    }
}

/// The number of lines the whole list takes.
pub open spec fn line_count(rows: Seq<RowView>, show_headers: bool) -> int {
    if show_headers {
        rows.len() + headers_upto(rows, rows.len() as int)
    } else {
        rows.len() as int
    }
}

/// Among `n` rows there are at most `n` headers, and at least one where
/// there is a row.
pub proof fn lemma_headers_bounds(rows: Seq<RowView>, n: int)
    requires
        0 <= n,
    ensures
        0 <= headers_upto(rows, n) <= n,
        n >= 1 ==> headers_upto(rows, n) >= 1,
    decreases n,
{
    if n > 0 {
        lemma_headers_bounds(rows, n - 1);
    }
}

/// The scroll offset after the selection has settled on a row drawn on
/// `line`: 0 for the first row; else the line itself where it lies above the
/// window, the least offset that shows it where it lies below, and the old
/// offset where it is in the window already.
pub open spec fn scroll_for(scroll: int, selected: int, line: int, height: int) -> int {
    if selected == 0 {
        0
    } else if line < scroll {
        line
    } else if line >= scroll + height {
        line + 1 - height
    } else {
        scroll
    }
}

/// The first line that is drawn, and the line behind the last one drawn: the
/// window starts at the scroll offset, moved up where it would reach past the
/// end of the content, and is cut at the end of the content.
pub open spec fn window_of(total: int, scroll: int, height: int) -> (int, int) {
    let max_scroll = if total >= height {
        total - height
    } else {
        0
    };
    let start = if scroll <= max_scroll {
        scroll
    } else {
        max_scroll
    };
    let end = if start + height <= total {
        start + height
    } else {
        total
    };
    (start, end)
}

/// The first line that is drawn, and the line behind the last one drawn.
pub fn window(total: usize, scroll: usize, height: usize) -> (r: (usize, usize))
    ensures
        (r.0 as int, r.1 as int) == window_of(total as int, scroll as int, height as int),
        r.0 <= r.1 <= total,
{
    let max_scroll: usize = if total >= height {
        total - height
    } else {
        0
    };
    let start: usize = if scroll <= max_scroll {
        scroll
    } else {
        max_scroll
    };
    let end: usize = if height <= total - start {
        start + height
    } else {
        total
    };
    (start, end)
}

/// The letter a row is grouped under.
pub fn letter_of(row: &VaultRow) -> (c: char)
    ensures
        c == group_letter(row@),
{
    let s = row.account.as_str();
    if s.unicode_len() == 0 {
        '?'
    } else {
        ascii_upper(s.get_char(0))
    }
}

/// One drawn line of a list: the header of a group, or a row.
#[derive(Debug, PartialEq, Eq)]
pub enum ListLine {
    Header { letter: char },
    Row { index: usize, text: String, selected: bool, placeholder: bool },
}

pub enum LineView {
    Header { letter: char },
    Row { index: int, text: Seq<char>, selected: bool, placeholder: bool },
}

impl View for ListLine {
    type V = LineView;

    open spec fn view(&self) -> LineView {
        match *self {
            ListLine::Header { letter } => LineView::Header { letter },
            ListLine::Row { index, text, selected, placeholder } => LineView::Row {
                index: index as int,
                text: text@,
                selected,
                placeholder,
            },
        }
    }
}

/// The lines as contracts see them.
pub open spec fn line_views(lines: Seq<ListLine>) -> Seq<LineView> {
    Seq::new(lines.len(), |i: int| lines[i]@)
}

/// The text a row is drawn with: its account, followed by its username
/// behind a bar where it has one.
pub open spec fn row_text(r: RowView) -> Seq<char> {
    if r.username.len() == 0 {
        r.account
    } else {
        r.account + " | "@ + r.username
    }
}

/// The line that draws row `i`.
pub open spec fn row_line(rows: Seq<RowView>, selected: int, i: int) -> LineView {
    LineView::Row {
        index: i,
        text: row_text(rows[i]),
        selected: i == selected,
        placeholder: rows[i].placeholder,
    }
}

/// The lines that draw the first `n` rows: each row on a line of its own,
/// and with headers, the letter of each group on a line before the group's
/// first row.
pub open spec fn lines_upto(rows: Seq<RowView>, show_headers: bool, selected: int, n: int) -> Seq<
    LineView,
>
    decreases n,
{
    if n <= 0 {
        Seq::empty()
    } else {
        let above = lines_upto(rows, show_headers, selected, n - 1);
        let headed = if show_headers && starts_group(rows, n - 1) {
            above.push(LineView::Header { letter: group_letter(rows[n - 1]) })
        } else {
            above
        };
        headed.push(row_line(rows, selected, n - 1))
    }
}

/// Row `i` is drawn on line `line_of(i)`, and the first `n` rows take
/// `n` lines and one more for each header.
pub proof fn lemma_lines_upto(rows: Seq<RowView>, show_headers: bool, selected: int, n: int)
    requires
        0 <= n,
    ensures
        lines_upto(rows, show_headers, selected, n).len() == if show_headers {
            n + headers_upto(rows, n)
        } else {
            n
        },
        forall|i: int|
            0 <= i < n ==> 0 <= line_of(rows, show_headers, i) < lines_upto(
                rows,
                show_headers,
                selected,
                n,
            ).len() && lines_upto(rows, show_headers, selected, n)[#[trigger] line_of(
                rows,
                show_headers,
                i,
            )] == row_line(rows, selected, i),
    decreases n,
{
    if n > 0 {
        lemma_lines_upto(rows, show_headers, selected, n - 1);
        lemma_headers_bounds(rows, n);
        lemma_headers_bounds(rows, n - 1);
        let all = lines_upto(rows, show_headers, selected, n);
        let above = lines_upto(rows, show_headers, selected, n - 1);
        assert forall|i: int| 0 <= i < n implies 0 <= line_of(rows, show_headers, i) < all.len()
            && all[#[trigger] line_of(rows, show_headers, i)] == row_line(rows, selected, i) by {
            lemma_headers_bounds(rows, i + 1);
            if i < n - 1 {
                assert(line_of(rows, show_headers, i) < above.len());
                assert(above[line_of(rows, show_headers, i)] == row_line(rows, selected, i));
            }
        }
    }
}

/// A selection that lies in the window at the scroll offset is among the
/// lines that are drawn.
pub proof fn lemma_selection_drawn(total: int, scroll: int, height: int, line: int)
    requires
        0 <= scroll <= line < scroll + height,
        line < total,
    ensures
        window_of(total, scroll, height).0 <= line < window_of(total, scroll, height).1,
{
}

/// A list of rows with its selection and scroll offset.
#[derive(Debug, PartialEq, Eq)]
pub struct ListView {
    pub entries: Vec<VaultRow>,
    pub scroll: usize,
    pub selected: usize,
    pub show_headers: bool,
}

pub struct ListModel {
    pub rows: Seq<RowView>,
    pub scroll: usize,
    pub selected: usize,
    pub show_headers: bool,
}

impl View for ListView {
    type V = ListModel;

    open spec fn view(&self) -> ListModel {
        ListModel {
            rows: row_views(self.entries@),
            scroll: self.scroll,
            selected: self.selected,
            show_headers: self.show_headers,
        }
    }
}

impl ListModel {
    /// The list holds at least one row, no more than `MAX_ROWS`, and the
    /// selection is on one of them.
    pub open spec fn wf(self) -> bool {
        &&& 1 <= self.rows.len() <= MAX_ROWS
        &&& self.selected < self.rows.len()
    }

    /// The line on which the selected row is drawn.
    pub open spec fn selected_line(self) -> int {
        line_of(self.rows, self.show_headers, self.selected as int)
    }

    /// The selected row is inside the window of `height` lines that starts
    /// at the scroll offset.
    pub open spec fn selection_visible(self, height: int) -> bool {
        self.scroll <= self.selected_line() < self.scroll + height
    }

    /// The list with its scroll offset brought in line with the selection.
    pub open spec fn settled(self, height: usize) -> ListModel {
        ListModel {
            scroll: scroll_for(
                self.scroll as int,
                self.selected as int,
                self.selected_line(),
                height as int,
            ) as usize,
            ..self
        }
    }

    /// The list with another row selected, and settled.
    pub open spec fn selecting(self, selected: usize, height: usize) -> ListModel {
        ListModel { selected, ..self }.settled(height)
    }

    /// The selection moved one row down, unless it is on the last row.
    pub open spec fn moved_down(self, height: usize) -> ListModel {
        if self.selected + 1 < self.rows.len() {
            self.selecting((self.selected + 1) as usize, height)
        } else {
            self.settled(height)
        }
    }

    /// The selection moved one row up, unless it is on the first row.
    pub open spec fn moved_up(self, height: usize) -> ListModel {
        if self.selected > 0 {
            self.selecting((self.selected - 1) as usize, height)
        } else {
            self.settled(height)
        }
    }
}

/// A window of at least one line shows the selection of a settled list,
/// unless the window has a single line, headers are shown, and the first
/// row is selected: that row is drawn on the second line, under its header,
/// while the scroll offset is 0.
pub proof fn lemma_settled_shows_selection(m: ListModel, height: usize)
    requires
        m.wf(),
        height >= 1,
        !(m.selected == 0 && m.show_headers && height == 1),
    ensures
        m.settled(height).selection_visible(height as int),
{
    lemma_headers_bounds(m.rows, m.selected + 1);
    if m.selected == 0 && m.show_headers {
        assert(headers_upto(m.rows, 1) == 1) by {
            assert(headers_upto(m.rows, 0) == 0);
            assert(starts_group(m.rows, 0));
        };
    }
}

/// The list after a sequence of moves, `true` for down and `false` for up.
pub open spec fn after_moves(list: ListModel, downs: Seq<bool>, height: usize) -> ListModel
    decreases downs.len(),
{
    if downs.len() == 0 {
        list
    } else {
        let before = after_moves(list, downs.drop_last(), height);
        if downs.last() {
            before.moved_down(height)
        } else {
            before.moved_up(height)
        }
    }
}

/// After any sequence of moves, the selected row lies in the window of
/// `height` lines at the scroll offset. The one exception is a window of a
/// single line with headers shown and the first row selected.
pub proof fn lemma_any_moves_show_selection(list: ListModel, downs: Seq<bool>, height: usize)
    requires
        list.wf(),
        downs.len() > 0,
        height >= 1,
        !(height == 1 && list.show_headers && after_moves(list, downs, height).selected == 0),
    ensures
        after_moves(list, downs, height).wf(),
        after_moves(list, downs, height).rows == list.rows,
        after_moves(list, downs, height).show_headers == list.show_headers,
        after_moves(list, downs, height).selection_visible(height as int),
{
    lemma_moves_keep_rows(list, downs.drop_last(), height);
    let before = after_moves(list, downs.drop_last(), height);
    let moved = if downs.last() {
        if before.selected + 1 < before.rows.len() {
            ListModel { selected: (before.selected + 1) as usize, ..before }
        } else {
            before
        }
    } else {
        if before.selected > 0 {
            ListModel { selected: (before.selected - 1) as usize, ..before }
        } else {
            before
        }
    };
    lemma_settled_shows_selection(moved, height);
}

proof fn lemma_moves_keep_rows(list: ListModel, downs: Seq<bool>, height: usize)
    requires
        list.wf(),
    ensures
        after_moves(list, downs, height).wf(),
        after_moves(list, downs, height).rows == list.rows,
        after_moves(list, downs, height).show_headers == list.show_headers,
    decreases downs.len(),
{
    if downs.len() > 0 {
        lemma_moves_keep_rows(list, downs.drop_last(), height);
    }
}

/// A copy of the rows.
pub fn copy_rows(rows: &Vec<VaultRow>) -> (out: Vec<VaultRow>)
    ensures
        row_views(out@) == row_views(rows@),
{
    let mut out: Vec<VaultRow> = Vec::new();
    let mut i: usize = 0;
    while i < rows.len()
        invariant
            i <= rows.len(),
            out.len() == i,
            forall|j: int| 0 <= j < i ==> (#[trigger] out[j])@ == rows[j]@,
        decreases rows.len() - i,
    {
        out.push(rows[i].clone());
        i = i + 1;
    }
    proof {
        assert(row_views(out@) =~= row_views(rows@));
    }
    out
}

impl Clone for ListView {
    fn clone(&self) -> (r: Self)
        ensures
            r@ == self@,
    {
        ListView {
            entries: copy_rows(&self.entries),
            scroll: self.scroll,
            selected: self.selected,
            show_headers: self.show_headers,
        }
    }
}

impl ListView {
    /// A list on its first row, not scrolled.
    pub fn new(entries: Vec<VaultRow>, show_headers: bool) -> (r: Self)
        requires
            1 <= entries@.len() <= MAX_ROWS,
        ensures
            r@.wf(),
            r@ == (ListModel { rows: row_views(entries@), scroll: 0, selected: 0, show_headers }),
    {
        ListView { entries, scroll: 0, selected: 0, show_headers }
    }

    /// The line on which the selected row is drawn.
    pub fn selected_line(&self) -> (line: usize)
        requires
            self@.wf(),
        ensures
            line == self@.selected_line(),
            self.selected <= line <= 2 * self.selected + 1,
    {
        if !self.show_headers {
            return self.selected;
        }
        let mut headers: usize = 0;
        let mut j: usize = 0;
        while j <= self.selected
            invariant
                self@.wf(),
                j <= self.selected + 1,
                headers == headers_upto(self@.rows, j as int),
                headers <= j,
            decreases self.selected + 1 - j,
        {
            let first = if j == 0 {
                true
            } else {
                letter_of(&self.entries[j]) != letter_of(&self.entries[j - 1])
            };
            if first {
                headers = headers + 1;
            }
            j = j + 1;
        }
        self.selected + headers
    }

    /// Brings the scroll offset in line with the selection, for a window of
    /// `height` lines.
    pub fn settle(&mut self, height: usize)
        requires
            old(self)@.wf(),
        ensures
            final(self)@ == old(self)@.settled(height),
            final(self)@.wf(),
            final(self).entries == old(self).entries,
    {
        let line: usize = self.selected_line();
        if self.selected == 0 {
            self.scroll = 0;
        } else if line < self.scroll {
            self.scroll = line;
        } else if line - self.scroll >= height {
            self.scroll = line + 1 - height;
        }
    }

    /// The text of row `i`.
    fn text_at(&self, i: usize) -> (text: String)
        requires
            i < self.entries@.len(),
        ensures
            text@ == row_text(self@.rows[i as int]),
    {
        let row = &self.entries[i];
        if row.username.as_str().unicode_len() == 0 {
            row.account.clone()
        } else {
            row.account.clone().concat(" | ").concat(row.username.as_str())
        }
    }

    /// The lines of the whole list, headers included.
    pub fn lines(&self) -> (out: Vec<ListLine>)
        requires
            self@.wf(),
        ensures
            line_views(out@) == lines_upto(
                self@.rows,
                self.show_headers,
                self.selected as int,
                self.entries@.len() as int,
            ),
            out@.len() == line_count(self@.rows, self.show_headers),
            self@.selected_line() < out@.len(),
            out[self@.selected_line()]@ == row_line(
                self@.rows,
                self.selected as int,
                self.selected as int,
            ),
    {
        let mut out: Vec<ListLine> = Vec::new();
        let mut i: usize = 0;
        proof {
            assert(line_views(out@) =~= Seq::empty());
        }
        while i < self.entries.len()
            invariant
                self@.wf(),
                i <= self.entries.len(),
                out.len() <= 2 * i,
                line_views(out@) == lines_upto(
                    self@.rows,
                    self.show_headers,
                    self.selected as int,
                    i as int,
                ),
            decreases self.entries.len() - i,
        {
            let ghost above = line_views(out@);
            let letter = letter_of(&self.entries[i]);
            let first = if i == 0 {
                true
            } else {
                letter != letter_of(&self.entries[i - 1])
            };
            if self.show_headers && first {
                out.push(ListLine::Header { letter });
                proof {
                    assert(line_views(out@) =~= above.push(LineView::Header { letter }));
                }
            }
            let ghost headed = line_views(out@);
            let text = self.text_at(i);
            out.push(
                ListLine::Row {
                    index: i,
                    text,
                    selected: i == self.selected,
                    placeholder: self.entries[i].placeholder,
                },
            );
            proof {
                assert(line_views(out@) =~= headed.push(
                    row_line(self@.rows, self.selected as int, i as int),
                ));
            }
            i = i + 1;
        }
        proof {
            lemma_lines_upto(
                self@.rows,
                self.show_headers,
                self.selected as int,
                self.entries@.len() as int,
            );
            assert(line_views(out@).len() == out@.len());
            let at = self@.selected_line();
            assert(line_views(out@)[at] == out[at]@);
        }
        out
    }

    /// Moves the selection one row down, unless it is on the last row, and
    /// settles the scroll offset.
    pub fn move_down(&mut self, height: usize)
        requires
            old(self)@.wf(),
        ensures
            final(self)@ == old(self)@.moved_down(height),
            final(self)@.wf(),
            final(self).entries == old(self).entries,
            height >= 1 && !(final(self).selected == 0 && old(self).show_headers && height == 1)
                ==> final(self)@.selection_visible(height as int),
    {
        if self.selected + 1 < self.entries.len() {
            self.selected = self.selected + 1;
        }
        proof {
            if height >= 1 && !(self.selected == 0 && self.show_headers && height == 1) {
                lemma_settled_shows_selection(self@, height);
            }
        }
        self.settle(height);
    }

    /// Moves the selection one row up, unless it is on the first row, and
    /// settles the scroll offset.
    pub fn move_up(&mut self, height: usize)
        requires
            old(self)@.wf(),
        ensures
            final(self)@ == old(self)@.moved_up(height),
            final(self)@.wf(),
            final(self).entries == old(self).entries,
            height >= 1 && !(final(self).selected == 0 && old(self).show_headers && height == 1)
                ==> final(self)@.selection_visible(height as int),
    {
        if self.selected > 0 {
            self.selected = self.selected - 1;
        }
        proof {
            if height >= 1 && !(self.selected == 0 && self.show_headers && height == 1) {
                lemma_settled_shows_selection(self@, height);
            }
        }
        self.settle(height);
    }
}

} // verus!
