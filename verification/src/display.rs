//! Viewport arithmetic and fixed-width cell formatting.
use crate::ansi;
use crate::file::{files_view, is_hidden, is_hidden_name, File, FileType, FileView};
use crate::info::shown_lines;
use crate::text::{pad, spaces, strings_view};
use crate::{App, AppView};
use vstd::prelude::*;

verus! {

pub const HIRAGANA_BEG: char = '\u{3040}';

pub const HIRAGANA_END: char = '\u{309F}';

pub const KATAKANA_BEG: char = '\u{30A0}';

pub const KATAKANA_END: char = '\u{30FF}';

pub const KANJI_BEG: char = '\u{4E00}';

pub const KANJI_END: char = '\u{9FAF}';

pub const FULLWIDTH_BEG: char = '\u{FF01}';

pub const FULLWIDTH_END: char = '\u{FF60}';

/// The mark that ends a shortened cell.
pub const ELLIPSIS: char = '\u{2026}';

/// The window `[from, to)` of rows shown for `n` items, `r` available rows
/// and the selected index `s`.
///
/// Everything is shown when it fits. Otherwise the window is pinned to the
/// start while the selection is in the first half of the rows, pinned to the
/// end when the selection is closer than half a window to the last item, and
/// centred on the selection in between. With no rows nothing is shown.
pub open spec fn viewport_spec(n: int, r: int, s: int) -> (int, int) {
    let half = r / 2;
    if r == 0 {
        (0, 0)
    } else if n <= r {
        (0, n)
    } else if s < half {
        (0, r)
    } else if s > n - half {
        (n - r, n)
    } else {
        (s - half, s + half)
    }
}

/// Computes the visible window for `n` items in `r` rows around selection `s`.
pub fn viewport(n: usize, r: usize, s: usize) -> (w: (usize, usize))
    ensures
        (w.0 as int, w.1 as int) == viewport_spec(n as int, r as int, s as int),
{
    if r == 0 {
        return (0, 0);
    }
    if n <= r {
        return (0, n);
    }
    let half: usize = r / 2;
    if s < half {
        (0, r)
    } else if s > n - half {
        (n - r, n)
    } else {
        (s - half, s + half)
    }
}

/// Whenever the selection is a valid index and the window is not degenerate
/// (at least two rows, or everything fits), the window contains the
/// selection, is no taller than the available rows and stays inside the list.
pub proof fn lemma_viewport_contains_selection(n: int, r: int, s: int)
    requires
        0 <= s < n,
        0 <= r,
        r >= 2 || n <= r,
    ensures
        ({
            let (from, to) = viewport_spec(n, r, s);
            &&& from <= s < to
            &&& to - from <= r
            &&& 0 <= from
            &&& to <= n
        }),
{
}

/// When not everything fits, the window is exactly as tall as the largest
/// even number of rows available, and fills all rows when pinned to an end.
pub proof fn lemma_viewport_height(n: int, r: int, s: int)
    requires
        0 <= s < n,
        0 < r < n,
    ensures
        ({
            let (from, to) = viewport_spec(n, r, s);
            let half = r / 2;
            &&& (s < half || s > n - half) ==> to - from == r
            &&& (half <= s <= n - half) ==> to - from == 2 * half
        }),
{
}

/// Tells whether `ch` lies in the inclusive range from `range_beg` to
/// `range_end`.
pub fn is_char_between_char_range(ch: char, range_beg: char, range_end: char) -> (inside: bool)
    ensures
        inside == (range_beg <= ch && ch <= range_end),
{
    ch >= range_beg && ch <= range_end
}

/// Characters drawn two columns wide: hiragana, katakana, the CJK ideographs
/// and the fullwidth forms.
pub open spec fn is_wide_char(ch: char) -> bool {
    ||| HIRAGANA_BEG <= ch <= HIRAGANA_END
    ||| KATAKANA_BEG <= ch <= KATAKANA_END
    ||| KANJI_BEG <= ch <= KANJI_END
    ||| FULLWIDTH_BEG <= ch <= FULLWIDTH_END
}

/// Tells whether `ch` takes two columns.
pub fn is_wide(ch: char) -> (wide: bool)
    ensures
        wide == is_wide_char(ch),
{
    let is_kanji = is_char_between_char_range(ch, KANJI_BEG, KANJI_END);
    let is_katakana = is_char_between_char_range(ch, KATAKANA_BEG, KATAKANA_END);
    let is_hiragana = is_char_between_char_range(ch, HIRAGANA_BEG, HIRAGANA_END);
    let is_fullwidth = is_char_between_char_range(ch, FULLWIDTH_BEG, FULLWIDTH_END);
    is_hiragana || is_katakana || is_kanji || is_fullwidth
}

/// The number of columns that `ch` takes: one or two.
pub open spec fn char_width(ch: char) -> nat {
    if is_wide_char(ch) {
        2
    } else {
        1
    }
}

/// The number of columns that `s` takes.
pub open spec fn visual_width(s: Seq<char>) -> nat
    decreases s.len(),
{
    if s.len() == 0 {
        0
    } else {
        visual_width(s.drop_last()) + char_width(s.last())
    }
}

/// How many leading characters of `s` fit into `budget` columns.
pub open spec fn fitting_chars(s: Seq<char>, budget: int) -> int
    decreases s.len(),
{
    if s.len() == 0 {
        0
    } else if visual_width(s) <= budget {
        s.len() as int
    } else {
        fitting_chars(s.drop_last(), budget)
    }
}

/// The text of a cell of `max_length` columns that shows `s`.
///
/// A cell narrower than three columns holds the ellipsis alone. Text that
/// fits is padded with spaces to the full width. Text that does not fit is
/// cut behind the last character that leaves one column free, and the
/// ellipsis follows.
pub open spec fn truncated(s: Seq<char>, max_length: int) -> Seq<char> {
    if max_length < 3 {
        seq![ELLIPSIS]
    } else if visual_width(s) <= max_length {
        s + spaces(max_length - visual_width(s))
    } else {
        s.take(fitting_chars(s, max_length - 1)).push(ELLIPSIS)
    }
}

/// A longer prefix is at least as wide, and strictly wider by at least one
/// column per character.
pub proof fn lemma_visual_width_prefix(s: Seq<char>, k: int)
    requires
        0 <= k <= s.len(),
    ensures
        visual_width(s.take(k)) + (s.len() - k) <= visual_width(s),
        k <= visual_width(s.take(k)) <= 2 * k,
    decreases s.len(),
{
    if k == s.len() {
        assert(s.take(k) =~= s);
        if k > 0 {
            lemma_visual_width_prefix(s.drop_last(), k - 1);
            assert(s.drop_last().take(k - 1) =~= s.drop_last());
        }
    } else {
        lemma_visual_width_prefix(s.drop_last(), k);
        assert(s.drop_last().take(k) =~= s.take(k));
    }
}

/// The width of a concatenation is the sum of the widths.
pub proof fn lemma_visual_width_concat(a: Seq<char>, b: Seq<char>)
    ensures
        visual_width(a + b) == visual_width(a) + visual_width(b),
    decreases b.len(),
{
    if b.len() == 0 {
        assert(a + b =~= a);
    } else {
        lemma_visual_width_concat(a, b.drop_last());
        assert((a + b).drop_last() =~= a + b.drop_last());
    }
}

/// A run of spaces is as wide as it is long.
pub proof fn lemma_visual_width_spaces(n: int)
    requires
        0 <= n,
    ensures
        visual_width(spaces(n)) == n,
    decreases n,
{
    if n > 0 {
        lemma_visual_width_spaces(n - 1);
        assert(spaces(n).drop_last() =~= spaces(n - 1));
    }
}

/// `fitting_chars` is the one prefix length whose prefix fits while the
/// next longer prefix, if there is one, does not.
pub proof fn lemma_fitting_chars_unique(s: Seq<char>, budget: int, k: int)
    requires
        0 <= k <= s.len(),
        visual_width(s.take(k)) <= budget,
        k < s.len() ==> visual_width(s.take(k + 1)) > budget,
    ensures
        fitting_chars(s, budget) == k,
    decreases s.len(),
{
    if s.len() == 0 {
    } else if k == s.len() {
        assert(s.take(k) =~= s);
    } else {
        lemma_visual_width_prefix(s, k + 1);
        let t = s.drop_last();
        assert(t.take(k) =~= s.take(k));
        if k < t.len() {
            assert(t.take(k + 1) =~= s.take(k + 1));
        }
        lemma_fitting_chars_unique(t, budget, k);
    }
}

/// The kept prefix fits the budget and is as long as any prefix that does.
pub proof fn lemma_fitting_chars_fits(s: Seq<char>, budget: int)
    requires
        0 <= budget,
    ensures
        0 <= fitting_chars(s, budget) <= s.len(),
        visual_width(s.take(fitting_chars(s, budget))) <= budget,
        fitting_chars(s, budget) < s.len() ==> visual_width(
            s.take(fitting_chars(s, budget) + 1),
        ) > budget,
    decreases s.len(),
{
    if s.len() == 0 {
        assert(s.take(0) =~= s);
    } else if visual_width(s) <= budget {
        assert(s.take(s.len() as int) =~= s);
    } else {
        let t = s.drop_last();
        lemma_fitting_chars_fits(t, budget);
        let k = fitting_chars(t, budget);
        assert(t.take(k) =~= s.take(k));
        if k < t.len() {
            assert(t.take(k + 1) =~= s.take(k + 1));
        } else {
            assert(s.take(k + 1) =~= s);
        }
    }
}

/// A cell of three or more columns never takes more columns than it has;
/// text that fits fills the cell exactly, and text that does not fit keeps
/// a prefix of itself in front of the ellipsis.
pub proof fn lemma_truncated_width(s: Seq<char>, max_length: int)
    requires
        3 <= max_length,
    ensures
        visual_width(truncated(s, max_length)) <= max_length,
        visual_width(s) <= max_length ==> visual_width(truncated(s, max_length)) == max_length,
        visual_width(s) > max_length ==> truncated(s, max_length).last() == ELLIPSIS
            && truncated(s, max_length).drop_last() == s.take(
            fitting_chars(s, max_length - 1),
        ) && truncated(s, max_length).len() <= max_length,
{
    if visual_width(s) <= max_length {
        lemma_visual_width_concat(s, spaces(max_length - visual_width(s)));
        lemma_visual_width_spaces(max_length - visual_width(s));
    } else {
        lemma_fitting_chars_fits(s, max_length - 1);
        let k = fitting_chars(s, max_length - 1);
        let kept = s.take(k);
        assert(kept.push(ELLIPSIS).drop_last() =~= kept);
        lemma_visual_width_prefix(s, k);
    }
}

/// Fits `input` into a cell of `max_length` columns.
pub fn truncate_with_ellipsis(input: &str, max_length: usize) -> (cell: String)
    ensures
        cell@ == truncated(input@, max_length as int),
{
    proof {
        reveal_strlit("\u{2026}");
        assert("\u{2026}"@ =~= seq![ELLIPSIS]);
    }
    if max_length < 3 {
        return String::from_str("\u{2026}");
    }
    let n = input.unicode_len();
    let mut width: usize = 0;
    let mut keep: usize = 0;
    let mut i: usize = 0;
    let mut fits = true;
    proof {
        assert(input@.take(0) =~= Seq::<char>::empty());
    }
    while i < n
        invariant_except_break
            fits,
        invariant
            3 <= max_length,
            n == input@.len(),
            i <= n,
            keep <= i,
            width == visual_width(input@.take(i as int)),
            width <= max_length,
            visual_width(input@.take(keep as int)) <= max_length - 1,
            keep < i ==> visual_width(input@.take(keep + 1)) > max_length - 1,
        ensures
            i <= n,
            keep <= i,
            fits ==> i == n && width == visual_width(input@.take(i as int)) && width
                <= max_length,
            !fits ==> visual_width(input@) > max_length,
            visual_width(input@.take(keep as int)) <= max_length - 1,
            keep < n ==> visual_width(input@.take(keep + 1)) > max_length - 1,
        decreases n - i,
    {
        let ch = input.get_char(i);
        let w: usize = if is_wide(ch) {
            2
        } else {
            1
        };
        proof {
            assert(input@.take(i + 1).drop_last() =~= input@.take(i as int));
            assert(input@.take(i + 1).last() == ch);
            lemma_visual_width_prefix(input@, i + 1);
        }
        if w > max_length - width {
            fits = false;
            break;
        }
        width += w;
        i += 1;
        if width <= max_length - 1 {
            keep = i;
        }
    }
    proof {
        if fits {
            assert(input@.take(n as int) =~= input@);
        }
    }
    if fits {
        let mut cell = String::from_str(input);
        pad(&mut cell, max_length - width);
        cell
    } else {
        proof {
            lemma_fitting_chars_unique(input@, max_length - 1, keep as int);
        }
        let mut cell = String::from_str(input.substring_char(0, keep));
        cell.append("\u{2026}");
        proof {
            assert(input@.subrange(0, keep as int) =~= input@.take(keep as int));
        }
        cell
    }
}

/// The colour in which an entry is drawn: hidden entries in gray, the
/// others by their kind.
pub open spec fn colour_of(file: FileView) -> Seq<char> {
    if is_hidden_name(file.name) {
        ansi::GRAY@
    } else {
        match file.ftype {
            FileType::File => ansi::WHITE@,
            FileType::Directory => ansi::BLUE@,
            FileType::Link => ansi::CYAN@,
            FileType::Unknown => ansi::RED@,
        }
    }
}

/// The text of a cell that shows `name` in `colour`.
pub open spec fn coloured_cell(colour: Seq<char>, name: Seq<char>, max_length: int) -> Seq<char> {
    colour + truncated(name, max_length) + ansi::RESET@
}

/// The text of a cell of `max_length` columns for an entry, or for the lack
/// of one.
pub open spec fn file_cell(file: Option<FileView>, max_length: int) -> Seq<char> {
    match file {
        Some(f) => coloured_cell(colour_of(f), f.name, max_length),
        None => spaces(max_length),
    }
}

fn display_coloured(colour: &str, file: &File, max_length: usize) -> (cell: String)
    ensures
        cell@ == coloured_cell(colour@, file@.name, max_length as int),
{
    let mut cell = String::from_str(colour);
    let name = truncate_with_ellipsis(file.name.as_str(), max_length);
    cell.append(name.as_str());
    cell.append(ansi::RESET);
    cell
}

pub fn display_hidden_file(file: &File, max_length: usize) -> (cell: String)
    ensures
        cell@ == coloured_cell(ansi::GRAY@, file@.name, max_length as int),
{
    display_coloured(ansi::GRAY, file, max_length)
}

pub fn display_normal_file(file: &File, max_length: usize) -> (cell: String)
    ensures
        cell@ == coloured_cell(ansi::WHITE@, file@.name, max_length as int),
{
    display_coloured(ansi::WHITE, file, max_length)
}

pub fn display_directory(file: &File, max_length: usize) -> (cell: String)
    ensures
        cell@ == coloured_cell(ansi::BLUE@, file@.name, max_length as int),
{
    display_coloured(ansi::BLUE, file, max_length)
}

pub fn display_link(file: &File, max_length: usize) -> (cell: String)
    ensures
        cell@ == coloured_cell(ansi::CYAN@, file@.name, max_length as int),
{
    display_coloured(ansi::CYAN, file, max_length)
}

pub fn display_unknown(file: &File, max_length: usize) -> (cell: String)
    ensures
        cell@ == coloured_cell(ansi::RED@, file@.name, max_length as int),
{
    display_coloured(ansi::RED, file, max_length)
}

/// Draws the cell of `max_length` columns for `file`; with no entry the
/// cell is blank.
pub fn display_file(file: Option<&File>, max_length: usize) -> (cell: String)
    ensures
        cell@ == file_cell(
            match file {
                Some(f) => Some(f@),
                None => None,
            },
            max_length as int,
        ),
{
    if let Some(file) = file {
        if is_hidden(file.name.as_str()) {
            display_hidden_file(file, max_length)
        } else {
            match file.ftype {
                FileType::File => display_normal_file(file, max_length),
                FileType::Directory => display_directory(file, max_length),
                FileType::Link => display_link(file, max_length),
                FileType::Unknown => display_unknown(file, max_length),
            }
        }
    } else {
        let mut cell = String::new();
        pad(&mut cell, max_length);
        cell
    }
}

/// How many columns of a row are taken by what stands between the cells.
pub const ROW_PADDING: usize = 9;

/// How many rows of the terminal are taken by what stands around the
/// listing.
pub const FRAME_ROWS: usize = 2;

/// The width of the cells of the parent pane: a fifth of the columns left
/// for text.
pub open spec fn first_column_width(width: int) -> int {
    (width - ROW_PADDING) / 5
}

/// The width of the cells of the current pane and of the preview: twice
/// that of the parent pane.
pub open spec fn second_column_width(width: int) -> int {
    first_column_width(width) * 2
}

/// The greatest of three numbers.
pub open spec fn max3(a: int, b: int, c: int) -> int {
    if a >= b && a >= c {
        a
    } else if b >= c {
        b
    } else {
        c
    }
}

/// The lines that preview the selection, as they are shown.
pub open spec fn info_lines_shown(s: AppView) -> Seq<Seq<char>> {
    match s.selection_info {
        Some(info) => shown_lines(info),
        None => Seq::empty(),
    }
}

/// How many rows are there to show: the longest of the two listings and
/// the preview.
pub open spec fn row_count(s: AppView, info_lines: int) -> int {
    max3(
        s.current_directory_contents.len() as int,
        s.parent_directory_contents.len() as int,
        info_lines,
    )
}

/// How many rows the terminal leaves for the listing: its height without
/// the frame and without the debug messages.
pub open spec fn rows_available(s: AppView) -> int {
    s.height - FRAME_ROWS - s.debug_messages.len()
}

/// The rows `[from, to)` that are drawn.
pub open spec fn rows_shown(s: AppView, info_lines: int) -> (int, int) {
    viewport_spec(row_count(s, info_lines), rows_available(s), s.current_selection)
}

/// The entry at row `line` of a listing, if there is one.
pub open spec fn entry_at(files: Seq<FileView>, line: int) -> Option<FileView> {
    if 0 <= line < files.len() {
        Some(files[line])
    } else {
        None
    }
}

/// The line at position `i` of a preview; empty where there is none.
pub open spec fn line_at(lines: Seq<Seq<char>>, i: int) -> Seq<char> {
    if 0 <= i < lines.len() {
        lines[i]
    } else {
        Seq::empty()
    }
}

/// The mark in front of the current pane's cell: an arrow on the selected
/// row, blank elsewhere.
pub open spec fn selection_arrow(selected: bool) -> Seq<char> {
    if selected {
        "->"@
    } else {
        "  "@
    }
}

/// The text of row `line`, the `i`-th row drawn: the cell of the parent
/// pane, the marked cell of the current pane, and the `i`-th line of the
/// preview, each cut or padded to its width.
pub open spec fn row_text(s: AppView, info: Seq<Seq<char>>, line: int, i: int) -> Seq<char> {
    file_cell(entry_at(s.parent_directory_contents, line), first_column_width(s.width))
        + " | "@ + selection_arrow(line == s.current_selection) + " "@ + file_cell(
        entry_at(s.current_directory_contents, line),
        second_column_width(s.width),
    ) + " | "@ + truncated(line_at(info, i), second_column_width(s.width)) + "\r\n"@
}

/// The text of the first `count` rows drawn from row `from` on.
pub open spec fn rows_text(s: AppView, info: Seq<Seq<char>>, from: int, count: int) -> Seq<char>
    decreases count,
{
    if count <= 0 {
        Seq::empty()
    } else {
        rows_text(s, info, from, count - 1) + row_text(s, info, from + count - 1, count - 1)
    }
}

/// The text of the debug messages, one to a line.
pub open spec fn messages_text(messages: Seq<Seq<char>>) -> Seq<char>
    decreases messages.len(),
{
    if messages.len() == 0 {
        Seq::empty()
    } else {
        messages_text(messages.drop_last()) + messages.last() + "\r\n"@
    }
}

/// The text of a whole frame: the screen is cleared; the current directory
/// heads the frame; the rows follow; and below an empty line stand the
/// debug messages.
pub open spec fn frame_text(s: AppView) -> Seq<char> {
    let info = info_lines_shown(s);
    let (from, to) = rows_shown(s, info.len() as int);
    ansi::CLEAR@ + ansi::RESET@ + s.current_directory + "\r\n"@ + rows_text(
        s,
        info,
        from,
        to - from,
    ) + "\r\n"@ + messages_text(s.debug_messages)
}

impl App {
    /// The rows `[from, to)` that are drawn when the preview has
    /// `info_lines_len` lines.
    pub fn rows_to_print(&self, info_lines_len: usize) -> (window: (usize, usize))
        requires
            self.wf(),
        ensures
            (window.0 as int, window.1 as int) == rows_shown(self@, info_lines_len as int),
    {
        let rows_to_show = (self.height - FRAME_ROWS) - self.debug_messages.len();
        let current = self.current_directory_contents.len();
        let parent = self.parent_directory_contents.len();
        let max_lines = if current >= parent && current >= info_lines_len {
            current
        } else if parent >= info_lines_len {
            parent
        } else {
            info_lines_len
        };
        viewport(max_lines, rows_to_show, self.current_selection)
    }

    /// Draws row `line`, the `i`-th row drawn, with the `i`-th of the
    /// preview lines `info_lines`.
    fn draw_row(&self, info_lines: &Vec<String>, line: usize, i: usize) -> (row: String)
        requires
            self.wf(),
        ensures
            row@ == row_text(self@, strings_view(info_lines@), line as int, i as int),
    {
        let padding = ROW_PADDING;
        let space_for_text = self.width - padding;
        // 20% 40% 40%
        let first_col_width = space_for_text / 5;
        let second_col_width = first_col_width * 2;
        let parent_item = if line < self.parent_directory_contents.len() {
            Some(&self.parent_directory_contents[line])
        } else {
            None
        };
        let mut row = display_file(parent_item, first_col_width);
        let current_item = if line < self.current_directory_contents.len() {
            Some(&self.current_directory_contents[line])
        } else {
            None
        };
        let formatted_current_item = display_file(current_item, second_col_width);
        let selection_arrow = if line == self.current_selection {
            "->"
        } else {
            "  "
        };
        let formatted_info_line = if i < info_lines.len() {
            truncate_with_ellipsis(info_lines[i].as_str(), second_col_width)
        } else {
            truncate_with_ellipsis("", second_col_width)
        };
        proof {
            reveal_strlit("");
            assert(""@ =~= Seq::<char>::empty());
            if line < self.parent_directory_contents.len() {
                assert(files_view(self.parent_directory_contents@)[line as int]
                    == self.parent_directory_contents@[line as int]@);
            }
            if line < self.current_directory_contents.len() {
                assert(files_view(self.current_directory_contents@)[line as int]
                    == self.current_directory_contents@[line as int]@);
            }
            if i < info_lines.len() {
                assert(strings_view(info_lines@)[i as int] == info_lines@[i as int]@);
            }
        }
        row.append(" | ");
        row.append(selection_arrow);
        row.append(" ");
        row.append(formatted_current_item.as_str());
        row.append(" | ");
        row.append(formatted_info_line.as_str());
        row.append("\r\n");
        row
    }

    /// Draws the debug messages, one to a line.
    fn draw_messages(&self) -> (text: String)
        ensures
            text@ == messages_text(self@.debug_messages),
    {
        let mut text = String::new();
        let mut m: usize = 0;
        let ghost messages = strings_view(self.debug_messages@);
        proof {
            assert(messages.take(0) =~= Seq::<Seq<char>>::empty());
        }
        while m < self.debug_messages.len()
            invariant
                m <= self.debug_messages.len(),
                messages == strings_view(self.debug_messages@),
                text@ == messages_text(messages.take(m as int)),
            decreases self.debug_messages.len() - m,
        {
            let ghost before = text@;
            text.append(self.debug_messages[m].as_str());
            text.append("\r\n");
            proof {
                assert(messages.take(m + 1).drop_last() =~= messages.take(m as int));
                assert(messages.take(m + 1).last() == self.debug_messages@[m as int]@);
                assert(text@ =~= before + messages.take(m + 1).last() + "\r\n"@);
            }
            m += 1;
        }
        proof {
            assert(messages.take(m as int) =~= messages);
        }
        text
    }

    /// Draws the rows `[from, to)` with the preview lines `info_lines`.
    fn draw_rows(&self, info_lines: &Vec<String>, from: usize, to: usize) -> (text: String)
        requires
            self.wf(),
            from <= to,
        ensures
            text@ == rows_text(self@, strings_view(info_lines@), from as int, to - from),
    {
        let mut text = String::new();
        let mut i: usize = 0;
        while i < to - from
            invariant
                self.wf(),
                from <= to,
                i <= to - from,
                text@ == rows_text(self@, strings_view(info_lines@), from as int, i as int),
            decreases to - from - i,
        {
            let row = self.draw_row(info_lines, from + i, i);
            text.append(row.as_str());
            i += 1;
        }
        text
    }

    /// Draws the frame that shows the state.
    pub fn display(&self) -> (frame: String)
        requires
            self.wf(),
        ensures
            frame@ == frame_text(self@),
    {
        let info_lines = match &self.selection_info {
            Some(info) => info.lines(),
            None => {
                let lines: Vec<String> = Vec::new();
                proof {
                    assert(strings_view(lines@) =~= Seq::<Seq<char>>::empty());
                }
                lines
            },
        };
        let (from, to) = self.rows_to_print(info_lines.len());
        let mut frame = String::from_str(ansi::CLEAR);
        frame.append(ansi::RESET);
        frame.append(self.current_directory.as_str());
        frame.append("\r\n");
        let rows = self.draw_rows(&info_lines, from, to);
        frame.append(rows.as_str());
        frame.append("\r\n");
        let messages = self.draw_messages();
        frame.append(messages.as_str());
        frame
    }
}

} // verus!
