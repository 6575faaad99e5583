//! The text buffer: an ordered sequence of lines, each kept together with
//! its render form, where every tab is expanded to the next column that is
//! a multiple of the tab stop width.

use vstd::prelude::*;

verus! {

/// Width of one tab stop: a tab advances the render column to the next
/// multiple of this, emitting between one and `TAB_SIZE` spaces.
pub const TAB_SIZE: usize = 4;

/// How many render columns one character occupies when it appears at
/// render column `col`.
pub open spec fn char_width(c: char, col: int) -> int {
    if c == '\t' {
        (TAB_SIZE as int) - col % (TAB_SIZE as int)
    } else {
        1
    }
}

/// The render column reached after the first `n` characters of a line.
pub open spec fn render_col(s: Seq<char>, n: int) -> int
    decreases n,
{
    if n <= 0 {
        0
    } else {
        let col = render_col(s, n - 1);
        col + char_width(s[n - 1], col)
    }
}

/// The render column for a logical offset, the offset clamped to the
/// line's length.
pub open spec fn render_col_clamped(s: Seq<char>, offset: int) -> int {
    if offset <= s.len() {
        render_col(s, offset)
    } else {
        render_col(s, s.len() as int)
    }
}

/// A run of spaces.
pub open spec fn spaces(n: int) -> Seq<char> {
    Seq::new(n as nat, |i: int| ' ')
}

/// What one character contributes to the render form when it appears at
/// render column `col`.
pub open spec fn char_render(c: char, col: int) -> Seq<char> {
    if c == '\t' {
        spaces(char_width(c, col))
    } else {
        seq![c]
    }
}

/// The render form of the first `n` characters of a line.
pub open spec fn render_prefix(s: Seq<char>, n: int) -> Seq<char>
    decreases n,
{
    if n <= 0 {
        Seq::empty()
    } else {
        let prefix = render_prefix(s, n - 1);
        prefix + char_render(s[n - 1], prefix.len() as int)
    }
}

/// The render form of a whole line.
pub open spec fn render_of(s: Seq<char>) -> Seq<char> {
    render_prefix(s, s.len() as int)
}

/// The render form of a prefix is as long as the render column it reaches,
/// and no shorter than the prefix itself.
pub proof fn lemma_render_prefix_len(s: Seq<char>, n: int)
    requires
        0 <= n <= s.len(),
    ensures
        render_prefix(s, n).len() == render_col(s, n),
        render_col(s, n) >= n,
    decreases n,
{
    if n > 0 {
        lemma_render_prefix_len(s, n - 1);
    }
}

/// Render columns grow with the offset.
pub proof fn lemma_render_col_mono(s: Seq<char>, m: int, n: int)
    requires
        0 <= m <= n <= s.len(),
    ensures
        render_col(s, m) <= render_col(s, n),
    decreases n - m,
{
    if m < n {
        lemma_render_col_mono(s, m, n - 1);
        lemma_render_prefix_len(s, n - 1);
    }
}

/// A logical offset of zero renders to column zero, and the full logical
/// length renders to the full render length; offsets past the end
/// saturate there.
pub proof fn lemma_render_round_trip(s: Seq<char>)
    ensures
        render_col_clamped(s, 0) == 0,
        render_col_clamped(s, s.len() as int) == render_of(s).len(),
        forall|off: int| off > s.len() ==> render_col_clamped(s, off) == render_of(s).len(),
{
    lemma_render_prefix_len(s, s.len() as int);
}

/// One line of the buffer: the source characters and, beside them, the
/// render form with tabs expanded, materialized eagerly.
#[derive(Clone)]
pub struct Row {
    contents: Vec<char>,
    render: Vec<char>,
}

impl Row {
    /// The source characters of the line.
    pub closed spec fn contents_view(&self) -> Seq<char> {
        self.contents@
    }

    /// The render form of the line.
    pub closed spec fn render_view(&self) -> Seq<char> {
        self.render@
    }

    /// The render form is exactly the tab expansion of the contents.
    pub open spec fn wf(&self) -> bool {
        self.render_view() == render_of(self.contents_view())
    }

    /// Builds a line, computing its render form at once.
    pub fn new(contents: Vec<char>) -> (r: Row)
        ensures
            r.contents_view() == contents@,
            r.wf(),
    {
        let mut row = Row { contents, render: Vec::new() };
        RowBuffer::render_row(&mut row);
        row
    }

    /// The render column of a logical offset into this line, the offset
    /// clamped to the line's length.
    pub fn get_len_with_offset(&self, offset: usize) -> (r: usize)
        requires
            self.wf(),
        ensures
            r as int == render_col_clamped(self.contents_view(), offset as int),
    {
        let ghost s = self.contents@;
        let rlen = self.render.len();
        proof {
            lemma_render_prefix_len(s, s.len() as int);
        }
        let n = if offset > self.contents.len() {
            self.contents.len()
        } else {
            offset
        };
        let mut acc: usize = 0;
        let mut i: usize = 0;
        while i < n
            invariant
                i <= n,
                n <= self.contents.len(),
                s == self.contents@,
                self.wf(),
                rlen as int == render_col(s, s.len() as int),
                acc as int == render_col(s, i as int),
            decreases n - i,
        {
            proof {
                lemma_render_col_mono(s, i + 1, s.len() as int);
                lemma_render_prefix_len(s, i as int);
            }
            let c = self.contents[i];
            if c == '\t' {
                acc = acc + (TAB_SIZE - acc % TAB_SIZE);
            } else {
                acc = acc + 1;
            }
            i = i + 1;
        }
        acc
    }

    /// The line's source characters.
    pub fn contents_chars(&self) -> (r: &Vec<char>)
        ensures
            r@ == self.contents_view(),
    {
        &self.contents
    }

    /// The length of the line's source text.
    pub fn contents_len(&self) -> (r: usize)
        ensures
            r == self.contents_view().len(),
    {
        self.contents.len()
    }

    /// The render form, for drawing.
    pub fn render_chars(&self) -> (r: &Vec<char>)
        ensures
            r@ == self.render_view(),
    {
        &self.render
    }
}

/// The sum of the logical lengths of all lines.
pub open spec fn total_chars(lines: Seq<Seq<char>>) -> int
    decreases lines.len(),
{
    if lines.len() == 0 {
        0
    } else {
        total_chars(lines.drop_last()) + lines.last().len()
    }
}

proof fn lemma_total_chars_take_step(lines: Seq<Seq<char>>, i: int)
    requires
        0 <= i < lines.len(),
    ensures
        total_chars(lines.take(i + 1)) == total_chars(lines.take(i)) + lines[i].len(),
{
    assert(lines.take(i + 1).drop_last() =~= lines.take(i));
    assert(lines.take(i + 1).last() == lines[i]);
}

proof fn lemma_total_chars_take_le(lines: Seq<Seq<char>>, i: int)
    requires
        0 <= i <= lines.len(),
    ensures
        total_chars(lines.take(i)) <= total_chars(lines),
    decreases lines.len() - i,
{
    if i == lines.len() {
        assert(lines.take(i) =~= lines);
    } else {
        lemma_total_chars_take_step(lines, i);
        lemma_total_chars_take_le(lines, i + 1);
    }
}

/// Splitting: what remains of a text once a prefix of it has been cut
/// into lines.  `cur` is the part of the current line read so far; a
/// newline ends the current line, stripping one carriage return before
/// it; a non-empty current line at the end of the text is a final line.
pub open spec fn strip_cr(line: Seq<char>) -> Seq<char> {
    if line.len() > 0 && line.last() == '\r' {
        line.drop_last()
    } else {
        line
    }
}

/// The lines of `s`, continuing a current line `cur`.
pub open spec fn lines_from(cur: Seq<char>, s: Seq<char>) -> Seq<Seq<char>>
    decreases s.len(),
{
    if s.len() == 0 {
        if cur.len() == 0 {
            Seq::empty()
        } else {
            seq![cur]
        }
    } else if s[0] == '\n' {
        seq![strip_cr(cur)] + lines_from(Seq::empty(), s.skip(1))
    } else {
        lines_from(cur.push(s[0]), s.skip(1))
    }
}

/// The lines of a raw text: split on newlines, one carriage return
/// stripped before each newline, no extra empty line after a final
/// newline.
pub open spec fn lines_of(s: Seq<char>) -> Seq<Seq<char>> {
    lines_from(Seq::empty(), s)
}

proof fn lemma_total_chars_prepend(x: Seq<char>, lines: Seq<Seq<char>>)
    ensures
        total_chars(seq![x] + lines) == x.len() + total_chars(lines),
    decreases lines.len(),
{
    if lines.len() == 0 {
        assert(seq![x] + lines =~= seq![x]);
        assert((seq![x]).len() == 1);
        assert((seq![x]).last() == x);
        assert((seq![x]).drop_last() =~= Seq::<Seq<char>>::empty());
        assert(total_chars(Seq::<Seq<char>>::empty()) == 0);
        assert(total_chars(seq![x]) == x.len());
    } else {
        assert((seq![x] + lines).len() == 1 + lines.len());
        assert((seq![x] + lines).last() == lines.last());
        assert((seq![x] + lines).drop_last() =~= seq![x] + lines.drop_last());
        lemma_total_chars_prepend(x, lines.drop_last());
    }
}

/// Splitting never yields more characters than went in.
proof fn lemma_lines_from_total(cur: Seq<char>, s: Seq<char>)
    ensures
        total_chars(lines_from(cur, s)) <= cur.len() + s.len(),
    decreases s.len(),
{
    if s.len() == 0 {
        if cur.len() > 0 {
            assert((seq![cur]).len() == 1);
            assert((seq![cur]).last() == cur);
            assert((seq![cur]).drop_last() =~= Seq::<Seq<char>>::empty());
            assert(total_chars(Seq::<Seq<char>>::empty()) == 0);
            assert(total_chars(seq![cur]) == cur.len());
        }
    } else if s[0] == '\n' {
        lemma_lines_from_total(Seq::empty(), s.skip(1));
        lemma_total_chars_prepend(strip_cr(cur), lines_from(Seq::empty(), s.skip(1)));
        assert(strip_cr(cur).len() <= cur.len());
    } else {
        lemma_lines_from_total(cur.push(s[0]), s.skip(1));
    }
}

/// The document: an ordered sequence of lines and a display name.
#[derive(Clone)]
pub struct RowBuffer {
    rows: Vec<Row>,
    name: Vec<char>,
}

/// The display name a buffer carries before a document is loaded.
pub open spec fn empty_buffer_name() -> Seq<char> {
    seq!['E', 'm', 'p', 't', 'y', ' ', 'B', 'u', 'f', 'f', 'e', 'r']
}

impl RowBuffer {
    /// The logical contents of each line, in order.
    pub closed spec fn lines(&self) -> Seq<Seq<char>> {
        self.rows@.map_values(|r: Row| r.contents_view())
    }

    /// The display name.
    pub closed spec fn name_view(&self) -> Seq<char> {
        self.name@
    }

    /// Every line carries its render form, and the character count fits
    /// the machine.
    pub closed spec fn wf(&self) -> bool {
        &&& forall|i: int| 0 <= i < self.rows@.len() ==> (#[trigger] self.rows@[i]).wf()
        &&& total_chars(self.lines()) <= usize::MAX
    }

    /// An empty buffer with a placeholder name.
    pub fn new() -> (r: RowBuffer)
        ensures
            r.lines() == Seq::<Seq<char>>::empty(),
            r.name_view() == empty_buffer_name(),
            r.wf(),
    {
        let mut name: Vec<char> = Vec::new();
        name.push('E');
        name.push('m');
        name.push('p');
        name.push('t');
        name.push('y');
        name.push(' ');
        name.push('B');
        name.push('u');
        name.push('f');
        name.push('f');
        name.push('e');
        name.push('r');
        proof {
            assert(name@ =~= empty_buffer_name());
        }
        let rows: Vec<Row> = Vec::new();
        let r = RowBuffer { rows, name };
        proof {
            assert(r.lines() =~= Seq::<Seq<char>>::empty());
        }
        r
    }

    /// Builds a buffer from a raw text, splitting it into lines and
    /// expanding tabs in each.
    pub fn from_text(name: Vec<char>, text: &Vec<char>) -> (r: RowBuffer)
        ensures
            r.lines() == lines_of(text@),
            r.name_view() == name@,
            r.wf(),
    {
        let ghost t = text@;
        let mut rows: Vec<Row> = Vec::new();
        let mut cur: Vec<char> = Vec::new();
        let mut i: usize = 0;
        proof {
            assert(t.skip(0) =~= t);
            assert(rows@.map_values(|r: Row| r.contents_view()) + lines_from(cur@, t) =~= lines_from(
                cur@,
                t,
            ));
        }
        while i < text.len()
            invariant
                i <= text.len(),
                t == text@,
                lines_of(t) == rows@.map_values(|r: Row| r.contents_view()) + lines_from(
                    cur@,
                    t.skip(i as int),
                ),
                forall|k: int| 0 <= k < rows@.len() ==> (#[trigger] rows@[k]).wf(),
            decreases text.len() - i,
        {
            let ghost prev_rows = rows@;
            let ghost prev_cur = cur@;
            let c = text[i];
            if c == '\n' {
                if cur.len() > 0 && cur[cur.len() - 1] == '\r' {
                    cur.pop();
                }
                proof {
                    assert(cur@ =~= strip_cr(prev_cur));
                }
                let row = Row::new(cur);
                rows.push(row);
                cur = Vec::new();
                proof {
                    assert(rows@.map_values(|r: Row| r.contents_view()) =~= prev_rows.map_values(
                        |r: Row| r.contents_view(),
                    ) + seq![strip_cr(prev_cur)]);
                    assert(t.skip(i as int).skip(1) =~= t.skip(i + 1));
                    assert(t.skip(i as int)[0] == t[i as int]);
                    assert(lines_from(prev_cur, t.skip(i as int)) =~= seq![strip_cr(prev_cur)]
                        + lines_from(Seq::empty(), t.skip(i + 1)));
                    assert(lines_of(t) =~= rows@.map_values(|r: Row| r.contents_view())
                        + lines_from(cur@, t.skip(i + 1)));
                }
            } else {
                cur.push(c);
                proof {
                    assert(cur@ =~= prev_cur.push(t[i as int]));
                    assert(t.skip(i as int).skip(1) =~= t.skip(i + 1));
                    assert(lines_from(prev_cur, t.skip(i as int)) == lines_from(
                        cur@,
                        t.skip(i + 1),
                    ));
                }
            }
            i = i + 1;
        }
        proof {
            assert(t.skip(i as int) =~= Seq::<char>::empty());
        }
        if cur.len() > 0 {
            let ghost prev_rows = rows@;
            let ghost prev_cur = cur@;
            let row = Row::new(cur);
            rows.push(row);
            proof {
                assert(rows@.map_values(|r: Row| r.contents_view()) =~= prev_rows.map_values(
                    |r: Row| r.contents_view(),
                ) + seq![prev_cur]);
                assert(lines_from(prev_cur, Seq::<char>::empty()) =~= seq![prev_cur]);
                assert(lines_of(t) =~= rows@.map_values(|r: Row| r.contents_view()));
            }
        } else {
            proof {
                assert(lines_of(t) =~= rows@.map_values(|r: Row| r.contents_view()));
            }
        }
        let r = RowBuffer { rows, name };
        proof {
            lemma_lines_from_total(Seq::empty(), t);
        }
        r
    }

    /// Recomputes the render form of one line; a row index past the end
    /// does nothing.
    pub fn render_row_at(&mut self, y: usize)
        requires
            old(self).wf(),
        ensures
            final(self).lines() == old(self).lines(),
            final(self).name_view() == old(self).name_view(),
            final(self).wf(),
    {
        if y < self.rows.len() {
            let ghost prev = self.rows@;
            let mut row = self.rows.remove(y);
            RowBuffer::render_row(&mut row);
            self.rows.insert(y, row);
            proof {
                assert(self.rows@ =~= prev.update(y as int, self.rows@[y as int]));
                assert(self.lines() =~= old(self).lines());
            }
        }
    }

    /// The display name.
    pub fn get_buffer_name(&self) -> (r: &Vec<char>)
        ensures
            r@ == self.name_view(),
    {
        &self.name
    }

    /// Rewrites a line's render form from its contents, expanding each
    /// tab to the next multiple-of-`TAB_SIZE` render column.
    pub fn render_row(row: &mut Row)
        ensures
            final(row).contents_view() == old(row).contents_view(),
            final(row).wf(),
    {
        let ghost s = row.contents@;
        let mut render: Vec<char> = Vec::new();
        let n = row.contents.len();
        let mut i: usize = 0;
        while i < n
            invariant
                i <= n,
                n == row.contents.len(),
                s == row.contents@,
                render@ == render_prefix(s, i as int),
            decreases n - i,
        {
            let ghost prev = render@;
            let c = row.contents[i];
            if c == '\t' {
                let w = TAB_SIZE - (render.len() % TAB_SIZE);
                let mut k: usize = 0;
                while k < w
                    invariant
                        k <= w,
                        w <= TAB_SIZE,
                        render@ == prev + spaces(k as int),
                    decreases w - k,
                {
                    render.push(' ');
                    k = k + 1;
                    proof {
                        assert(render@ =~= prev + spaces(k as int));
                    }
                }
                proof {
                    assert(spaces(w as int) =~= char_render(s[i as int], prev.len() as int));
                    assert(render@ =~= render_prefix(s, i + 1));
                }
            } else {
                render.push(c);
                proof {
                    assert(render@ =~= render_prefix(s, i + 1));
                }
            }
            i = i + 1;
        }
        row.render = render;
    }

    /// The total number of source characters over all lines.
    pub fn get_char_count(&self) -> (r: usize)
        requires
            self.wf(),
        ensures
            r as int == total_chars(self.lines()),
    {
        let ghost lines = self.lines();
        let mut acc: usize = 0;
        let mut i: usize = 0;
        while i < self.rows.len()
            invariant
                i <= self.rows@.len(),
                lines == self.lines(),
                self.wf(),
                acc as int == total_chars(lines.take(i as int)),
            decreases self.rows@.len() - i,
        {
            proof {
                lemma_total_chars_take_step(lines, i as int);
                lemma_total_chars_take_le(lines, i + 1);
            }
            acc = acc + self.rows[i].contents_len();
            i = i + 1;
        }
        proof {
            assert(lines.take(i as int) =~= lines);
        }
        acc
    }

    /// The render form of the line at a row index.
    pub fn get_render(&self, y: usize) -> (r: &Vec<char>)
        requires
            self.wf(),
            y < self.lines().len(),
        ensures
            r@ == render_of(self.lines()[y as int]),
    {
        self.rows[y].render_chars()
    }

    /// The line at a row index.
    pub fn get_row_at(&self, y: usize) -> (r: &Row)
        requires
            y < self.lines().len(),
        ensures
            r.contents_view() == self.lines()[y as int],
            self.wf() ==> r.wf(),
    {
        &self.rows[y]
    }

    /// How many lines the buffer holds.
    pub fn rows_count(&self) -> (r: usize)
        ensures
            r == self.lines().len(),
    {
        self.rows.len()
    }
}

} // verus!
