//! The frame scheduler: a fixed partial order over drawing steps, re-run
//! once per input tick.  Steps are registered in any order; running the
//! schedule executes them in the declared dependency order, so hiding the
//! cursor always precedes clearing, drawing rows precedes the status
//! line, and the flush is strictly last.

use crate::ansi;
use crate::cursor::hiding::{dispatch_hide, handle_cursor_hide, hide_step_seq};
use crate::cursor::scroll::{scroll, scroll_spec};
use crate::cursor::update::{handle_cursor_move, move_cursor_spec, run_moves, update_cursor};
use crate::cursor::{CursorDirection, CursorHideEvent, CursorMoveEvent, CursorOffset, CursorPosition};
use crate::input::data::{total_chars, RowBuffer};
use crate::input::InputMode;
use crate::output::buffer::OutputBuffer;
use crate::output::{draw_rows, flush_buffer, rows_output_seq, OutputSize};
use crate::status::draw::draw_status_bar;
use crate::status::fill::{fill_bar, status_line_seq};
use crate::status::StatusBuffer;
use crate::SystemType;
use vstd::prelude::*;

verus! {

/// One drawing step of a frame.
#[derive(Clone, Copy, PartialEq, Eq, Structural, Debug)]
pub enum FrameStep {
    HideCursor,
    ClearScreen,
    DrawRows,
    DrawStatus,
    ShowCursor,
    FlushFrame,
}

/// The declared dependency order: a step runs before every step of a
/// higher rank.
pub open spec fn step_rank(s: FrameStep) -> int {
    match s {
        FrameStep::HideCursor => 0,
        FrameStep::ClearScreen => 1,
        FrameStep::DrawRows => 2,
        FrameStep::DrawStatus => 3,
        FrameStep::ShowCursor => 4,
        FrameStep::FlushFrame => 5,
    }
}

/// Which group a step belongs to.
pub open spec fn step_set(s: FrameStep) -> SystemType {
    match s {
        FrameStep::HideCursor => SystemType::Output,
        FrameStep::ClearScreen => SystemType::Output,
        FrameStep::DrawRows => SystemType::Output,
        FrameStep::DrawStatus => SystemType::Output,
        FrameStep::ShowCursor => SystemType::Cursor,
        FrameStep::FlushFrame => SystemType::Flush,
    }
}

fn rank_of(s: FrameStep) -> (r: usize)
    ensures
        r as int == step_rank(s),
{
    match s {
        FrameStep::HideCursor => 0,
        FrameStep::ClearScreen => 1,
        FrameStep::DrawRows => 2,
        FrameStep::DrawStatus => 3,
        FrameStep::ShowCursor => 4,
        FrameStep::FlushFrame => 5,
    }
}

/// The registered steps of one rank, in registration order.
pub open spec fn of_rank(steps: Seq<FrameStep>, r: int) -> Seq<FrameStep>
    decreases steps.len(),
{
    if steps.len() == 0 {
        Seq::empty()
    } else {
        of_rank(steps.drop_last(), r) + (if step_rank(steps.last()) == r {
            seq![steps.last()]
        } else {
            Seq::empty()
        })
    }
}

/// The registered steps of every rank below `r`, rank by rank.
pub open spec fn ordered_upto(steps: Seq<FrameStep>, r: int) -> Seq<FrameStep>
    decreases r,
{
    if r <= 0 {
        Seq::empty()
    } else {
        ordered_upto(steps, r - 1) + of_rank(steps, r - 1)
    }
}

/// The registered steps in execution order: sorted by rank, registration
/// order kept within a rank.
pub open spec fn ordered_spec(steps: Seq<FrameStep>) -> Seq<FrameStep> {
    ordered_upto(steps, 6)
}

proof fn lemma_of_rank_elems(steps: Seq<FrameStep>, r: int, idx: int)
    requires
        0 <= idx < of_rank(steps, r).len(),
    ensures
        step_rank(of_rank(steps, r)[idx]) == r,
    decreases steps.len(),
{
    if steps.len() > 0 {
        if idx < of_rank(steps.drop_last(), r).len() {
            lemma_of_rank_elems(steps.drop_last(), r, idx);
        }
    }
}

proof fn lemma_ordered_upto_ranks(steps: Seq<FrameStep>, r: int, idx: int)
    requires
        0 <= r,
        0 <= idx < ordered_upto(steps, r).len(),
    ensures
        step_rank(ordered_upto(steps, r)[idx]) < r,
        idx > 0 ==> step_rank(ordered_upto(steps, r)[idx - 1]) <= step_rank(
            ordered_upto(steps, r)[idx],
        ),
    decreases r,
{
    if r > 0 {
        let prefix = ordered_upto(steps, r - 1);
        if idx < prefix.len() {
            lemma_ordered_upto_ranks(steps, r - 1, idx);
        } else {
            lemma_of_rank_elems(steps, r - 1, idx - prefix.len());
            if idx > 0 && idx - 1 < prefix.len() {
                lemma_ordered_upto_ranks(steps, r - 1, idx - 1);
            } else if idx > 0 {
                lemma_of_rank_elems(steps, r - 1, idx - 1 - prefix.len());
            }
        }
    }
}

/// The scheduler's guarantee: however the steps were registered, the
/// execution order never puts a step before one of lower rank.
pub proof fn lemma_ordered_sorted(steps: Seq<FrameStep>, i: int, j: int)
    requires
        0 <= i <= j < ordered_spec(steps).len(),
    ensures
        step_rank(ordered_spec(steps)[i]) <= step_rank(ordered_spec(steps)[j]),
    decreases j - i,
{
    if i < j {
        lemma_ordered_sorted(steps, i, j - 1);
        lemma_ordered_upto_ranks(steps, 6, j);
    }
}

/// Every output-group step runs before the flush, however the steps were
/// registered.
pub proof fn lemma_output_before_flush(steps: Seq<FrameStep>, i: int, j: int)
    requires
        0 <= i < ordered_spec(steps).len(),
        0 <= j < ordered_spec(steps).len(),
        step_set(ordered_spec(steps)[i]) == SystemType::Output,
        step_set(ordered_spec(steps)[j]) == SystemType::Flush,
    ensures
        i < j,
{
    if j <= i {
        lemma_ordered_sorted(steps, j, i);
    }
}

/// The engine state one frame is drawn from, as the drawing steps see it.
pub struct FrameEnv {
    pub lines: Seq<Seq<char>>,
    pub size: OutputSize,
    pub offset: CursorOffset,
    pub position: CursorPosition,
    pub status: Seq<char>,
}

/// What one content-producing step appends to the staging buffer.
pub open spec fn step_output(s: FrameStep, env: FrameEnv) -> Seq<char> {
    match s {
        FrameStep::HideCursor => hide_step_seq(),
        FrameStep::ClearScreen => ansi::clear_all_seq(),
        FrameStep::DrawRows => rows_output_seq(env.lines, env.size, env.offset),
        FrameStep::DrawStatus => env.status,
        FrameStep::ShowCursor => ansi::move_to_seq(env.position.x as int, env.position.y as int)
            + ansi::show_cursor_seq(),
        FrameStep::FlushFrame => Seq::empty(),
    }
}

/// Running a list of steps over a staging buffer: each content-producing
/// step appends its output; a flush drains the buffer into the frame
/// handed outward.  The result is the buffer's final content and the
/// flushed output.
pub open spec fn run_steps_spec(steps: Seq<FrameStep>, env: FrameEnv, content: Seq<char>) -> (
    Seq<char>,
    Seq<char>,
)
    decreases steps.len(),
{
    if steps.len() == 0 {
        (content, Seq::empty())
    } else {
        let prev = run_steps_spec(steps.drop_last(), env, content);
        if steps.last() == FrameStep::FlushFrame {
            (Seq::empty(), prev.1 + prev.0)
        } else {
            (prev.0 + step_output(steps.last(), env), prev.1)
        }
    }
}

/// The frame scheduler itself: the registered steps, in any order.
pub struct Schedule {
    steps: Vec<FrameStep>,
}

/// The engine state a frame is drawn from, gathered into one spec value.
pub open spec fn env_of(
    lines: Seq<Seq<char>>,
    size: OutputSize,
    offset: CursorOffset,
    position: CursorPosition,
    status: Seq<char>,
) -> FrameEnv {
    FrameEnv { lines, size, offset, position, status }
}

impl Schedule {
    /// The steps in registration order.
    pub closed spec fn steps_view(&self) -> Seq<FrameStep> {
        self.steps@
    }

    /// A schedule with nothing registered.
    pub fn new() -> (r: Schedule)
        ensures
            r.steps_view() == Seq::<FrameStep>::empty(),
    {
        Schedule { steps: Vec::new() }
    }

    /// Registers one step; registration order does not matter for the
    /// execution order.
    pub fn add_step(&mut self, s: FrameStep)
        ensures
            final(self).steps_view() == old(self).steps_view().push(s),
    {
        self.steps.push(s);
    }

    /// The registered steps in execution order.
    pub fn ordered(&self) -> (r: Vec<FrameStep>)
        ensures
            r@ == ordered_spec(self.steps_view()),
    {
        let ghost s = self.steps@;
        let mut out: Vec<FrameStep> = Vec::new();
        let mut r: usize = 0;
        while r < 6
            invariant
                r <= 6,
                s == self.steps@,
                out@ == ordered_upto(s, r as int),
            decreases 6 - r,
        {
            let mut i: usize = 0;
            let ghost mid = out@;
            while i < self.steps.len()
                invariant
                    i <= s.len(),
                    s == self.steps@,
                    out@ == mid + of_rank(s.take(i as int), r as int),
                decreases s.len() - i,
            {
                let step = self.steps[i];
                if rank_of(step) == r {
                    out.push(step);
                }
                i = i + 1;
                proof {
                    assert(s.take(i as int).drop_last() =~= s.take(i - 1));
                    assert(s.take(i as int).last() == s[i - 1]);
                    assert(out@ =~= mid + of_rank(s.take(i as int), r as int));
                }
            }
            r = r + 1;
            proof {
                assert(s.take(s.len() as int) =~= s);
                assert(out@ =~= ordered_upto(s, r as int));
            }
        }
        out
    }

    /// Runs the registered steps in execution order over the engine
    /// state, returning whatever the flush steps handed outward.
    pub fn run(
        &self,
        rows: &RowBuffer,
        position: &CursorPosition,
        cursor_offset: &CursorOffset,
        size: &OutputSize,
        status: &StatusBuffer,
        buffer: &mut OutputBuffer,
    ) -> (flushed: Vec<char>)
        requires
            rows.wf(),
            size.wf(),
            position.x < 65535,
            position.y < 65535,
        ensures
            final(buffer).contents() == run_steps_spec(
                ordered_spec(self.steps_view()),
                env_of(rows.lines(), *size, *cursor_offset, *position, status.value_view()),
                old(buffer).contents(),
            ).0,
            flushed@ == run_steps_spec(
                ordered_spec(self.steps_view()),
                env_of(rows.lines(), *size, *cursor_offset, *position, status.value_view()),
                old(buffer).contents(),
            ).1,
    {
        let ghost env = env_of(
            rows.lines(),
            *size,
            *cursor_offset,
            *position,
            status.value_view(),
        );
        let ghost base = old(buffer).contents();
        let order = self.ordered();
        let mut flushed: Vec<char> = Vec::new();
        let mut i: usize = 0;
        while i < order.len()
            invariant
                i <= order@.len(),
                order@ == ordered_spec(self.steps_view()),
                rows.wf(),
                size.wf(),
                position.x < 65535,
                position.y < 65535,
                env == env_of(rows.lines(), *size, *cursor_offset, *position, status.value_view()),
                buffer.contents() == run_steps_spec(order@.take(i as int), env, base).0,
                flushed@ == run_steps_spec(order@.take(i as int), env, base).1,
            decreases order@.len() - i,
        {
            let step = order[i];
            match step {
                FrameStep::HideCursor => {
                    let mut events: Vec<CursorHideEvent> = Vec::new();
                    events.push(dispatch_hide());
                    handle_cursor_hide(&events, buffer);
                    proof {
                        reveal_with_fuel(crate::cursor::hiding::hide_output, 3);
                        assert(crate::cursor::hiding::hide_output(1) =~= hide_step_seq());
                    }
                },
                FrameStep::ClearScreen => {
                    crate::output::clear(buffer);
                },
                FrameStep::DrawRows => {
                    draw_rows(size, rows, cursor_offset, buffer);
                },
                FrameStep::DrawStatus => {
                    draw_status_bar(status, buffer);
                },
                FrameStep::ShowCursor => {
                    update_cursor(buffer, position);
                },
                FrameStep::FlushFrame => {
                    let mut frame = flush_buffer(buffer);
                    flushed.append(&mut frame);
                },
            }
            i = i + 1;
            proof {
                assert(order@.take(i as int).drop_last() =~= order@.take(i - 1));
                assert(order@.take(i as int).last() == order@[i - 1]);
            }
        }
        proof {
            assert(order@.take(i as int) =~= order@);
        }
        flushed
    }
}

/// With no navigation event between them, two consecutive runs of a
/// schedule whose last step is the flush produce byte-identical frames:
/// the first run leaves the staging buffer empty, so the second starts
/// from the same state and flushes the same bytes.
pub proof fn lemma_frame_idempotent(steps: Seq<FrameStep>, env: FrameEnv)
    requires
        steps.len() > 0,
        steps.last() == FrameStep::FlushFrame,
    ensures
        run_steps_spec(steps, env, Seq::empty()).0 == Seq::<char>::empty(),
        run_steps_spec(steps, env, run_steps_spec(steps, env, Seq::empty()).0).1 == run_steps_spec(
            steps,
            env,
            Seq::empty(),
        ).1,
{
}

/// What one standard frame holds, in order: hide the cursor and park it
/// at the origin, clear the screen, the viewport rows, the status line,
/// and the cursor placed and shown again; the flush then hands exactly
/// this out and leaves the staging buffer empty.
pub proof fn lemma_standard_frame(env: FrameEnv)
    ensures
        run_steps_spec(
            seq![
                FrameStep::HideCursor,
                FrameStep::ClearScreen,
                FrameStep::DrawRows,
                FrameStep::DrawStatus,
                FrameStep::ShowCursor,
                FrameStep::FlushFrame,
            ],
            env,
            Seq::empty(),
        ).0 == Seq::<char>::empty(),
        run_steps_spec(
            seq![
                FrameStep::HideCursor,
                FrameStep::ClearScreen,
                FrameStep::DrawRows,
                FrameStep::DrawStatus,
                FrameStep::ShowCursor,
                FrameStep::FlushFrame,
            ],
            env,
            Seq::empty(),
        ).1 == hide_step_seq() + ansi::clear_all_seq() + rows_output_seq(
            env.lines,
            env.size,
            env.offset,
        ) + env.status + ansi::move_to_seq(env.position.x as int, env.position.y as int)
            + ansi::show_cursor_seq(),
{
    let steps = seq![
        FrameStep::HideCursor,
        FrameStep::ClearScreen,
        FrameStep::DrawRows,
        FrameStep::DrawStatus,
        FrameStep::ShowCursor,
        FrameStep::FlushFrame,
    ];
    reveal_with_fuel(run_steps_spec, 8);
    assert(steps.drop_last().drop_last().drop_last().drop_last().drop_last().drop_last()
        =~= Seq::<FrameStep>::empty());
    assert(run_steps_spec(steps, env, Seq::empty()).1 =~= hide_step_seq() + ansi::clear_all_seq()
        + rows_output_seq(env.lines, env.size, env.offset) + env.status + ansi::move_to_seq(
        env.position.x as int,
        env.position.y as int,
    ) + ansi::show_cursor_seq());
}

/// The standard frame schedule, registered in the order the session
/// wires its parts, not in execution order: clearing, row drawing and
/// the flush first, then the cursor steps, then the status line.
pub fn standard_schedule() -> (r: Schedule)
    ensures
        r.steps_view() == seq![
            FrameStep::ClearScreen,
            FrameStep::DrawRows,
            FrameStep::FlushFrame,
            FrameStep::HideCursor,
            FrameStep::ShowCursor,
            FrameStep::DrawStatus,
        ],
        ordered_spec(r.steps_view()) == seq![
            FrameStep::HideCursor,
            FrameStep::ClearScreen,
            FrameStep::DrawRows,
            FrameStep::DrawStatus,
            FrameStep::ShowCursor,
            FrameStep::FlushFrame,
        ],
{
    let mut s = Schedule::new();
    s.add_step(FrameStep::ClearScreen);
    s.add_step(FrameStep::DrawRows);
    s.add_step(FrameStep::FlushFrame);
    crate::cursor::init(&mut s);
    crate::status::init(&mut s);
    proof {
        assert(s.steps_view() =~= seq![
            FrameStep::ClearScreen,
            FrameStep::DrawRows,
            FrameStep::FlushFrame,
            FrameStep::HideCursor,
            FrameStep::ShowCursor,
            FrameStep::DrawStatus,
        ]);
        reveal_with_fuel(of_rank, 8);
        reveal_with_fuel(ordered_upto, 8);
        assert(ordered_spec(s.steps_view()) =~= seq![
            FrameStep::HideCursor,
            FrameStep::ClearScreen,
            FrameStep::DrawRows,
            FrameStep::DrawStatus,
            FrameStep::ShowCursor,
            FrameStep::FlushFrame,
        ]);
    }
    s
}

/// The whole engine state for one session, threaded explicitly through
/// every step: the document, the cursor and scroll state, the viewport,
/// the mode, the status line, the staging buffer and the schedule.
pub struct Editor {
    pub rows: RowBuffer,
    pub position: CursorPosition,
    pub offset: CursorOffset,
    pub size: OutputSize,
    pub mode: InputMode,
    pub status: StatusBuffer,
    pub buffer: OutputBuffer,
    pub schedule: Schedule,
}

impl Editor {
    /// The state every session keeps: a well-formed document and
    /// viewport, and a cursor inside its viewport-derived bounds.
    pub open spec fn wf(&self) -> bool {
        &&& self.rows.wf()
        &&& self.size.wf()
        &&& self.position.x <= self.size.rows
        &&& self.position.y <= self.size.columns
        &&& self.rows.name_view().len() + 23 <= usize::MAX
    }

    /// Opens a session over a document with the standard schedule, the
    /// cursor at the origin and nothing scrolled.
    pub fn new(rows: RowBuffer, size: OutputSize) -> (r: Editor)
        requires
            rows.wf(),
            size.wf(),
            rows.name_view().len() + 23 <= usize::MAX,
        ensures
            r.wf(),
            r.rows == rows,
            r.size == size,
            r.position == (CursorPosition { x: 0, y: 0 }),
            r.offset == (CursorOffset { row: 0, column: 0, render: 0 }),
            r.mode == InputMode::Normal,
            r.buffer.contents() == Seq::<char>::empty(),
            r.status.value_view() == Seq::<char>::empty(),
            ordered_spec(r.schedule.steps_view()) == seq![
                FrameStep::HideCursor,
                FrameStep::ClearScreen,
                FrameStep::DrawRows,
                FrameStep::DrawStatus,
                FrameStep::ShowCursor,
                FrameStep::FlushFrame,
            ],
    {
        Editor {
            rows,
            position: CursorPosition { x: 0, y: 0 },
            offset: CursorOffset { row: 0, column: 0, render: 0 },
            size,
            mode: InputMode::Normal,
            status: StatusBuffer::new(),
            buffer: OutputBuffer::new(),
            schedule: standard_schedule(),
        }
    }

    /// Applies one navigation step to the cursor and re-clamps the
    /// scroll offsets around it.
    pub fn move_cursor(&mut self, direction: CursorDirection)
        requires
            old(self).wf(),
        ensures
            final(self).wf(),
            final(self).rows == old(self).rows,
            final(self).size == old(self).size,
            final(self).mode == old(self).mode,
            final(self).status == old(self).status,
            final(self).buffer == old(self).buffer,
            final(self).schedule.steps_view() == old(self).schedule.steps_view(),
            final(self).position == move_cursor_spec(
                old(self).position,
                direction,
                old(self).size,
                old(self).rows.lines().len() as usize,
            ),
            final(self).offset == scroll_spec(
                old(self).offset,
                final(self).position,
                old(self).size,
                old(self).rows.lines(),
            ),
    {
        let mut events: Vec<CursorMoveEvent> = Vec::new();
        events.push(CursorMoveEvent { direction });
        handle_cursor_move(&self.rows, &self.size, &mut self.position, &events);
        proof {
            reveal_with_fuel(run_moves, 3);
            let dirs = crate::cursor::update::directions_of(events@);
            assert(dirs =~= seq![direction]);
            assert(dirs.drop_last() =~= Seq::<CursorDirection>::empty());
        }
        scroll(&mut self.offset, &self.position, &self.size, &self.rows);
    }

    /// Recomputes the status line and runs the frame schedule, handing
    /// back the flushed frame for the host to write in one piece.
    pub fn refresh(&mut self) -> (frame: Vec<char>)
        requires
            old(self).wf(),
        ensures
            final(self).wf(),
            final(self).rows == old(self).rows,
            final(self).position == old(self).position,
            final(self).offset == old(self).offset,
            final(self).size == old(self).size,
            final(self).mode == old(self).mode,
            final(self).schedule.steps_view() == old(self).schedule.steps_view(),
            final(self).status.value_view() == status_line_seq(
                old(self).mode,
                total_chars(old(self).rows.lines()),
                old(self).rows.name_view(),
                old(self).size.columns as int,
            ),
            final(self).buffer.contents() == run_steps_spec(
                ordered_spec(old(self).schedule.steps_view()),
                env_of(
                    old(self).rows.lines(),
                    old(self).size,
                    old(self).offset,
                    old(self).position,
                    final(self).status.value_view(),
                ),
                old(self).buffer.contents(),
            ).0,
            frame@ == run_steps_spec(
                ordered_spec(old(self).schedule.steps_view()),
                env_of(
                    old(self).rows.lines(),
                    old(self).size,
                    old(self).offset,
                    old(self).position,
                    final(self).status.value_view(),
                ),
                old(self).buffer.contents(),
            ).1,
    {
        fill_bar(&mut self.status, &self.rows, &self.size, &self.mode);
        self.schedule.run(
            &self.rows,
            &self.position,
            &self.offset,
            &self.size,
            &self.status,
            &mut self.buffer,
        )
    }
}

} // verus!
