//! The double-buffered frame store, the layered draw-call queue, the diff
//! engine, and the per-frame pipeline that ties them to the compositor.
//!
//! A [`Frame`] owns exactly two screen-sized buffers of cells, split into a
//! "current" and an "old" half by a single flip bit, so that swapping them is
//! a constant-time flip and not a copy. Draw calls are queued per layer,
//! flattened in (layer, submission) order, composited into the current half,
//! and the diff of the two halves says which cells a terminal needs to be
//! told about.

use crate::cell::Cell;
use crate::color::Color;
use crate::compose::{compose_cell, spec_compose_cell};
use crate::richtext::RichText;
use vstd::arithmetic::div_mod::lemma_fundamental_div_mod_converse;
use vstd::prelude::*;

verus! {

/// A request to paint one run of styled text with its first character at
/// column `x` of row `y`. Coordinates may be negative or beyond the buffer;
/// such calls are clipped or dropped, never wrapped.
#[derive(Clone, Debug)]
pub struct DrawCall {
    pub rich_text: RichText,
    pub x: i16,
    pub y: i16,
}

/// One changed cell: the coordinate and the cell's new contents. Rebuilt
/// every frame; never kept across frames.
#[derive(Clone, Copy, Debug, PartialEq, Eq, Structural)]
pub struct DiffProduct {
    pub cell: Cell,
    pub x: u16,
    pub y: u16,
}

/// One full-screen array of cells, indexed row-major: `row * cols + col`.
#[derive(Clone, Debug)]
pub struct FrameBuffer(pub Vec<Cell>);

/// The two halves of the frame store and the flip bit that names one of them
/// "current" and the other "old". Only the methods below should pick a half,
/// so that no code path reads both names as the same half.
#[derive(Debug)]
pub struct FramePair {
    pub first: FrameBuffer,
    pub second: FrameBuffer,
    pub flipped: bool,
}

impl FramePair {
    /// The cells of the half that the flip bit names "current".
    pub open spec fn spec_current(self) -> Seq<Cell> {
        if self.flipped {
            self.second.0@
        } else {
            self.first.0@
        }
    }

    /// The cells of the half that the flip bit names "old".
    pub open spec fn spec_old(self) -> Seq<Cell> {
        if self.flipped {
            self.first.0@
        } else {
            self.second.0@
        }
    }

    /// Both halves hold exactly `cols * rows` cells.
    pub open spec fn wf(self, cols: u16, rows: u16) -> bool {
        &&& self.first.0@.len() == cols as int * rows as int
        &&& self.second.0@.len() == cols as int * rows as int
    }

    /// Allocates both halves filled with the default empty cell.
    pub fn new(cols: u16, rows: u16) -> (pair: FramePair)
        ensures
            pair.wf(cols, rows),
            pair.spec_current() =~= Seq::new(
                (cols as int * rows as int) as nat,
                |i: int| Cell::spec_empty(),
            ),
            pair.spec_old() =~= Seq::new(
                (cols as int * rows as int) as nat,
                |i: int| Cell::spec_empty(),
            ),
    {
        proof {
            assert(cols as int * rows as int <= 0xffff * 0xffff) by (nonlinear_arith)
                requires
                    cols <= 0xffff,
                    rows <= 0xffff,
            ;
        }
        let len: usize = (cols as usize) * (rows as usize);
        let first = FrameBuffer(empty_cells(len));
        let second = FrameBuffer(empty_cells(len));
        FramePair { first, second, flipped: false }
    }

    /// A borrow of the current half.
    pub fn current(&self) -> (buf: &FrameBuffer)
        ensures
            buf.0@ == self.spec_current(),
    {
        if self.flipped {
            &self.second
        } else {
            &self.first
        }
    }

    /// A borrow of the old half.
    pub fn old_half(&self) -> (buf: &FrameBuffer)
        ensures
            buf.0@ == self.spec_old(),
    {
        if self.flipped {
            &self.first
        } else {
            &self.second
        }
    }

    /// Exchanges the two halves' roles by flipping the bit: constant time,
    /// no cell moves.
    pub fn swap(&mut self)
        ensures
            final(self).spec_current() == old(self).spec_old(),
            final(self).spec_old() == old(self).spec_current(),
            final(self).first == old(self).first,
            final(self).second == old(self).second,
    {
        self.flipped = !self.flipped;
    }
}

/// A fresh vector of `len` default empty cells.
fn empty_cells(len: usize) -> (cells: Vec<Cell>)
    ensures
        cells@ =~= Seq::new(len as nat, |i: int| Cell::spec_empty()),
{
    let mut cells: Vec<Cell> = Vec::new();
    let mut i: usize = 0;
    while i < len
        invariant
            i <= len,
            cells@ =~= Seq::new(i as nat, |j: int| Cell::spec_empty()),
        decreases len - i,
    {
        cells.push(Cell::empty());
        i = i + 1;
    }
    cells
}

/// Writes every cell of `from` over the corresponding cell of `to`.
pub fn copy_frame_buffer(to: &mut FrameBuffer, from: &FrameBuffer)
    requires
        old(to).0@.len() == from.0@.len(),
    ensures
        final(to).0@ == from.0@,
{
    let len: usize = from.0.len();
    let mut i: usize = 0;
    while i < len
        invariant
            i <= len,
            to.0@.len() == len,
            from.0@.len() == len,
            forall|j: int| 0 <= j < i ==> to.0@[j] == from.0@[j],
        decreases len - i,
    {
        to.0[i] = from.0[i];
        i = i + 1;
    }
    proof {
        assert(to.0@ =~= from.0@);
    }
}

/// Fills every cell of the buffer with the default empty cell.
fn reset_frame_buffer(buffer: &mut FrameBuffer)
    ensures
        final(buffer).0@ =~= Seq::new(old(buffer).0@.len(), |i: int| Cell::spec_empty()),
{
    let len: usize = buffer.0.len();
    let mut i: usize = 0;
    while i < len
        invariant
            i <= len,
            buffer.0@.len() == len,
            forall|j: int| 0 <= j < i ==> buffer.0@[j] == Cell::spec_empty(),
        decreases len - i,
    {
        buffer.0[i] = Cell::empty();
        i = i + 1;
    }
}

/// The frame context: dimensions, the per-layer draw queues, the flattened
/// queue handed to the compositor, the double buffer, and the diff products
/// of the last presented frame.
#[derive(Debug)]
pub struct Frame {
    pub cols: u16,
    pub rows: u16,
    /// One queue of pending draw calls per layer, back-to-front.
    pub draw_queue: Vec<Vec<DrawCall>>,
    /// The per-layer queues flattened in (layer, submission) order.
    pub flat_draw_queue: Vec<DrawCall>,
    pub buffers: FramePair,
    pub diff_products: Vec<DiffProduct>,
}

impl Frame {
    /// The buffers hold exactly `cols * rows` cells each.
    pub open spec fn wf(self) -> bool {
        self.buffers.wf(self.cols, self.rows)
    }

    /// A frame sized to the terminal's columns and rows, with both buffer
    /// halves filled with the default empty cell, one empty layer, and no
    /// pending draws or diff products.
    pub fn new(cols: u16, rows: u16) -> (frame: Frame)
        ensures
            frame.wf(),
            frame.cols == cols,
            frame.rows == rows,
            frame.buffers.spec_current() =~= Seq::new(
                (cols as int * rows as int) as nat,
                |i: int| Cell::spec_empty(),
            ),
            frame.buffers.spec_old() =~= Seq::new(
                (cols as int * rows as int) as nat,
                |i: int| Cell::spec_empty(),
            ),
            frame.draw_queue@.len() == 1,
            frame.draw_queue@[0]@ =~= Seq::<DrawCall>::empty(),
            frame.flat_draw_queue@ =~= Seq::<DrawCall>::empty(),
            frame.diff_products@ =~= Seq::<DiffProduct>::empty(),
    {
        let mut draw_queue: Vec<Vec<DrawCall>> = Vec::new();
        draw_queue.push(Vec::new());
        Frame {
            cols,
            rows,
            draw_queue,
            flat_draw_queue: Vec::new(),
            buffers: FramePair::new(cols, rows),
            diff_products: Vec::new(),
        }
    }

    /// Grows the layer list with empty queues until `index` is a valid
    /// layer, leaving existing layers untouched.
    pub fn ensure_layer(&mut self, index: usize)
        requires
            index < usize::MAX,
        ensures
            final(self).draw_queue@.len() > index,
            final(self).draw_queue@.len() >= old(self).draw_queue@.len(),
            forall|j: int|
                0 <= j < old(self).draw_queue@.len() ==> final(self).draw_queue@[j] == old(self).draw_queue@[j],
            forall|j: int|
                old(self).draw_queue@.len() <= j < final(self).draw_queue@.len() ==> final(self).draw_queue@[j]@ =~= Seq::<DrawCall>::empty(),
            *final(self) == (Frame { draw_queue: final(self).draw_queue, ..*old(self) }),
    {
        while self.draw_queue.len() <= index
            invariant
                self.draw_queue@.len() >= old(self).draw_queue@.len(),
                index < usize::MAX,
                forall|j: int|
                    0 <= j < old(self).draw_queue@.len() ==> self.draw_queue@[j] == old(self).draw_queue@[j],
                forall|j: int|
                    old(self).draw_queue@.len() <= j < self.draw_queue@.len()
                        ==> self.draw_queue@[j]@ =~= Seq::<DrawCall>::empty(),
                *self == (Frame { draw_queue: self.draw_queue, ..*old(self) }),
            decreases index + 1 - self.draw_queue@.len(),
        {
            self.draw_queue.push(Vec::new());
        }
    }

    /// Queues a draw call on the given layer, creating the layer (and any
    /// below it) if it does not exist yet.
    pub fn push_draw_call(&mut self, layer: usize, call: DrawCall)
        requires
            layer < usize::MAX,
        ensures
            final(self).draw_queue@.len() > layer,
            final(self).draw_queue@.len() >= old(self).draw_queue@.len(),
            final(self).draw_queue@[layer as int]@ =~= (if layer < old(self).draw_queue@.len() {
                old(self).draw_queue@[layer as int]@
            } else {
                Seq::<DrawCall>::empty()
            }).push(call),
            forall|j: int|
                0 <= j < final(self).draw_queue@.len() && j != layer ==> final(self).draw_queue@[j]@ =~= (if j < old(self).draw_queue@.len() {
                    old(self).draw_queue@[j]@
                } else {
                    Seq::<DrawCall>::empty()
                }),
            *final(self) == (Frame { draw_queue: final(self).draw_queue, ..*old(self) }),
    {
        self.ensure_layer(layer);
        self.draw_queue[layer].push(call);
    }
}

/// Whether the draw call paints the cell at flat index `i` of a `cols`-wide
/// buffer: the index lies on the call's row, at a column covered by the text
/// once negative starting columns are clipped. Columns past the right edge
/// are never covered, because a column is always below `cols`.
pub open spec fn spec_call_covers(call: DrawCall, cols: int, i: int) -> bool {
    &&& i / cols == call.y as int
    &&& 0 <= (i % cols - call.x as int) < call.rich_text.text@.len()
}

/// The candidate cell the draw call paints at flat index `i`: the text's
/// character for that column, under the call's style and format.
pub open spec fn spec_call_cell(call: DrawCall, cols: int, i: int) -> Cell {
    Cell {
        ch: call.rich_text.text@[i % cols - call.x as int],
        fg: call.rich_text.style.fg,
        bg: call.rich_text.style.bg,
        attributes: call.rich_text.style.attributes,
        format: call.rich_text.cell_format,
    }
}

/// One draw call folded into a buffer: every covered cell is merged with the
/// call's candidate cell by the per-cell rule, every other cell is untouched.
pub open spec fn spec_apply_draw_call(buf: Seq<Cell>, call: DrawCall, cols: int, dbc: Color) -> Seq<
    Cell,
> {
    Seq::new(
        buf.len(),
        |i: int|
            if spec_call_covers(call, cols, i) {
                spec_compose_cell(buf[i], spec_call_cell(call, cols, i), dbc)
            } else {
                buf[i]
            },
    )
}

/// The draw calls folded into a buffer strictly in sequence order: each call
/// composites over the effects of all earlier ones.
pub open spec fn spec_apply_draw_calls(
    buf: Seq<Cell>,
    calls: Seq<DrawCall>,
    cols: int,
    dbc: Color,
) -> Seq<Cell>
    decreases calls.len(),
{
    if calls.len() == 0 {
        buf
    } else {
        spec_apply_draw_call(
            spec_apply_draw_calls(buf, calls.drop_last(), cols, dbc),
            calls.last(),
            cols,
            dbc,
        )
    }
}

/// One step of folding a draw call: updating the covered cell whose column
/// offset is `k - 1` extends the processed prefix from `k - 1` to `k`.
proof fn lemma_apply_step(
    buf0: Seq<Cell>,
    pre: Seq<Cell>,
    post: Seq<Cell>,
    call: DrawCall,
    cols: int,
    i: int,
    k: int,
    dbc: Color,
)
    requires
        0 <= i < buf0.len(),
        pre.len() == buf0.len(),
        cols > 0,
        spec_call_covers(call, cols, i),
        i % cols - call.x == k - 1,
        post == pre.update(i, spec_compose_cell(buf0[i], spec_call_cell(call, cols, i), dbc)),
        forall|j: int|
            0 <= j < buf0.len() ==> pre[j] == (if spec_call_covers(call, cols, j) && j % cols
                - call.x < k - 1 {
                spec_compose_cell(buf0[j], spec_call_cell(call, cols, j), dbc)
            } else {
                buf0[j]
            }),
    ensures
        forall|j: int|
            0 <= j < buf0.len() ==> post[j] == (if spec_call_covers(call, cols, j) && j % cols
                - call.x < k {
                spec_compose_cell(buf0[j], spec_call_cell(call, cols, j), dbc)
            } else {
                buf0[j]
            }),
{
    assert forall|j: int| 0 <= j < buf0.len() implies post[j] == (if spec_call_covers(
        call,
        cols,
        j,
    ) && j % cols - call.x < k {
        spec_compose_cell(buf0[j], spec_call_cell(call, cols, j), dbc)
    } else {
        buf0[j]
    }) by {
        if j != i && spec_call_covers(call, cols, j) && j % cols - call.x == k - 1 {
            vstd::arithmetic::div_mod::lemma_fundamental_div_mod(j, cols);
            vstd::arithmetic::div_mod::lemma_fundamental_div_mod(i, cols);
            assert(j % cols == i % cols);
            assert(j / cols == i / cols);
            assert(false);
        }
    }
}

/// A flat index of a `cols * rows` buffer lies on a row below `rows` and a
/// column below `cols`.
proof fn lemma_flat_index_bounds(i: int, cols: int, rows: int)
    requires
        cols >= 0,
        rows >= 0,
        0 <= i < cols * rows,
    ensures
        cols > 0,
        0 <= i / cols < rows,
        0 <= i % cols < cols,
{
    assert(cols > 0) by (nonlinear_arith)
        requires
            cols >= 0,
            rows >= 0,
            0 <= i < cols * rows,
    ;
    assert(0 <= i / cols < rows && 0 <= i % cols < cols) by (nonlinear_arith)
        requires
            0 <= i < cols * rows,
            cols > 0,
    ;
}

/// Folds one draw call into the buffer: rows outside the buffer and columns
/// right of the edge are skipped, characters left of column zero are dropped,
/// and each remaining character is merged into its cell.
#[verifier::rlimit(30)]
#[verifier::spinoff_prover]
fn apply_draw_call(buffer: &mut FrameBuffer, call: &DrawCall, cols: u16, rows: u16, dbc: Color)
    requires
        old(buffer).0@.len() == cols as int * rows as int,
    ensures
        final(buffer).0@ == spec_apply_draw_call(old(buffer).0@, *call, cols as int, dbc),
{
    let ghost buf0 = old(buffer).0@;
    if call.y < 0 || call.y as i32 >= rows as i32 || (call.x >= 0 && call.x as i32 >= cols as i32) {
        proof {
            assert forall|i: int| 0 <= i < buf0.len() implies !spec_call_covers(
                *call,
                cols as int,
                i,
            ) by {
                lemma_flat_index_bounds(i, cols as int, rows as int);
            }
            assert(buffer.0@ =~= spec_apply_draw_call(buf0, *call, cols as int, dbc));
        }
        return ;
    }
    let y_row: usize = call.y as usize;
    let text_len: usize = call.rich_text.text.as_str().unicode_len();
    let skip: usize = if call.x < 0 {
        (-(call.x as i32)) as usize
    } else {
        0
    };
    let start_col: usize = if call.x < 0 {
        0
    } else {
        call.x as usize
    };
    proof {
        assert(y_row * (cols as int) <= 0xffff * 0xffff) by (nonlinear_arith)
            requires
                y_row <= 0xffff,
                cols <= 0xffff,
        ;
    }
    let row_start: usize = y_row * (cols as usize);
    let mut k: usize = skip;
    proof {
        assert forall|i: int|
            0 <= i < buf0.len() && spec_call_covers(*call, cols as int, i) implies i % (
        cols as int) - call.x >= k by {
            lemma_flat_index_bounds(i, cols as int, rows as int);
        }
    }
    while k < text_len && k - skip < (cols as usize) - start_col
        invariant
            buffer.0@.len() == buf0.len(),
            buf0.len() == cols as int * rows as int,
            text_len == call.rich_text.text@.len(),
            0 <= call.y < rows,
            call.x < cols,
            skip == if call.x < 0 {
                -(call.x as int)
            } else {
                0int
            },
            start_col == if call.x < 0 {
                0int
            } else {
                call.x as int
            },
            start_col <= cols,
            row_start == call.y as int * cols as int,
            skip <= k,
            k - skip <= cols - start_col,
            forall|i: int|
                0 <= i < buf0.len() ==> buffer.0@[i] == (if spec_call_covers(*call, cols as int, i)
                    && i % (cols as int) - call.x < k {
                    spec_compose_cell(buf0[i], spec_call_cell(*call, cols as int, i), dbc)
                } else {
                    buf0[i]
                }),
        decreases text_len - k,
    {
        let col: usize = start_col + (k - skip);
        proof {
            assert(call.y as int * cols as int + col < cols as int * rows as int && call.y as int
                * cols as int + col < 0xffffffff) by (nonlinear_arith)
                requires
                    0 <= call.y < rows,
                    0 <= col < cols,
                    rows <= 0xffff,
                    cols <= 0xffff,
            ;
        }
        let i: usize = row_start + col;
        proof {
            lemma_fundamental_div_mod_converse(i as int, cols as int, call.y as int, col as int);
            assert(spec_call_covers(*call, cols as int, i as int));
            assert(i as int % (cols as int) - call.x == k);
        }
        let ch: char = call.rich_text.text.as_str().get_char(k);
        let candidate = Cell {
            ch,
            fg: call.rich_text.style.fg,
            bg: call.rich_text.style.bg,
            attributes: call.rich_text.style.attributes,
            format: call.rich_text.cell_format,
        };
        let ghost pre = buffer.0@;
        let merged = compose_cell(buffer.0[i], candidate, dbc);
        buffer.0[i] = merged;
        k = k + 1;
        proof {
            assert(candidate == spec_call_cell(*call, cols as int, i as int));
            assert(pre[i as int] == buf0[i as int]);
            lemma_apply_step(buf0, pre, buffer.0@, *call, cols as int, i as int, k as int, dbc);
        }
    }
    proof {
        assert forall|i: int|
            0 <= i < buf0.len() && spec_call_covers(*call, cols as int, i) implies i % (
        cols as int) - call.x < k by {
            lemma_flat_index_bounds(i, cols as int, rows as int);
        }
        assert(buffer.0@ =~= spec_apply_draw_call(buf0, *call, cols as int, dbc));
    }
}

/// Folds the flattened draw-call sequence into the buffer, strictly in
/// sequence order, so that later calls see and blend against the effects of
/// earlier ones.
pub fn compose_frame_buffer(
    buffer: &mut FrameBuffer,
    draw_queue: &Vec<DrawCall>,
    cols: u16,
    rows: u16,
    default_blending_color: Color,
)
    requires
        old(buffer).0@.len() == cols as int * rows as int,
    ensures
        final(buffer).0@ == spec_apply_draw_calls(
            old(buffer).0@,
            draw_queue@,
            cols as int,
            default_blending_color,
        ),
        final(buffer).0@.len() == old(buffer).0@.len(),
{
    let ghost buf0 = old(buffer).0@;
    let mut idx: usize = 0;
    while idx < draw_queue.len()
        invariant
            idx <= draw_queue@.len(),
            buffer.0@.len() == buf0.len(),
            buf0.len() == cols as int * rows as int,
            buffer.0@ == spec_apply_draw_calls(
                buf0,
                draw_queue@.take(idx as int),
                cols as int,
                default_blending_color,
            ),
        decreases draw_queue@.len() - idx,
    {
        let call = &draw_queue[idx];
        apply_draw_call(buffer, call, cols, rows, default_blending_color);
        proof {
            let calls = draw_queue@;
            assert(calls.take(idx + 1).drop_last() =~= calls.take(idx as int));
            assert(calls.take(idx + 1).last() == calls[idx as int]);
        }
        idx = idx + 1;
    }
    proof {
        assert(draw_queue@.take(draw_queue@.len() as int) =~= draw_queue@);
    }
}

/// The diff entry for flat index `i` of a `cols`-wide buffer: the coordinate
/// and the current cell's contents.
pub open spec fn spec_diff_entry(cur: Seq<Cell>, cols: u16, i: int) -> DiffProduct {
    DiffProduct { cell: cur[i], x: (i % (cols as int)) as u16, y: (i / (cols as int)) as u16 }
}

/// The diff of the first `n` cells: one entry, in row-major order, for every
/// index where current and old disagree.
pub open spec fn spec_diff_prefix(
    cur: Seq<Cell>,
    old_cells: Seq<Cell>,
    cols: u16,
    n: int,
) -> Seq<DiffProduct>
    decreases n,
{
    if n <= 0 {
        Seq::empty()
    } else if cur[n - 1] != old_cells[n - 1] {
        spec_diff_prefix(cur, old_cells, cols, n - 1).push(spec_diff_entry(cur, cols, n - 1))
    } else {
        spec_diff_prefix(cur, old_cells, cols, n - 1)
    }
}

/// Exactly the cells where current and old disagree, in row-major order,
/// each carrying the current cell.
pub open spec fn spec_diff(cur: Seq<Cell>, old_cells: Seq<Cell>, cols: u16) -> Seq<DiffProduct> {
    spec_diff_prefix(cur, old_cells, cols, cur.len() as int)
}

/// Scans the two buffers in row-major order and collects, into the reused
/// `diff_products` vector, an entry for every cell whose full state changed.
pub fn diff_frame_buffers(
    diff_products: &mut Vec<DiffProduct>,
    current_frame_buffer: &FrameBuffer,
    old_frame_buffer: &FrameBuffer,
    cols: u16,
)
    requires
        current_frame_buffer.0@.len() == old_frame_buffer.0@.len(),
        current_frame_buffer.0@.len() <= cols as int * 0x10000,
    ensures
        final(diff_products)@ == spec_diff(current_frame_buffer.0@, old_frame_buffer.0@, cols),
{
    diff_products.clear();
    let len: usize = current_frame_buffer.0.len();
    let mut i: usize = 0;
    while i < len
        invariant
            i <= len,
            len == current_frame_buffer.0@.len(),
            len == old_frame_buffer.0@.len(),
            len <= cols as int * 0x10000,
            diff_products@ == spec_diff_prefix(
                current_frame_buffer.0@,
                old_frame_buffer.0@,
                cols,
                i as int,
            ),
        decreases len - i,
    {
        let c: Cell = current_frame_buffer.0[i];
        let o: Cell = old_frame_buffer.0[i];
        if c != o {
            proof {
                assert(cols > 0) by (nonlinear_arith)
                    requires
                        0 <= i < len,
                        len <= cols as int * 0x10000,
                        cols >= 0,
                ;
                assert(i as int / (cols as int) < 0x10000) by (nonlinear_arith)
                    requires
                        0 <= i && (i as int) < (cols as int) * 0x10000,
                        cols as int > 0,
                ;
            }
            let x: u16 = (i % cols as usize) as u16;
            let y: u16 = (i / cols as usize) as u16;
            diff_products.push(DiffProduct { cell: c, x, y });
        }
        i = i + 1;
    }
}

/// Diffing a buffer against itself, or any buffer against an identical copy,
/// yields no entries.
pub proof fn lemma_diff_empty(cells: Seq<Cell>, cols: u16)
    ensures
        spec_diff(cells, cells, cols) == Seq::<DiffProduct>::empty(),
{
    lemma_diff_prefix_empty(cells, cols, cells.len() as int);
}

proof fn lemma_diff_prefix_empty(cells: Seq<Cell>, cols: u16, n: int)
    ensures
        spec_diff_prefix(cells, cells, cols, n) == Seq::<DiffProduct>::empty(),
    decreases n,
{
    if n > 0 {
        lemma_diff_prefix_empty(cells, cols, n - 1);
    }
}

/// When every cell differs from its counterpart, the diff has exactly one
/// entry per coordinate, in row-major order, each carrying the corresponding
/// current cell.
pub proof fn lemma_diff_complete(cur: Seq<Cell>, old_cells: Seq<Cell>, cols: u16)
    requires
        cur.len() == old_cells.len(),
        forall|i: int| 0 <= i < cur.len() ==> cur[i] != old_cells[i],
    ensures
        spec_diff(cur, old_cells, cols) =~= Seq::new(
            cur.len(),
            |i: int| spec_diff_entry(cur, cols, i),
        ),
{
    lemma_diff_prefix_complete(cur, old_cells, cols, cur.len() as int);
}

proof fn lemma_diff_prefix_complete(cur: Seq<Cell>, old_cells: Seq<Cell>, cols: u16, n: int)
    requires
        cur.len() == old_cells.len(),
        0 <= n <= cur.len(),
        forall|i: int| 0 <= i < cur.len() ==> cur[i] != old_cells[i],
    ensures
        spec_diff_prefix(cur, old_cells, cols, n) =~= Seq::new(
            n as nat,
            |i: int| spec_diff_entry(cur, cols, i),
        ),
    decreases n,
{
    if n > 0 {
        lemma_diff_prefix_complete(cur, old_cells, cols, n - 1);
    }
}

/// When exactly the even-indexed cells differ, the diff has one entry per
/// even index: half the cells rounded up, the `k`-th entry carrying flat
/// index `2 * k`.
pub proof fn lemma_diff_selective(cur: Seq<Cell>, old_cells: Seq<Cell>, cols: u16)
    requires
        cur.len() == old_cells.len(),
        forall|i: int| 0 <= i < cur.len() ==> ((cur[i] != old_cells[i]) <==> i % 2 == 0),
    ensures
        spec_diff(cur, old_cells, cols) =~= Seq::new(
            ((cur.len() + 1) / 2) as nat,
            |k: int| spec_diff_entry(cur, cols, 2 * k),
        ),
{
    lemma_diff_prefix_selective(cur, old_cells, cols, cur.len() as int);
}

proof fn lemma_diff_prefix_selective(cur: Seq<Cell>, old_cells: Seq<Cell>, cols: u16, n: int)
    requires
        cur.len() == old_cells.len(),
        0 <= n <= cur.len(),
        forall|i: int| 0 <= i < cur.len() ==> ((cur[i] != old_cells[i]) <==> i % 2 == 0),
    ensures
        spec_diff_prefix(cur, old_cells, cols, n) =~= Seq::new(
            ((n + 1) / 2) as nat,
            |k: int| spec_diff_entry(cur, cols, 2 * k),
        ),
    decreases n,
{
    if n > 0 {
        lemma_diff_prefix_selective(cur, old_cells, cols, n - 1);
        if (n - 1) % 2 == 0 {
            assert((n + 1) / 2 == n / 2 + 1);
            assert(2 * (n / 2) == n - 1);
        } else {
            assert((n + 1) / 2 == n / 2);
        }
    }
}

/// The concatenation of the first `n` per-layer queues: layer order first,
/// submission order within a layer.
pub open spec fn spec_flatten_layers(layers: Seq<Vec<DrawCall>>, n: int) -> Seq<DrawCall>
    decreases n,
{
    if n <= 0 {
        Seq::empty()
    } else {
        spec_flatten_layers(layers, n - 1) + layers[n - 1]@
    }
}

impl Frame {
    /// The frame the pending flat queue would composite: every queued draw
    /// call folded, in order, into the current half.
    pub open spec fn spec_composed_frame(self, dbc: Color) -> Seq<Cell> {
        spec_apply_draw_calls(
            self.buffers.spec_current(),
            self.flat_draw_queue@,
            self.cols as int,
            dbc,
        )
    }

    /// Starts a new frame: empties every per-layer queue and the flat queue,
    /// and clears the current half back to the default empty cell, so stale
    /// content from the previous frame does not persist unless redrawn.
    pub fn begin_frame(&mut self)
        ensures
            final(self).buffers.spec_current() =~= Seq::new(
                old(self).buffers.spec_current().len(),
                |i: int| Cell::spec_empty(),
            ),
            final(self).buffers.spec_old() == old(self).buffers.spec_old(),
            final(self).buffers.flipped == old(self).buffers.flipped,
            final(self).draw_queue@.len() == old(self).draw_queue@.len(),
            forall|j: int|
                0 <= j < final(self).draw_queue@.len() ==> final(self).draw_queue@[j]@ =~= Seq::<
                    DrawCall,
                >::empty(),
            final(self).flat_draw_queue@ =~= Seq::<DrawCall>::empty(),
            final(self).cols == old(self).cols,
            final(self).rows == old(self).rows,
            final(self).diff_products == old(self).diff_products,
    {
        let layer_count: usize = self.draw_queue.len();
        let mut li: usize = 0;
        while li < layer_count
            invariant
                li <= layer_count,
                self.draw_queue@.len() == layer_count,
                forall|j: int| 0 <= j < li ==> self.draw_queue@[j]@ =~= Seq::<DrawCall>::empty(),
                *self == (Frame { draw_queue: self.draw_queue, ..*old(self) }),
            decreases layer_count - li,
        {
            self.draw_queue[li].clear();
            li = li + 1;
        }
        self.flat_draw_queue.clear();
        if self.buffers.flipped {
            reset_frame_buffer(&mut self.buffers.second);
        } else {
            reset_frame_buffer(&mut self.buffers.first);
        }
    }

    /// Appends every layer's pending draw calls to the flat queue, in
    /// (layer, submission) order, and empties the per-layer queues for
    /// reuse.
    pub fn flatten_draw_queue(&mut self)
        ensures
            final(self).flat_draw_queue@ == old(self).flat_draw_queue@ + spec_flatten_layers(
                old(self).draw_queue@,
                old(self).draw_queue@.len() as int,
            ),
            final(self).draw_queue@.len() == old(self).draw_queue@.len(),
            forall|j: int|
                0 <= j < final(self).draw_queue@.len() ==> final(self).draw_queue@[j]@ =~= Seq::<
                    DrawCall,
                >::empty(),
            final(self).cols == old(self).cols,
            final(self).rows == old(self).rows,
            final(self).buffers == old(self).buffers,
            final(self).diff_products == old(self).diff_products,
    {
        let layer_count: usize = self.draw_queue.len();
        let mut li: usize = 0;
        while li < layer_count
            invariant
                li <= layer_count,
                self.draw_queue@.len() == layer_count,
                self.flat_draw_queue@ == old(self).flat_draw_queue@ + spec_flatten_layers(
                    old(self).draw_queue@,
                    li as int,
                ),
                forall|j: int| 0 <= j < li ==> self.draw_queue@[j]@ =~= Seq::<DrawCall>::empty(),
                forall|j: int|
                    li <= j < layer_count ==> self.draw_queue@[j] == old(self).draw_queue@[j],
                *self == (Frame {
                    draw_queue: self.draw_queue,
                    flat_draw_queue: self.flat_draw_queue,
                    ..*old(self)
                }),
            decreases layer_count - li,
        {
            self.flat_draw_queue.append(&mut self.draw_queue[li]);
            li = li + 1;
        }
    }

    /// Ends the frame: flattens the layers into the flat queue, folds every
    /// queued draw call into the current half, records the diff against the
    /// old half, and swaps and reconciles the halves so both hold the
    /// presented frame. Because of that reconciliation, a diff taken after
    /// `present` with no new draws is always empty: presenting and swapping
    /// round-trip cleanly.
    pub fn present(&mut self, default_blending_color: Color)
        requires
            old(self).wf(),
        ensures
            final(self).wf(),
            final(self).cols == old(self).cols,
            final(self).rows == old(self).rows,
            ({
                let presented = spec_apply_draw_calls(
                    old(self).buffers.spec_current(),
                    old(self).flat_draw_queue@ + spec_flatten_layers(
                        old(self).draw_queue@,
                        old(self).draw_queue@.len() as int,
                    ),
                    old(self).cols as int,
                    default_blending_color,
                );
                &&& final(self).diff_products@ == spec_diff(
                    presented,
                    old(self).buffers.spec_old(),
                    old(self).cols,
                )
                &&& final(self).buffers.spec_current() == presented
                &&& final(self).buffers.spec_old() == presented
            }),
            spec_diff(
                final(self).buffers.spec_current(),
                final(self).buffers.spec_old(),
                final(self).cols,
            ) == Seq::<DiffProduct>::empty(),
            final(self).flat_draw_queue@ =~= Seq::<DrawCall>::empty(),
            final(self).draw_queue@.len() == old(self).draw_queue@.len(),
            forall|j: int|
                0 <= j < final(self).draw_queue@.len() ==> final(self).draw_queue@[j]@ =~= Seq::<
                    DrawCall,
                >::empty(),
    {
        self.flatten_draw_queue();
        let cols: u16 = self.cols;
        let rows: u16 = self.rows;
        if self.buffers.flipped {
            compose_frame_buffer(
                &mut self.buffers.second,
                &self.flat_draw_queue,
                cols,
                rows,
                default_blending_color,
            );
        } else {
            compose_frame_buffer(
                &mut self.buffers.first,
                &self.flat_draw_queue,
                cols,
                rows,
                default_blending_color,
            );
        }
        proof {
            assert((cols as int) * (rows as int) <= (cols as int) * 0x10000) by (nonlinear_arith)
                requires
                    rows <= 0xffff,
                    cols >= 0,
            ;
        }
        if self.buffers.flipped {
            diff_frame_buffers(
                &mut self.diff_products,
                &self.buffers.second,
                &self.buffers.first,
                cols,
            );
        } else {
            diff_frame_buffers(
                &mut self.diff_products,
                &self.buffers.first,
                &self.buffers.second,
                cols,
            );
        }
        self.buffers.swap();
        if self.buffers.flipped {
            copy_frame_buffer(&mut self.buffers.second, &self.buffers.first);
        } else {
            copy_frame_buffer(&mut self.buffers.first, &self.buffers.second);
        }
        self.flat_draw_queue.clear();
        proof {
            lemma_diff_empty(self.buffers.spec_current(), self.cols);
        }
    }
}

} // verus!
