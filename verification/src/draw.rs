//! Convenience builders that turn shapes and text into draw calls.

use crate::color::Color;
use crate::frame::DrawCall;
use crate::richtext::RichText;
use crate::style::{Attributes, Style};
use vstd::prelude::*;

verus! {

/// A position in cell coordinates. Negative coordinates lie off screen to
/// the left or top; the compositor clips them.
#[derive(Clone, Copy, Debug, PartialEq, Eq, Structural)]
pub struct Pos {
    pub x: i16,
    pub y: i16,
}

impl Pos {
    pub fn new(x: i16, y: i16) -> (p: Pos)
        ensures
            p == (Pos { x, y }),
    {
        Pos { x, y }
    }

    /// Scales the `x` argument by 2 to compensate for typical terminal cell
    /// aspect ratios, making drawn shapes appear closer to a square.
    pub fn square(x: i16, y: i16) -> (p: Pos)
        requires
            -0x4000 <= x < 0x4000,
        ensures
            p == (Pos { x: (2 * x) as i16, y }),
    {
        let x: i16 = x * 2;
        Pos { x, y }
    }
}

/// A size in cell coordinates.
#[derive(Clone, Copy, Debug, PartialEq, Eq, Structural)]
pub struct Size {
    pub width: i16,
    pub height: i16,
}

impl Size {
    pub fn new(w: i16, h: i16) -> (s: Size)
        ensures
            s == (Size { width: w, height: h }),
    {
        Size { width: w, height: h }
    }

    /// Scales the `width` argument by 2 to compensate for typical terminal
    /// cell aspect ratios, making drawn shapes appear closer to a square.
    pub fn square(width: i16, height: i16) -> (s: Size)
        requires
            -0x4000 <= width < 0x4000,
        ensures
            s == (Size { width: (2 * width) as i16, height }),
    {
        let width: i16 = width * 2;
        Size { width, height }
    }
}

/// A string of `n` spaces.
fn spaces(n: usize) -> (s: String)
    ensures
        s@ =~= Seq::new(n as nat, |i: int| ' '),
{
    proof {
        reveal_strlit("");
        reveal_strlit(" ");
    }
    let mut s = String::from_str("");
    let mut i: usize = 0;
    while i < n
        invariant
            i <= n,
            s@ =~= Seq::new(i as nat, |j: int| ' '),
        decreases n - i,
    {
        s.append(" ");
        i = i + 1;
        proof {
            reveal_strlit(" ");
        }
    }
    s
}

/// Queues one draw call painting `text` with its first character at `pos`.
pub fn draw_text(draw_queue: &mut Vec<DrawCall>, pos: Pos, text: RichText)
    ensures
        final(draw_queue)@ == old(draw_queue)@.push(
            DrawCall { rich_text: text, x: pos.x, y: pos.y },
        ),
{
    draw_queue.push(DrawCall { rich_text: text, x: pos.x, y: pos.y });
}

/// Queues one draw call per row of a `size`-sized rectangle at `pos`: a run
/// of spaces with an opaque black foreground and `color` as background. A
/// non-positive height queues nothing.
pub fn draw_rect(draw_queue: &mut Vec<DrawCall>, pos: Pos, size: Size, color: Color)
    requires
        size.width >= 0,
        size.height <= 0 || pos.y + size.height <= 0x8000,
    ensures
        final(draw_queue)@.len() == old(draw_queue)@.len() + (if size.height >= 0 {
            size.height as int
        } else {
            0int
        }),
        forall|j: int|
            0 <= j < old(draw_queue)@.len() ==> final(draw_queue)@[j] == old(draw_queue)@[j],
        forall|r: int|
            0 <= r < (final(draw_queue)@.len() - old(draw_queue)@.len()) ==> {
                let call = #[trigger] final(draw_queue)@[old(draw_queue)@.len() + r];
                &&& call.x == pos.x
                &&& call.y == pos.y + r
                &&& call.rich_text.text@ =~= Seq::new(size.width as nat, |c: int| ' ')
                &&& call.rich_text.style.spec_fg() == Some(
                    Color { r: 0u8, g: 0u8, b: 0u8, a: 255u8 },
                )
                &&& call.rich_text.style.spec_bg() == Some(color)
                &&& !call.rich_text.style.attributes.bold
                &&& !call.rich_text.style.attributes.italic
                &&& !call.rich_text.style.attributes.underlined
                &&& !call.rich_text.style.attributes.hidden
                &&& call.rich_text.cell_format is Standard
            },
{
    let mut row: i16 = 0;
    while row < size.height
        invariant
            size.width >= 0,
            size.height <= 0 || pos.y + size.height <= 0x8000,
            0 <= row,
            row <= size.height || row == 0,
            draw_queue@.len() == old(draw_queue)@.len() + row,
            forall|j: int|
                0 <= j < old(draw_queue)@.len() ==> draw_queue@[j] == old(draw_queue)@[j],
            forall|r: int|
                0 <= r < row ==> {
                    let call = #[trigger] draw_queue@[old(draw_queue)@.len() + r];
                    &&& call.x == pos.x
                    &&& call.y == pos.y + r
                    &&& call.rich_text.text@ =~= Seq::new(size.width as nat, |c: int| ' ')
                    &&& call.rich_text.style.spec_fg() == Some(
                        Color { r: 0u8, g: 0u8, b: 0u8, a: 255u8 },
                    )
                    &&& call.rich_text.style.spec_bg() == Some(color)
                    &&& !call.rich_text.style.attributes.bold
                    &&& !call.rich_text.style.attributes.italic
                    &&& !call.rich_text.style.attributes.underlined
                    &&& !call.rich_text.style.attributes.hidden
                    &&& call.rich_text.cell_format is Standard
                },
        decreases size.height - row,
    {
        let row_text = RichText {
            text: spaces(size.width as usize),
            style: Style::new(Some(Color::black()), Some(color), Attributes::empty()),
            cell_format: crate::cell::CellFormat::Standard,
        };
        draw_queue.push(DrawCall { rich_text: row_text, x: pos.x, y: pos.y + row });
        row = row + 1;
    }
}

/// Fills the whole `cols` by `rows` area with `color`, one row-wide
/// rectangle call per row.
pub fn fill_screen(draw_queue: &mut Vec<DrawCall>, cols: i16, rows: i16, color: Color)
    requires
        cols >= 0,
    ensures
        final(draw_queue)@.len() == old(draw_queue)@.len() + (if rows >= 0 {
            rows as int
        } else {
            0int
        }),
        forall|j: int|
            0 <= j < old(draw_queue)@.len() ==> final(draw_queue)@[j] == old(draw_queue)@[j],
        forall|r: int|
            0 <= r < (final(draw_queue)@.len() - old(draw_queue)@.len()) ==> {
                let call = #[trigger] final(draw_queue)@[old(draw_queue)@.len() + r];
                &&& call.x == 0
                &&& call.y == r
                &&& call.rich_text.text@ =~= Seq::new(cols as nat, |c: int| ' ')
                &&& call.rich_text.style.spec_bg() == Some(color)
            },
{
    draw_rect(draw_queue, Pos::new(0, 0), Size::new(cols, rows), color);
}

} // verus!
