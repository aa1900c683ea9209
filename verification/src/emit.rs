//! The terminal emitter's decision logic: turning diff output into the
//! ordered sequence of terminal commands for one frame.
//!
//! For each changed cell the sequence holds, in this order: a cursor move to
//! its coordinate, a style reset, a style set matching the cell, and the
//! glyph itself. The commands are abstract; an I/O layer translates each one
//! into its terminal protocol's escape sequence and flushes the whole frame
//! once.

use crate::cell::Cell;
use crate::color::Color;
use crate::frame::DiffProduct;
use vstd::prelude::*;

verus! {

/// The style to set before printing one glyph. An absent color is not set at
/// all, so the terminal's own default shows through.
#[derive(Clone, Copy, Debug, PartialEq, Eq, Structural)]
pub struct StyleCommand {
    pub fg: Option<Color>,
    pub bg: Option<Color>,
    pub bold: bool,
    pub italic: bool,
    pub underlined: bool,
    pub hidden: bool,
}

/// One terminal instruction of a frame's output sequence.
#[derive(Clone, Copy, Debug, PartialEq, Eq, Structural)]
pub enum TermCommand {
    /// Move the cursor to (column, row).
    MoveTo(u16, u16),
    /// Reset all style state.
    ResetStyle,
    /// Set the colors and attributes for what follows.
    SetStyle(StyleCommand),
    /// Print one glyph at the cursor.
    Print(char),
}

/// The style a cell asks the terminal for: each color only when its presence
/// flag says it was specified, plus the four visual attributes.
pub open spec fn spec_style_command(cell: Cell) -> StyleCommand {
    StyleCommand {
        fg: if cell.attributes.no_fg_color {
            None
        } else {
            Some(cell.fg)
        },
        bg: if cell.attributes.no_bg_color {
            None
        } else {
            Some(cell.bg)
        },
        bold: cell.attributes.bold,
        italic: cell.attributes.italic,
        underlined: cell.attributes.underlined,
        hidden: cell.attributes.hidden,
    }
}

/// The four instructions that repaint one diffed cell.
pub open spec fn spec_cell_commands(d: DiffProduct) -> Seq<TermCommand> {
    seq![
        TermCommand::MoveTo(d.x, d.y),
        TermCommand::ResetStyle,
        TermCommand::SetStyle(spec_style_command(d.cell)),
        TermCommand::Print(d.cell.ch),
    ]
}

/// The instruction sequence for the first `n` diff entries, in diff order.
pub open spec fn spec_emit_prefix(diff: Seq<DiffProduct>, n: int) -> Seq<TermCommand>
    decreases n,
{
    if n <= 0 {
        Seq::empty()
    } else {
        spec_emit_prefix(diff, n - 1) + spec_cell_commands(diff[n - 1])
    }
}

/// The whole frame's instruction sequence.
pub open spec fn spec_emit(diff: Seq<DiffProduct>) -> Seq<TermCommand> {
    spec_emit_prefix(diff, diff.len() as int)
}

/// The style a cell asks the terminal for.
pub fn style_command(cell: &Cell) -> (cmd: StyleCommand)
    ensures
        cmd == spec_style_command(*cell),
{
    StyleCommand {
        fg: if cell.attributes.no_fg_color {
            None
        } else {
            Some(cell.fg)
        },
        bg: if cell.attributes.no_bg_color {
            None
        } else {
            Some(cell.bg)
        },
        bold: cell.attributes.bold,
        italic: cell.attributes.italic,
        underlined: cell.attributes.underlined,
        hidden: cell.attributes.hidden,
    }
}

/// Turns the diff into the frame's ordered instruction sequence: for each
/// entry a cursor move, a style reset, a style set, and the glyph.
pub fn emit_commands(diff_products: &Vec<DiffProduct>) -> (commands: Vec<TermCommand>)
    ensures
        commands@ == spec_emit(diff_products@),
{
    let mut commands: Vec<TermCommand> = Vec::new();
    let mut i: usize = 0;
    while i < diff_products.len()
        invariant
            i <= diff_products@.len(),
            commands@ == spec_emit_prefix(diff_products@, i as int),
        decreases diff_products@.len() - i,
    {
        let d = &diff_products[i];
        commands.push(TermCommand::MoveTo(d.x, d.y));
        commands.push(TermCommand::ResetStyle);
        commands.push(TermCommand::SetStyle(style_command(&d.cell)));
        commands.push(TermCommand::Print(d.cell.ch));
        i = i + 1;
        proof {
            assert(commands@ =~= spec_emit_prefix(diff_products@, i as int));
        }
    }
    commands
}

} // verus!
