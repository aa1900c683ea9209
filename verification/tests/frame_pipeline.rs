use germterm::cell::{Cell, CellFormat};
use germterm::color::Color;
use germterm::draw::{draw_rect, draw_text, fill_screen, Pos, Size};
use germterm::emit::{emit_commands, TermCommand};
use germterm::frame::{
    compose_frame_buffer, copy_frame_buffer, diff_frame_buffers, DiffProduct, DrawCall, Frame,
    FrameBuffer, FramePair,
};
use germterm::richtext::RichText;
use germterm::style::Attributes;

fn white_text(text: &str) -> RichText {
    RichText::new(text).with_fg(Some(Color::white()))
}

fn plain_cell(ch: char) -> Cell {
    let mut c = Cell::empty();
    c.ch = ch;
    c
}

#[test]
fn pos_and_size_square_scale_horizontally() {
    assert_eq!(Pos::square(3, 4), Pos::new(6, 4));
    assert_eq!(Size::square(5, 2), Size::new(10, 2));
}

#[test]
fn frame_new_is_empty() {
    let frame = Frame::new(4, 3);
    assert_eq!(frame.cols, 4);
    assert_eq!(frame.rows, 3);
    assert_eq!(frame.buffers.current().0.len(), 12);
    assert_eq!(frame.buffers.old_half().0.len(), 12);
    assert!(frame.buffers.current().0.iter().all(|c| *c == Cell::empty()));
    assert_eq!(frame.draw_queue.len(), 1);
    assert!(frame.diff_products.is_empty());
}

#[test]
fn frame_pair_swap_exchanges_halves() {
    let mut pair = FramePair::new(2, 1);
    pair.first.0[0] = plain_cell('a');
    pair.second.0[0] = plain_cell('b');
    assert_eq!(pair.current().0[0].ch, 'a');
    assert_eq!(pair.old_half().0[0].ch, 'b');
    pair.swap();
    assert_eq!(pair.current().0[0].ch, 'b');
    assert_eq!(pair.old_half().0[0].ch, 'a');
}

#[test]
fn copy_frame_buffer_copies_all_cells() {
    let mut to = FrameBuffer(vec![Cell::empty(); 3]);
    let from = FrameBuffer(vec![plain_cell('x'), plain_cell('y'), plain_cell('z')]);
    copy_frame_buffer(&mut to, &from);
    assert_eq!(to.0[0].ch, 'x');
    assert_eq!(to.0[1].ch, 'y');
    assert_eq!(to.0[2].ch, 'z');
}

#[test]
fn diff_of_identical_buffers_is_empty() {
    let cells = vec![plain_cell('a'), plain_cell('b'), plain_cell('c'), plain_cell('d')];
    let cur = FrameBuffer(cells.clone());
    let old = FrameBuffer(cells);
    let mut out: Vec<DiffProduct> = Vec::new();
    diff_frame_buffers(&mut out, &cur, &old, 2);
    assert!(out.is_empty());
}

#[test]
fn diff_with_every_cell_changed_is_complete() {
    let cur = FrameBuffer(vec![plain_cell('a'), plain_cell('b'), plain_cell('c'), plain_cell('d')]);
    let old = FrameBuffer(vec![Cell::empty(); 4]);
    let mut out: Vec<DiffProduct> = Vec::new();
    diff_frame_buffers(&mut out, &cur, &old, 2);
    assert_eq!(out.len(), 4);
    let expected = [('a', 0, 0), ('b', 1, 0), ('c', 0, 1), ('d', 1, 1)];
    for (entry, (ch, x, y)) in out.iter().zip(expected.iter()) {
        assert_eq!(entry.cell.ch, *ch);
        assert_eq!(entry.x, *x);
        assert_eq!(entry.y, *y);
    }
}

#[test]
fn diff_with_even_cells_changed_is_selective() {
    let old = FrameBuffer(vec![Cell::empty(); 5]);
    let mut cur = FrameBuffer(vec![Cell::empty(); 5]);
    cur.0[0] = plain_cell('a');
    cur.0[2] = plain_cell('b');
    cur.0[4] = plain_cell('c');
    let mut out: Vec<DiffProduct> = Vec::new();
    diff_frame_buffers(&mut out, &cur, &old, 5);
    assert_eq!(out.len(), 3);
    assert_eq!((out[0].x, out[0].cell.ch), (0, 'a'));
    assert_eq!((out[1].x, out[1].cell.ch), (2, 'b'));
    assert_eq!((out[2].x, out[2].cell.ch), (4, 'c'));
}

#[test]
fn compose_clips_negative_start_column() {
    let mut buffer = FrameBuffer(vec![Cell::empty(); 3]);
    let queue = vec![DrawCall { rich_text: white_text("ABC"), x: -1, y: 0 }];
    compose_frame_buffer(&mut buffer, &queue, 3, 1, Color::black());
    assert_eq!(buffer.0[0].ch, 'B');
    assert_eq!(buffer.0[1].ch, 'C');
    assert_eq!(buffer.0[2], Cell::empty());
}

#[test]
fn compose_drops_characters_past_right_edge() {
    let mut buffer = FrameBuffer(vec![Cell::empty(); 3]);
    let queue = vec![DrawCall { rich_text: white_text("AB"), x: 2, y: 0 }];
    compose_frame_buffer(&mut buffer, &queue, 3, 1, Color::black());
    assert_eq!(buffer.0[0], Cell::empty());
    assert_eq!(buffer.0[1], Cell::empty());
    assert_eq!(buffer.0[2].ch, 'A');
}

#[test]
fn compose_skips_out_of_bounds_rows_and_columns() {
    let mut buffer = FrameBuffer(vec![Cell::empty(); 3]);
    let queue = vec![
        DrawCall { rich_text: white_text("AB"), x: 0, y: -1 },
        DrawCall { rich_text: white_text("AB"), x: 0, y: 1 },
        DrawCall { rich_text: white_text("AB"), x: 3, y: 0 },
    ];
    compose_frame_buffer(&mut buffer, &queue, 3, 1, Color::black());
    assert!(buffer.0.iter().all(|c| *c == Cell::empty()));
}

#[test]
fn later_draw_calls_paint_over_earlier_ones() {
    let mut buffer = FrameBuffer(vec![Cell::empty(); 2]);
    let queue = vec![
        DrawCall { rich_text: white_text("XY"), x: 0, y: 0 },
        DrawCall { rich_text: white_text("Z"), x: 0, y: 0 },
    ];
    compose_frame_buffer(&mut buffer, &queue, 2, 1, Color::black());
    assert_eq!(buffer.0[0].ch, 'Z');
    assert_eq!(buffer.0[1].ch, 'Y');
}

#[test]
fn present_text_draw_yields_expected_diff() {
    // A 3 by 1 frame, all cells default. Drawing "AB" at the origin with an
    // opaque white foreground and no background must diff to exactly two
    // entries, and the third cell stays untouched.
    let mut frame = Frame::new(3, 1);
    draw_text(&mut frame.draw_queue[0], Pos::new(0, 0), white_text("AB"));
    frame.present(Color::black());

    assert_eq!(frame.diff_products.len(), 2);
    let first = &frame.diff_products[0];
    assert_eq!((first.x, first.y), (0, 0));
    assert_eq!(first.cell.ch, 'A');
    assert_eq!(first.cell.fg, Color::white());
    assert!(!first.cell.attributes.no_fg_color);
    assert!(first.cell.attributes.no_bg_color);
    let second = &frame.diff_products[1];
    assert_eq!((second.x, second.y), (1, 0));
    assert_eq!(second.cell.ch, 'B');
    assert_eq!(second.cell.fg, Color::white());
    assert_eq!(frame.buffers.current().0[2], Cell::empty());
}

#[test]
fn present_blends_translucent_rect_over_opaque_rect() {
    // An opaque red rectangle of width 2, then a translucent blue one over
    // the same cells: the background must be a blend of red and blue, and
    // the untouched columns keep the default empty cell.
    let mut frame = Frame::new(4, 1);
    draw_rect(&mut frame.draw_queue[0], Pos::new(0, 0), Size::new(2, 1), Color::red());
    let translucent_blue = RichText::new("  ").with_bg(Some(Color::rgba(0, 0, 255, 128)));
    draw_text(&mut frame.draw_queue[0], Pos::new(0, 0), translucent_blue);
    frame.present(Color::black());

    for col in 0..2usize {
        let bg = frame.buffers.current().0[col].bg;
        assert_eq!(bg, Color::rgba(127, 0, 128, 255));
        assert_ne!((bg.r, bg.g, bg.b), (255, 0, 0));
        assert_ne!((bg.r, bg.g, bg.b), (0, 0, 255));
    }
    assert_eq!(frame.buffers.current().0[2], Cell::empty());
    assert_eq!(frame.buffers.current().0[3], Cell::empty());
}

#[test]
fn present_round_trips_through_swap() {
    // After compositing a frame and presenting (which swaps), a second
    // present with no new draws finds nothing to emit.
    let mut frame = Frame::new(5, 2);
    draw_text(&mut frame.draw_queue[0], Pos::new(1, 1), white_text("hi"));
    frame.present(Color::black());
    assert!(!frame.diff_products.is_empty());

    frame.present(Color::black());
    assert!(frame.diff_products.is_empty());
}

#[test]
fn begin_frame_clears_current_half_only() {
    let mut frame = Frame::new(3, 1);
    draw_text(&mut frame.draw_queue[0], Pos::new(0, 0), white_text("A"));
    frame.present(Color::black());
    frame.begin_frame();
    assert!(frame.buffers.current().0.iter().all(|c| *c == Cell::empty()));
    assert_eq!(frame.buffers.old_half().0[0].ch, 'A');
    assert!(frame.draw_queue.iter().all(|q| q.is_empty()));
    assert!(frame.flat_draw_queue.is_empty());
}

#[test]
fn layers_flatten_back_to_front_in_submission_order() {
    let mut frame = Frame::new(2, 1);
    frame.push_draw_call(1, DrawCall { rich_text: white_text("b"), x: 2, y: 0 });
    frame.push_draw_call(0, DrawCall { rich_text: white_text("a"), x: 1, y: 0 });
    frame.push_draw_call(1, DrawCall { rich_text: white_text("c"), x: 3, y: 0 });
    assert_eq!(frame.draw_queue.len(), 2);
    frame.flatten_draw_queue();
    let xs: Vec<i16> = frame.flat_draw_queue.iter().map(|c| c.x).collect();
    assert_eq!(xs, vec![1, 2, 3]);
    assert!(frame.draw_queue.iter().all(|q| q.is_empty()));
}

#[test]
fn layered_present_draws_higher_layers_on_top() {
    let mut frame = Frame::new(1, 1);
    frame.push_draw_call(1, DrawCall { rich_text: white_text("T"), x: 0, y: 0 });
    frame.push_draw_call(0, DrawCall { rich_text: white_text("B"), x: 0, y: 0 });
    frame.present(Color::black());
    assert_eq!(frame.buffers.current().0[0].ch, 'T');
}

#[test]
fn draw_rect_queues_one_call_per_row() {
    let mut queue: Vec<DrawCall> = Vec::new();
    draw_rect(&mut queue, Pos::new(1, 2), Size::new(3, 2), Color::blue());
    assert_eq!(queue.len(), 2);
    assert_eq!((queue[0].x, queue[0].y), (1, 2));
    assert_eq!((queue[1].x, queue[1].y), (1, 3));
    assert_eq!(queue[0].rich_text.text, "   ");
    assert_eq!(queue[0].rich_text.style.bg(), Some(Color::blue()));
    assert_eq!(queue[0].rich_text.style.fg(), Some(Color::black()));
    assert_eq!(queue[0].rich_text.cell_format, CellFormat::Standard);
}

#[test]
fn draw_rect_with_zero_width_queues_empty_rows() {
    let mut queue: Vec<DrawCall> = Vec::new();
    draw_rect(&mut queue, Pos::new(0, 0), Size::new(0, 1), Color::blue());
    assert_eq!(queue.len(), 1);
    assert_eq!(queue[0].rich_text.text, "");
}

#[test]
fn fill_screen_covers_every_row() {
    let mut queue: Vec<DrawCall> = Vec::new();
    fill_screen(&mut queue, 4, 3, Color::green());
    assert_eq!(queue.len(), 3);
    for (row, call) in queue.iter().enumerate() {
        assert_eq!(call.x, 0);
        assert_eq!(call.y, row as i16);
        assert_eq!(call.rich_text.text, "    ");
        assert_eq!(call.rich_text.style.bg(), Some(Color::green()));
    }
}

#[test]
fn richtext_builders_set_style() {
    let t = RichText::new("hi")
        .with_fg(Some(Color::red()))
        .with_bg(Some(Color::blue()))
        .with_attributes(Attributes { bold: true, ..Attributes::empty() })
        .with_cell_format(CellFormat::Octad);
    assert_eq!(t.text, "hi");
    assert_eq!(t.style.fg(), Some(Color::red()));
    assert_eq!(t.style.bg(), Some(Color::blue()));
    assert!(t.style.attributes.bold);
    assert!(!t.style.attributes.italic);
    assert_eq!(t.cell_format, CellFormat::Octad);
}

#[test]
fn emit_commands_repaint_each_diffed_cell() {
    let mut cell = Cell::empty();
    cell.ch = 'W';
    cell.fg = Color::white();
    cell.attributes.no_fg_color = false;
    cell.attributes.bold = true;
    let diff = vec![DiffProduct { cell, x: 7, y: 3 }];
    let commands = emit_commands(&diff);
    assert_eq!(commands.len(), 4);
    assert_eq!(commands[0], TermCommand::MoveTo(7, 3));
    assert_eq!(commands[1], TermCommand::ResetStyle);
    match commands[2] {
        TermCommand::SetStyle(style) => {
            assert_eq!(style.fg, Some(Color::white()));
            assert_eq!(style.bg, None);
            assert!(style.bold);
            assert!(!style.italic);
        },
        _ => panic!("expected a style command"),
    }
    assert_eq!(commands[3], TermCommand::Print('W'));
}

#[test]
fn emit_commands_of_empty_diff_is_empty() {
    let commands = emit_commands(&Vec::new());
    assert!(commands.is_empty());
}

#[test]
fn zero_sized_frame_presents_nothing() {
    let mut frame = Frame::new(0, 0);
    draw_text(&mut frame.draw_queue[0], Pos::new(0, 0), white_text("A"));
    frame.present(Color::black());
    assert!(frame.diff_products.is_empty());
    assert!(frame.buffers.current().0.is_empty());
}

#[test]
fn second_frame_diffs_only_what_changed() {
    let mut frame = Frame::new(2, 1);
    draw_text(&mut frame.draw_queue[0], Pos::new(0, 0), white_text("A"));
    frame.present(Color::black());
    assert_eq!(frame.diff_products.len(), 1);

    frame.begin_frame();
    draw_text(&mut frame.draw_queue[0], Pos::new(0, 0), white_text("AB"));
    frame.present(Color::black());
    // Cell 0 holds the same 'A' as last frame; only cell 1 changed.
    assert_eq!(frame.diff_products.len(), 1);
    assert_eq!(frame.diff_products[0].x, 1);
    assert_eq!(frame.diff_products[0].cell.ch, 'B');
}
