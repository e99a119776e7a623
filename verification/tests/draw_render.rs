use rrr_tui::animation::{
    ease, sweep_position, BlendAnimation, BlendAnimationDescriptor, EasingKind, RectAnimation,
};
use rrr_tui::color::TextColor;
use rrr_tui::component::{ComponentId, Node};
use rrr_tui::draw::{block_symbol, Buffer, Cell, DrawContext};
use rrr_tui::fixed::SCALE;
use rrr_tui::geometry::Rect;
use rrr_tui::color::{Blended, ColorOklab};
use rrr_tui::layout::{compute_absolute_layout, AbsoluteLayout, NodeLayout, RelativeLayout};
use rrr_tui::widgets::ScrollPaneState;
use rrr_tui::line_spacer::{
    char_to_symbol_slow, symbol_to_char, symbol_to_char_table, Direction, LineSpacer, LineType,
    RectSpacer, Symbol,
};
use rrr_tui::widgets::TextBlockState;
use rrr_tui::widgets::{ButtonState, Widget};

fn chars(s: &str) -> Vec<char> {
    s.chars().collect()
}

fn symbol_at(buffer: &Buffer, x: i64, y: i64) -> char {
    buffer.cell_at(x, y).unwrap().symbol
}

#[test]
fn buffer_starts_blank_and_takes_cells() {
    let mut b = Buffer::new(4, 2);
    assert_eq!(symbol_at(&b, 0, 0), ' ');
    assert_eq!(b.index_of_opt_alt(3, 1), Some(7));
    assert_eq!(b.index_of_opt_alt(4, 0), None);
    b.set_cell(1, 1, Cell { symbol: 'q', ..Cell::blank() });
    assert_eq!(symbol_at(&b, 1, 1), 'q');
    // writes off the surface are dropped
    b.set_cell(9, 9, Cell { symbol: 'z', ..Cell::blank() });
    assert!(b.cell_at(9, 9).is_none());
}

#[test]
fn buffer_blit_copies_a_block() {
    let mut src = Buffer::new(3, 1);
    src.set_cell(0, 0, Cell { symbol: 'a', ..Cell::blank() });
    src.set_cell(1, 0, Cell { symbol: 'b', ..Cell::blank() });
    src.set_cell(2, 0, Cell { symbol: 'c', ..Cell::blank() });
    let mut dst = Buffer::new(5, 2);
    dst.blit(&src, 1, 0, 2, 1, 2, 1);
    assert_eq!(symbol_at(&dst, 2, 1), 'b');
    assert_eq!(symbol_at(&dst, 3, 1), 'c');
    assert_eq!(symbol_at(&dst, 1, 1), ' ');
    assert_eq!(symbol_at(&dst, 4, 1), ' ');
}

#[test]
fn draw_text_is_clipped_to_the_view() {
    let buffer = Buffer::new(6, 2);
    let mut ctx = DrawContext::new(buffer, Vec::new(), 0, 0);
    ctx.view = Rect::from_minmax(1, 0, 4, 2);
    ctx.draw_text(0, 0, &chars("wide"), TextColor::white_on_black());
    // the character at x=0 lies outside the view and stays blank
    assert_eq!(symbol_at(&ctx.buffer, 0, 0), ' ');
    assert_eq!(symbol_at(&ctx.buffer, 1, 0), 'i');
    assert_eq!(symbol_at(&ctx.buffer, 2, 0), 'd');
    assert_eq!(symbol_at(&ctx.buffer, 3, 0), 'e');
    assert_eq!(symbol_at(&ctx.buffer, 4, 0), ' ');
}

#[test]
fn draw_component_writes_only_inside_the_clip() {
    let r = Rect::from_extent(1, 1, 4, 1);
    let rl = RelativeLayout { content: r, padding: r, border: r, overflow_w: 0, overflow_h: 0 };
    let btn = Node {
        id: ComponentId(1),
        widget: Widget::Button(ButtonState {
            label: chars("hi"),
            text_color_unfocused: TextColor::white_on_black(),
            text_color_focused: TextColor::white_on_black(),
            text_color_pressed: TextColor::white_on_black(),
            held_down: false,
            form_confirmation: false,
        }),
        layout: NodeLayout {
            relative: rl,
            absolute: None,
            relative_dirty: false,
            successors_dirty: false,
        },
        children: Vec::new(),
    };
    let root_r = Rect::from_extent(0, 0, 8, 3);
    let mut tree = Node {
        id: ComponentId(0),
        widget: Widget::Pane,
        layout: NodeLayout {
            relative: RelativeLayout {
                content: root_r,
                padding: root_r,
                border: root_r,
                overflow_w: 0,
                overflow_h: 0,
            },
            absolute: None,
            relative_dirty: false,
            successors_dirty: false,
        },
        children: vec![btn],
    };
    compute_absolute_layout(&mut tree, Rect::from_minmax(0, 0, 8, 3), None);
    let buffer = Buffer::new(8, 3);
    let mut ctx = DrawContext::new(buffer, Vec::new(), 0, 0);
    ctx.draw_component(&tree);
    // the label is centered in the 4-cell button row at (1..5, 1)
    assert_eq!(symbol_at(&ctx.buffer, 2, 1), 'h');
    assert_eq!(symbol_at(&ctx.buffer, 3, 1), 'i');
    // nothing was written outside the button's clip rectangle
    assert_eq!(symbol_at(&ctx.buffer, 0, 0), ' ');
    assert_eq!(symbol_at(&ctx.buffer, 7, 2), ' ');
}

#[test]
fn line_spacers_merge_into_junctions() {
    let mut b = Buffer::new(3, 3);
    let horizontal = LineSpacer { direction: Direction::Horizontal, line_type: LineType::Standard };
    horizontal.render_ref(0, 1, 3, 1, &mut b);
    assert_eq!(symbol_at(&b, 0, 1), '\u{2576}'); // open left end
    assert_eq!(symbol_at(&b, 1, 1), '\u{2500}');
    assert_eq!(symbol_at(&b, 2, 1), '\u{2574}'); // open right end
    let vertical = LineSpacer { direction: Direction::Vertical, line_type: LineType::Standard };
    vertical.render_ref(1, 0, 1, 3, &mut b);
    // the crossing of the two standard lines forms a junction
    assert_eq!(symbol_at(&b, 1, 1), '\u{253C}');
}

#[test]
fn rect_spacer_draws_a_frame() {
    let mut b = Buffer::new(3, 3);
    RectSpacer { line_type: LineType::Standard }.render_ref(0, 0, 3, 3, &mut b);
    assert_eq!(symbol_at(&b, 0, 0), '\u{250C}');
    assert_eq!(symbol_at(&b, 2, 0), '\u{2510}');
    assert_eq!(symbol_at(&b, 0, 2), '\u{2514}');
    assert_eq!(symbol_at(&b, 2, 2), '\u{2518}');
    assert_eq!(symbol_at(&b, 1, 0), '\u{2500}');
    assert_eq!(symbol_at(&b, 0, 1), '\u{2502}');
}

#[test]
fn symbols_round_trip_through_characters() {
    let cross = char_to_symbol_slow('\u{253C}').unwrap();
    assert_eq!(cross.top, LineType::Standard);
    assert_eq!(cross.right, LineType::Standard);
    assert_eq!(cross.bottom, LineType::Standard);
    assert_eq!(cross.left, LineType::Standard);
    assert_eq!(symbol_to_char(&cross), '\u{253C}');
    assert!(char_to_symbol_slow('x').is_none());
    // union picks the heavier weight per side
    let heavy_right = Symbol::new(LineType::NoLine, LineType::Bold, LineType::NoLine,
        LineType::NoLine);
    let light_row = char_to_symbol_slow('\u{2500}').unwrap();
    let merged = light_row.union(&heavy_right);
    assert_eq!(symbol_to_char(&merged), '\u{257C}');
    // the table agrees with the direct encoding
    let table = symbol_to_char_table();
    assert_eq!(table[cross.index()], '\u{253C}');
}

#[test]
fn wrapped_lines_actually_wrap() {
    let block = TextBlockState { lines: vec![chars("hello world"), chars("ab")] };
    let wrapped = block.wrapped_lines(5);
    let as_strings: Vec<String> = wrapped.iter().map(|l| l.iter().collect()).collect();
    assert_eq!(as_strings, vec!["hello".to_string(), "world".to_string(), "ab".to_string()]);
    let (w, h) = block.measure(5);
    assert_eq!(w, 5);
    assert_eq!(h, 3);
}

#[test]
fn easing_endpoints_and_shape() {
    assert_eq!(ease(EasingKind::Linear, 300_000), 300_000);
    assert_eq!(ease(EasingKind::EaseInOutCubic, 0), 0);
    assert_eq!(ease(EasingKind::EaseInOutCubic, SCALE), SCALE);
    assert_eq!(ease(EasingKind::EaseInOutCubic, SCALE / 2), SCALE / 2);
    // slow start: far below linear at a quarter
    assert!(ease(EasingKind::EaseInOutCubic, SCALE / 4) < SCALE / 4);
}

#[test]
fn blend_animation_progress_window() {
    let descriptor = BlendAnimationDescriptor {
        easing: EasingKind::Linear,
        start_delay_ms: 100,
        duration_ms: 200,
    };
    let anim = BlendAnimation::new_started(descriptor, 1_000);
    // before the delayed start
    assert_eq!(anim.progress_at(1_050), 0);
    // halfway through
    assert_eq!(anim.progress_at(1_200), SCALE / 2);
    // after the end
    assert_eq!(anim.progress_at(2_000), SCALE);
    // a never-started animation applies the target at once
    let stopped = BlendAnimation::new_stopped(descriptor);
    assert_eq!(stopped.progress_at(0), SCALE);
    // alpha fading by the animation
    assert_eq!(anim.apply_alpha(1_200, 1_000_000, 0), 500_000);
}

#[test]
fn sweep_position_ping_pongs() {
    assert_eq!(sweep_position(0, 1_000), 0);
    assert_eq!(sweep_position(250, 1_000), SCALE / 2);
    assert_eq!(sweep_position(500, 1_000), SCALE);
    assert_eq!(sweep_position(750, 1_000), SCALE / 2);
    assert_eq!(sweep_position(1_000, 1_000), 0);
}

#[test]
fn block_symbols_by_eighths() {
    assert_eq!(block_symbol(0), '\u{2588}');
    assert_eq!(block_symbol(4), '\u{2584}');
    assert_eq!(block_symbol(7), '\u{2581}');
    assert_eq!(block_symbol(8), ' ');
}

#[test]
fn rect_animation_variants() {
    let area = Rect::from_minmax(0, 0, 5, 1);
    let white_on_black = TextColor::white_on_black();
    // a constant style fills the area
    let mut ctx = DrawContext::new(Buffer::new(5, 1), Vec::new(), 0, 0);
    ctx.apply_rect_animation(&RectAnimation::Static { color: white_on_black.invert() }, area);
    assert_eq!(ctx.buffer.cell_at(2, 0).unwrap().bg, white_on_black.fg);
    // the indeterminate sweep highlights exactly one cell; at a quarter
    // period the ping-pong position is halfway across
    let mut ctx = DrawContext::new(Buffer::new(5, 1), Vec::new(), 0, 250);
    ctx.apply_rect_animation(
        &RectAnimation::ProgressIndeterminate { period_ms: 1_000, highlight: white_on_black.invert() },
        area,
    );
    assert_eq!(ctx.buffer.cell_at(2, 0).unwrap().bg, white_on_black.fg);
    assert_eq!(ctx.buffer.cell_at(1, 0).unwrap().bg, white_on_black.bg);
    // an eased blend applies the interpolated style for the frame
    let blend = BlendAnimation::new_started(
        BlendAnimationDescriptor { easing: EasingKind::Linear, start_delay_ms: 0, duration_ms: 100 },
        0,
    );
    let mut ctx = DrawContext::new(Buffer::new(5, 1), Vec::new(), 200, 0);
    ctx.apply_rect_animation(
        &RectAnimation::Ease {
            blend,
            color_start: white_on_black,
            color_end: white_on_black.invert(),
        },
        area,
    );
    assert_eq!(ctx.buffer.cell_at(0, 0).unwrap().bg, white_on_black.fg);
}

#[test]
fn scrollbar_fill_blanks_the_bar_cells() {
    let content = Rect::from_minmax(0, 0, 2, 4);
    let abs = AbsoluteLayout {
        overflow_w: 0,
        overflow_h: 8,
        overflow_rect_clip: content,
        content_rect: content,
        padding_rect: content,
        border_rect: content,
        scroll_x: 0,
        scroll_y: 0,
        offset_x: 0,
        offset_y: 0,
    };
    let pane = Node {
        id: ComponentId(1),
        widget: Widget::ScrollPane(ScrollPaneState {
            scroll_x: 0,
            scroll_y: 0,
            scroll_bar_layout: rrr_tui::scrollbar::scroll_bar_layout(content, 8, 0),
            // started but still before its delayed start: alphas apply in full
            animation: Some(BlendAnimation::new_started(
                BlendAnimationDescriptor {
                    easing: EasingKind::Linear,
                    start_delay_ms: 1_000,
                    duration_ms: 1_000,
                },
                0,
            )),
            color_rail: Blended::new(ColorOklab::new(SCALE, 0, 0), SCALE / 5),
            color_bar: Blended::new(ColorOklab::new(SCALE, 0, 0), SCALE),
        }),
        layout: NodeLayout {
            relative: RelativeLayout {
                content,
                padding: content,
                border: content,
                overflow_w: 0,
                overflow_h: 8,
            },
            absolute: Some(abs),
            relative_dirty: false,
            successors_dirty: false,
        },
        children: Vec::new(),
    };
    let mut buffer = Buffer::new(2, 4);
    // pre-fill the rail column with glyphs to see which cells are blanked
    for y in 0..4 {
        buffer.set_cell(1, y, Cell { symbol: '#', ..Cell::blank() });
    }
    let mut ctx = DrawContext::new(buffer, Vec::new(), 0, 0);
    ctx.draw_component(&pane);
    // content is twice the viewport: the bar covers the top two rows; its
    // general fill path blanks the glyphs there
    assert_eq!(symbol_at(&ctx.buffer, 1, 0), ' ');
    assert_eq!(symbol_at(&ctx.buffer, 1, 1), ' ');
    // the rail below keeps its glyphs, only recolored
    assert_eq!(symbol_at(&ctx.buffer, 1, 2), '#');
    assert_eq!(symbol_at(&ctx.buffer, 1, 3), '#');
}
