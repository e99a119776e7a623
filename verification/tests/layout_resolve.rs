use rrr_tui::color::TextColor;
use rrr_tui::component::{ComponentId, Node};
use rrr_tui::geometry::Rect;
use rrr_tui::layout::{
    clear_dirty_cache, compute_absolute_layout, layout_algorithm, DisplayMode, LayoutAlgorithm,
    NodeLayout, RelativeLayout, RunMode,
};
use rrr_tui::scrollbar::scroll_bar_layout;
use rrr_tui::widgets::{ButtonState, Widget};

fn chars(s: &str) -> Vec<char> {
    s.chars().collect()
}

fn rel(x: i64, y: i64, w: i64, h: i64) -> RelativeLayout {
    let r = Rect::from_extent(x, y, w, h);
    RelativeLayout { content: r, padding: r, border: r, overflow_w: 0, overflow_h: 0 }
}

fn node_with(id: u64, widget: Widget, layout: RelativeLayout, children: Vec<Node>) -> Node {
    Node {
        id: ComponentId(id),
        widget,
        layout: NodeLayout {
            relative: layout,
            absolute: None,
            relative_dirty: false,
            successors_dirty: false,
        },
        children,
    }
}

fn button(id: u64, layout: RelativeLayout) -> Node {
    node_with(
        id,
        Widget::Button(ButtonState {
            label: chars("go"),
            text_color_unfocused: TextColor::white_on_black(),
            text_color_focused: TextColor::white_on_black(),
            text_color_pressed: TextColor::white_on_black(),
            held_down: false,
            form_confirmation: false,
        }),
        layout,
        vec![],
    )
}

/// root pane (80x24) -> pane at (2,1) 40x10 -> button at (3,2) 10x1
fn three_level_tree() -> Node {
    let btn = button(2, rel(3, 2, 10, 1));
    let pane = node_with(1, Widget::Pane, rel(2, 1, 40, 10), vec![btn]);
    node_with(0, Widget::Pane, rel(0, 0, 80, 24), vec![pane])
}

fn frame() -> Rect {
    Rect::from_minmax(0, 0, 80, 24)
}

#[test]
fn end_to_end_button_rectangle() {
    let mut tree = three_level_tree();
    compute_absolute_layout(&mut tree, frame(), None);
    let (btn, _) = tree.find_component_by_id(2).unwrap();
    let abs = btn.layout.absolute.unwrap();
    // offset of the inner pane is its padding corner (2,1)
    assert_eq!(abs.content_rect, Rect::from_minmax(5, 3, 15, 4));
    assert_eq!(abs.overflow_rect_clip, Rect::from_minmax(5, 3, 15, 4));
    let (pane, _) = tree.find_component_by_id(1).unwrap();
    let pabs = pane.layout.absolute.unwrap();
    assert_eq!(pabs.padding_rect, Rect::from_minmax(2, 1, 42, 11));
    assert_eq!(pabs.offset_x, 2);
    assert_eq!(pabs.offset_y, 1);
    // send the resolved button a confirm key event along the focus path
    let path = tree.find_component_by_id(2).unwrap().1;
    let confirm = rrr_tui::event::Event::Key(rrr_tui::event::KeyEvent {
        code: rrr_tui::event::KeyCode::Enter,
        modifiers: rrr_tui::event::KeyModifiers::none(),
        kind: rrr_tui::event::KeyEventKind::Press,
    });
    let actions = rrr_tui::focus::dispatch_event(&mut tree, &path.0, 0, &confirm, 0);
    assert_eq!(
        actions,
        vec![
            rrr_tui::action::Action::BroadcastMessage(
                rrr_tui::action::ComponentMessage::OnButtonPress { id: ComponentId(2) }
            ),
            rrr_tui::action::Action::Render,
        ]
    );
    match &tree.find_component_by_id(2).unwrap().0.widget {
        Widget::Button(b) => assert!(b.held_down),
        _ => panic!("expected a button"),
    }
    // losing focus releases the held button
    rrr_tui::focus::handle_event_at_deepest(
        &mut tree,
        &path.0,
        0,
        &rrr_tui::event::Event::FocusLost,
        0,
    );
    match &tree.find_component_by_id(2).unwrap().0.widget {
        Widget::Button(b) => assert!(!b.held_down),
        _ => panic!("expected a button"),
    }
}

#[test]
fn resolving_twice_is_idempotent_and_skips_everything() {
    let mut tree = three_level_tree();
    let counts = compute_absolute_layout(&mut tree, frame(), None);
    assert_eq!(counts.0, 3); // all three nodes computed
    assert_eq!(counts.1, 0);
    let before: Vec<_> = [0u64, 1, 2]
        .iter()
        .map(|id| tree.find_component_by_id(*id).unwrap().0.layout.absolute)
        .collect();
    // second resolve with no changes anywhere: one skip, nothing visited
    let counts = compute_absolute_layout(&mut tree, frame(), Some(frame()));
    assert_eq!(counts, (0, 1));
    let after: Vec<_> = [0u64, 1, 2]
        .iter()
        .map(|id| tree.find_component_by_id(*id).unwrap().0.layout.absolute)
        .collect();
    assert_eq!(before, after);
}

#[test]
fn frame_change_forces_recompute() {
    let mut tree = three_level_tree();
    compute_absolute_layout(&mut tree, frame(), None);
    let other = Rect::from_minmax(0, 0, 60, 20);
    let counts = compute_absolute_layout(&mut tree, other, Some(frame()));
    assert_eq!(counts.0, 3);
}

#[test]
fn dirty_leaf_leaves_sibling_subtree_bit_identical() {
    // root -> [pane A -> button, pane B -> button]
    let btn_a = button(2, rel(1, 1, 5, 1));
    let pane_a = node_with(1, Widget::Pane, rel(0, 0, 20, 10), vec![btn_a]);
    let btn_b = button(4, rel(1, 1, 5, 1));
    let pane_b = node_with(3, Widget::Pane, rel(20, 0, 20, 10), vec![btn_b]);
    let mut tree = node_with(0, Widget::Pane, rel(0, 0, 80, 24), vec![pane_a, pane_b]);
    compute_absolute_layout(&mut tree, frame(), None);
    let b_before = tree.find_component_by_id(4).unwrap().0.layout.absolute;
    let pane_b_before = tree.find_component_by_id(3).unwrap().0.layout.absolute;
    // mark the leaf of subtree A style-dirty and rerun the pipeline
    tree.children[0].children[0].layout.mark_cached_relative_layout_dirty();
    let flags = clear_dirty_cache(&mut tree);
    // the style flag cascades; the absolute-missing flag reports the state
    // before the pass dropped the caches
    assert_eq!(flags, (true, false));
    // the dirty leaf and its ancestors lost their caches
    assert!(tree.find_component_by_id(2).unwrap().0.layout.absolute.is_none());
    assert!(tree.find_component_by_id(0).unwrap().0.layout.absolute.is_none());
    compute_absolute_layout(&mut tree, frame(), Some(frame()));
    // the unrelated sibling subtree resolves to bit-identical rectangles
    let b_after = tree.find_component_by_id(4).unwrap().0.layout.absolute;
    let pane_b_after = tree.find_component_by_id(3).unwrap().0.layout.absolute;
    assert_eq!(b_before, b_after);
    assert_eq!(pane_b_before, pane_b_after);
}

#[test]
fn scroll_offset_shifts_descendants() {
    let inner = button(2, rel(0, 0, 10, 1));
    let mut pane_rel = rel(0, 0, 20, 5);
    pane_rel.overflow_h = 50;
    let scroll = node_with(
        1,
        Widget::ScrollPane(rrr_tui::widgets::ScrollPaneState {
            scroll_x: 0,
            scroll_y: 3,
            scroll_bar_layout: None,
            animation: None,
            color_rail: rrr_tui::color::Blended::new(
                rrr_tui::color::ColorOklab::new(1_000_000, 0, 0),
                200_000,
            ),
            color_bar: rrr_tui::color::Blended::new(
                rrr_tui::color::ColorOklab::new(1_000_000, 0, 0),
                1_000_000,
            ),
        }),
        pane_rel,
        vec![inner],
    );
    let mut tree = node_with(0, Widget::Pane, rel(0, 0, 80, 24), vec![scroll]);
    compute_absolute_layout(&mut tree, frame(), None);
    let (btn, _) = tree.find_component_by_id(2).unwrap();
    // the scroll pane shifts its descendants up by the scroll position
    assert_eq!(btn.layout.absolute.unwrap().content_rect, Rect::from_minmax(0, -3, 10, -2));
    // the scroll pane recomputed its scrollbar geometry on resolve
    let (sp, _) = tree.find_component_by_id(1).unwrap();
    match &sp.widget {
        Widget::ScrollPane(s) => {
            let sb = s.scroll_bar_layout.expect("scrollbar expected");
            assert!(sb.bar_len_eighths >= 8);
        },
        _ => panic!("expected a scroll pane"),
    }
}

#[test]
fn scrollbar_bar_never_thinner_than_one_cell() {
    // arbitrarily large content against a 10-cell viewport
    let content = Rect::from_minmax(0, 0, 1, 10);
    let sb = scroll_bar_layout(content, 65535, 0).unwrap();
    assert_eq!(sb.bar_len_eighths, 8);
    assert!(sb.bar_len_eighths >= 8);
    // a comfortable ratio gives a proportional bar
    let sb = scroll_bar_layout(content, 20, 0).unwrap();
    assert_eq!(sb.bar_len_eighths, 40); // 80 eighths * 10 / 20
    // no scrollbar when everything fits
    assert!(scroll_bar_layout(content, 10, 0).is_none());
    // scrolled panes always show one
    assert!(scroll_bar_layout(content, 10, 1).is_some());
}

#[test]
fn scrollbar_caps_on_cell_boundaries() {
    let content = Rect::from_minmax(0, 0, 1, 10);
    // bar length 40 eighths starting at 0: both ends on cell boundaries
    let sb = scroll_bar_layout(content, 20, 0).unwrap();
    assert!(sb.bar_start_cap.is_none());
    assert!(sb.bar_end_cap.is_none());
    assert_eq!(sb.bar_start_ceil, 0);
    assert_eq!(sb.bar_end_floor, 5);
    assert_eq!(sb.rail_x, 0);
}

#[test]
fn layout_algorithm_dispatch() {
    // a hidden run wins over everything
    assert_eq!(
        layout_algorithm(DisplayMode::Flex, true, RunMode::PerformHiddenLayout),
        LayoutAlgorithm::Hidden
    );
    assert_eq!(
        layout_algorithm(DisplayMode::Hidden, true, RunMode::PerformLayout),
        LayoutAlgorithm::Hidden
    );
    // childless nodes are measured as leaves, whatever their display mode
    assert_eq!(
        layout_algorithm(DisplayMode::Grid, false, RunMode::PerformLayout),
        LayoutAlgorithm::Leaf
    );
    assert_eq!(
        layout_algorithm(DisplayMode::Block, true, RunMode::ComputeSize),
        LayoutAlgorithm::Block
    );
    assert_eq!(
        layout_algorithm(DisplayMode::Flex, true, RunMode::PerformLayout),
        LayoutAlgorithm::Flex
    );
    assert_eq!(
        layout_algorithm(DisplayMode::Grid, true, RunMode::PerformLayout),
        LayoutAlgorithm::Grid
    );
}
