use rrr_tui::action::FocusChangeDirection;
use rrr_tui::color::TextColor;
use rrr_tui::component::{ComponentId, ComponentIdPath, IdAllocator, Node};
use rrr_tui::focus::change_focus;
use rrr_tui::layout::NodeLayout;
use rrr_tui::widgets::{ButtonState, CheckboxState, Cursor, InputFieldState, Widget};

fn chars(s: &str) -> Vec<char> {
    s.chars().collect()
}

fn button(id: u64, label: &str) -> Node {
    Node {
        id: ComponentId(id),
        widget: Widget::Button(ButtonState {
            label: chars(label),
            text_color_unfocused: TextColor::white_on_black(),
            text_color_focused: TextColor::white_on_black().invert(),
            text_color_pressed: TextColor::white_on_black(),
            held_down: false,
            form_confirmation: false,
        }),
        layout: NodeLayout::new(),
        children: Vec::new(),
    }
}

fn checkbox(id: u64, label: &str, checked: bool) -> Node {
    Node {
        id: ComponentId(id),
        widget: Widget::Checkbox(CheckboxState {
            label: chars(label),
            checked,
            string_checked: chars("[x]"),
            string_unchecked: chars("[ ]"),
        }),
        layout: NodeLayout::new(),
        children: Vec::new(),
    }
}

fn input(id: u64, content: &str) -> Node {
    Node {
        id: ComponentId(id),
        widget: Widget::InputField(InputFieldState {
            content: chars(content),
            cursor: Cursor::at(0),
        }),
        layout: NodeLayout::new(),
        children: Vec::new(),
    }
}

fn pane(id: u64, children: Vec<Node>) -> Node {
    Node { id: ComponentId(id), widget: Widget::Pane, layout: NodeLayout::new(), children }
}

/// root(0) -> pane(1) -> [button(2), checkbox(3)], input(4)
fn sample_tree() -> Node {
    pane(0, vec![pane(1, vec![button(2, "ok"), checkbox(3, "box", false)]), input(4, "hi")])
}

#[test]
fn id_allocator_is_sequential() {
    let mut alloc = IdAllocator::new();
    let a = ComponentId::new(&mut alloc);
    let b = ComponentId::new(&mut alloc);
    assert_eq!(a, ComponentId(1));
    assert_eq!(b, ComponentId(2));
    assert_eq!(ComponentId::root(), ComponentId(0));
}

#[test]
fn preorder_visits_every_node_once_parent_first() {
    let tree = sample_tree();
    let mut ids = Vec::new();
    tree.collect_preorder_ids(&mut ids);
    assert_eq!(ids, vec![0, 1, 2, 3, 4]);
    // every node exactly once
    for target in 0..5u64 {
        assert_eq!(ids.iter().filter(|i| **i == target).count(), 1);
    }
    // parent strictly before its descendants
    let pos = |id: u64| ids.iter().position(|i| *i == id).unwrap();
    assert!(pos(0) < pos(1) && pos(1) < pos(2) && pos(1) < pos(3) && pos(0) < pos(4));
}

#[test]
fn focusable_ids_in_preorder() {
    let tree = sample_tree();
    let mut f = Vec::new();
    tree.collect_focusable_ids(&mut f);
    assert_eq!(f, vec![2, 3, 4]);
}

#[test]
fn find_component_by_id_returns_node_and_path() {
    let tree = sample_tree();
    let (node, path) = tree.find_component_by_id(3).unwrap();
    assert_eq!(node.id, ComponentId(3));
    assert_eq!(path.0, vec![ComponentId(1), ComponentId(3)]);
    assert!(tree.find_component_by_id(77).is_none());
}

#[test]
fn deepest_available_component_tolerates_stale_paths() {
    let tree = sample_tree();
    // a fully valid path
    let path = ComponentIdPath(vec![ComponentId(1), ComponentId(2)]);
    let (node, prefix) = path.find_deepest_available_component(&tree);
    assert_eq!(node.id, ComponentId(2));
    assert_eq!(prefix.0, vec![ComponentId(1), ComponentId(2)]);
    // a stale tail: truncated at the deepest valid prefix
    let stale = ComponentIdPath(vec![ComponentId(1), ComponentId(99)]);
    let (node, prefix) = stale.find_deepest_available_component(&tree);
    assert_eq!(node.id, ComponentId(1));
    assert_eq!(prefix.0, vec![ComponentId(1)]);
    // an empty path denotes the root
    let empty = ComponentIdPath::empty();
    let (node, prefix) = empty.find_deepest_available_component(&tree);
    assert_eq!(node.id, ComponentId(0));
    assert_eq!(prefix.0, Vec::new());
}

#[test]
fn focus_forward_wraps_after_n_advances() {
    let mut tree = sample_tree();
    // start at the first focusable (id 2)
    let mut path = tree.find_component_by_id(2).unwrap().1;
    // three focusables: three forward advances return to the start
    for _ in 0..3 {
        let (new_path, _actions) = change_focus(&mut tree, &path, FocusChangeDirection::Forward, 0);
        path = new_path;
    }
    assert_eq!(path.0, vec![ComponentId(1), ComponentId(2)]);
}

#[test]
fn focus_backward_undoes_forward() {
    let mut tree = sample_tree();
    let start = tree.find_component_by_id(3).unwrap().1;
    let (fwd, _) = change_focus(&mut tree, &start, FocusChangeDirection::Forward, 0);
    assert_eq!(fwd.0, vec![ComponentId(4)]);
    let (back, _) = change_focus(&mut tree, &fwd, FocusChangeDirection::Backward, 0);
    assert_eq!(back.0, start.0);
}

#[test]
fn focus_backward_from_first_wraps_to_last() {
    let mut tree = sample_tree();
    let start = tree.find_component_by_id(2).unwrap().1;
    let (back, _) = change_focus(&mut tree, &start, FocusChangeDirection::Backward, 0);
    assert_eq!(back.0, vec![ComponentId(4)]);
}

#[test]
fn focus_change_notifies_gain() {
    // The newly focused input field selects its whole content on focus gain.
    let mut tree = sample_tree();
    let start = tree.find_component_by_id(3).unwrap().1;
    let (new_path, _) = change_focus(&mut tree, &start, FocusChangeDirection::Forward, 0);
    assert_eq!(new_path.0, vec![ComponentId(4)]);
    let (node, _) = tree.find_component_by_id(4).unwrap();
    match &node.widget {
        Widget::InputField(f) => {
            assert_eq!(f.cursor.start, 0);
            assert_eq!(f.cursor.end, 2);
        },
        _ => panic!("expected an input field"),
    }
}
