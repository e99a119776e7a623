use rrr_tui::action::{Action, ComponentMessage, FocusChange, FocusChangeDirection, FocusChangeScope};
use rrr_tui::app::{handle_key_event, reduce_action, ActionEffect, AppState};
use rrr_tui::color::TextColor;
use rrr_tui::component::{ComponentId, Node};
use rrr_tui::event::{Event, KeyCode, KeyEvent, KeyEventKind, KeyModifiers, MouseScroll};
use rrr_tui::events::{node_handle_event, update_all};
use rrr_tui::focus::dispatch_event;
use rrr_tui::layout::NodeLayout;
use rrr_tui::widgets::{
    ButtonState, CheckboxState, Cursor, InputFieldState, RadioArrayState, Widget,
};

fn chars(s: &str) -> Vec<char> {
    s.chars().collect()
}

fn key(code: KeyCode, kind: KeyEventKind) -> Event {
    Event::Key(KeyEvent { code, modifiers: KeyModifiers::none(), kind })
}

fn shift_key(code: KeyCode, kind: KeyEventKind) -> Event {
    Event::Key(KeyEvent {
        code,
        modifiers: KeyModifiers { shift: true, control: false, alt: false },
        kind,
    })
}

fn button_node(id: u64) -> Node {
    Node {
        id: ComponentId(id),
        widget: Widget::Button(ButtonState {
            label: chars("ok"),
            text_color_unfocused: TextColor::white_on_black(),
            text_color_focused: TextColor::white_on_black(),
            text_color_pressed: TextColor::white_on_black(),
            held_down: false,
            form_confirmation: false,
        }),
        layout: NodeLayout::new(),
        children: Vec::new(),
    }
}

fn held_down(n: &Node) -> bool {
    match &n.widget {
        Widget::Button(b) => b.held_down,
        _ => panic!("expected a button"),
    }
}

#[test]
fn button_confirm_press_and_release() {
    let mut n = button_node(7);
    // press holds the button down, absorbs, emits a render and a broadcast
    let (success, sent) = node_handle_event(&mut n, &key(KeyCode::Enter, KeyEventKind::Press), 0);
    assert!(held_down(&n));
    assert!(success.absorb);
    assert_eq!(success.action, Some(Action::Render));
    assert_eq!(
        sent,
        vec![Action::BroadcastMessage(ComponentMessage::OnButtonPress { id: ComponentId(7) })]
    );
    // release lets go
    let (success, sent) = node_handle_event(&mut n, &key(KeyCode::Enter, KeyEventKind::Release), 0);
    assert!(!held_down(&n));
    assert!(success.absorb);
    assert!(sent.is_empty());
}

#[test]
fn button_focus_lost_resets_held_down() {
    let mut n = button_node(7);
    node_handle_event(&mut n, &key(KeyCode::Char(' '), KeyEventKind::Press), 0);
    assert!(held_down(&n));
    let (success, _) = node_handle_event(&mut n, &Event::FocusLost, 0);
    assert!(!held_down(&n));
    assert!(success.absorb);
}

#[test]
fn form_confirmation_button_leaves_events_alone() {
    let mut n = button_node(7);
    match &mut n.widget {
        Widget::Button(b) => b.form_confirmation = true,
        _ => unreachable!(),
    }
    let (success, sent) = node_handle_event(&mut n, &key(KeyCode::Enter, KeyEventKind::Press), 0);
    assert!(!held_down(&n));
    assert!(!success.absorb);
    assert!(sent.is_empty());
}

#[test]
fn checkbox_toggles_on_space() {
    let mut n = Node {
        id: ComponentId(9),
        widget: Widget::Checkbox(CheckboxState {
            label: chars("opt"),
            checked: false,
            string_checked: chars("[x]"),
            string_unchecked: chars("[ ]"),
        }),
        layout: NodeLayout::new(),
        children: Vec::new(),
    };
    let (success, sent) = node_handle_event(&mut n, &key(KeyCode::Char(' '), KeyEventKind::Press), 0);
    match &n.widget {
        Widget::Checkbox(cb) => assert!(cb.checked),
        _ => unreachable!(),
    }
    assert!(success.absorb);
    assert_eq!(
        sent,
        vec![Action::BroadcastMessage(ComponentMessage::OnCheckboxToggle {
            id: ComponentId(9),
            new_value: true,
        })]
    );
    // enter does not toggle a checkbox
    let (success, _) = node_handle_event(&mut n, &key(KeyCode::Enter, KeyEventKind::Press), 0);
    assert!(!success.absorb);
}

fn input_node(content: &str, start: usize, end: usize) -> Node {
    Node {
        id: ComponentId(5),
        widget: Widget::InputField(InputFieldState {
            content: chars(content),
            cursor: Cursor { start, end },
        }),
        layout: NodeLayout::new(),
        children: Vec::new(),
    }
}

fn input_state(n: &Node) -> (String, usize, usize) {
    match &n.widget {
        Widget::InputField(f) => {
            (f.content.iter().collect(), f.cursor.start, f.cursor.end)
        },
        _ => panic!("expected an input field"),
    }
}

#[test]
fn input_typing_inserts_at_cursor() {
    let mut n = input_node("ac", 1, 1);
    node_handle_event(&mut n, &key(KeyCode::Char('b'), KeyEventKind::Press), 0);
    assert_eq!(input_state(&n), ("abc".to_string(), 2, 2));
}

#[test]
fn input_typing_replaces_selection() {
    let mut n = input_node("hello", 1, 4);
    node_handle_event(&mut n, &key(KeyCode::Char('!'), KeyEventKind::Press), 0);
    assert_eq!(input_state(&n), ("h!o".to_string(), 2, 2));
}

#[test]
fn input_backspace_and_delete() {
    let mut n = input_node("abc", 2, 2);
    node_handle_event(&mut n, &key(KeyCode::Backspace, KeyEventKind::Press), 0);
    assert_eq!(input_state(&n), ("ac".to_string(), 1, 1));
    node_handle_event(&mut n, &key(KeyCode::Delete, KeyEventKind::Press), 0);
    assert_eq!(input_state(&n), ("a".to_string(), 1, 1));
    // delete at the end does nothing
    node_handle_event(&mut n, &key(KeyCode::Delete, KeyEventKind::Press), 0);
    assert_eq!(input_state(&n), ("a".to_string(), 1, 1));
    // backspace at the start does nothing
    let mut n = input_node("a", 0, 0);
    node_handle_event(&mut n, &key(KeyCode::Backspace, KeyEventKind::Press), 0);
    assert_eq!(input_state(&n), ("a".to_string(), 0, 0));
}

#[test]
fn input_selection_removal() {
    let mut n = input_node("abcdef", 4, 1);
    node_handle_event(&mut n, &key(KeyCode::Backspace, KeyEventKind::Press), 0);
    assert_eq!(input_state(&n), ("aef".to_string(), 1, 1));
}

#[test]
fn input_cursor_movement_and_selection() {
    let mut n = input_node("abc", 1, 1);
    node_handle_event(&mut n, &key(KeyCode::Right, KeyEventKind::Press), 0);
    assert_eq!(input_state(&n), ("abc".to_string(), 2, 2));
    node_handle_event(&mut n, &shift_key(KeyCode::Right, KeyEventKind::Press), 0);
    assert_eq!(input_state(&n), ("abc".to_string(), 2, 3));
    // plain left collapses the selection to its lower end
    node_handle_event(&mut n, &key(KeyCode::Left, KeyEventKind::Press), 0);
    assert_eq!(input_state(&n), ("abc".to_string(), 2, 2));
    // moving left at the start stays put
    let mut n = input_node("abc", 0, 0);
    node_handle_event(&mut n, &key(KeyCode::Left, KeyEventKind::Press), 0);
    assert_eq!(input_state(&n), ("abc".to_string(), 0, 0));
}

#[test]
fn input_paste_and_focus_gain() {
    let mut n = input_node("xy", 1, 1);
    node_handle_event(&mut n, &Event::Paste(chars("12")), 0);
    assert_eq!(input_state(&n), ("x12y".to_string(), 3, 3));
    node_handle_event(&mut n, &Event::FocusGained, 0);
    assert_eq!(input_state(&n), ("x12y".to_string(), 0, 4));
}

#[test]
fn radio_array_follows_checkbox_toggle() {
    let member = |id: u64, checked: bool| Node {
        id: ComponentId(id),
        widget: Widget::Checkbox(CheckboxState {
            label: chars("m"),
            checked,
            string_checked: chars("(x)"),
            string_unchecked: chars("( )"),
        }),
        layout: NodeLayout::new(),
        children: Vec::new(),
    };
    let mut radio = Node {
        id: ComponentId(1),
        widget: Widget::RadioArray(RadioArrayState { checked_index: 0 }),
        layout: NodeLayout::new(),
        children: vec![member(2, true), member(3, false)],
    };
    update_all(
        &mut radio,
        &ComponentMessage::OnCheckboxToggle { id: ComponentId(3), new_value: true },
    );
    match &radio.widget {
        Widget::RadioArray(ra) => assert_eq!(ra.checked_index, 1),
        _ => unreachable!(),
    }
    match (&radio.children[0].widget, &radio.children[1].widget) {
        (Widget::Checkbox(a), Widget::Checkbox(b)) => {
            assert!(!a.checked);
            assert!(b.checked);
        },
        _ => unreachable!(),
    }
}

#[test]
fn dispatch_offers_event_along_path_until_absorbed() {
    let inner = button_node(2);
    let mut tree = Node {
        id: ComponentId(0),
        widget: Widget::Pane,
        layout: NodeLayout::new(),
        children: vec![inner],
    };
    let path = vec![ComponentId(2)];
    let actions = dispatch_event(&mut tree, &path, 0, &key(KeyCode::Enter, KeyEventKind::Press), 0);
    assert!(held_down(&tree.children[0]));
    assert_eq!(
        actions,
        vec![
            Action::BroadcastMessage(ComponentMessage::OnButtonPress { id: ComponentId(2) }),
            Action::Render,
        ]
    );
}

#[test]
fn dispatch_scrolls_a_scroll_pane() {
    let content = rrr_tui::geometry::Rect::from_minmax(0, 0, 20, 5);
    let abs = rrr_tui::layout::AbsoluteLayout {
        overflow_w: 0,
        overflow_h: 50,
        overflow_rect_clip: content,
        content_rect: content,
        padding_rect: content,
        border_rect: content,
        scroll_x: 0,
        scroll_y: 0,
        offset_x: 0,
        offset_y: 0,
    };
    let mut pane = Node {
        id: ComponentId(1),
        widget: Widget::ScrollPane(rrr_tui::widgets::ScrollPaneState {
            scroll_x: 0,
            scroll_y: 0,
            scroll_bar_layout: None,
            animation: None,
            color_rail: rrr_tui::color::Blended::new(
                rrr_tui::color::ColorOklab::new(1_000_000, 0, 0),
                200_000,
            ),
            color_bar: rrr_tui::color::Blended::new(
                rrr_tui::color::ColorOklab::new(1_000_000, 0, 0),
                1_000_000,
            ),
        }),
        layout: rrr_tui::layout::NodeLayout {
            relative: rrr_tui::layout::RelativeLayout {
                content,
                padding: content,
                border: content,
                overflow_w: 0,
                overflow_h: 50,
            },
            absolute: Some(abs),
            relative_dirty: false,
            successors_dirty: false,
        },
        children: Vec::new(),
    };
    let (success, _) = node_handle_event(&mut pane, &Event::Mouse(MouseScroll::Down), 5);
    assert!(success.absorb);
    match &pane.widget {
        Widget::ScrollPane(s) => assert_eq!(s.scroll_y, 1),
        _ => unreachable!(),
    }
    // scrolling drops the cached absolute layout
    assert!(pane.layout.absolute.is_none());
    // scrolling back up twice saturates at zero
    pane.layout.absolute = Some(abs);
    node_handle_event(&mut pane, &key(KeyCode::Up, KeyEventKind::Press), 5);
    match &pane.widget {
        Widget::ScrollPane(s) => assert_eq!(s.scroll_y, 0),
        _ => unreachable!(),
    }
    pane.layout.absolute = Some(abs);
    node_handle_event(&mut pane, &key(KeyCode::Up, KeyEventKind::Press), 5);
    match &pane.widget {
        Widget::ScrollPane(s) => assert_eq!(s.scroll_y, 0),
        _ => unreachable!(),
    }
}

#[test]
fn key_mapping_quit_and_focus() {
    let ctrl_c = KeyEvent {
        code: KeyCode::Char('c'),
        modifiers: KeyModifiers { shift: false, control: true, alt: false },
        kind: KeyEventKind::Press,
    };
    assert_eq!(handle_key_event(&ctrl_c), Some(Action::Quit));
    let tab = KeyEvent {
        code: KeyCode::Tab,
        modifiers: KeyModifiers::none(),
        kind: KeyEventKind::Press,
    };
    assert_eq!(
        handle_key_event(&tab),
        Some(Action::FocusChange(FocusChange {
            direction: FocusChangeDirection::Forward,
            scope: FocusChangeScope::HorizontalAndVertical,
        }))
    );
    let back_tab = KeyEvent {
        code: KeyCode::BackTab,
        modifiers: KeyModifiers { shift: true, control: false, alt: false },
        kind: KeyEventKind::Press,
    };
    assert_eq!(
        handle_key_event(&back_tab),
        Some(Action::FocusChange(FocusChange {
            direction: FocusChangeDirection::Backward,
            scope: FocusChangeScope::HorizontalAndVertical,
        }))
    );
    let alt_down = KeyEvent {
        code: KeyCode::Down,
        modifiers: KeyModifiers { shift: false, control: false, alt: true },
        kind: KeyEventKind::Press,
    };
    assert_eq!(
        handle_key_event(&alt_down),
        Some(Action::FocusChange(FocusChange {
            direction: FocusChangeDirection::Forward,
            scope: FocusChangeScope::Vertical,
        }))
    );
    let plain = KeyEvent {
        code: KeyCode::Char('x'),
        modifiers: KeyModifiers::none(),
        kind: KeyEventKind::Press,
    };
    assert_eq!(handle_key_event(&plain), None);
}

#[test]
fn reducer_state_and_effects() {
    let mut state = AppState::new();
    assert_eq!(reduce_action(&mut state, Action::Quit), None);
    assert!(state.should_quit);
    assert_eq!(reduce_action(&mut state, Action::Suspend), None);
    assert!(state.should_suspend);
    assert_eq!(reduce_action(&mut state, Action::Resume), None);
    assert!(!state.should_suspend);
    assert_eq!(
        reduce_action(&mut state, Action::Tick),
        Some(ActionEffect::Broadcast(ComponentMessage::OnTick))
    );
    assert_eq!(
        reduce_action(&mut state, Action::Resize(80, 24)),
        Some(ActionEffect::Resize(80, 24))
    );
    assert_eq!(reduce_action(&mut state, Action::Render), Some(ActionEffect::Render));
}

#[test]
fn focus_scope_predicates() {
    assert!(FocusChangeScope::Horizontal.is_horizontal_allowed());
    assert!(!FocusChangeScope::Horizontal.is_vertical_allowed());
    assert!(FocusChangeScope::Vertical.is_vertical_allowed());
    assert!(!FocusChangeScope::Vertical.is_horizontal_allowed());
    assert!(FocusChangeScope::HorizontalAndVertical.is_horizontal_allowed());
    assert!(FocusChangeScope::HorizontalAndVertical.is_vertical_allowed());
}

#[test]
fn quit_chord_requires_exactly_control() {
    let chord = |shift: bool, alt: bool| KeyEvent {
        code: KeyCode::Char('c'),
        modifiers: KeyModifiers { shift, control: true, alt },
        kind: KeyEventKind::Press,
    };
    assert_eq!(handle_key_event(&chord(false, false)), Some(Action::Quit));
    assert_eq!(handle_key_event(&chord(true, false)), None);
    assert_eq!(handle_key_event(&chord(false, true)), None);
}
