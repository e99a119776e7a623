//! Event handling at the node level: how each widget reacts to the events
//! offered to it, and the broadcast of component messages over the tree.

use vstd::prelude::*;

use crate::action::{Action, ComponentMessage};
use crate::animation::{descriptor_ok, instant_ok, BlendAnimation, BlendAnimationProgress};
use crate::component::{HandleEventSuccess, Node};
use crate::event::{Event, KeyCode, KeyEventKind};
use crate::layout::NodeLayout;
use crate::scrollbar::spec_scroll_size_h;
use crate::widgets::{
    button_handle_event, checkbox_handle_event, input_wf, is_confirm_press, is_confirm_release,
    is_press_or_repeat, ButtonState, CheckboxState, Cursor, InputFieldState, RemoveKeyCode,
    ScrollPaneState, Widget,
};

verus! {

broadcast use vstd::std_specs::vec::axiom_vec_index_decreases;

// ---------------------------------------------------------------------------
// Input field events
// ---------------------------------------------------------------------------

/// The events an input field reacts to.
pub open spec fn spec_input_handles(ev: Event) -> bool {
    ||| (ev matches Event::Key(k) && (k.kind == KeyEventKind::Press || k.kind
        == KeyEventKind::Repeat) && (k.code matches KeyCode::Char(_) || k.code
        == KeyCode::Backspace || k.code == KeyCode::Delete || k.code == KeyCode::Left || k.code
        == KeyCode::Right))
    ||| ev is Paste
    ||| ev is FocusGained
}

/// How an input field's content and cursor react to an event: typed and
/// pasted text replaces the selection, removal keys delete the selection or
/// one character, plain arrow keys move or collapse the cursor, arrow keys
/// with shift grow the selection, and gaining focus selects everything.
pub open spec fn spec_input_transition(
    pre: InputFieldState,
    post: InputFieldState,
    ev: Event,
) -> bool {
    let c = pre.content@;
    let len = c.len() as int;
    let mn = pre.cursor.spec_min() as int;
    let mx = pre.cursor.spec_max() as int;
    match ev {
        Event::Key(k) => if !(k.kind == KeyEventKind::Press || k.kind == KeyEventKind::Repeat) {
            post.content@ == c && post.cursor == pre.cursor
        } else if k.code matches KeyCode::Char(_) {
            let ch = k.code->Char_0;
            post.content@ == c.subrange(0, mn) + seq![ch] + c.subrange(mx, len) && post.cursor
                == Cursor::spec_at((mn + 1) as usize)
        } else if k.code == KeyCode::Backspace {
            if mn < mx {
                post.content@ == c.subrange(0, mn) + c.subrange(mx, len) && post.cursor
                    == Cursor::spec_at(mn as usize)
            } else if mn > 0 {
                post.content@ == c.subrange(0, mn - 1) + c.subrange(mn, len) && post.cursor
                    == Cursor::spec_at((mn - 1) as usize)
            } else {
                post.content@ == c && post.cursor == pre.cursor
            }
        } else if k.code == KeyCode::Delete {
            if mn < mx {
                post.content@ == c.subrange(0, mn) + c.subrange(mx, len) && post.cursor
                    == Cursor::spec_at(mn as usize)
            } else if mn < len {
                post.content@ == c.subrange(0, mn) + c.subrange(mn + 1, len) && post.cursor
                    == Cursor::spec_at(mn as usize)
            } else {
                post.content@ == c && post.cursor == pre.cursor
            }
        } else if k.code == KeyCode::Left {
            post.content@ == c && post.cursor == if k.modifiers.shift {
                if pre.cursor.end > 0 {
                    Cursor { start: pre.cursor.start, end: (pre.cursor.end - 1) as usize }
                } else {
                    pre.cursor
                }
            } else if mn == mx {
                if mn > 0 {
                    Cursor::spec_at((mn - 1) as usize)
                } else {
                    pre.cursor
                }
            } else {
                Cursor::spec_at(mn as usize)
            }
        } else if k.code == KeyCode::Right {
            post.content@ == c && post.cursor == if k.modifiers.shift {
                if pre.cursor.end < c.len() {
                    Cursor { start: pre.cursor.start, end: (pre.cursor.end + 1) as usize }
                } else {
                    pre.cursor
                }
            } else if mn == mx {
                if mx < len {
                    Cursor::spec_at((mx + 1) as usize)
                } else {
                    pre.cursor
                }
            } else {
                Cursor::spec_at(mx as usize)
            }
        } else {
            post.content@ == c && post.cursor == pre.cursor
        },
        Event::Paste(p) => post.content@ == c.subrange(0, mn) + p@ + c.subrange(mx, len)
            && post.cursor == Cursor::spec_at((mn + p@.len()) as usize),
        Event::FocusGained => post.content@ == c && post.cursor == (Cursor {
            start: 0,
            end: c.len() as usize,
        }),
        _ => post.content@ == c && post.cursor == pre.cursor,
    }
}

/// An input field's reaction to an event.
pub fn input_field_handle_event(s: &mut InputFieldState, event: &Event) -> (r: HandleEventSuccess)
    requires
        input_wf(*old(s)),
        old(s).content@.len() < usize::MAX - 1,
        *event matches Event::Paste(p) ==> old(s).content@.len() + p@.len() < usize::MAX,
    ensures
        input_wf(*final(s)),
        spec_input_transition(*old(s), *final(s), *event),
        r.absorb == spec_input_handles(*event),
        r.action == if r.absorb {
            Some(Action::Render)
        } else {
            None::<Action>
        },
{
    match event {
        Event::Key(k) => {
            if !matches!(k.kind, KeyEventKind::Press | KeyEventKind::Repeat) {
                return HandleEventSuccess::unhandled();
            }
            match k.code {
                KeyCode::Char(ch) => {
                    let mut one: Vec<char> = Vec::new();
                    one.push(ch);
                    proof {
                        assert(one@ =~= seq![ch]);
                    }
                    self_insert(s, &one);
                    HandleEventSuccess::handled().with_action(Action::Render)
                },
                KeyCode::Backspace => {
                    s.remove(RemoveKeyCode::Backspace);
                    HandleEventSuccess::handled().with_action(Action::Render)
                },
                KeyCode::Delete => {
                    s.remove(RemoveKeyCode::Delete);
                    HandleEventSuccess::handled().with_action(Action::Render)
                },
                KeyCode::Left => {
                    if k.modifiers.shift {
                        if s.cursor.end > 0 {
                            s.cursor.end = s.cursor.end - 1;
                        }
                    } else {
                        let (mn, mx) = s.cursor.minmax();
                        if mn == mx {
                            if mn > 0 {
                                s.cursor = Cursor::at(mn - 1);
                            }
                        } else {
                            s.cursor = Cursor::at(mn);
                        }
                    }
                    HandleEventSuccess::handled().with_action(Action::Render)
                },
                KeyCode::Right => {
                    if k.modifiers.shift {
                        if s.cursor.end < s.content.len() {
                            s.cursor.end = s.cursor.end + 1;
                        }
                    } else {
                        let (mn, mx) = s.cursor.minmax();
                        if mn == mx {
                            if mx < s.content.len() {
                                s.cursor = Cursor::at(mx + 1);
                            }
                        } else {
                            s.cursor = Cursor::at(mx);
                        }
                    }
                    HandleEventSuccess::handled().with_action(Action::Render)
                },
                _ => HandleEventSuccess::unhandled(),
            }
        },
        Event::Paste(p) => {
            self_insert(s, p);
            HandleEventSuccess::handled().with_action(Action::Render)
        },
        Event::FocusGained => {
            s.cursor = Cursor { start: 0, end: s.content.len() };
            HandleEventSuccess::handled().with_action(Action::Render)
        },
        _ => HandleEventSuccess::unhandled(),
    }
}

/// Replaces the selection with the given text.
fn self_insert(s: &mut InputFieldState, text: &Vec<char>)
    requires
        input_wf(*old(s)),
        old(s).content@.len() + text@.len() < usize::MAX,
    ensures
        input_wf(*final(s)),
        final(s).content@ == old(s).content@.subrange(0, old(s).cursor.spec_min() as int) + text@
            + old(s).content@.subrange(
            old(s).cursor.spec_max() as int,
            old(s).content@.len() as int,
        ),
        final(s).cursor == Cursor::spec_at((old(s).cursor.spec_min() + text@.len()) as usize),
{
    s.insert(text);
}

// ---------------------------------------------------------------------------
// Scroll pane events
// ---------------------------------------------------------------------------

/// Classifies an event as a scroll: `Some((horizontal, forward))`.
pub open spec fn spec_scroll_event(ev: Event) -> Option<(bool, bool)> {
    match ev {
        Event::Mouse(m) => match m {
            crate::event::MouseScroll::Up => Some((false, false)),
            crate::event::MouseScroll::Down => Some((false, true)),
            crate::event::MouseScroll::Left => Some((true, false)),
            crate::event::MouseScroll::Right => Some((true, true)),
        },
        Event::Key(k) => if k.kind == KeyEventKind::Press {
            match k.code {
                KeyCode::Up => Some((false, false)),
                KeyCode::Down => Some((false, true)),
                KeyCode::Left => Some((true, false)),
                KeyCode::Right => Some((true, true)),
                _ => None,
            }
        } else {
            None
        },
        _ => None,
    }
}

/// One scroll step from `cur`: backward saturates at zero, forward is
/// clamped to the scrollable size (and to the cell domain).
pub open spec fn spec_scroll_step(cur: u16, size: int, forward: bool) -> u16 {
    if forward {
        let next = if cur + 1 <= size {
            cur + 1
        } else {
            size
        };
        if next < 0 {
            0u16
        } else if next > 0xFFFF {
            0xFFFFu16
        } else {
            next as u16
        }
    } else {
        if cur > 0 {
            (cur - 1) as u16
        } else {
            0u16
        }
    }
}

/// The scroll pane state after a scroll step along the given axis: the
/// scroll position moves by one cell within bounds, and the fade animation
/// restarts.
pub open spec fn spec_scroll_pane_after(
    s: ScrollPaneState,
    content_w: int,
    content_h: int,
    overflow_w: u16,
    overflow_h: u16,
    horizontal: bool,
    forward: bool,
    now: u64,
) -> ScrollPaneState {
    let scroll_x = if horizontal {
        spec_scroll_step(
            s.scroll_x,
            spec_scroll_size_h(content_w, overflow_w as int, s.scroll_x as int),
            forward,
        )
    } else {
        s.scroll_x
    };
    let scroll_y = if !horizontal {
        spec_scroll_step(
            s.scroll_y,
            spec_scroll_size_h(content_h, overflow_h as int, s.scroll_y as int),
            forward,
        )
    } else {
        s.scroll_y
    };
    let animation = match s.animation {
        None => None,
        Some(a) => Some(BlendAnimation {
            descriptor: a.descriptor,
            progress: Some(BlendAnimationProgress {
                instant_start: (now + a.descriptor.start_delay_ms) as u64,
                instant_end: (now + a.descriptor.start_delay_ms + a.descriptor.duration_ms) as u64,
            }),
        }),
    };
    ScrollPaneState { scroll_x, scroll_y, animation, ..s }
}

/// What handling an event at a node needs of the node: a scroll pane must
/// have a resolved absolute layout with in-range rectangles and a
/// well-formed animation, and an input field must have room to grow.
pub open spec fn node_event_ready(n: Node, ev: Event, now: u64) -> bool {
    &&& instant_ok(now)
    &&& match n.widget {
        Widget::ScrollPane(s) => {
            &&& n.layout.absolute matches Some(abs) && abs.content_rect.ok()
            &&& (s.animation matches Some(a) ==> descriptor_ok(a.descriptor))
        },
        Widget::InputField(f) => {
            &&& input_wf(f)
            &&& f.content@.len() < usize::MAX - 1
            &&& (ev matches Event::Paste(p) ==> f.content@.len() + p@.len() < usize::MAX)
        },
        _ => true,
    }
}

/// Relates a node's own fields before and after it handled an event, and
/// the handler's outcome. Children are not constrained here.
pub open spec fn node_transition(
    pre: Node,
    post: Node,
    ev: Event,
    now: u64,
    absorb: bool,
    action: Option<Action>,
    sent: Seq<Action>,
) -> bool {
    &&& post.id == pre.id
    &&& pre.widget matches Widget::Button(b) ==> ({
        let held = if b.form_confirmation {
            b.held_down
        } else if is_confirm_press(ev) {
            true
        } else if is_confirm_release(ev) || ev is FocusLost {
            false
        } else {
            b.held_down
        };
        &&& post.layout == pre.layout
        &&& post.widget == Widget::Button(ButtonState { held_down: held, ..b })
        &&& absorb == (!b.form_confirmation && (is_confirm_press(ev)
            || is_confirm_release(ev) || ev is FocusLost))
        &&& action == if absorb { Some(Action::Render) } else { None::<Action> }
        &&& sent == if !b.form_confirmation && is_confirm_press(ev) {
            seq![Action::BroadcastMessage(ComponentMessage::OnButtonPress { id: pre.id })]
        } else {
            Seq::<Action>::empty()
        }
    })
    &&& pre.widget matches Widget::Checkbox(cb) ==> ({
        let toggles = is_press_or_repeat(ev, KeyCode::Char(' '));
        &&& post.layout == pre.layout
        &&& post.widget == Widget::Checkbox(CheckboxState {
            checked: if toggles { !cb.checked } else { cb.checked },
            ..cb
        })
        &&& absorb == toggles
        &&& action == if absorb { Some(Action::Render) } else { None::<Action> }
        &&& sent == if toggles {
            seq![Action::BroadcastMessage(ComponentMessage::OnCheckboxToggle {
                id: pre.id,
                new_value: !cb.checked,
            })]
        } else {
            Seq::<Action>::empty()
        }
    })
    &&& pre.widget matches Widget::InputField(f) ==> ({
        &&& post.layout == pre.layout
        &&& post.widget matches Widget::InputField(f2) && spec_input_transition(f, f2, ev)
        &&& absorb == spec_input_handles(ev)
        &&& action == if absorb { Some(Action::Render) } else { None::<Action> }
        &&& sent == Seq::<Action>::empty()
    })
    &&& pre.widget matches Widget::ScrollPane(s) ==> match spec_scroll_event(ev) {
        Some(hf) => {
            let abs = pre.layout.absolute.unwrap();
            &&& post.widget == Widget::ScrollPane(spec_scroll_pane_after(
                s,
                abs.content_rect.spec_width(),
                abs.content_rect.spec_height(),
                abs.overflow_w,
                abs.overflow_h,
                hf.0,
                hf.1,
                now,
            ))
            &&& post.layout == (NodeLayout { absolute: None, ..pre.layout })
            &&& absorb && action == Some(Action::Render)
            &&& sent == Seq::<Action>::empty()
        },
        None => {
            &&& post.widget == pre.widget
            &&& post.layout == pre.layout
            &&& !absorb && action is None
            &&& sent == Seq::<Action>::empty()
        },
    }
    &&& (pre.widget is Pane || pre.widget is LayoutPlaceholder || pre.widget is TextBlock
        || pre.widget is Spinner || pre.widget is OpenStatus || pre.widget is RadioArray) ==> ({
        &&& post.widget == pre.widget
        &&& post.layout == pre.layout
        &&& !absorb && action is None
        &&& sent == Seq::<Action>::empty()
    })
}

/// Offers an event to a single node (no recursion into children) and
/// returns the handler outcome together with the actions it sent.
pub fn node_handle_event(n: &mut Node, event: &Event, now_ms: u64) -> (r: (
    HandleEventSuccess,
    Vec<Action>,
))
    requires
        node_event_ready(*old(n), *event, now_ms),
    ensures
        final(n).children == old(n).children,
        node_transition(*old(n), *final(n), *event, now_ms, r.0.absorb, r.0.action, r.1@),
{
    let id = n.id;
    match &mut n.widget {
        Widget::Button(b) => button_handle_event(b, id, event),
        Widget::Checkbox(cb) => checkbox_handle_event(cb, id, event),
        Widget::InputField(f) => {
            let success = input_field_handle_event(f, event);
            (success, Vec::new())
        },
        Widget::ScrollPane(s) => {
            let dir = classify_scroll_event(event);
            match dir {
                Some((horizontal, forward)) => {
                    let abs = n.layout.absolute.unwrap();
                    if horizontal {
                        let content_w = abs.content_rect.width();
                        let size = scroll_size_along(content_w, abs.overflow_w, s.scroll_x);
                        s.scroll_x = scroll_step(s.scroll_x, size, forward);
                    } else {
                        let content_h = abs.content_rect.height();
                        let size = scroll_size_along(content_h, abs.overflow_h, s.scroll_y);
                        s.scroll_y = scroll_step(s.scroll_y, size, forward);
                    }
                    match &mut s.animation {
                        Some(a) => {
                            a.restart(now_ms);
                        },
                        None => {},
                    }
                    n.layout.absolute = None;
                    (HandleEventSuccess::handled().with_action(Action::Render), Vec::new())
                },
                None => (HandleEventSuccess::unhandled(), Vec::new()),
            }
        },
        _ => (HandleEventSuccess::unhandled(), Vec::new()),
    }
}

/// Classifies an event as a scroll step.
fn classify_scroll_event(event: &Event) -> (r: Option<(bool, bool)>)
    ensures
        r == spec_scroll_event(*event),
{
    match event {
        Event::Mouse(m) => match m {
            crate::event::MouseScroll::Up => Some((false, false)),
            crate::event::MouseScroll::Down => Some((false, true)),
            crate::event::MouseScroll::Left => Some((true, false)),
            crate::event::MouseScroll::Right => Some((true, true)),
        },
        Event::Key(k) => {
            if matches!(k.kind, KeyEventKind::Press) {
                match k.code {
                    KeyCode::Up => Some((false, false)),
                    KeyCode::Down => Some((false, true)),
                    KeyCode::Left => Some((true, false)),
                    KeyCode::Right => Some((true, true)),
                    _ => None,
                }
            } else {
                None
            }
        },
        _ => None,
    }
}

/// How far a pane can scroll along one axis.
fn scroll_size_along(content_extent: i64, overflow: u16, scroll: u16) -> (r: i64)
    requires
        0 <= content_extent <= 0x4000_0000_0000_0000,
    ensures
        r == spec_scroll_size_h(content_extent as int, overflow as int, scroll as int),
        r >= 0,
{
    let expanded = if (overflow as i64) >= content_extent + (scroll as i64) {
        overflow as i64
    } else {
        content_extent + (scroll as i64)
    };
    if expanded >= content_extent {
        expanded - content_extent
    } else {
        0
    }
}

// ---------------------------------------------------------------------------
// Broadcast updates
// ---------------------------------------------------------------------------

/// How a radio group's member reacts when some checkbox with the given
/// identifier toggled: every member checkbox is checked exactly when it is
/// the toggled one.
pub open spec fn spec_radio_child_after(child: Node, target: crate::component::ComponentId) -> Node {
    match child.widget {
        Widget::Checkbox(cb) => Node {
            widget: Widget::Checkbox(CheckboxState { checked: child.id == target, ..cb }),
            ..child
        },
        _ => child,
    }
}

/// Relates a subtree before and after a message broadcast. Every node
/// receives the message; a radio group reacts to a checkbox toggle by
/// making the toggled member the single checked one and recording its
/// index, and everything else ignores the message.
pub open spec fn broadcast_rel(pre: Node, post: Node, msg: ComponentMessage) -> bool
    decreases pre.count(),
    via broadcast_rel_decreases
{
    &&& post.id == pre.id
    &&& post.layout == pre.layout
    &&& post.children.len() == pre.children.len()
    &&& match msg {
        ComponentMessage::OnCheckboxToggle { id, new_value: _ } => if pre.widget
            is RadioArray {
            &&& (forall|i: int| 0 <= i < pre.children.len()
                && (#[trigger] pre.children[i]).id == id && pre.children[i].widget is Checkbox
                && (forall|j: int| i < j < pre.children.len()
                    ==> !((#[trigger] pre.children[j]).id == id
                        && pre.children[j].widget is Checkbox))
                ==> post.widget == Widget::RadioArray(
                    crate::widgets::RadioArrayState { checked_index: i as usize },
                ))
            &&& (!(exists|i: int| 0 <= i < pre.children.len()
                && (#[trigger] pre.children[i]).id == id && pre.children[i].widget is Checkbox)
                ==> post.widget == pre.widget)
            &&& (forall|i: int| 0 <= i < pre.children.len() ==> broadcast_rel(
                    spec_radio_child_after(#[trigger] pre.children[i], id),
                    post.children[i],
                    msg,
                ))
        } else {
            &&& post.widget == pre.widget
            &&& (forall|i: int| 0 <= i < pre.children.len() ==> broadcast_rel(
                    #[trigger] pre.children[i],
                    post.children[i],
                    msg,
                ))
        },
        _ => {
            &&& post.widget == pre.widget
            &&& (forall|i: int| 0 <= i < pre.children.len() ==> broadcast_rel(
                    #[trigger] pre.children[i],
                    post.children[i],
                    msg,
                ))
        },
    }
}

/// Termination witness for [`broadcast_rel`]: the radio adjustment of a
/// child leaves the child's node count unchanged.
#[via_fn]
proof fn broadcast_rel_decreases(pre: Node, post: Node, msg: ComponentMessage) {
    assert forall|i: int| 0 <= i < pre.children.len() implies (#[trigger] pre.children[i]).count()
        < pre.count() by {
        pre.lemma_child_count_lt(i);
    }
    match msg {
        ComponentMessage::OnCheckboxToggle { id, new_value: _ } => {
            assert forall|i: int| 0 <= i < pre.children.len() implies spec_radio_child_after(
                #[trigger] pre.children[i],
                id,
            ).count() < pre.count() by {
                pre.lemma_child_count_lt(i);
                Node::lemma_count_same_children(
                    spec_radio_child_after(pre.children[i], id),
                    pre.children[i],
                );
            }
        },
        _ => {},
    }
}

/// Broadcasts a message to every node of the subtree. The widget updates
/// defined in this crate emit no follow-up actions.
#[verifier::loop_isolation(false)]
#[verifier::rlimit(60)]
pub fn update_all(n: &mut Node, msg: &ComponentMessage)
    ensures
        broadcast_rel(*old(n), *final(n), *msg),
    decreases old(n).count(),
{
    let ghost pre = *old(n);
    let is_radio = matches!(&n.widget, Widget::RadioArray(_));
    match msg {
        ComponentMessage::OnCheckboxToggle { id, new_value: _ } => {
            if is_radio {
                let target = *id;
                let k = n.children.len();
                let mut found: Option<usize> = None;
                for i in 0..k
                    invariant
                        n.id == pre.id,
                        n.layout == pre.layout,
                        n.widget == pre.widget,
                        n.children.len() == k == pre.children.len(),
                        forall|j: int| i <= j < k ==> n.children[j] == pre.children[j],
                        forall|j: int| 0 <= j < i ==> n.children[j] == spec_radio_child_after(
                            #[trigger] pre.children[j],
                            target,
                        ),
                        match found {
                            Some(fi) => fi < i && pre.children[fi as int].id == target
                                && pre.children[fi as int].widget is Checkbox && (forall|j: int|
                                fi < j < i ==> !((#[trigger] pre.children[j]).id == target
                                    && pre.children[j].widget is Checkbox)),
                            None => !(exists|j: int| 0 <= j < i
                                && (#[trigger] pre.children[j]).id == target
                                && pre.children[j].widget is Checkbox),
                        },
                {
                    let child_id = n.children[i].id;
                    match &mut n.children[i].widget {
                        Widget::Checkbox(cb) => {
                            if child_id == target {
                                cb.checked = true;
                                found = Some(i);
                            } else {
                                cb.checked = false;
                            }
                        },
                        _ => {},
                    }
                }
                match found {
                    Some(fi) => {
                        match &mut n.widget {
                            Widget::RadioArray(ra) => {
                                ra.checked_index = fi;
                            },
                            _ => {},
                        }
                    },
                    None => {},
                }
            }
        },
        _ => {},
    }
    let ghost mid = *n;
    let k = n.children.len();
    for i in 0..k
        invariant
            n.id == mid.id,
            n.layout == mid.layout,
            n.widget == mid.widget,
            n.children.len() == k == mid.children.len(),
            forall|j: int| i <= j < k ==> n.children[j] == mid.children[j],
            forall|j: int| 0 <= j < i ==> broadcast_rel(
                #[trigger] mid.children[j],
                n.children[j],
                *msg,
            ),
    {
        proof {
            pre.lemma_child_count_lt(i as int);
            match *msg {
                ComponentMessage::OnCheckboxToggle { id, new_value: _ } => {
                    if is_radio {
                        assert(mid.children[i as int] == spec_radio_child_after(
                            pre.children[i as int],
                            id,
                        ));
                        assert(mid.children[i as int].children
                            == pre.children[i as int].children);
                        Node::lemma_count_same_children(
                            mid.children[i as int],
                            pre.children[i as int],
                        );
                    } else {
                        assert(mid.children[i as int] == pre.children[i as int]);
                    }
                },
                _ => {
                    assert(mid.children[i as int] == pre.children[i as int]);
                },
            }
        }
        update_all(&mut n.children[i], msg);
    }
}

/// One scroll step.
fn scroll_step(cur: u16, size: i64, forward: bool) -> (r: u16)
    requires
        size >= 0,
    ensures
        r == spec_scroll_step(cur, size as int, forward),
{
    if forward {
        let next = if (cur as i64) + 1 <= size {
            (cur as i64) + 1
        } else {
            size
        };
        if next > 0xFFFF {
            0xFFFF
        } else {
            next as u16
        }
    } else {
        if cur > 0 {
            cur - 1
        } else {
            0
        }
    }
}

} // verus!
