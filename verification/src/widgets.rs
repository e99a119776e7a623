//! The widget set: a closed sum of the visual/interactive elements a node
//! can be, together with their retained state.

use vstd::prelude::*;

use crate::action::{Action, ComponentMessage};
use crate::animation::{BlendAnimation, RectAnimation};
use crate::color::{Blended, TextColor};
use crate::component::{ComponentId, HandleEventSuccess};
use crate::event::{Event, KeyCode, KeyEventKind};
use crate::scrollbar::ScrollBarLayout;

verus! {

/// Whether the event is a press of one of the confirm keys (enter/space).
pub open spec fn is_confirm_press(ev: Event) -> bool {
    ev matches Event::Key(k) && (k.code == KeyCode::Enter || k.code == KeyCode::Char(' '))
        && k.kind == KeyEventKind::Press
}

/// Whether the event is a release of one of the confirm keys.
pub open spec fn is_confirm_release(ev: Event) -> bool {
    ev matches Event::Key(k) && (k.code == KeyCode::Enter || k.code == KeyCode::Char(' '))
        && k.kind == KeyEventKind::Release
}

/// Whether the event is a press or repeat of the given key.
pub open spec fn is_press_or_repeat(ev: Event, code: KeyCode) -> bool {
    ev matches Event::Key(k) && k.code == code
        && (k.kind == KeyEventKind::Press || k.kind == KeyEventKind::Repeat)
}

/// A text cursor over a selection range; positions are indices into the
/// field's character sequence. `start` is where the selection began, `end`
/// is where the cursor currently stands (`start == end` means no selection).
#[derive(Clone, Copy, Debug, PartialEq, Eq, Structural)]
pub struct Cursor {
    pub start: usize,
    pub end: usize,
}

impl Cursor {
    /// A collapsed cursor at `pos`.
    pub fn at(pos: usize) -> (r: Cursor)
        ensures
            r.start == pos && r.end == pos,
    {
        Cursor { start: pos, end: pos }
    }

    pub open spec fn spec_min(self) -> usize {
        if self.start <= self.end {
            self.start
        } else {
            self.end
        }
    }

    pub open spec fn spec_max(self) -> usize {
        if self.start <= self.end {
            self.end
        } else {
            self.start
        }
    }

    /// The selection as an ordered `(low, high)` pair.
    pub fn minmax(&self) -> (r: (usize, usize))
        ensures
            r.0 == self.spec_min(),
            r.1 == self.spec_max(),
    {
        if self.start <= self.end {
            (self.start, self.end)
        } else {
            (self.end, self.start)
        }
    }
}

#[derive(Clone, Debug)]
pub struct ButtonState {
    pub label: Vec<char>,
    pub text_color_unfocused: TextColor,
    pub text_color_focused: TextColor,
    pub text_color_pressed: TextColor,
    pub held_down: bool,
    /// Whether the button is to be used for form confirmation; such a button
    /// leaves key handling to its form.
    pub form_confirmation: bool,
}

#[derive(Clone, Debug)]
pub struct CheckboxState {
    pub label: Vec<char>,
    pub checked: bool,
    pub string_checked: Vec<char>,
    pub string_unchecked: Vec<char>,
}

#[derive(Clone, Debug)]
pub struct InputFieldState {
    pub content: Vec<char>,
    pub cursor: Cursor,
}

#[derive(Clone, Debug)]
pub struct TextBlockState {
    /// The text, already split into logical lines.
    pub lines: Vec<Vec<char>>,
}

#[derive(Clone, Debug)]
pub struct ScrollPaneState {
    pub scroll_x: u16,
    pub scroll_y: u16,
    pub scroll_bar_layout: Option<ScrollBarLayout>,
    pub animation: Option<BlendAnimation>,
    pub color_rail: Blended,
    pub color_bar: Blended,
}

#[derive(Clone, Debug)]
pub struct SpinnerState {
    pub text: Vec<char>,
}

/// A status line with an optional animation, right-aligned in its row.
#[derive(Clone, Debug)]
pub struct OpenStatusState {
    pub text: Vec<char>,
    pub animation: Option<RectAnimation>,
    pub color: TextColor,
}

/// A radio group; its children are the member checkboxes.
#[derive(Clone, Debug)]
pub struct RadioArrayState {
    pub checked_index: usize,
}

/// What a component is. The set of widgets is closed, so each node carries
/// its state as a variant instead of a boxed trait object.
#[derive(Clone, Debug)]
pub enum Widget {
    /// A plain container; draws nothing of its own.
    Pane,
    /// A container that keeps space for layout but neither draws nor
    /// handles anything.
    LayoutPlaceholder,
    Button(ButtonState),
    Checkbox(CheckboxState),
    InputField(InputFieldState),
    TextBlock(TextBlockState),
    ScrollPane(ScrollPaneState),
    Spinner(SpinnerState),
    OpenStatus(OpenStatusState),
    RadioArray(RadioArrayState),
}

impl Widget {
    /// Buttons, checkboxes, input fields and scroll panes take focus; the
    /// containers and passive widgets do not.
    pub open spec fn spec_is_focusable(self) -> bool {
        match self {
            Widget::Button(_) => true,
            Widget::Checkbox(_) => true,
            Widget::InputField(_) => true,
            Widget::ScrollPane(_) => true,
            _ => false,
        }
    }

    pub fn is_focusable(&self) -> (r: bool)
        ensures
            r == self.spec_is_focusable(),
    {
        match self {
            Widget::Button(_) => true,
            Widget::Checkbox(_) => true,
            Widget::InputField(_) => true,
            Widget::ScrollPane(_) => true,
            _ => false,
        }
    }

    /// Measures a leaf widget: the cell size its own content wants, each
    /// axis saturating at the cell-domain maximum. Containers measure
    /// nothing of their own.
    pub fn measure(&self, available_width: usize) -> (r: (u16, u16))
        ensures
            self matches Widget::Button(b) ==> (r.0 == clamp_u16(b.label@.len() as int) && r.1
                == 1),
            self matches Widget::Spinner(s) ==> (r.0 == clamp_u16(s.text@.len() as int) && r.1
                == 1),
            self matches Widget::OpenStatus(o) ==> (r.0 == clamp_u16(o.text@.len() as int) && r.1
                == 1),
            self matches Widget::InputField(f) ==> (r.0 == clamp_u16(f.content@.len() as int)
                && r.1 == 1),
            self matches Widget::Checkbox(cb) ==> (r.0 == clamp_u16(
                1 + (if cb.checked {
                    cb.string_checked@.len() as int
                } else {
                    cb.string_unchecked@.len() as int
                }) + cb.label@.len(),
            ) && r.1 == 1),
            self matches Widget::TextBlock(t) ==> ({
                let wrapped = crate::text::spec_wrapped_lines(t.lines_view(), available_width);
                &&& r.0 == clamp_u16(crate::text::spec_max_line_len(wrapped))
                &&& r.1 == clamp_u16(wrapped.len() as int)
            }),
            (self is Pane || self is LayoutPlaceholder || self is ScrollPane || self
                is RadioArray) ==> r == (0u16, 0u16),
    {
        match self {
            Widget::Button(b) => (clamp_len(b.label.len()), 1),
            Widget::Spinner(s) => (clamp_len(s.text.len()), 1),
            Widget::OpenStatus(o) => (clamp_len(o.text.len()), 1),
            Widget::InputField(f) => (clamp_len(f.content.len()), 1),
            Widget::Checkbox(cb) => {
                let mark = if cb.checked {
                    cb.string_checked.len()
                } else {
                    cb.string_unchecked.len()
                };
                let total = if mark < usize::MAX - 1 && cb.label.len() < usize::MAX - 1 - mark {
                    1 + mark + cb.label.len()
                } else {
                    usize::MAX
                };
                (clamp_len(total), 1)
            },
            Widget::TextBlock(t) => t.measure(available_width),
            _ => (0, 0),
        }
    }
}

/// A length clamped into the sixteen-bit cell domain.
pub open spec fn clamp_u16(n: int) -> u16 {
    if n <= 0xFFFF {
        n as u16
    } else {
        0xFFFFu16
    }
}

fn clamp_len(n: usize) -> (r: u16)
    ensures
        r == clamp_u16(n as int),
{
    if n <= 0xFFFF {
        n as u16
    } else {
        0xFFFF
    }
}

/// A button's reaction to an event. A confirm-key press holds the button
/// down and broadcasts the press; releasing the key, or losing focus,
/// releases the button. A form-confirmation button leaves key handling to
/// its form and reacts to nothing. Returns the handler outcome and the
/// actions sent to the queue.
pub fn button_handle_event(s: &mut ButtonState, id: ComponentId, event: &Event) -> (r: (
    HandleEventSuccess,
    Vec<Action>,
))
    ensures
        *final(s) == (ButtonState { held_down: final(s).held_down, ..*old(s) }),
        final(s).held_down == if old(s).form_confirmation {
            old(s).held_down
        } else if is_confirm_press(*event) {
            true
        } else if is_confirm_release(*event) || *event is FocusLost {
            false
        } else {
            old(s).held_down
        },
        r.0.absorb == (!old(s).form_confirmation && (is_confirm_press(*event)
            || is_confirm_release(*event) || *event is FocusLost)),
        r.0.action == if r.0.absorb {
            Some(Action::Render)
        } else {
            None::<Action>
        },
        r.1@ == if !old(s).form_confirmation && is_confirm_press(*event) {
            seq![Action::BroadcastMessage(ComponentMessage::OnButtonPress { id })]
        } else {
            Seq::<Action>::empty()
        },
{
    let mut sent: Vec<Action> = Vec::new();
    if s.form_confirmation {
        return (HandleEventSuccess::unhandled(), sent);
    }
    match event {
        Event::Key(k) => {
            let confirm = match k.code {
                KeyCode::Enter => true,
                KeyCode::Char(c) => c == ' ',
                _ => false,
            };
            if confirm && matches!(k.kind, KeyEventKind::Press) {
                s.held_down = true;
                sent.push(Action::BroadcastMessage(ComponentMessage::OnButtonPress { id }));
                (HandleEventSuccess::handled().with_action(Action::Render), sent)
            } else if confirm && matches!(k.kind, KeyEventKind::Release) {
                s.held_down = false;
                (HandleEventSuccess::handled().with_action(Action::Render), sent)
            } else {
                (HandleEventSuccess::unhandled(), sent)
            }
        },
        Event::FocusLost => {
            s.held_down = false;
            (HandleEventSuccess::handled().with_action(Action::Render), sent)
        },
        _ => (HandleEventSuccess::unhandled(), sent),
    }
}

/// A checkbox's reaction to an event: the space key toggles it and
/// broadcasts the new value.
pub fn checkbox_handle_event(s: &mut CheckboxState, id: ComponentId, event: &Event) -> (r: (
    HandleEventSuccess,
    Vec<Action>,
))
    ensures
        *final(s) == (CheckboxState { checked: final(s).checked, ..*old(s) }),
        final(s).checked == if is_press_or_repeat(*event, KeyCode::Char(' ')) {
            !old(s).checked
        } else {
            old(s).checked
        },
        r.0.absorb == is_press_or_repeat(*event, KeyCode::Char(' ')),
        r.0.action == if r.0.absorb {
            Some(Action::Render)
        } else {
            None::<Action>
        },
        r.1@ == if is_press_or_repeat(*event, KeyCode::Char(' ')) {
            seq![Action::BroadcastMessage(ComponentMessage::OnCheckboxToggle {
                id,
                new_value: !old(s).checked,
            })]
        } else {
            Seq::<Action>::empty()
        },
{
    let mut sent: Vec<Action> = Vec::new();
    match event {
        Event::Key(k) => {
            let space = match k.code {
                KeyCode::Char(c) => c == ' ',
                _ => false,
            };
            if space && matches!(k.kind, KeyEventKind::Press | KeyEventKind::Repeat) {
                s.checked = !s.checked;
                sent.push(Action::BroadcastMessage(ComponentMessage::OnCheckboxToggle {
                    id,
                    new_value: s.checked,
                }));
                (HandleEventSuccess::handled().with_action(Action::Render), sent)
            } else {
                (HandleEventSuccess::unhandled(), sent)
            }
        },
        _ => (HandleEventSuccess::unhandled(), sent),
    }
}

/// Which of the two removal keys was pressed.
#[derive(Clone, Copy, Debug, PartialEq, Eq, Structural)]
pub enum RemoveKeyCode {
    Backspace,
    Delete,
}

/// The input field's cursor positions always stay within the content.
pub open spec fn input_wf(s: InputFieldState) -> bool {
    s.cursor.start <= s.content@.len() && s.cursor.end <= s.content@.len()
}

impl InputFieldState {
    /// Deletes the current selection, returning whether anything was
    /// deleted and the resulting cursor position, without updating the
    /// cursor itself.
    pub fn delete_selection(&mut self) -> (r: (bool, usize))
        requires
            input_wf(*old(self)),
        ensures
            final(self).cursor == old(self).cursor,
            r.0 == (old(self).cursor.spec_min() < old(self).cursor.spec_max()),
            r.1 == old(self).cursor.spec_min(),
            final(self).content@ == old(self).content@.subrange(
                0,
                old(self).cursor.spec_min() as int,
            ) + old(self).content@.subrange(
                old(self).cursor.spec_max() as int,
                old(self).content@.len() as int,
            ),
            input_wf(InputFieldState { cursor: Cursor::spec_at(r.1), ..*final(self) }),
    {
        let (mn, mx) = self.cursor.minmax();
        if mn < mx {
            let mut kept: Vec<char> = Vec::new();
            for i in 0..mn
                invariant
                    mn <= self.content.len(),
                    kept@ == self.content@.subrange(0, i as int),
            {
                kept.push(self.content[i]);
                proof {
                    assert(kept@ =~= self.content@.subrange(0, i + 1));
                }
            }
            let len = self.content.len();
            for i in mx..len
                invariant
                    mn <= mx <= len == self.content.len(),
                    kept@ == self.content@.subrange(0, mn as int) + self.content@.subrange(
                        mx as int,
                        i as int,
                    ),
            {
                kept.push(self.content[i]);
                proof {
                    assert(kept@ =~= self.content@.subrange(0, mn as int)
                        + self.content@.subrange(mx as int, i + 1));
                }
            }
            self.content = kept;
            (true, mn)
        } else {
            proof {
                assert(self.content@.subrange(0, mn as int) + self.content@.subrange(
                    mx as int,
                    self.content@.len() as int,
                ) =~= self.content@);
            }
            (false, mn)
        }
    }

    /// Replaces the selection with `string` and collapses the cursor to the
    /// end of the inserted text.
    pub fn insert(&mut self, string: &Vec<char>)
        requires
            input_wf(*old(self)),
            old(self).content@.len() + string@.len() < usize::MAX,
        ensures
            final(self).content@ == old(self).content@.subrange(
                0,
                old(self).cursor.spec_min() as int,
            ) + string@ + old(self).content@.subrange(
                old(self).cursor.spec_max() as int,
                old(self).content@.len() as int,
            ),
            final(self).cursor == Cursor::spec_at(
                (old(self).cursor.spec_min() + string@.len()) as usize,
            ),
            input_wf(*final(self)),
    {
        let (_deleted, pos) = self.delete_selection();
        let ghost mid = self.content@;
        let mut rebuilt: Vec<char> = Vec::new();
        for i in 0..pos
            invariant
                pos <= self.content.len(),
                self.content@ == mid,
                rebuilt@ == mid.subrange(0, i as int),
        {
            rebuilt.push(self.content[i]);
            proof {
                assert(rebuilt@ =~= mid.subrange(0, i + 1));
            }
        }
        for i in 0..string.len()
            invariant
                pos <= self.content.len(),
                self.content@ == mid,
                rebuilt@ == mid.subrange(0, pos as int) + string@.subrange(0, i as int),
        {
            rebuilt.push(string[i]);
            proof {
                assert(rebuilt@ =~= mid.subrange(0, pos as int) + string@.subrange(0, i + 1));
            }
        }
        let len = self.content.len();
        for i in pos..len
            invariant
                pos <= len == self.content.len(),
                self.content@ == mid,
                rebuilt@ == mid.subrange(0, pos as int) + string@ + mid.subrange(
                    pos as int,
                    i as int,
                ),
        {
            rebuilt.push(self.content[i]);
            proof {
                assert(rebuilt@ =~= mid.subrange(0, pos as int) + string@ + mid.subrange(
                    pos as int,
                    i + 1,
                ));
            }
        }
        self.content = rebuilt;
        self.cursor = Cursor::at(pos + string.len());
        proof {
            let pre = old(self).content@;
            let mn = old(self).cursor.spec_min() as int;
            let mx = old(self).cursor.spec_max() as int;
            assert(mid.subrange(0, pos as int) =~= pre.subrange(0, mn));
            assert(mid.subrange(pos as int, mid.len() as int) =~= pre.subrange(
                mx,
                pre.len() as int,
            ));
            assert(self.content@ =~= pre.subrange(0, mn) + string@ + pre.subrange(
                mx,
                pre.len() as int,
            ));
        }
    }

    /// Removes either the selection, or (for a collapsed cursor) one
    /// character before or at the cursor, depending on the key.
    pub fn remove(&mut self, key: RemoveKeyCode)
        requires
            input_wf(*old(self)),
        ensures
            input_wf(*final(self)),
            ({
                let pre = old(self).content@;
                let mn = old(self).cursor.spec_min() as int;
                let mx = old(self).cursor.spec_max() as int;
                if mn < mx {
                    final(self).content@ == pre.subrange(0, mn) + pre.subrange(
                        mx,
                        pre.len() as int,
                    ) && final(self).cursor == Cursor::spec_at(mn as usize)
                } else if key == RemoveKeyCode::Backspace {
                    if mn > 0 {
                        final(self).content@ == pre.subrange(0, mn - 1) + pre.subrange(
                            mn,
                            pre.len() as int,
                        ) && final(self).cursor == Cursor::spec_at((mn - 1) as usize)
                    } else {
                        final(self).content@ == pre && final(self).cursor == old(self).cursor
                    }
                } else {
                    if mn < pre.len() {
                        final(self).content@ == pre.subrange(0, mn) + pre.subrange(
                            mn + 1,
                            pre.len() as int,
                        ) && final(self).cursor == Cursor::spec_at(mn as usize)
                    } else {
                        final(self).content@ == pre && final(self).cursor == old(self).cursor
                    }
                }
            }),
    {
        let ghost pre = *old(self);
        let (deleted, pos) = self.delete_selection();
        if deleted {
            self.cursor = Cursor::at(pos);
        } else {
            proof {
                assert(self.content@ =~= pre.content@);
            }
            match key {
                RemoveKeyCode::Backspace => {
                    if pos > 0 {
                        let removed = self.content.remove(pos - 1);
                        self.cursor = Cursor::at(pos - 1);
                        proof {
                            assert(self.content@ =~= pre.content@.subrange(0, pos - 1)
                                + pre.content@.subrange(pos as int, pre.content@.len() as int));
                        }
                    }
                },
                RemoveKeyCode::Delete => {
                    if pos < self.content.len() {
                        let removed = self.content.remove(pos);
                        self.cursor = Cursor::at(pos);
                        proof {
                            assert(self.content@ =~= pre.content@.subrange(0, pos as int)
                                + pre.content@.subrange(pos + 1, pre.content@.len() as int));
                        }
                    }
                },
            }
        }
    }
}

impl Cursor {
    /// A collapsed cursor at `pos`, as a specification value.
    pub open spec fn spec_at(pos: usize) -> Cursor {
        Cursor { start: pos, end: pos }
    }
}

} // verus!
