//! Messages flowing through the user interface: broadcast component
//! messages, component-emitted actions, and focus-change requests.

use vstd::prelude::*;

use crate::component::ComponentId;

verus! {

/// A record read back from the registry, reduced to plain values: raw
/// content bytes plus metadata key/value pairs.
#[derive(Clone, Debug, PartialEq)]
pub struct RecordData {
    pub data: Vec<u8>,
    pub metadata: Vec<MetadataEntry>,
}

#[derive(Clone, Debug, PartialEq)]
pub struct MetadataEntry {
    pub key: Vec<char>,
    pub value: Vec<char>,
}

/// These are applied to all components unconditionally via a broadcast over
/// the tree.
#[derive(Clone, Debug, PartialEq)]
pub enum ComponentMessage {
    /// Sent when a tick action is processed.
    OnTick,
    OnCheckboxToggle { id: ComponentId, new_value: bool },
    OnButtonPress { id: ComponentId },
    ShowError { error: Vec<char> },
    RecordOpen { hashed_record_key: Vec<u8>, read_result: Option<RecordData> },
}

/// Messages generated by components, handled by the application loop.
#[derive(Clone, Debug, PartialEq)]
pub enum Action {
    Tick,
    Render,
    Resize(u16, u16),
    Suspend,
    Resume,
    Quit,
    ClearScreen,
    FocusChange(FocusChange),
    /// Send a message to all other components.
    BroadcastMessage(ComponentMessage),
}

#[derive(Clone, Copy, Debug, PartialEq, Eq, Structural)]
pub enum FocusChangeDirection {
    Forward,
    Backward,
}

/// Describes the set of components considered for focus.
/// The horizontal scope is all the siblings of the currently focused
/// component; the vertical scope is the parent or the first child.
#[derive(Clone, Copy, Debug, PartialEq, Eq, Structural)]
pub enum FocusChangeScope {
    Horizontal,
    Vertical,
    HorizontalAndVertical,
}

impl FocusChangeScope {
    pub fn is_horizontal_allowed(&self) -> (r: bool)
        ensures
            r == (self is Horizontal || self is HorizontalAndVertical),
    {
        matches!(self, Self::Horizontal | Self::HorizontalAndVertical)
    }

    pub fn is_vertical_allowed(&self) -> (r: bool)
        ensures
            r == (self is Vertical || self is HorizontalAndVertical),
    {
        matches!(self, Self::Vertical | Self::HorizontalAndVertical)
    }
}

#[derive(Clone, Copy, Debug, PartialEq, Eq, Structural)]
pub struct FocusChange {
    pub direction: FocusChangeDirection,
    pub scope: FocusChangeScope,
}

} // verus!
