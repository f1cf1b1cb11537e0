//! The labels and plugin of the UI system.

use vstd::prelude::*;

verus! {

/// The basic plugin for the UI.
#[derive(Debug, Default, Clone, Copy)]
pub struct UiPlugin;

/// The labels of the kinds of UI systems.
#[derive(Debug, Hash, PartialEq, Eq, Clone, Copy, Structural)]
pub enum UiSystem {
    /// After this label, the flex layout state has been updated.
    Flex,
    /// After this label, input interactions with UI entities have been updated for this frame.
    Focus,
    /// After this label, the UI stack has been updated.
    Stack,
}

} // verus!
