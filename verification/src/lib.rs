//! UI widgets: the rules by which a text block gets its layout bounds, and the
//! queue that carries text entities from one layout pass to the next.

pub mod text;
pub mod text_queue;
pub mod ui;

use vstd::prelude::*;

verus! {

/// The plugin that gathers the UI widgets: buttons, text and images.
#[derive(Debug, Default, Clone, Copy)]
pub struct WidgetPlugin;

} // verus!
