//! The state the renderer's debug window keeps between frames.
use vstd::prelude::*;

verus! {

/// The id a GUI texture is drawn by.
#[derive(Debug, Clone, Copy, PartialEq, Eq, Structural, Hash)]
pub struct TextureId(pub usize);

/// What the debug window remembers.
#[derive(Debug, Clone, Copy, PartialEq, Eq, Structural)]
pub struct GuiState {
    /// Whether the pointer is over the window.
    pub hovered: bool,
    /// Whether the demo window is open.
    pub open_demo_window: bool,
    /// The texture the window shows, if any.
    pub test_texture_id: Option<TextureId>,
}

impl GuiState {
    /// A window not hovered, with the demo window closed, showing the given
    /// texture.
    pub fn new(test_texture_id: Option<TextureId>) -> (r: Self)
        ensures
            r == (GuiState { hovered: false, open_demo_window: false, test_texture_id }),
    {
        GuiState { hovered: false, open_demo_window: false, test_texture_id }
    }
}

} // verus!
