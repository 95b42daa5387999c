//! The mode-and-tool coordination layer of a raster image editor's toolbar: the active
//! tool and its history, the mode buttons, the palette, the tool settings panel and the
//! brushes derived from them.

pub mod brush;
pub mod buttons;
pub mod mode;
pub mod palette;
pub mod settings;
pub mod toolbar;
