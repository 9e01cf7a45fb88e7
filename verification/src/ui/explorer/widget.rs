//! What the file browser shows.
use crate::ui::explorer::file_explorer::FileExplorer;
use vstd::prelude::*;

verus! {

/// The file browser as it is to be drawn.
pub struct Renderer<'a>(pub(crate) &'a FileExplorer);

impl<'a> Renderer<'a> {
    /// The browser that is drawn.
    pub closed spec fn explorer(&self) -> FileExplorer {
        *self.0
    }

    /// The row that is highlighted: that of the selected file.
    pub fn selected(&self) -> (row: Option<usize>)
        ensures
            row == Some(self.explorer()@.selected as usize),
    {
        Some(self.0.selected_idx())
    }

    /// Whether the highlighted row is drawn as a directory: it is, if the
    /// selected file is one.
    pub fn highlights_dir(&self) -> (is_dir: bool)
        ensures
            is_dir == (self.explorer()@.selected < self.explorer()@.files.len()
                && self.explorer()@.files[self.explorer()@.selected as int].is_dir),
    {
        match self.0.selected_file() {
            None => false,
            Some(file) => file.is_dir(),
        }
    }
}

impl FileExplorer {
    /// The browser as it is to be drawn.
    #[inline]
    pub fn widget(&self) -> (renderer: Renderer<'_>)
        ensures
            renderer.explorer() == *self,
    {
        Renderer(self)
    }
}

} // verus!
