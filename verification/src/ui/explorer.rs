//! The file browser.
pub mod file_explorer;
pub mod order;
pub mod widget;

pub use crate::ui::explorer::file_explorer::File;
pub use crate::ui::explorer::file_explorer::FileExplorer;
