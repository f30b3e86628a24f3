//! The record that all panels share.
use vstd::prelude::*;

verus! {

/// Path of the item last selected in the browser, if any.
pub struct AppState {
    pub selected_file: Option<String>,
}

/// The shared path as characters.
pub open spec fn path_view(selected: Option<String>) -> Option<Seq<char>> {
    match selected {
        Some(s) => Some(s@),
        None => None,
    }
}

pub open spec fn shown_path(selected: Option<String>) -> Seq<char> {
    match selected {
        Some(s) => s@,
        None => "No file selected"@,
    }
}

impl AppState {
    pub fn new() -> (r: AppState)
        ensures
            r.selected_file is None,
    {
        AppState { selected_file: None }
    }

    /// The selected path, or a placeholder when nothing is selected.
    pub fn preview_text(&self) -> (r: String)
        ensures
            r@ == shown_path(self.selected_file),
    {
        match &self.selected_file {
            Some(s) => s.clone(),
            None => String::from_str("No file selected"),
        }
    }
}

} // verus!
