//! A headless file-browser dialog: directory listings are filtered, sorted and
//! turned into labelled controls, and navigation / selection is tracked as
//! plain dialog state.  A host immediate-mode UI draws the controls, reports
//! which one was activated, and performs the actual filesystem reads.

pub mod controls;
pub mod dialog;
pub mod entry;
pub mod listing;
pub mod path;
pub mod sort;

pub use controls::EntryControl;
pub use dialog::DialogError;
pub use dialog::DialogMode;
pub use dialog::FileDialog;
pub use dialog::UiAction;
pub use dialog::UiEvent;
pub use entry::DirEntry;
pub use path::DirPath;
