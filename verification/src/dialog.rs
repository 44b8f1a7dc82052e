//! The file dialog itself: its configuration, its navigation state, and the
//! per-frame logic.  The host UI draws what the dialog computes, reports the
//! control the user activated, and answers whether an attempted directory
//! change was possible; every decision in between is made here.

use vstd::prelude::*;
use crate::controls::EntryControl;
use crate::controls::build_controls;
use crate::controls::controls_match;
use crate::controls::shown_entries;
use crate::entry::DirEntry;
use crate::listing::filter_visible;
use crate::listing::visible_entries;
use crate::path::DirPath;
use crate::path::parent_of;
use crate::sort::sort_entries;
use crate::sort::sort_entries_spec;

verus! {

/// Whether the dialog opens an existing file or names one to save.
#[derive(Debug, Clone, Copy, PartialEq, Eq, Structural)]
pub enum DialogMode {
    Open,
    Save,
}

/// A failure the dialog has recovered from, kept for the host to inspect.
#[derive(Debug, Clone, Copy, PartialEq, Eq, Structural)]
pub enum DialogError {
    /// The current directory could not be listed.
    ReadDirFailed,
    /// A requested directory change was not possible.
    ChangeDirFailed,
}

/// What the user did this frame, as the host UI reports it.
#[derive(Debug, Clone, Copy, PartialEq, Eq, Structural)]
pub enum UiEvent {
    /// A breadcrumb component of the current path was activated.
    BreadcrumbClicked(usize),
    /// An entry control of the listing was activated.
    EntryClicked(usize),
    /// The "Back" control was activated.
    BackClicked,
    /// The accept control was activated.
    AcceptClicked,
    /// The hidden-files toggle was activated.
    HiddenToggled,
}

/// What the host must do after an event is handled.
#[derive(Debug, PartialEq, Eq)]
pub enum UiAction {
    /// Nothing to do; keep rendering.
    Idle,
    /// Try to change into the given directory, then report back through
    /// `FileDialog::finish_navigation`.
    Navigate(DirPath),
    /// The user chose this path; hand it to the application.
    SelectPath(DirPath),
}

/// The file dialog: builder-style configuration and per-frame browsing
/// state.
#[derive(Debug)]
pub struct FileDialog {
    pub title: String,
    pub accept_text: String,
    pub cancel_text: String,
    pub filename: String,
    pub mode: DialogMode,
    pub dirs_only: bool,
    pub show_hidden_files: bool,
    pub current_directory: DirPath,
    pub last_error: Option<DialogError>,
}

impl Default for FileDialog {
    /// The same dialog `FileDialog::new` builds.
    fn default() -> (r: FileDialog)
        ensures
            r.title@ == "Open File"@,
            r.accept_text@ == "Open"@,
            r.cancel_text@ == "Cancel"@,
            r.filename@ == Seq::<char>::empty(),
            r.mode == DialogMode::Open,
            !r.dirs_only,
            !r.show_hidden_files,
            r.current_directory@ == Seq::<Seq<char>>::empty(),
            r.last_error is None,
    {
        FileDialog::new()
    }
}

/// The configuration fields two dialog values share.
pub open spec fn same_config(a: FileDialog, b: FileDialog) -> bool {
    &&& a.title == b.title
    &&& a.accept_text == b.accept_text
    &&& a.cancel_text == b.cancel_text
    &&& a.filename == b.filename
    &&& a.mode == b.mode
    &&& a.dirs_only == b.dirs_only
}

impl FileDialog {
    /// A fresh dialog: open mode, default labels, hidden files hidden, the
    /// cursor at the root, and no error recorded.
    pub fn new() -> (r: FileDialog)
        ensures
            r.title@ == "Open File"@,
            r.accept_text@ == "Open"@,
            r.cancel_text@ == "Cancel"@,
            r.filename@ == Seq::<char>::empty(),
            r.mode == DialogMode::Open,
            !r.dirs_only,
            !r.show_hidden_files,
            r.current_directory@ == Seq::<Seq<char>>::empty(),
            r.last_error is None,
    {
        FileDialog {
            title: String::from_str("Open File"),
            accept_text: String::from_str("Open"),
            cancel_text: String::from_str("Cancel"),
            filename: String::new(),
            mode: DialogMode::Open,
            dirs_only: false,
            show_hidden_files: false,
            current_directory: DirPath::root(),
            last_error: None,
        }
    }

    /// Sets the title of the dialog.
    pub fn title(self, title: String) -> (r: FileDialog)
        ensures
            r.title == title,
            r.accept_text == self.accept_text,
            r.cancel_text == self.cancel_text,
            r.filename == self.filename,
            r.mode == self.mode,
            r.dirs_only == self.dirs_only,
            r.show_hidden_files == self.show_hidden_files,
            r.current_directory == self.current_directory,
            r.last_error == self.last_error,
    {
        FileDialog { title, ..self }
    }

    /// Sets the accept ("Open") text of the dialog.
    pub fn accept_text(self, accept_text: String) -> (r: FileDialog)
        ensures
            r.accept_text == accept_text,
            r.title == self.title,
            r.cancel_text == self.cancel_text,
            r.filename == self.filename,
            r.mode == self.mode,
            r.dirs_only == self.dirs_only,
            r.show_hidden_files == self.show_hidden_files,
            r.current_directory == self.current_directory,
            r.last_error == self.last_error,
    {
        FileDialog { accept_text, ..self }
    }

    /// Sets the reject text of the dialog.
    pub fn cancel_text(self, cancel_text: String) -> (r: FileDialog)
        ensures
            r.cancel_text == cancel_text,
            r.title == self.title,
            r.accept_text == self.accept_text,
            r.filename == self.filename,
            r.mode == self.mode,
            r.dirs_only == self.dirs_only,
            r.show_hidden_files == self.show_hidden_files,
            r.current_directory == self.current_directory,
            r.last_error == self.last_error,
    {
        FileDialog { cancel_text, ..self }
    }

    /// Restricts the dialog to opening directories.
    pub fn dir_only(self) -> (r: FileDialog)
        ensures
            r.dirs_only,
            r.title == self.title,
            r.accept_text == self.accept_text,
            r.cancel_text == self.cancel_text,
            r.filename == self.filename,
            r.mode == self.mode,
            r.show_hidden_files == self.show_hidden_files,
            r.current_directory == self.current_directory,
            r.last_error == self.last_error,
    {
        FileDialog { dirs_only: true, ..self }
    }

    /// Sets the dialog for saving.  Like every builder call, it changes
    /// only its own setting, so the builders may be applied in any order.
    pub fn for_save(self) -> (r: FileDialog)
        ensures
            r.mode == DialogMode::Save,
            r.dirs_only == self.dirs_only,
            r.title == self.title,
            r.accept_text == self.accept_text,
            r.cancel_text == self.cancel_text,
            r.filename == self.filename,
            r.show_hidden_files == self.show_hidden_files,
            r.current_directory == self.current_directory,
            r.last_error == self.last_error,
    {
        FileDialog { mode: DialogMode::Save, ..self }
    }

    /// Moves the navigation cursor, as when the dialog is first pointed at
    /// the process's working directory.
    pub fn set_directory(&mut self, dir: DirPath)
        ensures
            final(self).current_directory == dir,
            same_config(*old(self), *final(self)),
            final(self).show_hidden_files == old(self).show_hidden_files,
            final(self).last_error == old(self).last_error,
    {
        self.current_directory = dir;
    }

    /// The controls of the current frame's entry list: the visible entries
    /// of the listing, sorted, one labelled control each, files left out
    /// when the dialog is restricted to directories.
    pub fn entry_controls(&self, entries: Vec<DirEntry>) -> (r: Vec<EntryControl>)
        ensures
            controls_match(
                r@,
                shown_entries(
                    sort_entries_spec(filter_visible(entries@, self.show_hidden_files)),
                    self.dirs_only,
                ),
            ),
            self.dirs_only ==> forall|i: int| 0 <= i < r@.len() ==> (#[trigger] r@[i]).is_dir,
    {
        let visible = visible_entries(&entries, self.show_hidden_files);
        let sorted = sort_entries(visible);
        build_controls(&sorted, self.dirs_only)
    }

    /// Handles the event of one frame.  Only the hidden-files flag may
    /// change here; navigation is requested through the returned action and
    /// committed by `finish_navigation`, so that the host can first try the
    /// directory.  Activating a file control yields the file's full path
    /// and leaves the whole state unchanged.
    pub fn handle_event(&mut self, controls: &Vec<EntryControl>, event: UiEvent) -> (a: UiAction)
        ensures
            same_config(*old(self), *final(self)),
            final(self).current_directory == old(self).current_directory,
            final(self).last_error == old(self).last_error,
            final(self).show_hidden_files == (if event is HiddenToggled {
                !old(self).show_hidden_files
            } else {
                old(self).show_hidden_files
            }),
            (match event {
                UiEvent::BreadcrumbClicked(i) => {
                    if (i as int) < old(self).current_directory@.len() {
                        a matches UiAction::Navigate(t) && t@ == old(
                            self,
                        ).current_directory@.take(i as int + 1)
                    } else {
                        a is Idle
                    }
                },
                UiEvent::EntryClicked(i) => {
                    if (i as int) >= controls@.len() {
                        a is Idle
                    } else if controls@[i as int].is_dir {
                        a matches UiAction::Navigate(t) && t@ == old(
                            self,
                        ).current_directory@.push(controls@[i as int].name@)
                    } else {
                        a matches UiAction::SelectPath(p) && p@ == old(
                            self,
                        ).current_directory@.push(controls@[i as int].name@)
                    }
                },
                UiEvent::BackClicked => a matches UiAction::Navigate(t) && t@ == parent_of(
                    old(self).current_directory@,
                ),
                UiEvent::AcceptClicked => a is Idle,
                UiEvent::HiddenToggled => a is Idle,
            }),
    {
        match event {
            UiEvent::BreadcrumbClicked(i) => {
                if i < self.current_directory.depth() {
                    UiAction::Navigate(self.current_directory.ancestor(i + 1))
                } else {
                    UiAction::Idle
                }
            },
            UiEvent::EntryClicked(i) => {
                if i < controls.len() {
                    let target = self.current_directory.child(controls[i].name.as_str());
                    if controls[i].is_dir {
                        UiAction::Navigate(target)
                    } else {
                        UiAction::SelectPath(target)
                    }
                } else {
                    UiAction::Idle
                }
            },
            UiEvent::BackClicked => UiAction::Navigate(self.current_directory.parent()),
            UiEvent::AcceptClicked => UiAction::Idle,
            UiEvent::HiddenToggled => {
                self.show_hidden_files = !self.show_hidden_files;
                UiAction::Idle
            },
        }
    }

    /// Commits or discards a navigation the host tried: on success the
    /// cursor moves to the target and any recorded error is cleared; on
    /// failure the cursor is unchanged and the failure is recorded.
    pub fn finish_navigation(&mut self, target: DirPath, accessible: bool)
        ensures
            same_config(*old(self), *final(self)),
            final(self).show_hidden_files == old(self).show_hidden_files,
            accessible ==> final(self).current_directory == target && final(self).last_error
                is None,
            !accessible ==> final(self).current_directory == old(self).current_directory
                && final(self).last_error == Some(DialogError::ChangeDirFailed),
    {
        if accessible {
            self.current_directory = target;
            self.last_error = None;
        } else {
            self.last_error = Some(DialogError::ChangeDirFailed);
        }
    }

    /// Records that the current directory could not be listed; the dialog
    /// then shows an empty listing rather than aborting the frame.
    pub fn note_read_error(&mut self)
        ensures
            same_config(*old(self), *final(self)),
            final(self).show_hidden_files == old(self).show_hidden_files,
            final(self).current_directory == old(self).current_directory,
            final(self).last_error == Some(DialogError::ReadDirFailed),
    {
        self.last_error = Some(DialogError::ReadDirFailed);
    }
}

} // verus!
