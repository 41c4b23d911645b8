//! Internal events that components may register to be told about.
use vstd::prelude::*;

verus! {

/// An event inside the application.
pub enum InternalEvent {
    FileOpenDialogOpened(),
    FileOpenDialogSucceeded(),
    FileOpenDialogFailed(),
    FileOpened(),
    FileClosed(),
    FindOpened(),
    FindClosed(),
    FindResultAvailable(),
    DataSelected(),
    DataCopied(),
    PreferencesDialogOpened(),
    PreferencesDialogSucceeded(),
    PreferencesDialogCancelled(),
    PreferencesLoaded(),
    PreferencesChanged(),
    PreferencesSaved(),
    TabOpened(),
    TabClosed(),
    TabChanged(),
    AboutDialogOpened(),
    AboutDialogClosed(),
    WindowPositionChanged(),
    WindowSizeChanged(),
    WindowMinimized(),
    WindowClosing(),
}

} // verus!
