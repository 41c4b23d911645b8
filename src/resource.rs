//! Names and labels of the application's windows and menus. A menu label
//! marks its accelerator key with `&`.
use vstd::prelude::*;

verus! {

/// The title of the first-generation window.
pub const APP_TITLE: &'static str = "Rusty CSV Viewer";
/// The copyright line of the first-generation window.
pub const APP_ABOUT: &'static str = "Copyright 2020";
/// The title of the file picker.
pub const APP_OPEN_FILE_DLG: &'static str = "Open a CSV file";
/// The filter of the file picker.
pub const APP_OPEN_FILE_DLG_FILTER: &'static str = "CSV(*.csv)|Text(*.txt)|All Files(*.*)";

/// The File menu of the first-generation window.
#[allow(non_camel_case_types)]
pub struct LMENU_FILE {}

impl LMENU_FILE {
    pub const NAME: &'static str = "&File";
    pub const CHILD: [&'static str; 3] = ["&Open File", "&Close File", "E&xit"];
}

/// The Edit menu of the first-generation window.
#[allow(non_camel_case_types)]
pub struct LMENU_EDIT {}

impl LMENU_EDIT {
    pub const NAME: &'static str = "&Edit";
    pub const CHILD: [&'static str; 2] = ["&Find", "&Preferences"];
}

/// The Help menu of the first-generation window.
#[allow(non_camel_case_types)]
pub struct LMENU_HELP {}

impl LMENU_HELP {
    pub const NAME: &'static str = "&Help";
    pub const CHILD: [&'static str; 1] = ["&About"];
}

/// Details about the application.
pub struct CAppAbout {}

impl CAppAbout {
    pub const NAME: &'static str = "Rusty CSV Viewer";
    pub const VERSION: &'static str = "0.1.0";
    pub const COPYRIGHT: &'static str = "Copyright © 2020-2021 arrrrr";
}

/// The About dialog.
pub struct CDialogAboutApp {}

impl CDialogAboutApp {
    pub const WINDOW_SIZE: (i32, i32) = (400, 250);
}

/// The Open File dialog.
pub struct CDialogOpenFile {}

impl CDialogOpenFile {
    pub const TITLE: &'static str = "Open a CSV file";
    pub const FILTER: &'static str = "CSV(*.csv)|Text(*.txt)|All files(*.*)";
}

/// The File menu.
pub struct CMenuFile {}

impl CMenuFile {
    pub const NAME: &'static str = "&File";
    pub const CHILD: [&'static str; 3] = ["&Open file", "&Close file", "E&xit"];
}

/// The Edit menu.
pub struct CMenuEdit {}

impl CMenuEdit {
    pub const NAME: &'static str = "&Edit";
    pub const CHILD: [&'static str; 2] = ["&Find", "&Preferences"];
}

/// The Help menu.
pub struct CMenuHelp {}

impl CMenuHelp {
    pub const NAME: &'static str = "&Help";
    pub const CHILD: [&'static str; 1] = ["&About"];
}

} // verus!
