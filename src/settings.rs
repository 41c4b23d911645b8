//! Values that persist between sessions: window geometry and recently opened
//! files. Reading and writing the settings file is left to the caller.
use vstd::prelude::*;
use vstd::string::StringExecFns;
use crate::geometry::Coord;
use crate::shape::Point;

verus! {

/// An error of the settings store, with the detail that the store reported.
#[derive(Debug, PartialEq)]
pub enum AppSettingsError {
    IOError(String),
    SerializationError(String),
    DeserializationError(String),
}

/// The message of a settings error.
pub open spec fn settings_error_message(e: AppSettingsError) -> Seq<char> {
    match e {
        AppSettingsError::IOError(s) => "Unable to open settings or IO error. "@ + s@,
        AppSettingsError::SerializationError(s) => "JSON serialization error writing settings. "@
            + s@,
        AppSettingsError::DeserializationError(s) => "JSON deserialization error reading settings. "@
            + s@,
    }
}

impl AppSettingsError {
    /// The message shown to the user.
    pub fn message(&self) -> (r: String)
        ensures
            r@ == settings_error_message(*self),
    {
        match self {
            AppSettingsError::IOError(s) => {
                let mut m = String::from_str("Unable to open settings or IO error. ");
                m.append(s.as_str());
                m
            },
            AppSettingsError::SerializationError(s) => {
                let mut m = String::from_str("JSON serialization error writing settings. ");
                m.append(s.as_str());
                m
            },
            AppSettingsError::DeserializationError(s) => {
                let mut m = String::from_str("JSON deserialization error reading settings. ");
                m.append(s.as_str());
                m
            },
        }
    }
}

/// Default values of [`AppSettings`].
pub struct CAppSettings {}

impl CAppSettings {
    /// The settings file, beside the executable.
    pub const DEF_CFG_PATH: &'static str = "settings.json";

    /// The default window position.
    #[allow(non_snake_case)]
    pub fn DEF_WINDOW_POS() -> (r: Coord<i32>)
        ensures
            r == (Coord { x: 300i32, y: 300i32 }),
    {
        Coord { x: 300, y: 300 }
    }

    /// The default window dimensions.
    #[allow(non_snake_case)]
    pub fn DEF_WINDOW_DIMS() -> (r: Coord<i32>)
        ensures
            r == (Coord { x: 400i32, y: 300i32 }),
    {
        Coord { x: 400, y: 300 }
    }
}

/// The persistent state of the first-generation window.
#[derive(Debug, PartialEq, Default)]
pub struct AppSettings {
    /// Window position relative to (0,0) at top left
    pub window_pos: Coord<i32>,
    /// Window dimensions
    pub window_dims: Coord<i32>,
    /// Recently opened file paths
    pub recent_files: Vec<String>,
    /// The folder where the file picker opens
    pub last_seen_folder: String,
}

impl AppSettings {
    /// The default settings, opening the file picker in `last_seen_folder`.
    pub fn new(last_seen_folder: String) -> (r: AppSettings)
        ensures
            r.window_pos == (Coord { x: 300i32, y: 300i32 }),
            r.window_dims == (Coord { x: 400i32, y: 300i32 }),
            r.recent_files@.len() == 0,
            r.last_seen_folder == last_seen_folder,
    {
        AppSettings {
            window_pos: CAppSettings::DEF_WINDOW_POS(),
            window_dims: CAppSettings::DEF_WINDOW_DIMS(),
            recent_files: Vec::new(),
            last_seen_folder,
        }
    }
}

/// Default values of [`Settings`].
pub struct CSettings {}

impl CSettings {
    /// The settings file, beside the executable.
    pub const DEF_CFG_PATH: &'static str = "settings.json";

    /// The default number of recent files kept.
    pub const DEF_MAX_RECENT_FILES: usize = 10;

    /// The default window position.
    #[allow(non_snake_case)]
    pub fn DEF_WINDOW_POS() -> (r: Point<i32>)
        ensures
            r == (Point { x: 300i32, y: 300i32 }),
    {
        Point { x: 300, y: 300 }
    }

    /// The default window size.
    #[allow(non_snake_case)]
    pub fn DEF_WINDOW_SIZE() -> (r: Point<u32>)
        ensures
            r == (Point { x: 400u32, y: 300u32 }),
    {
        Point { x: 400, y: 300 }
    }
}

/// The persistent state of the second-generation window.
#[derive(Debug, PartialEq, Default)]
pub struct Settings {
    /// Window position relative to (0,0) at top left
    pub window_pos: Point<i32>,
    /// Window dimensions
    pub window_size: Point<u32>,
    /// Recently opened file paths
    pub recent_files: Vec<String>,
    /// Maximum number of recent files to store
    pub max_recent_files: usize,
}

/// The items of `s` whose flag in `keep` is set, in order.
pub open spec fn kept<T>(s: Seq<T>, keep: Seq<bool>) -> Seq<T>
    decreases s.len(),
{
    if s.len() == 0 || keep.len() == 0 {
        Seq::empty()
    } else {
        let k = kept(s.drop_last(), keep.drop_last());
        if keep.last() {
            k.push(s.last())
        } else {
            k
        }
    }
}

impl Settings {
    /// The default settings, with no recent file.
    pub fn new() -> (r: Settings)
        ensures
            r.window_pos == (Point { x: 300i32, y: 300i32 }),
            r.window_size == (Point { x: 400u32, y: 300u32 }),
            r.recent_files@.len() == 0,
            r.max_recent_files == CSettings::DEF_MAX_RECENT_FILES,
    {
        Settings {
            window_pos: CSettings::DEF_WINDOW_POS(),
            window_size: CSettings::DEF_WINDOW_SIZE(),
            recent_files: Vec::new(),
            max_recent_files: CSettings::DEF_MAX_RECENT_FILES,
        }
    }

    /// Keeps the recent files that are still files; `is_file[i]` tells
    /// whether `files[i]` is one.
    pub fn verify_recent_files(files: &mut Vec<String>, is_file: &Vec<bool>)
        requires
            old(files)@.len() == is_file@.len(),
        ensures
            final(files).deep_view() == kept(old(files).deep_view(), is_file@),
    {
        let mut out: Vec<String> = Vec::new();
        let mut i: usize = 0;
        let n = files.len();
        while i < n
            invariant
                n == files@.len() == is_file@.len(),
                files == old(files),
                i <= n,
                out.deep_view() == kept(
                    files.deep_view().subrange(0, i as int),
                    is_file@.subrange(0, i as int),
                ),
            decreases n - i,
        {
            let ghost before = out.deep_view();
            proof {
                let s = files.deep_view().subrange(0, i + 1);
                let k = is_file@.subrange(0, i + 1);
                assert(s.drop_last() =~= files.deep_view().subrange(0, i as int));
                assert(k.drop_last() =~= is_file@.subrange(0, i as int));
            }
            if is_file[i] {
                let f = files[i].clone();
                out.push(f);
                assert(out.deep_view() =~= before.push(files.deep_view()[i as int]));
            }
            i = i + 1;
        }
        assert(files.deep_view().subrange(0, n as int) =~= files.deep_view());
        assert(is_file@.subrange(0, n as int) =~= is_file@);
        *files = out;
    }
}

} // verus!
