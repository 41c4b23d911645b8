//! The state of the application, kept apart from the window: its settings
//! and the file that is open.
use vstd::prelude::*;
use vstd::string::StringExecFns;
use crate::settings::Settings;
use crate::shape::Point;
use crate::table::data::TableData;

verus! {

/// The name of an open file and its table.
pub struct OpenFileInfo {
    pub name: String,
    pub data: TableData,
}

/// The application state: the settings and the open file, if any.
pub struct AppState {
    settings: Settings,
    ofi: Option<OpenFileInfo>,
}

/// The entries of `s` other than `x`, in order.
pub open spec fn without(s: Seq<Seq<char>>, x: Seq<char>) -> Seq<Seq<char>>
    decreases s.len(),
{
    if s.len() == 0 {
        s
    } else {
        let w = without(s.drop_last(), x);
        if s.last() == x {
            w
        } else {
            w.push(s.last())
        }
    }
}

/// The recent files after opening `name`: its earlier entries are removed,
/// and it is added at the end while the list is below `max` entries.
pub open spec fn recent_after_open(s: Seq<Seq<char>>, name: Seq<char>, max: nat) -> Seq<
    Seq<char>,
> {
    let w = without(s, name);
    if w.len() < max {
        w.push(name)
    } else {
        w
    }
}

impl AppState {
    pub closed spec fn spec_settings(&self) -> Settings {
        self.settings
    }

    pub closed spec fn spec_ofi(&self) -> Option<OpenFileInfo> {
        self.ofi
    }

    /// The state with the given settings and no open file.
    pub fn new(settings: Settings) -> (r: AppState)
        ensures
            r.spec_settings() == settings,
            r.spec_ofi() is None,
    {
        AppState { settings, ofi: None }
    }

    /// The settings.
    pub fn settings(&self) -> (r: &Settings)
        ensures
            *r == self.spec_settings(),
    {
        &self.settings
    }

    /// The stored window position.
    pub fn window_pos(&self) -> (r: (i32, i32))
        ensures
            r == (self.spec_settings().window_pos.x, self.spec_settings().window_pos.y),
    {
        (self.settings.window_pos.x, self.settings.window_pos.y)
    }

    /// The stored window size.
    pub fn window_size(&self) -> (r: (u32, u32))
        ensures
            r == (self.spec_settings().window_size.x, self.spec_settings().window_size.y),
    {
        (self.settings.window_size.x, self.settings.window_size.y)
    }

    /// A copy of the recent files list.
    pub fn recent_files(&self) -> (r: Vec<String>)
        ensures
            r.deep_view() == self.spec_settings().recent_files.deep_view(),
    {
        let r = self.settings.recent_files.clone();
        proof {
            assert(r@.len() == self.settings.recent_files@.len());
            assert(r.deep_view() =~= self.settings.recent_files.deep_view()) by {
                assert forall|i: int| 0 <= i < r@.len() implies r.deep_view()[i]
                    == self.settings.recent_files.deep_view()[i] by {
                    assert(vstd::pervasive::cloned(self.settings.recent_files@[i], r@[i]));
                }
            }
        }
        r
    }

    /// The maximum number of recent files kept.
    pub fn max_recent_files(&self) -> (r: usize)
        ensures
            r == self.spec_settings().max_recent_files,
    {
        self.settings.max_recent_files
    }

    /// The open file, if any.
    pub fn file_data(&self) -> (r: Option<&OpenFileInfo>)
        ensures
            match r {
                Some(f) => self.spec_ofi() == Some(*f),
                None => self.spec_ofi() is None,
            },
    {
        if let Some(ofi) = &self.ofi {
            return Some(ofi);
        }
        None
    }

    /// Stores the window position, unless a coordinate is negative.
    pub fn set_window_pos(&mut self, pos: (i32, i32))
        ensures
            final(self).spec_settings().window_pos == if pos.0 >= 0 && pos.1 >= 0 {
                Point { x: pos.0, y: pos.1 }
            } else {
                old(self).spec_settings().window_pos
            },
            final(self).spec_settings().window_size == old(self).spec_settings().window_size,
            final(self).spec_settings().recent_files == old(self).spec_settings().recent_files,
            final(self).spec_settings().max_recent_files == old(
                self,
            ).spec_settings().max_recent_files,
            final(self).spec_ofi() == old(self).spec_ofi(),
    {
        let (x, y) = pos;
        if x >= 0 && y >= 0 {
            self.settings.window_pos = Point { x, y };
        }
    }

    /// Stores the window size.
    pub fn set_window_size(&mut self, size: (u32, u32))
        ensures
            final(self).spec_settings().window_size == (Point { x: size.0, y: size.1 }),
            final(self).spec_settings().window_pos == old(self).spec_settings().window_pos,
            final(self).spec_settings().recent_files == old(self).spec_settings().recent_files,
            final(self).spec_settings().max_recent_files == old(
                self,
            ).spec_settings().max_recent_files,
            final(self).spec_ofi() == old(self).spec_ofi(),
    {
        self.settings.window_size = Point { x: size.0, y: size.1 }
    }

    /// Sets the maximum number of recent files, dropping those beyond it.
    pub fn set_max_recent_files(&mut self, limit: usize)
        ensures
            final(self).spec_settings().max_recent_files == limit,
            final(self).spec_settings().recent_files@ == if old(
                self,
            ).spec_settings().recent_files@.len() <= limit {
                old(self).spec_settings().recent_files@
            } else {
                old(self).spec_settings().recent_files@.subrange(0, limit as int)
            },
            final(self).spec_settings().window_pos == old(self).spec_settings().window_pos,
            final(self).spec_settings().window_size == old(self).spec_settings().window_size,
            final(self).spec_ofi() == old(self).spec_ofi(),
    {
        self.settings.max_recent_files = limit;
        self.settings.recent_files.truncate(limit);
    }

    /// Records that `filename` was opened: it moves to the end of the recent
    /// files, or is left out when the list is full.
    pub fn add_recent_file(&mut self, filename: &str)
        ensures
            final(self).spec_settings().recent_files.deep_view() == recent_after_open(
                old(self).spec_settings().recent_files.deep_view(),
                filename@,
                old(self).spec_settings().max_recent_files as nat,
            ),
            final(self).spec_settings().max_recent_files == old(
                self,
            ).spec_settings().max_recent_files,
            final(self).spec_settings().window_pos == old(self).spec_settings().window_pos,
            final(self).spec_settings().window_size == old(self).spec_settings().window_size,
            final(self).spec_ofi() == old(self).spec_ofi(),
    {
        let target = String::from_str(filename);
        let mut kept: Vec<String> = Vec::new();
        let n = self.settings.recent_files.len();
        let mut i: usize = 0;
        while i < n
            invariant
                n == self.settings.recent_files@.len(),
                self.settings == old(self).settings,
                self.ofi == old(self).ofi,
                target@ == filename@,
                i <= n,
                kept.deep_view() == without(
                    self.settings.recent_files.deep_view().subrange(0, i as int),
                    filename@,
                ),
            decreases n - i,
        {
            let ghost before = kept.deep_view();
            let ghost all = self.settings.recent_files.deep_view();
            assert(all.subrange(0, i + 1).drop_last() =~= all.subrange(0, i as int));
            if !(self.settings.recent_files[i] == target) {
                let f = self.settings.recent_files[i].clone();
                kept.push(f);
                assert(kept.deep_view() =~= before.push(all[i as int]));
            }
            i = i + 1;
        }
        assert(self.settings.recent_files.deep_view().subrange(0, n as int)
            =~= self.settings.recent_files.deep_view());
        if kept.len() < self.settings.max_recent_files {
            let ghost before = kept.deep_view();
            kept.push(target);
            assert(kept.deep_view() =~= before.push(filename@));
        }
        self.settings.recent_files = kept;
    }

    /// Whether a file is open.
    pub fn is_data_loaded(&self) -> (r: bool)
        ensures
            r == self.spec_ofi() is Some,
    {
        self.ofi.is_some()
    }

    /// Makes `ofi` the open file and returns the one it replaces, if any.
    pub fn load_data(&mut self, ofi: OpenFileInfo) -> (r: Option<OpenFileInfo>)
        ensures
            r == old(self).spec_ofi(),
            final(self).spec_ofi() == Some(ofi),
            final(self).spec_settings() == old(self).spec_settings(),
    {
        let mut ofi_ = Some(ofi);
        std::mem::swap(&mut self.ofi, &mut ofi_);
        ofi_
    }

    /// Closes the open file and returns it, if any.
    pub fn unload_data(&mut self) -> (r: Option<OpenFileInfo>)
        ensures
            r == old(self).spec_ofi(),
            final(self).spec_ofi() is None,
            final(self).spec_settings() == old(self).spec_settings(),
    {
        let mut ofi_ = None;
        std::mem::swap(&mut self.ofi, &mut ofi_);
        ofi_
    }
}

} // verus!
