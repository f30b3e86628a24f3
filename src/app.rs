//! The application shell: owns the panels, the shared state and the focus
//! manager, and routes each event to the focused panel.
use vstd::prelude::*;
use crate::events::{AppEvent, Key};
use crate::file_browser::{cursor_after, DirRequest, FileBrowser};
use crate::focus_manager::FocusManager;
use crate::listing::{listed, BrowseItem};
use crate::state::{path_view, AppState};
use crate::video_info::{scroll_after, VideoInfo};

verus! {

/// Focus positions, one per panel: the browser and the metadata panel.
pub const FOCUS_SLOTS: usize = 2;

/// Focus position of the directory browser.
pub const BROWSER_SLOT: usize = 0;

/// Focus position of the metadata panel.
pub const VIEWER_SLOT: usize = 1;

pub struct App {
    file_browser: FileBrowser,
    video_info: VideoInfo,
    state: AppState,
    focus: FocusManager,
}

impl App {
    pub closed spec fn browser(&self) -> FileBrowser {
        self.file_browser
    }

    pub closed spec fn viewer(&self) -> VideoInfo {
        self.video_info
    }

    pub closed spec fn shared(&self) -> AppState {
        self.state
    }

    pub closed spec fn focus_index(&self) -> int {
        self.focus.index()
    }

    pub closed spec fn focus_count(&self) -> int {
        self.focus.count()
    }

    pub open spec fn wf(&self) -> bool {
        &&& self.browser().wf()
        &&& 0 <= self.focus_index() < self.focus_count()
        &&& self.focus_count() == FOCUS_SLOTS
        &&& self.inner_wf()
    }

    /// The focus manager's own invariant.
    pub closed spec fn inner_wf(&self) -> bool {
        self.focus.wf()
    }

    /// The shell rooted at `start_dir`, given what was read from it. Nothing
    /// is selected yet; the browser has focus.
    pub fn new(start_dir: String, found: Option<Vec<BrowseItem>>, parent_exists: bool) -> (r: Self)
        ensures
            r.wf(),
            r.focus_index() == BROWSER_SLOT,
            r.shared().selected_file is None,
            r.browser().dir() == start_dir@,
            r.browser().focus(),
            listed(r.browser().items(), found, parent_exists),
            r.browser().sel() == (if r.browser().items().len() > 0 {
                Some(0usize)
            } else {
                None
            }),
            !r.viewer().focus(),
            r.viewer().scroll() == 0,
    {
        let mut file_browser = FileBrowser::new(start_dir, found, parent_exists);
        file_browser.set_focus(true);
        let mut video_info = VideoInfo::new();
        video_info.set_focus(false);
        App {
            file_browser,
            video_info,
            state: AppState::new(),
            focus: FocusManager::new(FOCUS_SLOTS),
        }
    }

    pub fn file_browser(&self) -> (r: &FileBrowser)
        ensures
            *r == self.browser(),
    {
        &self.file_browser
    }

    pub fn video_info(&self) -> (r: &VideoInfo)
        ensures
            *r == self.viewer(),
    {
        &self.video_info
    }

    pub fn state(&self) -> (r: &AppState)
        ensures
            *r == self.shared(),
    {
        &self.state
    }

    pub fn current_focus(&self) -> (r: usize)
        requires
            self.wf(),
        ensures
            r == self.focus_index(),
    {
        self.focus.current()
    }

    /// Records the line count of the report the metadata panel rendered.
    pub fn record_report(&mut self, lines: usize)
        ensures
            final(self).viewer().length() == lines,
            final(self).viewer().scroll() == old(self).viewer().scroll(),
            final(self).viewer().focus() == old(self).viewer().focus(),
            final(self).browser() == old(self).browser(),
            final(self).shared() == old(self).shared(),
            final(self).focus_index() == old(self).focus_index(),
            final(self).focus_count() == old(self).focus_count(),
            final(self).wf() == old(self).wf(),
    {
        self.video_info.record_content(lines);
    }

    /// Completes a directory change that `handle_event` asked for, once the
    /// caller has moved to `dir` and read it.
    pub fn change_dir(&mut self, dir: String, found: Option<Vec<BrowseItem>>, parent_exists: bool)
        requires
            old(self).wf(),
        ensures
            final(self).wf(),
            final(self).browser().dir() == dir@,
            final(self).browser().focus() == old(self).browser().focus(),
            listed(final(self).browser().items(), found, parent_exists),
            final(self).browser().sel() == (if final(self).browser().items().len() > 0 {
                Some(1usize)
            } else {
                None
            }),
            path_view(final(self).shared().selected_file) == final(self).browser().selected_path(),
            final(self).viewer() == old(self).viewer(),
            final(self).focus_index() == old(self).focus_index(),
    {
        self.file_browser.change_dir(dir, found, parent_exists, &mut self.state);
    }

    /// Routes one event. Tab and Shift-Tab move focus and go no further;
    /// any other event is marked focused on, and handled by, the panel at
    /// the focus index. A directory change the browser asks for is handed
    /// back.
    pub fn handle_event(&mut self, event: &AppEvent) -> (r: DirRequest)
        requires
            old(self).wf(),
        ensures
            final(self).wf(),
            final(self).focus_count() == old(self).focus_count(),
            *event == AppEvent::Input(Key::Tab) ==> {
                &&& final(self).focus_index() == (old(self).focus_index() + 1) % old(
                    self,
                ).focus_count()
                &&& final(self).browser() == old(self).browser()
                &&& final(self).viewer() == old(self).viewer()
                &&& final(self).shared() == old(self).shared()
                &&& r is Nothing
            },
            *event == AppEvent::Input(Key::BackTab) ==> {
                &&& final(self).focus_index() == (old(self).focus_index() + old(self).focus_count()
                    - 1) % old(self).focus_count()
                &&& final(self).browser() == old(self).browser()
                &&& final(self).viewer() == old(self).viewer()
                &&& final(self).shared() == old(self).shared()
                &&& r is Nothing
            },
            !(*event == AppEvent::Input(Key::Tab) || *event == AppEvent::Input(Key::BackTab))
                ==> final(self).focus_index() == old(self).focus_index(),
            !(*event == AppEvent::Input(Key::Tab) || *event == AppEvent::Input(Key::BackTab))
                && old(self).focus_index() == BROWSER_SLOT ==> {
                let b0 = old(self).browser();
                let b1 = final(self).browser();
                &&& b1.focus()
                &&& b1.dir() == b0.dir()
                &&& b1.items() == b0.items()
                &&& final(self).viewer() == old(self).viewer()
                &&& match *event {
                    AppEvent::Input(k) => {
                        &&& b1.sel() == cursor_after(b0.sel(), k, b0.items().len() as int)
                        &&& path_view(final(self).shared().selected_file) == b1.selected_path()
                        &&& b0.request_for(k, r)
                    },
                    _ => {
                        &&& b1.sel() == b0.sel()
                        &&& final(self).shared() == old(self).shared()
                        &&& r is Nothing
                    },
                }
            },
            !(*event == AppEvent::Input(Key::Tab) || *event == AppEvent::Input(Key::BackTab))
                && old(self).focus_index() == VIEWER_SLOT ==> {
                let v0 = old(self).viewer();
                let v1 = final(self).viewer();
                &&& v1.focus()
                &&& v1.length() == v0.length()
                &&& v1.scroll() == match *event {
                    AppEvent::Input(k) => scroll_after(v0.scroll() as int, k),
                    _ => v0.scroll() as int,
                }
                &&& final(self).browser() == old(self).browser()
                &&& final(self).shared() == old(self).shared()
                &&& r is Nothing
            },
    {
        if let AppEvent::Input(key) = event {
            match key {
                Key::Tab => {
                    self.focus.next();
                    return DirRequest::Nothing;
                },
                Key::BackTab => {
                    self.focus.previous();
                    return DirRequest::Nothing;
                },
                _ => {},
            }
        }
        let current = self.focus.current();
        if current == BROWSER_SLOT {
            self.file_browser.set_focus(true);
            self.file_browser.handle_event(event, &mut self.state)
        } else {
            self.video_info.set_focus(true);
            self.video_info.handle_event(event, &mut self.state);
            DirRequest::Nothing
        }
    }
}

} // verus!
