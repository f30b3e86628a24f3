//! The directory browser panel: current directory, its listing and a
//! selection cursor. Reading the disk is left to the caller, which hands
//! in what it read and carries out the directory changes asked for.
use vstd::prelude::*;
use crate::events::{AppEvent, Key};
use crate::listing::{listed, listing, BrowseItem};
use crate::state::{path_view, AppState};

verus! {

use vstd::arithmetic::div_mod::{lemma_add_mod_noop_right, lemma_mod_bound, lemma_mod_multiples_vanish, lemma_small_mod};

/// What the path of `p` becomes when its last component is removed; `None`
/// where there is nothing to remove.
pub uninterp spec fn popped_path(p: Seq<char>) -> Option<Seq<char>>;

/// Relies on `std::path::PathBuf::pop`: drops the last component, or
/// reports that there is none.
#[verifier::external_body]
fn pop_path(dir: &str) -> (r: Option<String>)
    ensures
        match r {
            Some(p) => popped_path(dir@) == Some(p@),
            None => popped_path(dir@) is None,
        },
{
    let mut p = std::path::PathBuf::from(dir);
    match p.pop() {
        true => Some(p.to_string_lossy().into_owned()),
        false => None,
    }
}

/// A directory change that needs the disk; the caller performs it.
pub enum DirRequest {
    Nothing,
    /// Enter the subdirectory `name` of `dir`, if it is one.
    Enter { dir: String, name: String },
    /// Go to `parent`, the current directory without its last component.
    Back { parent: String },
}

/// The cursor after a move by `offset` in a list of `len` rows (Euclidean
/// remainder: always in range).
pub open spec fn step_selection(i: int, offset: int, len: int) -> int {
    (i + offset) % len
}

/// The cursor after a move by `offset`; no cursor stays no cursor.
pub open spec fn moved(sel: Option<usize>, offset: int, len: int) -> Option<usize> {
    match sel {
        Some(i) => Some(step_selection(i as int, offset, len) as usize),
        None => None,
    }
}

/// The cursor after key `k`: Up and Down move it, other keys leave it.
pub open spec fn cursor_after(sel: Option<usize>, k: Key, len: int) -> Option<usize> {
    if k == Key::Up {
        moved(sel, -1, len)
    } else if k == Key::Down {
        moved(sel, 1, len)
    } else {
        sel
    }
}

/// The cursor after `n` moves by `offset`, from row `i` of `len` rows.
pub open spec fn moved_times(i: int, offset: int, len: int, n: nat) -> int
    decreases n,
{
    if n == 0 {
        i
    } else {
        step_selection(moved_times(i, offset, len, (n - 1) as nat), offset, len)
    }
}

proof fn lemma_moved_times_closed(i: int, offset: int, len: int, n: nat)
    requires
        0 <= i < len,
    ensures
        moved_times(i, offset, len, n) == (i + n * offset) % len,
    decreases n,
{
    if n == 0 {
        lemma_small_mod(i as nat, len as nat);
    } else {
        let m = (n - 1) as nat;
        lemma_moved_times_closed(i, offset, len, m);
        let x = i + m * offset;
        lemma_add_mod_noop_right(offset, x, len);
        assert(x + offset == i + n * offset) by (nonlinear_arith)
            requires
                x == i + m * offset,
                m == n - 1,
        ;
    }
}

/// Moving the cursor `len` times by the same offset over a list of `len`
/// rows brings it back to the row it started on.
pub proof fn lemma_moves_cycle(i: int, offset: int, len: int)
    requires
        0 <= i < len,
    ensures
        moved_times(i, offset, len, len as nat) == i,
{
    lemma_moved_times_closed(i, offset, len, len as nat);
    lemma_mod_multiples_vanish(offset, i, len);
    lemma_small_mod(i as nat, len as nat);
    assert(i + len * offset == len * offset + i);
}

/// The path written to shared state for a cursor on `items`.
pub open spec fn selected_path(dir: Seq<char>, items: Seq<BrowseItem>, sel: Option<usize>) -> Option<
    Seq<char>,
> {
    match sel {
        Some(i) => if i < items.len() {
            Some(dir + seq!['/'] + items[i as int].filename@)
        } else {
            None
        },
        None => None,
    }
}

pub struct FileBrowser {
    current_dir: String,
    entries: Vec<BrowseItem>,
    selected: Option<usize>,
    focused: bool,
}

impl FileBrowser {
    pub closed spec fn dir(&self) -> Seq<char> {
        self.current_dir@
    }

    pub closed spec fn items(&self) -> Seq<BrowseItem> {
        self.entries@
    }

    pub closed spec fn sel(&self) -> Option<usize> {
        self.selected
    }

    pub closed spec fn focus(&self) -> bool {
        self.focused
    }

    /// Same directory, rows, cursor and focus.
    pub open spec fn same_as(&self, other: FileBrowser) -> bool {
        &&& self.dir() == other.dir()
        &&& self.items() == other.items()
        &&& self.sel() == other.sel()
        &&& self.focus() == other.focus()
    }

    /// What a key asks of the caller: entering the directory under the
    /// cursor (Enter), or going to the parent (Left); nothing otherwise.
    pub open spec fn request_for(&self, k: Key, r: DirRequest) -> bool {
        if k == Key::Enter {
            match self.sel() {
                Some(i) => if i < self.items().len() && self.items()[i as int].is_dir {
                    r matches DirRequest::Enter { dir, name } && dir@ == self.dir() && name@
                        == self.items()[i as int].filename@
                } else {
                    r is Nothing
                },
                None => r is Nothing,
            }
        } else if k == Key::Left {
            match popped_path(self.dir()) {
                Some(p) => r matches DirRequest::Back { parent } && parent@ == p,
                None => r is Nothing,
            }
        } else {
            r is Nothing
        }
    }

    /// A cursor exists exactly when there are rows; it is on a row, or it is
    /// index 1 of a one-row listing (a directory change that found only `..`).
    pub open spec fn wf(&self) -> bool {
        &&& (self.sel() is None <==> self.items().len() == 0)
        &&& self.sel() matches Some(i) ==> (i < self.items().len() || i == 1)
    }

    /// The path that shared state holds after an event reached this panel.
    pub open spec fn selected_path(&self) -> Option<Seq<char>> {
        selected_path(self.dir(), self.items(), self.sel())
    }

    /// A browser over `path`, given what was read from it; the cursor is on
    /// the first row if there is one.
    pub fn new(path: String, found: Option<Vec<BrowseItem>>, parent_exists: bool) -> (r: Self)
        ensures
            r.wf(),
            r.dir() == path@,
            r.focus(),
            listed(r.items(), found, parent_exists),
            r.sel() == (if r.items().len() > 0 {
                Some(0usize)
            } else {
                None
            }),
    {
        let entries = listing(found, parent_exists);
        let selected = if entries.len() > 0 {
            Some(0)
        } else {
            None
        };
        FileBrowser { current_dir: path, entries, selected, focused: true }
    }

    pub fn current_dir(&self) -> (r: &String)
        ensures
            r@ == self.dir(),
    {
        &self.current_dir
    }

    pub fn entries(&self) -> (r: &Vec<BrowseItem>)
        ensures
            r@ == self.items(),
    {
        &self.entries
    }

    pub fn selected(&self) -> (r: Option<usize>)
        ensures
            r == self.sel(),
    {
        self.selected
    }

    pub fn has_focus(&self) -> (r: bool)
        ensures
            r == self.focus(),
    {
        self.focused
    }

    pub fn set_focus(&mut self, focused: bool)
        ensures
            final(self).focus() == focused,
            final(self).dir() == old(self).dir(),
            final(self).items() == old(self).items(),
            final(self).sel() == old(self).sel(),
    {
        self.focused = focused;
    }

    /// Moves the cursor by `offset` rows, wrapping at both ends.
    pub fn move_selection(&mut self, offset: isize)
        requires
            old(self).wf(),
        ensures
            final(self).wf(),
            final(self).dir() == old(self).dir(),
            final(self).items() == old(self).items(),
            final(self).focus() == old(self).focus(),
            final(self).sel() == moved(old(self).sel(), offset as int, old(self).items().len() as int),
    {
        if let Some(sel) = self.selected {
            let len = self.entries.len();
            // the offset reduced into [0, len)
            let off: usize = if offset >= 0 {
                (offset as usize) % len
            } else {
                let m = ((-(offset + 1)) as usize) % len;
                len - 1 - m
            };
            let s = sel % len;
            let new = if s >= len - off {
                s - (len - off)
            } else {
                s + off
            };
            proof {
                let n = len as int;
                if offset < 0 {
                    // offset == n * (-q - 1) + (n - 1 - rm), where k == n * q + rm
                    let k = -(offset + 1);
                    let q = k / n;
                    let rm = k % n;
                    vstd::arithmetic::div_mod::lemma_fundamental_div_mod(k, n);
                    assert(n * (-q - 1) + (n - 1 - rm) == offset) by (nonlinear_arith)
                        requires
                            k == n * q + rm,
                            k == -(offset + 1),
                    ;
                    lemma_mod_multiples_vanish(-q - 1, n - 1 - rm, n);
                    lemma_small_mod((n - 1 - rm) as nat, n as nat);
                }
                // off == offset % n and s == sel % n, so new == (sel + offset) % n
                vstd::arithmetic::div_mod::lemma_add_mod_noop(sel as int, offset as int, n);
                if s >= len - off {
                    lemma_mod_multiples_vanish(1, new as int, n);
                }
                lemma_small_mod(new as nat, n as nat);
            }
            self.selected = Some(new);
        }
    }

    /// Replaces the current directory and its listing after the caller has
    /// moved to `dir`; the cursor goes to index 1, past the `..` row.
    /// Shared state then names the row under the cursor.
    pub fn change_dir(
        &mut self,
        dir: String,
        found: Option<Vec<BrowseItem>>,
        parent_exists: bool,
        app_state: &mut AppState,
    )
        ensures
            final(self).wf(),
            final(self).dir() == dir@,
            final(self).focus() == old(self).focus(),
            listed(final(self).items(), found, parent_exists),
            final(self).sel() == (if final(self).items().len() > 0 {
                Some(1usize)
            } else {
                None
            }),
            path_view(final(app_state).selected_file) == final(self).selected_path(),
    {
        self.current_dir = dir;
        self.entries = listing(found, parent_exists);
        self.selected = if self.entries.len() > 0 {
            Some(1)
        } else {
            None
        };
        self.sync(app_state);
    }

    /// Handles one event, when this panel has focus. Up and Down move the
    /// cursor cyclically; Enter and Left are handed back as a request. On
    /// every key, shared state is rewritten to the row under the cursor.
    pub fn handle_event(&mut self, event: &AppEvent, app_state: &mut AppState) -> (r: DirRequest)
        requires
            old(self).wf(),
        ensures
            final(self).wf(),
            !(old(self).focus() && *event is Input) ==> {
                &&& final(self).same_as(*old(self))
                &&& *final(app_state) == *old(app_state)
                &&& r is Nothing
            },
            old(self).focus() ==> (*event matches AppEvent::Input(k) ==> {
                &&& final(self).dir() == old(self).dir()
                &&& final(self).items() == old(self).items()
                &&& final(self).focus() == old(self).focus()
                &&& final(self).sel() == cursor_after(old(self).sel(), k, old(self).items().len() as int)
                &&& path_view(final(app_state).selected_file) == final(self).selected_path()
                &&& old(self).request_for(k, r)
            }),
    {
        if !self.focused {
            return DirRequest::Nothing;
        }
        match event {
            AppEvent::Input(key) => {
                let mut request = DirRequest::Nothing;
                match key {
                    Key::Up => self.move_selection(-1),
                    Key::Down => self.move_selection(1),
                    Key::Enter => request = self.enter_request(),
                    Key::Left => request = match pop_path(self.current_dir.as_str()) {
                        Some(parent) => DirRequest::Back { parent },
                        None => DirRequest::Nothing,
                    },
                    _ => {},
                }
                self.sync(app_state);
                request
            },
            _ => DirRequest::Nothing,
        }
    }

    fn enter_request(&self) -> (r: DirRequest)
        requires
            self.wf(),
        ensures
            self.request_for(Key::Enter, r),
    {
        match self.selected {
            Some(i) => {
                if i < self.entries.len() && self.entries[i].is_dir {
                    DirRequest::Enter {
                        dir: self.current_dir.clone(),
                        name: self.entries[i].filename.clone(),
                    }
                } else {
                    DirRequest::Nothing
                }
            },
            None => DirRequest::Nothing,
        }
    }

    /// Writes the path of the row under the cursor into shared state.
    fn sync(&self, app_state: &mut AppState)
        ensures
            path_view(final(app_state).selected_file) == self.selected_path(),
    {
        match self.selected {
            Some(i) => {
                if i < self.entries.len() {
                    let mut s = self.current_dir.clone();
                    proof {
                        reveal_strlit("/");
                    }
                    s.append("/");
                    s.append(self.entries[i].filename.as_str());
                    app_state.selected_file = Some(s);
                } else {
                    app_state.selected_file = None;
                }
            },
            None => {
                app_state.selected_file = None;
            },
        }
    }
}

} // verus!
