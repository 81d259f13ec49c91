//! The browser orchestrator: it owns the listing, the focus cursor
//! and the active mode, and turns each key event into the state
//! change and the collaborator action it calls for.
//!
//! All outside work (filesystem enumeration and mutation, changing
//! the working directory, spawning an editor or a shell command) is
//! requested through [`Action`] values and reported back through the
//! `on_*` methods, so every decision the browser makes is in verified
//! code while its caller performs the work.

use vstd::prelude::*;
use vstd::string::StrSliceExecFns;
use vstd::string::StringExecFns;

use crate::listing::DirectoryListing;
use crate::listing::FocusCursor;
use crate::listing::cursor_wf;
use crate::listing::max_name_len;
use crate::listing::max_size_len;
use crate::listing::page_count;
use crate::listing::spec_move_down;
use crate::listing::spec_move_up;
use crate::numfmt::u64_to_string;
use crate::perm::jp_is_valid;
use crate::perm::jp_perm_string;
use crate::perm::jp_prefix;
use crate::perm::jp_prefix_str;
use crate::perm::jp_render;
use crate::perm::jp_sep;
use crate::perm::jp_triple;
use crate::perm::jp_triple_str;
use crate::perm::lemma_recomb_nonneg;
use crate::perm::perm_adjusted;
use crate::perm::perm_digits_string;
use crate::perm::perm_string;
use crate::perm::recomb;
use crate::perm::signed_dec_str;
use crate::strutil::is_prefix;
use crate::strutil::split_spaces;
use crate::strutil::split_spaces_exec;
use crate::strutil::string_pop;
use crate::strutil::string_push;
use crate::strutil::trim_spaces;
use crate::strutil::trim_spaces_exec;
use crate::timefmt::out_of_range_text;
use crate::timefmt::utc_field_parts;
use crate::timefmt::ymdhm_str;
use crate::window::Mode;

verus! {

/// A key event, as the input layer delivers it.
#[derive(Clone, Copy, Debug, PartialEq, Eq, Structural)]
pub enum KeyInput {
    Char(char),
    Enter,
    Esc,
    Backspace,
    Other,
}

/// What the browser asks its collaborators to do after a key event.
/// The caller performs the action and, where the variant says so,
/// reports the outcome back.
#[derive(Debug)]
pub enum Action {
    /// Nothing to do beyond redrawing.
    Redraw,
    /// Attempt to change the working directory to `path` and report
    /// the outcome through `on_chdir`.
    ChangeDir { path: String },
    /// Open `name` in the external editor and wait for it to exit.
    OpenEditor { name: String },
    /// Spawn `program` with `args`, wait for it, and report a launch
    /// failure (the error text) through `on_command`.
    RunCommand { program: String, args: Vec<String> },
    /// Attempt to create a file named `name` and report the outcome
    /// through `on_create_file`.
    CreateFile { name: String },
    /// Create a directory named `name` (with its parents), then
    /// re-enumerate the working directory and apply the listing.
    CreateDir { name: String },
    /// Delete the entry `name` (recursively when it is a directory),
    /// then re-enumerate the working directory and apply the listing.
    Remove { name: String },
    /// Re-enumerate the working directory and apply the listing.
    Rebuild,
}

/// The follow-up that a collaborator call still owes the browser.
#[derive(Debug)]
pub enum Pending {
    /// Nothing outstanding.
    Idle,
    /// A directory change issued by Enter on the focused entry; on
    /// failure the entry is a file and is opened in the editor.
    NavEnter { name: String },
    /// A directory change to the parent, issued by Esc.
    NavEscape,
    /// A directory change committed from the change-directory flow.
    NavInput,
    /// A file creation committed from the add-entry flow; on failure
    /// a directory of the same name is created instead.
    CreateFile { name: String },
}

/// The page capacity a viewport of height `h` gives: two rows are
/// reserved for the frame, and the capacity never drops below one.
pub open spec fn spec_capacity(h: nat) -> nat {
    if h >= 3 {
        (h - 2) as nat
    } else {
        1
    }
}

/// The name under the focus cursor, or empty over an empty listing.
pub open spec fn focused_name(app: App) -> Seq<char> {
    if app.listing.pages@.len() > 0 {
        app.listing.pages@[app.cursor.page_index as int]@[app.cursor.row_index as int]@
    } else {
        Seq::<char>::empty()
    }
}

/// The fields no key event touches: the listing, the shown working
/// directory, and the viewport extent.
pub open spec fn frame_unchanged(pre: App, post: App) -> bool {
    &&& post.listing == pre.listing
    &&& post.pwd == pre.pwd
    &&& post.window_width == pre.window_width
    &&& post.window_height == pre.window_height
}

/// A buffer after a backspace: the last character removed, or still
/// empty.
pub open spec fn popped(buffer: Seq<char>) -> Seq<char> {
    if buffer.len() > 0 {
        buffer.drop_last()
    } else {
        buffer
    }
}

/// The transition a key event makes from Normal mode: navigation,
/// entering the modal flows, and the quit key. A pending space
/// prefix routes the next key into the change-directory flow.
pub open spec fn normal_step(pre: App, key: KeyInput, post: App, r: Action) -> bool {
    &&& frame_unchanged(pre, post)
    &&& if pre.pending_space {
        &&& post.pending_space == false
        &&& post.cursor == pre.cursor
        &&& post.exit_flag == pre.exit_flag
        &&& post.pending == pre.pending
        &&& r is Redraw
        &&& (key == KeyInput::Char('f') ==> (post.mode matches Mode::ChangeDirectory { buffer }
            && buffer@.len() == 0))
        &&& (key != KeyInput::Char('f') ==> post.mode is Normal)
    } else {
        match key {
            KeyInput::Esc => {
                &&& (r matches Action::ChangeDir { path } && path@ == ".."@)
                &&& post.pending is NavEscape
                &&& post.mode is Normal
                &&& post.cursor == pre.cursor
                &&& post.exit_flag == pre.exit_flag
                &&& post.pending_space == false
            },
            KeyInput::Enter => {
                &&& (pre.listing.pages@.len() > 0 ==> {
                    &&& (r matches Action::ChangeDir { path } && path@ == focused_name(pre))
                    &&& (post.pending matches Pending::NavEnter { name } && name@
                        == focused_name(pre))
                })
                &&& (pre.listing.pages@.len() == 0 ==> r is Redraw && post.pending == pre.pending)
                &&& post.mode is Normal
                &&& post.cursor == pre.cursor
                &&& post.exit_flag == pre.exit_flag
                &&& post.pending_space == false
            },
            KeyInput::Char(c) => {
                &&& (c == ' ' ==> post.pending_space == true && r is Redraw && post.mode is Normal
                    && post.cursor == pre.cursor && post.exit_flag == pre.exit_flag
                    && post.pending == pre.pending)
                &&& (c == 'j' ==> post.cursor == spec_move_down(pre.cursor, pre.listing)
                    && r is Redraw && post.mode is Normal && post.exit_flag == pre.exit_flag
                    && post.pending == pre.pending && post.pending_space == false)
                &&& (c == 'k' ==> post.cursor == spec_move_up(pre.cursor, pre.listing)
                    && r is Redraw && post.mode is Normal && post.exit_flag == pre.exit_flag
                    && post.pending == pre.pending && post.pending_space == false)
                &&& (c == 'n' ==> (post.mode matches Mode::AddEntry { buffer } && buffer@.len()
                    == 0) && r is Redraw && post.cursor == pre.cursor && post.exit_flag
                    == pre.exit_flag && post.pending == pre.pending && post.pending_space
                    == false)
                &&& (c == 'd' ==> (pre.listing.pages@.len() > 0 ==> post.mode is DeleteConfirm)
                    && (pre.listing.pages@.len() == 0 ==> post.mode is Normal) && r is Redraw
                    && post.cursor == pre.cursor && post.exit_flag == pre.exit_flag
                    && post.pending == pre.pending && post.pending_space == false)
                &&& (c == ':' ==> (post.mode matches Mode::Command { buffer } && buffer@.len()
                    == 0) && r is Redraw && post.cursor == pre.cursor && post.exit_flag
                    == pre.exit_flag && post.pending == pre.pending && post.pending_space
                    == false)
                &&& (c == 'q' ==> post.exit_flag == true && r is Redraw && post.mode is Normal
                    && post.cursor == pre.cursor && post.pending == pre.pending
                    && post.pending_space == false)
                &&& (!(c == ' ' || c == 'j' || c == 'k' || c == 'n' || c == 'd' || c == ':' || c
                    == 'q') ==> post == pre && r is Redraw)
            },
            _ => post == pre && r is Redraw,
        }
    }
}

/// The transition a key event makes from the command flow: buffer
/// edits, cancel, and the commit that quits on `q` or splits the
/// buffer into a program and its arguments.
pub open spec fn command_step(pre: App, key: KeyInput, post: App, r: Action) -> bool {
    match pre.mode {
        Mode::Command { buffer: pre_buffer } => {
            &&& frame_unchanged(pre, post)
            &&& post.cursor == pre.cursor
            &&& post.pending == pre.pending
            &&& post.pending_space == pre.pending_space
            &&& match key {
                KeyInput::Esc => post.mode is Normal && r is Redraw && post.exit_flag
                    == pre.exit_flag,
                KeyInput::Char(c) => (post.mode matches Mode::Command { buffer } && buffer@
                    == pre_buffer@.push(c)) && r is Redraw && post.exit_flag == pre.exit_flag,
                KeyInput::Backspace => (post.mode matches Mode::Command { buffer } && buffer@
                    == popped(pre_buffer@)) && r is Redraw && post.exit_flag == pre.exit_flag,
                KeyInput::Enter => {
                    &&& post.mode is Normal
                    &&& if pre_buffer@ == "q"@ {
                        post.exit_flag == true && r is Redraw
                    } else {
                        let parts = split_spaces(trim_spaces(pre_buffer@));
                        &&& post.exit_flag == pre.exit_flag
                        &&& (r matches Action::RunCommand { program, args } && program@
                            == parts[0] && args@.map_values(|w: String| w@)
                            == parts.drop_first())
                    }
                },
                _ => post == pre && r is Redraw,
            }
        },
        _ => false,
    }
}

/// The transition a key event makes from the change-directory flow:
/// buffer edits, cancel, and the commit that attempts the change.
pub open spec fn change_directory_step(pre: App, key: KeyInput, post: App, r: Action) -> bool {
    match pre.mode {
        Mode::ChangeDirectory { buffer: pre_buffer } => {
            &&& frame_unchanged(pre, post)
            &&& post.cursor == pre.cursor
            &&& post.exit_flag == pre.exit_flag
            &&& post.pending_space == pre.pending_space
            &&& match key {
                KeyInput::Esc => post.mode is Normal && r is Redraw && post.pending == pre.pending,
                KeyInput::Char(c) => (post.mode matches Mode::ChangeDirectory { buffer }
                    && buffer@ == pre_buffer@.push(c)) && r is Redraw && post.pending
                    == pre.pending,
                KeyInput::Backspace => (post.mode matches Mode::ChangeDirectory { buffer }
                    && buffer@ == popped(pre_buffer@)) && r is Redraw && post.pending
                    == pre.pending,
                KeyInput::Enter => {
                    &&& post.mode is Normal
                    &&& post.pending is NavInput
                    &&& (r matches Action::ChangeDir { path } && path@ == pre_buffer@)
                },
                _ => post == pre && r is Redraw,
            }
        },
        _ => false,
    }
}

/// The transition a key event makes from the add-entry flow: buffer
/// edits, cancel, and the commit that attempts to create the entry
/// (an empty name only rebuilds).
pub open spec fn add_entry_step(pre: App, key: KeyInput, post: App, r: Action) -> bool {
    match pre.mode {
        Mode::AddEntry { buffer: pre_buffer } => {
            &&& frame_unchanged(pre, post)
            &&& post.cursor == pre.cursor
            &&& post.exit_flag == pre.exit_flag
            &&& post.pending_space == pre.pending_space
            &&& match key {
                KeyInput::Esc => post.mode is Normal && r is Redraw && post.pending == pre.pending,
                KeyInput::Char(c) => (post.mode matches Mode::AddEntry { buffer } && buffer@
                    == pre_buffer@.push(c)) && r is Redraw && post.pending == pre.pending,
                KeyInput::Backspace => (post.mode matches Mode::AddEntry { buffer } && buffer@
                    == popped(pre_buffer@)) && r is Redraw && post.pending == pre.pending,
                KeyInput::Enter => {
                    &&& post.mode is Normal
                    &&& (pre_buffer@.len() > 0 ==> {
                        &&& (r matches Action::CreateFile { name } && name@ == pre_buffer@)
                        &&& (post.pending matches Pending::CreateFile { name } && name@
                            == pre_buffer@)
                    })
                    &&& (pre_buffer@.len() == 0 ==> r is Rebuild && post.pending == pre.pending)
                },
                _ => post == pre && r is Redraw,
            }
        },
        _ => false,
    }
}

/// The transition a key event makes from the delete-confirmation
/// prompt: `y` asks for the removal of the focused entry, `n` and Esc
/// decline.
pub open spec fn delete_confirm_step(pre: App, key: KeyInput, post: App, r: Action) -> bool {
    &&& frame_unchanged(pre, post)
    &&& post.cursor == pre.cursor
    &&& post.exit_flag == pre.exit_flag
    &&& post.pending == pre.pending
    &&& post.pending_space == pre.pending_space
    &&& match key {
        KeyInput::Esc => post.mode is Normal && r is Redraw,
        KeyInput::Char(c) => {
            &&& (c == 'n' ==> post.mode is Normal && r is Redraw)
            &&& (c == 'y' ==> post.mode is Normal && (pre.listing.pages@.len() > 0 ==> (
            r matches Action::Remove { name } && name@ == focused_name(pre))) && (
            pre.listing.pages@.len() == 0 ==> r is Redraw))
            &&& (!(c == 'n' || c == 'y') ==> post == pre && r is Redraw)
        },
        _ => post == pre && r is Redraw,
    }
}

/// The browser state: the paginated listing, the focus cursor, the
/// active mode, the shown working directory, the viewport extent, and
/// the bookkeeping of the event loop.
pub struct App {
    pub listing: DirectoryListing,
    pub cursor: FocusCursor,
    pub mode: Mode,
    pub pwd: String,
    pub window_width: u16,
    pub window_height: u16,
    pub exit_flag: bool,
    pub pending_space: bool,
    pub pending: Pending,
}

/// The page capacity a viewport of height `h` gives.
pub fn viewport_capacity(h: u16) -> (r: usize)
    ensures
        r as nat == spec_capacity(h as nat),
        0 < r <= 65535,
{
    if h >= 3 {
        (h - 2) as usize
    } else {
        1
    }
}

impl App {
    /// The browser invariant: the listing's page shape holds, the
    /// cursor addresses an existing entry while the listing is
    /// non-empty, and the page capacity came from a viewport height.
    pub open spec fn wf(self) -> bool {
        &&& self.listing.wf()
        &&& cursor_wf(self.cursor, self.listing)
        &&& self.listing.capacity <= 65535
    }

    /// A fresh browser over an empty listing, in Normal mode.
    pub fn new(window_width: u16, window_height: u16) -> (r: App)
        ensures
            r.wf(),
            r.listing.pages@.len() == 0,
            r.listing.capacity as nat == spec_capacity(window_height as nat),
            r.cursor == (FocusCursor { page_index: 0, row_index: 0 }),
            r.mode is Normal,
            r.pwd@ == Seq::<char>::empty(),
            r.window_width == window_width,
            r.window_height == window_height,
            r.exit_flag == false,
            r.pending_space == false,
            r.pending is Idle,
    {
        App {
            listing: DirectoryListing::empty(viewport_capacity(window_height)),
            cursor: FocusCursor::new(),
            mode: Mode::Normal,
            pwd: String::new(),
            window_width,
            window_height,
            exit_flag: false,
            pending_space: false,
            pending: Pending::Idle,
        }
    }

    /// Records the current viewport extent; the next rebuild derives
    /// its page capacity from it.
    pub fn set_viewport(&mut self, width: u16, height: u16)
        requires
            old(self).wf(),
        ensures
            final(self).wf(),
            *final(self) == (App {
                window_width: width,
                window_height: height,
                ..*old(self)
            }),
    {
        self.window_width = width;
        self.window_height = height;
    }

    /// Installs a freshly enumerated listing: the entry names are
    /// paginated at the capacity the current viewport gives, the
    /// alignment maxima are recomputed, the cursor is reset to the
    /// first entry, and the shown working directory is replaced.
    pub fn apply_listing(&mut self, pwd: String, entries: Vec<String>, sizes: &Vec<u64>)
        requires
            old(self).wf(),
            entries@.len() == sizes@.len(),
        ensures
            final(self).wf(),
            final(self).listing.capacity as nat == spec_capacity(old(self).window_height as nat),
            final(self).listing.entries() == entries@,
            final(self).listing.pages@.len() == page_count(
                entries@.len(),
                spec_capacity(old(self).window_height as nat),
            ),
            final(self).listing.pages@.len() > 0 ==> ({
                let pages = final(self).listing.pages@;
                pages[pages.len() - 1]@.len() == entries@.len() - (pages.len() - 1) * (
                final(self).listing.capacity as int)
            }),
            final(self).listing.max_name_width as nat == max_name_len(entries@),
            final(self).listing.max_size_width as nat == max_size_len(sizes@),
            final(self).cursor == (FocusCursor { page_index: 0, row_index: 0 }),
            final(self).pwd == pwd,
            final(self).mode == old(self).mode,
            final(self).window_width == old(self).window_width,
            final(self).window_height == old(self).window_height,
            final(self).exit_flag == old(self).exit_flag,
            final(self).pending_space == old(self).pending_space,
            final(self).pending == old(self).pending,
    {
        let capacity = viewport_capacity(self.window_height);
        self.listing = DirectoryListing::rebuild(entries, sizes, capacity);
        self.cursor.reset();
        self.pwd = pwd;
    }

    /// Dispatches one key event through the active mode.
    pub fn key_read(&mut self, key: KeyInput) -> (r: Action)
        requires
            old(self).wf(),
        ensures
            final(self).wf(),
            match old(self).mode {
                Mode::Normal => normal_step(*old(self), key, *final(self), r),
                Mode::Command { .. } => command_step(*old(self), key, *final(self), r),
                Mode::ChangeDirectory { .. } => change_directory_step(
                    *old(self),
                    key,
                    *final(self),
                    r,
                ),
                Mode::AddEntry { .. } => add_entry_step(*old(self), key, *final(self), r),
                Mode::DeleteConfirm => delete_confirm_step(*old(self), key, *final(self), r),
                Mode::Edit => *final(self) == *old(self) && r is Redraw,
            },
    {
        match &self.mode {
            Mode::Normal => self.nomal_key_read(key),
            Mode::Command { .. } => self.command_key_read(key),
            Mode::ChangeDirectory { .. } => self.change_directory(key),
            Mode::AddEntry { .. } => self.add_new_file_or_directory(key),
            Mode::DeleteConfirm => self.remove_file_or_directory(key),
            Mode::Edit => Action::Redraw,
        }
    }

    /// Handles one key event in Normal mode.
    pub fn nomal_key_read(&mut self, key: KeyInput) -> (r: Action)
        requires
            old(self).wf(),
            old(self).mode is Normal,
        ensures
            final(self).wf(),
            normal_step(*old(self), key, *final(self), r),
    {
        if self.pending_space {
            self.pending_space = false;
            if key == KeyInput::Char('f') {
                self.mode = Mode::ChangeDirectory { buffer: String::new() };
            }
            return Action::Redraw;
        }
        match key {
            KeyInput::Esc => {
                self.pending = Pending::NavEscape;
                Action::ChangeDir { path: String::from_str("..") }
            },
            KeyInput::Enter => {
                if self.listing.pages.len() > 0 {
                    let name = self.listing.pages[self.cursor.page_index][
                        self.cursor.row_index].clone();
                    self.pending = Pending::NavEnter { name: name.clone() };
                    Action::ChangeDir { path: name }
                } else {
                    Action::Redraw
                }
            },
            KeyInput::Char(c) => {
                if c == ' ' {
                    self.pending_space = true;
                    Action::Redraw
                } else if c == 'j' {
                    self.cursor.move_down(&self.listing);
                    Action::Redraw
                } else if c == 'k' {
                    self.cursor.move_up(&self.listing);
                    Action::Redraw
                } else if c == 'n' {
                    self.mode = Mode::AddEntry { buffer: String::new() };
                    Action::Redraw
                } else if c == 'd' {
                    if self.listing.pages.len() > 0 {
                        self.mode = Mode::DeleteConfirm;
                    }
                    Action::Redraw
                } else if c == ':' {
                    self.mode = Mode::Command { buffer: String::new() };
                    Action::Redraw
                } else if c == 'q' {
                    self.exit_flag = true;
                    Action::Redraw
                } else {
                    Action::Redraw
                }
            },
            _ => Action::Redraw,
        }
    }

    /// Handles one key event in the command flow.
    pub fn command_key_read(&mut self, key: KeyInput) -> (r: Action)
        requires
            old(self).wf(),
            old(self).mode matches Mode::Command { .. },
        ensures
            final(self).wf(),
            command_step(*old(self), key, *final(self), r),
    {
        match key {
            KeyInput::Esc => {
                self.mode = Mode::Normal;
                Action::Redraw
            },
            KeyInput::Char(c) => {
                match &mut self.mode {
                    Mode::Command { buffer } => string_push(buffer, c),
                    _ => (),
                }
                Action::Redraw
            },
            KeyInput::Backspace => {
                match &mut self.mode {
                    Mode::Command { buffer } => {
                        let _ = string_pop(buffer);
                    },
                    _ => (),
                }
                Action::Redraw
            },
            KeyInput::Enter => {
                let buffer = match &self.mode {
                    Mode::Command { buffer } => buffer.clone(),
                    _ => String::new(),
                };
                self.mode = Mode::Normal;
                let q = String::from_str("q");
                if buffer == q {
                    self.exit_flag = true;
                    Action::Redraw
                } else {
                    let trimmed = trim_spaces_exec(buffer.as_str());
                    let mut parts = split_spaces_exec(trimmed.as_str());
                    let ghost parts_view = split_spaces(trim_spaces(buffer@));
                    let program = parts.remove(0);
                    proof {
                        assert(parts@.map_values(|w: String| w@) =~= parts_view.drop_first());
                    }
                    Action::RunCommand { program, args: parts }
                }
            },
            _ => Action::Redraw,
        }
    }

    /// Handles one key event in the change-directory flow.
    pub fn change_directory(&mut self, key: KeyInput) -> (r: Action)
        requires
            old(self).wf(),
            old(self).mode matches Mode::ChangeDirectory { .. },
        ensures
            final(self).wf(),
            change_directory_step(*old(self), key, *final(self), r),
    {
        match key {
            KeyInput::Esc => {
                self.mode = Mode::Normal;
                Action::Redraw
            },
            KeyInput::Char(c) => {
                match &mut self.mode {
                    Mode::ChangeDirectory { buffer } => string_push(buffer, c),
                    _ => (),
                }
                Action::Redraw
            },
            KeyInput::Backspace => {
                match &mut self.mode {
                    Mode::ChangeDirectory { buffer } => {
                        let _ = string_pop(buffer);
                    },
                    _ => (),
                }
                Action::Redraw
            },
            KeyInput::Enter => {
                let path = match &self.mode {
                    Mode::ChangeDirectory { buffer } => buffer.clone(),
                    _ => String::new(),
                };
                self.mode = Mode::Normal;
                self.pending = Pending::NavInput;
                Action::ChangeDir { path }
            },
            _ => Action::Redraw,
        }
    }

    /// Handles one key event in the add-entry flow.
    pub fn add_new_file_or_directory(&mut self, key: KeyInput) -> (r: Action)
        requires
            old(self).wf(),
            old(self).mode matches Mode::AddEntry { .. },
        ensures
            final(self).wf(),
            add_entry_step(*old(self), key, *final(self), r),
    {
        match key {
            KeyInput::Esc => {
                self.mode = Mode::Normal;
                Action::Redraw
            },
            KeyInput::Char(c) => {
                match &mut self.mode {
                    Mode::AddEntry { buffer } => string_push(buffer, c),
                    _ => (),
                }
                Action::Redraw
            },
            KeyInput::Backspace => {
                match &mut self.mode {
                    Mode::AddEntry { buffer } => {
                        let _ = string_pop(buffer);
                    },
                    _ => (),
                }
                Action::Redraw
            },
            KeyInput::Enter => {
                let name = match &self.mode {
                    Mode::AddEntry { buffer } => buffer.clone(),
                    _ => String::new(),
                };
                self.mode = Mode::Normal;
                if name.as_str().unicode_len() > 0 {
                    self.pending = Pending::CreateFile { name: name.clone() };
                    Action::CreateFile { name }
                } else {
                    Action::Rebuild
                }
            },
            _ => Action::Redraw,
        }
    }

    /// Handles one key event in the delete-confirmation prompt.
    pub fn remove_file_or_directory(&mut self, key: KeyInput) -> (r: Action)
        requires
            old(self).wf(),
            old(self).mode is DeleteConfirm,
        ensures
            final(self).wf(),
            delete_confirm_step(*old(self), key, *final(self), r),
    {
        match key {
            KeyInput::Esc => {
                self.mode = Mode::Normal;
                Action::Redraw
            },
            KeyInput::Char(c) => {
                if c == 'n' {
                    self.mode = Mode::Normal;
                    Action::Redraw
                } else if c == 'y' {
                    self.mode = Mode::Normal;
                    if self.listing.pages.len() > 0 {
                        let name = self.listing.pages[self.cursor.page_index][
                            self.cursor.row_index].clone();
                        Action::Remove { name }
                    } else {
                        Action::Redraw
                    }
                } else {
                    Action::Redraw
                }
            },
            _ => Action::Redraw,
        }
    }

    /// Takes the outcome of a requested directory change: entering a
    /// directory or leaving for the parent rebuilds the listing; a
    /// failed entry into the focused name means it is a file and
    /// routes to the editor; a failed typed path keeps the previous
    /// listing.
    pub fn on_chdir(&mut self, ok: bool) -> (r: Action)
        requires
            old(self).wf(),
        ensures
            final(self).wf(),
            frame_unchanged(*old(self), *final(self)),
            final(self).cursor == old(self).cursor,
            final(self).mode == old(self).mode,
            final(self).exit_flag == old(self).exit_flag,
            final(self).pending_space == old(self).pending_space,
            match old(self).pending {
                Pending::NavEnter { name } => {
                    &&& (ok ==> r is Rebuild)
                    &&& (!ok ==> (r matches Action::OpenEditor { name: n } && n@ == name@))
                    &&& final(self).pending is Idle
                },
                Pending::NavEscape => r is Rebuild && final(self).pending is Idle,
                Pending::NavInput => {
                    &&& (ok ==> r is Rebuild)
                    &&& (!ok ==> r is Redraw)
                    &&& final(self).pending is Idle
                },
                _ => r is Redraw && final(self).pending == old(self).pending,
            },
    {
        match &self.pending {
            Pending::NavEnter { name } => {
                let r = if ok {
                    Action::Rebuild
                } else {
                    Action::OpenEditor { name: name.clone() }
                };
                self.pending = Pending::Idle;
                r
            },
            Pending::NavEscape => {
                self.pending = Pending::Idle;
                Action::Rebuild
            },
            Pending::NavInput => {
                self.pending = Pending::Idle;
                if ok {
                    Action::Rebuild
                } else {
                    Action::Redraw
                }
            },
            _ => Action::Redraw,
        }
    }

    /// Takes the outcome of a spawned command: a clean launch (however
    /// the command itself exited) rebuilds the listing; a launch
    /// failure puts the error text where the input buffer was shown.
    pub fn on_command(&mut self, launch_error: Option<String>) -> (r: Action)
        requires
            old(self).wf(),
        ensures
            final(self).wf(),
            frame_unchanged(*old(self), *final(self)),
            final(self).cursor == old(self).cursor,
            final(self).exit_flag == old(self).exit_flag,
            final(self).pending == old(self).pending,
            final(self).pending_space == old(self).pending_space,
            match launch_error {
                Option::None => r is Rebuild && final(self).mode == old(self).mode,
                Option::Some(e) => r is Redraw && (final(self).mode matches Mode::Command { buffer }
                    && buffer@ == e@),
            },
    {
        match launch_error {
            Option::None => Action::Rebuild,
            Option::Some(e) => {
                self.mode = Mode::Command { buffer: e };
                Action::Redraw
            },
        }
    }

    /// Takes the outcome of an attempted file creation: on failure
    /// the same name is created as a directory instead; either way
    /// the listing is then rebuilt.
    pub fn on_create_file(&mut self, ok: bool) -> (r: Action)
        requires
            old(self).wf(),
        ensures
            final(self).wf(),
            frame_unchanged(*old(self), *final(self)),
            final(self).cursor == old(self).cursor,
            final(self).mode == old(self).mode,
            final(self).exit_flag == old(self).exit_flag,
            final(self).pending_space == old(self).pending_space,
            match old(self).pending {
                Pending::CreateFile { name } => {
                    &&& (ok ==> r is Rebuild)
                    &&& (!ok ==> (r matches Action::CreateDir { name: n } && n@ == name@))
                    &&& final(self).pending is Idle
                },
                _ => r is Redraw && final(self).pending == old(self).pending,
            },
    {
        match &self.pending {
            Pending::CreateFile { name } => {
                let r = if ok {
                    Action::Rebuild
                } else {
                    Action::CreateDir { name: name.clone() }
                };
                self.pending = Pending::Idle;
                r
            },
            _ => Action::Redraw,
        }
    }

    /// Reassembles the base-`b` digits of `x` as a decimal number;
    /// with base 8 this turns mode bits into their octal-looking
    /// decimal form.
    pub fn shinsu(&self, x: i64, b: i64) -> (r: i64)
        requires
            2 <= b,
            0 <= x,
            recomb(x as int, b as int) <= i64::MAX,
        ensures
            r as int == recomb(x as int, b as int),
    {
        recombine(x, b)
    }

    /// Renders a decimal-recombined mode as `rwx` triples, one per
    /// digit after the file-type prefix is subtracted.
    pub fn generate_permission_strings(&self, permission_num: i64) -> (r: String)
        requires
            permission_num > i64::MIN + 40000,
        ensures
            r@ == perm_string(permission_num as int),
    {
        let adjusted = if permission_num > 100000 {
            permission_num - 100000
        } else {
            permission_num - 40000
        };
        let mag: u64 = if adjusted < 0 {
            (-adjusted) as u64
        } else {
            adjusted as u64
        };
        perm_digits_string(mag)
    }

    /// Renders a decimal-recombined mode in the long form: each digit
    /// gets its position header (owner, group, others) and a label,
    /// and the rendering stops at the first character that is not a
    /// permission digit.
    pub fn generate_permission_strings_in_japanese(&self, permission_num: i64) -> (r: String)
        requires
            permission_num > i64::MIN + 40000,
        ensures
            r@ == jp_perm_string(permission_num as int),
    {
        proof {
            reveal_strlit("-");
        }
        let adjusted = if permission_num > 100000 {
            permission_num - 100000
        } else {
            permission_num - 40000
        };
        let mag: u64 = if adjusted < 0 {
            (-adjusted) as u64
        } else {
            adjusted as u64
        };
        let digits = if adjusted < 0 {
            let mut t = String::from_str("-");
            let m = u64_to_string(mag);
            t.append(m.as_str());
            t
        } else {
            u64_to_string(mag)
        };
        proof {
            assert(digits@ =~= signed_dec_str(perm_adjusted(permission_num as int)));
        }
        let ds = digits.as_str();
        let len = ds.unicode_len();
        let mut out = String::new();
        let mut i: usize = 0;
        let mut stopped = false;
        proof {
            assert(ds@.skip(0) =~= ds@);
        }
        while i < len && !stopped
            invariant
                i <= len,
                len == ds@.len(),
                !stopped ==> out@ + jp_render(ds@.skip(i as int), i as int) == jp_render(ds@, 0),
                stopped ==> out@ == jp_render(ds@, 0),
            decreases len - i, (if stopped { 0int } else { 1int }),
        {
            let ghost rest = ds@.skip(i as int);
            let ghost old_out = out@;
            out.append(jp_prefix_str(i));
            let c = ds.get_char(i);
            proof {
                assert(rest[0] == ds@[i as int]);
            }
            if jp_is_valid(c) {
                out.append(jp_triple_str(c));
                out.append(" │ ");
                proof {
                    assert(rest.drop_first() =~= ds@.skip(i + 1));
                    assert(jp_render(rest, i as int) == jp_prefix(i as int) + jp_triple(c)
                        + jp_sep() + jp_render(ds@.skip(i + 1), i + 1));
                    assert(out@ + jp_render(ds@.skip(i + 1), i + 1) =~= old_out + jp_render(
                        rest,
                        i as int,
                    ));
                }
                i += 1;
            } else {
                stopped = true;
                proof {
                    assert(jp_render(rest, i as int) == jp_prefix(i as int));
                    assert(out@ =~= old_out + jp_render(rest, i as int));
                }
            }
        }
        proof {
            if !stopped {
                assert(ds@.skip(len as int) =~= Seq::<char>::empty());
                assert(out@ + jp_render(ds@.skip(len as int), len as int) =~= out@);
            }
        }
        out
    }

    /// The autocomplete candidates: the members of `directory_vec`
    /// that start with `serch_word`, in order.
    pub fn find_dir(&self, serch_word: String, directory_vec: Vec<String>) -> (r: Vec<String>)
        ensures
            r@ == candidates(directory_vec@, serch_word@),
            r@.len() <= directory_vec@.len(),
    {
        proof {
            reveal(Seq::filter);
            assert(directory_vec@.take(0).filter(
                |name: String| serch_word@.is_prefix_of(name@),
            ) =~= Seq::<String>::empty());
        }
        let mut return_vec: Vec<String> = Vec::new();
        let mut i: usize = 0;
        while i < directory_vec.len()
            invariant
                i <= directory_vec@.len(),
                return_vec@ == candidates(directory_vec@.take(i as int), serch_word@),
                return_vec@.len() <= i,
            decreases directory_vec@.len() - i,
        {
            let name = directory_vec[i].clone();
            let matched = is_prefix(serch_word.as_str(), name.as_str());
            if matched {
                return_vec.push(name);
            }
            proof {
                reveal(Seq::filter);
                let pred = |name: String| serch_word@.is_prefix_of(name@);
                assert(directory_vec@.take(i + 1).drop_last() =~= directory_vec@.take(i as int));
                assert(directory_vec@.take(i + 1).last() == directory_vec@[i as int]);
                if matched {
                    assert(return_vec@ =~= directory_vec@.take(i as int).filter(pred).push(
                        directory_vec@[i as int],
                    ));
                }
                assert(return_vec@ =~= candidates(directory_vec@.take(i + 1), serch_word@));
            }
            i += 1;
        }
        proof {
            assert(directory_vec@.take(directory_vec@.len() as int) =~= directory_vec@);
        }
        return_vec
    }

    /// Renders the Unix timestamp `secs` as `YYYY/MM/DD HH:MM` in
    /// UTC; a timestamp chrono cannot represent renders as a
    /// placeholder.
    pub fn format_utc_to_string(&self, secs: i64) -> (r: String)
        ensures
            ({
                let f = utc_field_parts(secs as int);
                r@ == ymdhm_str(f.0, f.1, f.2, f.3, f.4) || r@ == out_of_range_text()
            }),
            0 <= secs <= 253402300799 ==> ({
                let f = utc_field_parts(secs as int);
                r@ == ymdhm_str(f.0, f.1, f.2, f.3, f.4)
            }),
    {
        crate::timefmt::format_timestamp(secs)
    }
}

/// Reassembles the base-`b` digits of `x` as a decimal number.
fn recombine(x: i64, b: i64) -> (r: i64)
    requires
        2 <= b,
        0 <= x,
        recomb(x as int, b as int) <= i64::MAX,
    ensures
        r as int == recomb(x as int, b as int),
    decreases x,
{
    if x == 0 {
        0
    } else {
        proof {
            assert(0 <= x / b < x) by (nonlinear_arith)
                requires
                    0 < x,
                    2 <= b,
            ;
            assert(x % b >= 0) by (nonlinear_arith)
                requires
                    0 < x,
                    2 <= b,
            ;
            lemma_recomb_nonneg((x as int) / (b as int), b as int);
        }
        let rest = recombine(x / b, b);
        rest * 10 + x % b
    }
}

/// The autocomplete candidate set for `prefix` over the names of one
/// page: the names that start with the prefix, in page order.
pub open spec fn candidates(page: Seq<String>, prefix: Seq<char>) -> Seq<String> {
    page.filter(|name: String| prefix.is_prefix_of(name@))
}

} // verus!
