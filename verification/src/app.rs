//! The authoritative in-memory model of the editor: two ordered collections
//! (environment entries and `PATH` components), one selection cursor per
//! list, the active-list selector, and the transient edit session. Every
//! mutation goes through the operations here, so the cursor-in-range
//! invariant has a single enforcement point.
//!
//! Each operation's effect is stated as a transition relation (a spec
//! function over the state before and after), and the operation's `ensures`
//! is exactly that relation; the laws at the end of the module are proved
//! from the relations alone.

use vstd::prelude::*;
use crate::config::{
    contains_key, env_line_chars, format_env_line, format_path_line, join_path_entries,
    normalize_key, normalize_key_str, path_line_chars, spec_contains_key,
};
use crate::split::join_chars;
use crate::text::{pop_last, push_char};

verus! {

/// Which of the two lists currently receives navigation and edit
/// keystrokes.
#[derive(Clone, Copy, PartialEq, Eq, Structural, Debug)]
pub enum ActiveList {
    EnvList,
    PathList,
}

/// What the transient edit session is editing.
#[derive(Clone, Copy, PartialEq, Eq, Structural, Debug)]
pub enum CurrentlyEditing {
    EnvVarValue,
    EnvVarName,
    PathVar,
}

/// Whether a commit went through plainly or with the duplicate-key
/// advisory raised.
#[derive(Clone, Copy, PartialEq, Eq, Structural, Debug)]
pub enum CommitStatus {
    Committed,
    DuplicateKey,
}

/// What a commit asks the surrounding program to do: append one line to
/// the shell configuration file, and, for a `PATH` commit, export the
/// rejoined value as the process's new `PATH`.
#[derive(Debug)]
pub struct CommitResult {
    pub status: CommitStatus,
    pub config_line: String,
    pub new_path: Option<String>,
}

/// The editor state.
pub struct App {
    /// Environment variables of the current process, in snapshot order.
    pub env_vars: Vec<(String, String)>,
    /// The ordered directory components of the `PATH` variable.
    pub path_var_dirs: Vec<String>,
    /// Selection cursor of the environment list.
    pub selected_env_var: usize,
    /// Selection cursor of the `PATH` list.
    pub selected_path_dir: usize,
    /// Whether an edit session is open.
    pub editing: bool,
    /// What the open edit session is editing; present exactly while
    /// `editing` is true.
    pub currently_editing: Option<CurrentlyEditing>,
    /// The environment list's edit buffer.
    pub env_var_value: String,
    /// The `PATH` list's edit buffer, doubling as the display mirror of the
    /// selected component.
    pub path_var_value: String,
    /// False once a quit key was seen.
    pub running: bool,
    /// Numeric mirror of the active list, for display.
    pub list_index: u32,
    /// The active list.
    pub activated_list: ActiveList,
    /// Name of the user's shell configuration file.
    pub shell: String,
    /// Assignments parsed from the shell configuration file at startup,
    /// used only for the duplicate-key advisory.
    pub shell_env_vars: Vec<(String, String)>,
    /// Path of the shell configuration file, resolved once at startup.
    pub config_path: String,
    /// The duplicate-key advisory: set when a commit would overwrite an
    /// assignment that already stands in the configuration file.
    pub overwrite: bool,
}

impl App {
    /// Well-formedness: each cursor stays strictly inside its list when the
    /// list is non-empty and rests at zero otherwise; the numeric list index
    /// mirrors the active list; an edit session exists exactly while
    /// `editing` is true, matches the active list, and only a non-empty
    /// list can be under edit.
    pub open spec fn inv(&self) -> bool {
        &&& self.env_vars.len() > 0 ==> self.selected_env_var < self.env_vars.len()
        &&& self.env_vars.len() == 0 ==> self.selected_env_var == 0
        &&& self.path_var_dirs.len() > 0 ==> self.selected_path_dir < self.path_var_dirs.len()
        &&& self.path_var_dirs.len() == 0 ==> self.selected_path_dir == 0
        &&& self.list_index < 2
        &&& (self.list_index == 0 <==> self.activated_list is EnvList)
        &&& (self.editing <==> self.currently_editing is Some)
        &&& (self.editing ==> match self.activated_list {
            ActiveList::EnvList => self.currently_editing == Some(CurrentlyEditing::EnvVarValue)
                && self.env_vars.len() > 0,
            ActiveList::PathList => self.currently_editing == Some(CurrentlyEditing::PathVar)
                && self.path_var_dirs.len() > 0,
        })
    }

    /// Build the editor state from the startup snapshot: the process
    /// environment, the split `PATH`, and the parsed shell configuration.
    pub fn new(
        env_vars: Vec<(String, String)>,
        path_var_dirs: Vec<String>,
        shell: String,
        shell_env_vars: Vec<(String, String)>,
        config_path: String,
    ) -> (r: App)
        ensures
            r.inv(),
            r.env_vars == env_vars,
            r.path_var_dirs == path_var_dirs,
            r.selected_env_var == 0,
            r.selected_path_dir == 0,
            !r.editing,
            r.currently_editing is None,
            r.env_var_value@ == Seq::<char>::empty(),
            r.path_var_value@ == Seq::<char>::empty(),
            r.running,
            r.list_index == 0,
            r.activated_list is EnvList,
            r.shell == shell,
            r.shell_env_vars == shell_env_vars,
            r.config_path == config_path,
            !r.overwrite,
    {
        App {
            env_vars,
            path_var_dirs,
            selected_env_var: 0,
            selected_path_dir: 0,
            editing: false,
            currently_editing: None,
            env_var_value: String::new(),
            path_var_value: String::new(),
            running: true,
            list_index: 0,
            activated_list: ActiveList::EnvList,
            shell,
            shell_env_vars,
            config_path,
            overwrite: false,
        }
    }

    /// The value of the currently selected environment entry.
    pub fn selected_value(&self) -> (r: &str)
        requires
            self.inv(),
            self.env_vars.len() > 0,
        ensures
            r@ == self.env_vars@[self.selected_env_var as int].1@,
    {
        self.env_vars[self.selected_env_var].1.as_str()
    }

    /// Stop the event loop.
    pub fn quit(&mut self)
        requires
            old(self).inv(),
        ensures
            final(self).inv(),
            quit_post(*old(self), *final(self)),
    {
        self.running = false;
    }

    /// Flip the active list and its numeric display mirror. Only meaningful
    /// while browsing: editing one list must not silently switch context.
    pub fn toggle_active(&mut self)
        requires
            old(self).inv(),
            !old(self).editing,
        ensures
            final(self).inv(),
            toggle_post(*old(self), *final(self)),
    {
        let active_index = self.list_index;
        match self.activated_list {
            ActiveList::EnvList => {
                self.activated_list = ActiveList::PathList;
                self.list_index = (active_index + 1) % 2;
            },
            ActiveList::PathList => {
                self.activated_list = ActiveList::EnvList;
                self.list_index = (active_index + 1) % 2;
            },
        }
    }

    /// Move the active list's cursor one entry down; at the last entry this
    /// is a no-op. Moving the `PATH` cursor refreshes that list's edit
    /// buffer to the newly selected component.
    pub fn select_next(&mut self)
        requires
            old(self).inv(),
            !old(self).editing,
        ensures
            final(self).inv(),
            select_next_post(*old(self), *final(self)),
    {
        match self.activated_list {
            ActiveList::EnvList => {
                if self.selected_env_var + 1 < self.env_vars.len() {
                    self.selected_env_var = self.selected_env_var + 1;
                }
            },
            ActiveList::PathList => {
                if self.selected_path_dir + 1 < self.path_var_dirs.len() {
                    self.selected_path_dir = self.selected_path_dir + 1;
                    self.path_var_value = self.path_var_dirs[self.selected_path_dir].clone();
                }
            },
        }
    }

    /// Move the active list's cursor one entry up; at the first entry this
    /// is a no-op. Moving the `PATH` cursor refreshes that list's edit
    /// buffer to the newly selected component.
    pub fn select_prev(&mut self)
        requires
            old(self).inv(),
            !old(self).editing,
        ensures
            final(self).inv(),
            select_prev_post(*old(self), *final(self)),
    {
        match self.activated_list {
            ActiveList::EnvList => {
                if self.selected_env_var > 0 {
                    self.selected_env_var = self.selected_env_var - 1;
                }
            },
            ActiveList::PathList => {
                if self.selected_path_dir > 0 {
                    self.selected_path_dir = self.selected_path_dir - 1;
                    self.path_var_value = self.path_var_dirs[self.selected_path_dir].clone();
                }
            },
        }
    }

    /// Open an edit session on the active list, seeding its edit buffer
    /// with the selected entry's value. A no-op when the active list is
    /// empty.
    pub fn enter_edit(&mut self)
        requires
            old(self).inv(),
            !old(self).editing,
        ensures
            final(self).inv(),
            enter_edit_post(*old(self), *final(self)),
    {
        match self.activated_list {
            ActiveList::EnvList => {
                if self.env_vars.len() > 0 {
                    self.env_var_value = self.env_vars[self.selected_env_var].1.clone();
                    self.editing = true;
                    self.currently_editing = Some(CurrentlyEditing::EnvVarValue);
                }
            },
            ActiveList::PathList => {
                if self.path_var_dirs.len() > 0 {
                    self.path_var_value = self.path_var_dirs[self.selected_path_dir].clone();
                    self.editing = true;
                    self.currently_editing = Some(CurrentlyEditing::PathVar);
                }
            },
        }
    }

    /// Discard the edit session without touching the collections: the
    /// environment buffer is cleared and the `PATH` buffer falls back to
    /// mirroring the selected component.
    pub fn cancel_edit(&mut self)
        requires
            old(self).inv(),
            old(self).editing,
        ensures
            final(self).inv(),
            cancel_edit_post(*old(self), *final(self)),
    {
        self.editing = false;
        self.currently_editing = None;
        self.env_var_value = String::new();
        if self.path_var_dirs.len() > 0 {
            self.path_var_value = self.path_var_dirs[self.selected_path_dir].clone();
        } else {
            self.path_var_value = String::new();
        }
    }

    /// Append one character to the active list's edit buffer; the inactive
    /// list's buffer is never touched.
    pub fn push_edit_char(&mut self, c: char)
        requires
            old(self).inv(),
            old(self).editing,
        ensures
            final(self).inv(),
            push_char_post(*old(self), *final(self), c),
    {
        match self.activated_list {
            ActiveList::EnvList => push_char(&mut self.env_var_value, c),
            ActiveList::PathList => push_char(&mut self.path_var_value, c),
        }
    }

    /// Remove the last character of the active list's edit buffer; on an
    /// empty buffer this is a no-op, never an error.
    pub fn pop_edit_char(&mut self)
        requires
            old(self).inv(),
            old(self).editing,
        ensures
            final(self).inv(),
            pop_char_post(*old(self), *final(self)),
    {
        match self.activated_list {
            ActiveList::EnvList => {
                self.env_var_value = pop_last(&self.env_var_value);
            },
            ActiveList::PathList => {
                self.path_var_value = pop_last(&self.path_var_value);
            },
        }
    }

    /// Transfer the edit buffer into the selected entry of the active list,
    /// close the edit session, and hand back what the surrounding program
    /// must persist: the formatted configuration line and, for a `PATH`
    /// commit, the rejoined `PATH` value. An environment commit raises the
    /// duplicate-key advisory when the normalized key already stands in the
    /// parsed shell configuration; the advisory never blocks the commit.
    pub fn commit(&mut self) -> (r: CommitResult)
        requires
            old(self).inv(),
            old(self).editing,
        ensures
            final(self).inv(),
            commit_post(*old(self), *final(self), r),
    {
        match self.activated_list {
            ActiveList::EnvList => {
                let sel = self.selected_env_var;
                let key = self.env_vars[sel].0.clone();
                let value = self.env_var_value.clone();
                self.env_vars[sel] = (key.clone(), value);
                let norm = normalize_key_str(key.as_str());
                let dup = contains_key(&self.shell_env_vars, &norm);
                if dup {
                    self.overwrite = true;
                }
                let line = format_env_line(norm.as_str(), self.env_var_value.as_str());
                self.editing = false;
                self.currently_editing = None;
                self.env_var_value = String::new();
                CommitResult {
                    status: if dup {
                        CommitStatus::DuplicateKey
                    } else {
                        CommitStatus::Committed
                    },
                    config_line: line,
                    new_path: None,
                }
            },
            ActiveList::PathList => {
                let sel = self.selected_path_dir;
                let entry = self.path_var_value.clone();
                self.path_var_dirs[sel] = entry;
                let joined = join_path_entries(&self.path_var_dirs);
                let line = format_path_line(self.path_var_value.as_str());
                self.editing = false;
                self.currently_editing = None;
                CommitResult {
                    status: CommitStatus::Committed,
                    config_line: line,
                    new_path: Some(joined),
                }
            },
        }
    }
}

/// The fields a quit leaves untouched, shared by several relations: both
/// collections, both cursors and the focus.
pub open spec fn same_lists(pre: App, post: App) -> bool {
    &&& post.env_vars == pre.env_vars
    &&& post.path_var_dirs == pre.path_var_dirs
}

pub open spec fn same_cursors(pre: App, post: App) -> bool {
    &&& post.selected_env_var == pre.selected_env_var
    &&& post.selected_path_dir == pre.selected_path_dir
}

pub open spec fn same_session(pre: App, post: App) -> bool {
    &&& post.editing == pre.editing
    &&& post.currently_editing == pre.currently_editing
    &&& post.env_var_value == pre.env_var_value
    &&& post.path_var_value == pre.path_var_value
}

pub open spec fn same_focus(pre: App, post: App) -> bool {
    &&& post.list_index == pre.list_index
    &&& post.activated_list == pre.activated_list
}

pub open spec fn same_config(pre: App, post: App) -> bool {
    &&& post.shell == pre.shell
    &&& post.shell_env_vars == pre.shell_env_vars
    &&& post.config_path == pre.config_path
}

/// Quitting only clears `running`.
pub open spec fn quit_post(pre: App, post: App) -> bool {
    &&& !post.running
    &&& same_lists(pre, post)
    &&& same_cursors(pre, post)
    &&& same_session(pre, post)
    &&& same_focus(pre, post)
    &&& same_config(pre, post)
    &&& post.overwrite == pre.overwrite
}

/// Toggling flips the active list and advances the numeric mirror by one,
/// modulo two; nothing else moves.
pub open spec fn toggle_post(pre: App, post: App) -> bool {
    &&& post.activated_list == (match pre.activated_list {
        ActiveList::EnvList => ActiveList::PathList,
        ActiveList::PathList => ActiveList::EnvList,
    })
    &&& post.list_index == (pre.list_index + 1) % 2
    &&& same_lists(pre, post)
    &&& same_cursors(pre, post)
    &&& same_session(pre, post)
    &&& same_config(pre, post)
    &&& post.running == pre.running
    &&& post.overwrite == pre.overwrite
}

/// Everything navigation leaves untouched.
pub open spec fn nav_frame(pre: App, post: App) -> bool {
    &&& same_lists(pre, post)
    &&& same_focus(pre, post)
    &&& same_config(pre, post)
    &&& post.editing == pre.editing
    &&& post.currently_editing == pre.currently_editing
    &&& post.env_var_value == pre.env_var_value
    &&& post.running == pre.running
    &&& post.overwrite == pre.overwrite
}

/// Moving down: the active list's cursor advances by one, clamped strictly
/// inside the list; at the last entry nothing changes. A `PATH` move
/// refreshes the `PATH` edit buffer to the newly selected component.
pub open spec fn select_next_post(pre: App, post: App) -> bool {
    &&& nav_frame(pre, post)
    &&& match pre.activated_list {
        ActiveList::EnvList => {
            &&& if pre.selected_env_var + 1 < pre.env_vars.len() {
                post.selected_env_var == pre.selected_env_var + 1
            } else {
                post.selected_env_var == pre.selected_env_var
            }
            &&& post.selected_path_dir == pre.selected_path_dir
            &&& post.path_var_value == pre.path_var_value
        },
        ActiveList::PathList => {
            &&& post.selected_env_var == pre.selected_env_var
            &&& if pre.selected_path_dir + 1 < pre.path_var_dirs.len() {
                &&& post.selected_path_dir == pre.selected_path_dir + 1
                &&& post.path_var_value == pre.path_var_dirs@[post.selected_path_dir as int]
            } else {
                &&& post.selected_path_dir == pre.selected_path_dir
                &&& post.path_var_value == pre.path_var_value
            }
        },
    }
}

/// Moving up: the mirror image of [`select_next_post`].
pub open spec fn select_prev_post(pre: App, post: App) -> bool {
    &&& nav_frame(pre, post)
    &&& match pre.activated_list {
        ActiveList::EnvList => {
            &&& if pre.selected_env_var > 0 {
                post.selected_env_var == pre.selected_env_var - 1
            } else {
                post.selected_env_var == pre.selected_env_var
            }
            &&& post.selected_path_dir == pre.selected_path_dir
            &&& post.path_var_value == pre.path_var_value
        },
        ActiveList::PathList => {
            &&& post.selected_env_var == pre.selected_env_var
            &&& if pre.selected_path_dir > 0 {
                &&& post.selected_path_dir == pre.selected_path_dir - 1
                &&& post.path_var_value == pre.path_var_dirs@[post.selected_path_dir as int]
            } else {
                &&& post.selected_path_dir == pre.selected_path_dir
                &&& post.path_var_value == pre.path_var_value
            }
        },
    }
}

/// Entering edit mode: a session opens on the active list with its buffer
/// seeded from the selected entry; on an empty list nothing changes.
pub open spec fn enter_edit_post(pre: App, post: App) -> bool {
    match pre.activated_list {
        ActiveList::EnvList => {
            if pre.env_vars.len() == 0 {
                post == pre
            } else {
                &&& post.editing
                &&& post.currently_editing == Some(CurrentlyEditing::EnvVarValue)
                &&& post.env_var_value == pre.env_vars@[pre.selected_env_var as int].1
                &&& post.path_var_value == pre.path_var_value
                &&& same_lists(pre, post)
                &&& same_cursors(pre, post)
                &&& same_focus(pre, post)
                &&& same_config(pre, post)
                &&& post.running == pre.running
                &&& post.overwrite == pre.overwrite
            }
        },
        ActiveList::PathList => {
            if pre.path_var_dirs.len() == 0 {
                post == pre
            } else {
                &&& post.editing
                &&& post.currently_editing == Some(CurrentlyEditing::PathVar)
                &&& post.path_var_value == pre.path_var_dirs@[pre.selected_path_dir as int]
                &&& post.env_var_value == pre.env_var_value
                &&& same_lists(pre, post)
                &&& same_cursors(pre, post)
                &&& same_focus(pre, post)
                &&& same_config(pre, post)
                &&& post.running == pre.running
                &&& post.overwrite == pre.overwrite
            }
        },
    }
}

/// Cancelling: the session is destroyed and the collections stay exactly
/// as they were; the environment buffer is cleared and the `PATH` buffer
/// returns to mirroring the selected component.
pub open spec fn cancel_edit_post(pre: App, post: App) -> bool {
    &&& !post.editing
    &&& post.currently_editing is None
    &&& post.env_var_value@ == Seq::<char>::empty()
    &&& (if pre.path_var_dirs.len() > 0 {
        post.path_var_value == pre.path_var_dirs@[pre.selected_path_dir as int]
    } else {
        post.path_var_value@ == Seq::<char>::empty()
    })
    &&& same_lists(pre, post)
    &&& same_cursors(pre, post)
    &&& same_focus(pre, post)
    &&& same_config(pre, post)
    &&& post.running == pre.running
    &&& post.overwrite == pre.overwrite
}

/// A typed character lands in the active list's buffer alone.
pub open spec fn push_char_post(pre: App, post: App, c: char) -> bool {
    &&& match pre.activated_list {
        ActiveList::EnvList => {
            &&& post.env_var_value@ == pre.env_var_value@.push(c)
            &&& post.path_var_value == pre.path_var_value
        },
        ActiveList::PathList => {
            &&& post.path_var_value@ == pre.path_var_value@.push(c)
            &&& post.env_var_value == pre.env_var_value
        },
    }
    &&& post.editing == pre.editing
    &&& post.currently_editing == pre.currently_editing
    &&& same_lists(pre, post)
    &&& same_cursors(pre, post)
    &&& same_focus(pre, post)
    &&& same_config(pre, post)
    &&& post.running == pre.running
    &&& post.overwrite == pre.overwrite
}

/// Backspace removes the last character of the active list's buffer; an
/// empty buffer stays empty.
pub open spec fn pop_char_post(pre: App, post: App) -> bool {
    &&& match pre.activated_list {
        ActiveList::EnvList => {
            &&& post.env_var_value@ == (if pre.env_var_value@.len() > 0 {
                pre.env_var_value@.drop_last()
            } else {
                pre.env_var_value@
            })
            &&& post.path_var_value == pre.path_var_value
        },
        ActiveList::PathList => {
            &&& post.path_var_value@ == (if pre.path_var_value@.len() > 0 {
                pre.path_var_value@.drop_last()
            } else {
                pre.path_var_value@
            })
            &&& post.env_var_value == pre.env_var_value
        },
    }
    &&& post.editing == pre.editing
    &&& post.currently_editing == pre.currently_editing
    &&& same_lists(pre, post)
    &&& same_cursors(pre, post)
    &&& same_focus(pre, post)
    &&& same_config(pre, post)
    &&& post.running == pre.running
    &&& post.overwrite == pre.overwrite
}

/// An environment commit: exactly the selected entry's value becomes the
/// buffer's text, the session closes with the buffer cleared, the advisory
/// is raised exactly when the normalized key already stands in the parsed
/// shell configuration, and the returned line is the formatted assignment.
pub open spec fn commit_env_post(pre: App, post: App, r: CommitResult) -> bool {
    let sel = pre.selected_env_var as int;
    let key = pre.env_vars@[sel].0;
    let norm = normalize_key(key@);
    let dup = spec_contains_key(pre.shell_env_vars.deep_view(), norm);
    &&& post.env_vars@.len() == pre.env_vars@.len()
    &&& (forall|i: int|
        0 <= i < pre.env_vars@.len() && i != sel ==> post.env_vars@[i] == pre.env_vars@[i])
    &&& post.env_vars@[sel].0 == key
    &&& post.env_vars@[sel].1@ == pre.env_var_value@
    &&& post.path_var_dirs == pre.path_var_dirs
    &&& !post.editing
    &&& post.currently_editing is None
    &&& post.env_var_value@ == Seq::<char>::empty()
    &&& post.path_var_value == pre.path_var_value
    &&& same_cursors(pre, post)
    &&& same_focus(pre, post)
    &&& same_config(pre, post)
    &&& post.running == pre.running
    &&& post.overwrite == (pre.overwrite || dup)
    &&& r.config_line@ == env_line_chars(norm, pre.env_var_value@)
    &&& r.new_path is None
    &&& (r.status == CommitStatus::DuplicateKey <==> dup)
}

/// A `PATH` commit: exactly the selected component becomes the buffer's
/// text, every other component keeps its place, the session closes, and
/// the result carries the formatted line together with the rejoined `PATH`
/// value of the updated component list.
pub open spec fn commit_path_post(pre: App, post: App, r: CommitResult) -> bool {
    let sel = pre.selected_path_dir as int;
    &&& post.path_var_dirs@.len() == pre.path_var_dirs@.len()
    &&& (forall|i: int|
        0 <= i < pre.path_var_dirs@.len() && i != sel ==> post.path_var_dirs@[i]
            == pre.path_var_dirs@[i])
    &&& post.path_var_dirs@[sel] == pre.path_var_value
    &&& post.env_vars == pre.env_vars
    &&& !post.editing
    &&& post.currently_editing is None
    &&& post.env_var_value == pre.env_var_value
    &&& post.path_var_value == pre.path_var_value
    &&& same_cursors(pre, post)
    &&& same_focus(pre, post)
    &&& same_config(pre, post)
    &&& post.running == pre.running
    &&& post.overwrite == pre.overwrite
    &&& r.config_line@ == path_line_chars(pre.path_var_value@)
    &&& r.new_path is Some
    &&& r.new_path->Some_0@ == join_chars(post.path_var_dirs.deep_view(), ':')
    &&& r.status == CommitStatus::Committed
}

/// A commit, by active list.
pub open spec fn commit_post(pre: App, post: App, r: CommitResult) -> bool {
    match pre.activated_list {
        ActiveList::EnvList => commit_env_post(pre, post, r),
        ActiveList::PathList => commit_path_post(pre, post, r),
    }
}

/// Toggling the active list twice returns to the original list and leaves
/// the numeric mirror unchanged.
pub proof fn lemma_toggle_twice(a: App, b: App, c: App)
    requires
        a.inv(),
        toggle_post(a, b),
        toggle_post(b, c),
    ensures
        c.activated_list == a.activated_list,
        c.list_index == a.list_index,
{
}

/// A `PATH` commit round-trips: splitting the rejoined `PATH` value at the
/// separator reproduces the updated ordered component list exactly. This
/// holds whenever the updated list is non-empty and no component holds the
/// separator itself.
pub proof fn lemma_commit_path_round_trip(pre: App, post: App, r: CommitResult)
    requires
        commit_path_post(pre, post, r),
        post.path_var_dirs@.len() > 0,
        forall|i: int, j: int|
            0 <= i < post.path_var_dirs.deep_view().len() && 0 <= j
                < post.path_var_dirs.deep_view()[i].len()
                ==> #[trigger] post.path_var_dirs.deep_view()[i][j] != ':',
    ensures
        crate::split::split_chars(r.new_path->Some_0@, ':') == post.path_var_dirs.deep_view(),
{
    crate::split::lemma_split_join(post.path_var_dirs.deep_view(), ':');
}

/// Entering edit mode and immediately cancelling leaves both collections
/// exactly as they were.
pub proof fn lemma_enter_then_cancel(a: App, b: App, c: App)
    requires
        a.inv(),
        enter_edit_post(a, b),
        cancel_edit_post(b, c),
    ensures
        c.env_vars == a.env_vars,
        c.path_var_dirs == a.path_var_dirs,
{
}

} // verus!
