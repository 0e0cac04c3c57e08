//! The key dispatcher: consumes one semantic input event at a time and
//! applies it to the editor state following the state-machine rules.
//!
//! [`step`] is the machine's transition relation; [`handle_key_events`] is
//! its executable form and is proved to follow it exactly. The laws at the
//! end show that the relation preserves well-formedness over every sequence
//! of events, so the selection cursors can never leave their lists.

use vstd::prelude::*;
use vstd::string::StringExecFns;
use crate::app::{
    ActiveList, App, CommitResult, cancel_edit_post, commit_post, enter_edit_post, pop_char_post,
    push_char_post, quit_post, same_cursors, select_next_post, select_prev_post, toggle_post,
};
use crate::event::{KeyCode, KeyEvent};

verus! {

/// The transition relation of the dispatcher: what one key event does to
/// the state, and what it returns.
///
/// The modifier-qualified binding is checked first: with Control held, `c`
/// and `C` quit and every other key is absorbed. Without a modifier, `q`
/// quits from every state; `Esc` cancels the edit session while editing and
/// quits otherwise; `Tab`, `Up` and `Down` act only while browsing; `Enter`
/// and `Backspace` act only while editing; `e` opens an edit session while
/// browsing and falls through to the edit buffer while editing, as every
/// other plain character does; anything else is silently absorbed.
pub open spec fn step(pre: App, ev: KeyEvent, post: App, r: Option<CommitResult>) -> bool {
    if ev.control {
        if ev.code == KeyCode::Char('c') || ev.code == KeyCode::Char('C') {
            &&& quit_post(pre, post)
            &&& r is None
        } else {
            &&& post == pre
            &&& r is None
        }
    } else {
        match ev.code {
            KeyCode::Char(c) => {
                if c == 'q' {
                    &&& quit_post(pre, post)
                    &&& r is None
                } else if !pre.editing && c == 'e' {
                    &&& enter_edit_post(pre, post)
                    &&& r is None
                } else if pre.editing {
                    &&& push_char_post(pre, post, c)
                    &&& r is None
                } else {
                    &&& post == pre
                    &&& r is None
                }
            },
            KeyCode::Esc => {
                if pre.editing {
                    &&& cancel_edit_post(pre, post)
                    &&& r is None
                } else {
                    &&& quit_post(pre, post)
                    &&& r is None
                }
            },
            KeyCode::Tab => {
                if !pre.editing {
                    &&& toggle_post(pre, post)
                    &&& r is None
                } else {
                    &&& post == pre
                    &&& r is None
                }
            },
            KeyCode::Up => {
                if !pre.editing {
                    &&& select_prev_post(pre, post)
                    &&& r is None
                } else {
                    &&& post == pre
                    &&& r is None
                }
            },
            KeyCode::Down => {
                if !pre.editing {
                    &&& select_next_post(pre, post)
                    &&& r is None
                } else {
                    &&& post == pre
                    &&& r is None
                }
            },
            KeyCode::Enter => {
                if pre.editing {
                    &&& r is Some
                    &&& commit_post(pre, post, r->Some_0)
                } else {
                    &&& post == pre
                    &&& r is None
                }
            },
            KeyCode::Backspace => {
                if pre.editing {
                    &&& pop_char_post(pre, post)
                    &&& r is None
                } else {
                    &&& post == pre
                    &&& r is None
                }
            },
            KeyCode::Other => {
                &&& post == pre
                &&& r is None
            },
        }
    }
}

/// Apply one key event to the state. On a commit the result carries what
/// the surrounding program must persist; every other event returns nothing.
pub fn handle_key_events(key_event: KeyEvent, app: &mut App) -> (r: Option<CommitResult>)
    requires
        old(app).inv(),
    ensures
        final(app).inv(),
        step(*old(app), key_event, *final(app), r),
{
    if key_event.control {
        match key_event.code {
            KeyCode::Char(c) => {
                if c == 'c' || c == 'C' {
                    app.quit();
                }
            },
            _ => {},
        }
        return None;
    }
    match key_event.code {
        KeyCode::Char(c) => {
            if c == 'q' {
                app.quit();
            } else if !app.editing && c == 'e' {
                app.enter_edit();
            } else if app.editing {
                app.push_edit_char(c);
            }
            None
        },
        KeyCode::Esc => {
            if app.editing {
                app.cancel_edit();
            } else {
                app.quit();
            }
            None
        },
        KeyCode::Tab => {
            if !app.editing {
                app.toggle_active();
            }
            None
        },
        KeyCode::Up => {
            if !app.editing {
                app.select_prev();
            }
            None
        },
        KeyCode::Down => {
            if !app.editing {
                app.select_next();
            }
            None
        },
        KeyCode::Enter => {
            if app.editing {
                Some(app.commit())
            } else {
                None
            }
        },
        KeyCode::Backspace => {
            if app.editing {
                app.pop_edit_char();
            }
            None
        },
        KeyCode::Other => None,
    }
}

/// The exact text one commit appends to the shell configuration file: a
/// blank-line separator followed by the formatted line. The caller must
/// hand this to a single atomic append, so that no partial line can ever
/// be left behind.
pub fn write_to_config(config_var: &str) -> (r: String)
    ensures
        r@ == "\n"@ + config_var@,
{
    let mut r = String::from_str("\n");
    r.append(config_var);
    r
}

/// One step of the relation keeps the state well formed.
pub proof fn lemma_step_preserves_inv(pre: App, ev: KeyEvent, post: App, r: Option<CommitResult>)
    requires
        pre.inv(),
        step(pre, ev, post, r),
    ensures
        post.inv(),
{
}

/// The states a sequence of key events can lead to, one step at a time.
pub open spec fn reachable(pre: App, evs: Seq<KeyEvent>, post: App) -> bool
    decreases evs.len(),
{
    if evs.len() == 0 {
        post == pre
    } else {
        exists|mid: App, r: Option<CommitResult>|
            step(pre, evs[0], mid, r) && reachable(mid, evs.drop_first(), post)
    }
}

/// Over every sequence of events applied to a well-formed state, the state
/// stays well formed; in particular each selection cursor never leaves
/// `[0, len - 1]` while its list is non-empty.
pub proof fn lemma_cursors_stay_in_range(pre: App, evs: Seq<KeyEvent>, post: App)
    requires
        pre.inv(),
        reachable(pre, evs, post),
    ensures
        post.inv(),
        post.env_vars.len() > 0 ==> post.selected_env_var < post.env_vars.len(),
        post.path_var_dirs.len() > 0 ==> post.selected_path_dir < post.path_var_dirs.len(),
    decreases evs.len(),
{
    if evs.len() > 0 {
        let (mid, r) = choose|mid: App, r: Option<CommitResult>|
            step(pre, evs[0], mid, r) && reachable(mid, evs.drop_first(), post);
        lemma_step_preserves_inv(pre, evs[0], mid, r);
        lemma_cursors_stay_in_range(mid, evs.drop_first(), post);
    }
}

/// At a list boundary, a further move in that direction is a no-op: the
/// cursor value is unchanged.
pub proof fn lemma_boundary_move_is_noop(pre: App, post: App)
    requires
        pre.inv(),
    ensures
        select_next_post(pre, post) && (match pre.activated_list {
            ActiveList::EnvList => pre.selected_env_var + 1 >= pre.env_vars.len(),
            ActiveList::PathList => pre.selected_path_dir + 1 >= pre.path_var_dirs.len(),
        }) ==> same_cursors(pre, post),
        select_prev_post(pre, post) && (match pre.activated_list {
            ActiveList::EnvList => pre.selected_env_var == 0,
            ActiveList::PathList => pre.selected_path_dir == 0,
        }) ==> same_cursors(pre, post),
{
}

} // verus!
