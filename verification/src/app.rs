use vstd::prelude::*;
use vstd::string::StrSliceExecFns;
use vstd::string::StringExecFns;

use crate::list::StatefulList;
use crate::list::next_cursor;
use crate::list::prev_cursor;

verus! {

/// What a path resolves to against an optional home directory: a leading `~`
/// is replaced by the home directory when one is known; otherwise the path
/// stands as it is.
pub open spec fn resolved_path(path: Seq<char>, home: Option<Seq<char>>) -> Seq<char> {
    if path.len() > 0 && path[0] == '~' && home is Some {
        home->0 + path.subrange(1, path.len() as int)
    } else {
        path
    }
}

/// The view of an optional string.
pub open spec fn opt_str_view(o: Option<String>) -> Option<Seq<char>> {
    match o {
        Option::None => Option::None,
        Option::Some(s) => Option::Some(s@),
    }
}

/// Expands a leading `~` home shorthand against the given home directory;
/// with no home directory known, the path is returned unresolved.
pub fn resolve_path(path: &String, home: &Option<String>) -> (r: String)
    ensures
        r@ == resolved_path(path@, opt_str_view(*home)),
{
    let len: usize = path.as_str().unicode_len();
    if len > 0 && path.as_str().get_char(0) == '~' {
        match home {
            Option::Some(h) => {
                let rest: &str = path.as_str().substring_char(1, len);
                let r = h.clone().concat(rest);
                proof {
                    assert(r@ =~= resolved_path(path@, opt_str_view(*home)));
                }
                r
            },
            Option::None => path.clone(),
        }
    } else {
        path.clone()
    }
}

/// Relies on home::home_dir: the home directory of the current user, if the
/// platform reports one. The answer comes from the environment, so nothing
/// can be promised of it; the directory is handed on as a plain string, or
/// `None` when there is no home directory or its path is not valid UTF-8.
#[verifier::external_body]
fn home_dir_string() -> (r: Option<String>) {
    match home::home_dir() {
        Some(p) => match p.to_str() {
            Some(s) => Some(s.to_string()),
            None => None,
        },
        None => None,
    }
}

/// One favorite project: a display name and a filesystem path. The path may
/// keep a leading `~` home shorthand; it is expanded only when a launch is
/// confirmed, never at load time.
pub struct ProjectEntry {
    pub name: String,
    pub path: String,
}

/// The configuration handed to the application at startup: the ordered
/// sequence of favorite project entries.
pub struct AppConfig {
    pub projects: Vec<ProjectEntry>,
}

impl Default for AppConfig {
    /// The empty configuration, the fallback when no usable one was loaded.
    fn default() -> (c: AppConfig)
        ensures
            c.projects@.len() == 0,
    {
        AppConfig { projects: Vec::new() }
    }
}

/// A directional key. Only `Up` and `Down` move the cursor; the horizontal
/// keys are accepted and ignored.
pub enum ArrowKey {
    Up,
    Down,
    Left,
    Right,
}

/// The application state: the favorites list, the termination flag, and an
/// optional status line for the renderer to show. Once `should_quit` is set
/// the state is terminal and every dispatch operation is a no-op.
pub struct App {
    pub should_quit: bool,
    pub favorites: StatefulList<ProjectEntry>,
    pub status: Option<String>,
}

impl App {
    /// Well-formed: the favorites list keeps its cursor inside its items.
    pub open spec fn wf(self) -> bool {
        self.favorites.wf()
    }

    /// Builds the application from a configuration and settles the cursor on
    /// the first entry, when there is one.
    pub fn new(config: AppConfig) -> (app: App)
        ensures
            app.wf(),
            !app.should_quit,
            app.status is None,
            app.favorites.items@ == config.projects@,
            config.projects@.len() > 0 ==> app.favorites.cursor == Option::Some(0usize),
            config.projects@.len() == 0 ==> app.favorites.cursor is None,
    {
        let favorites = StatefulList::with_items(config.projects);
        let mut app = App { should_quit: false, favorites, status: Option::None };
        app.favorites.next();
        app
    }

    /// Reports whether the state is well-formed, so that an unverified caller
    /// can check it before dispatching events.
    pub fn is_well_formed(&self) -> (b: bool)
        ensures
            b == self.wf(),
    {
        match self.favorites.cursor {
            Option::None => true,
            Option::Some(i) => i < self.favorites.items.len(),
        }
    }

    /// Dispatches one printable character: `q`, or `c` under the control
    /// modifier, terminates; `j` moves the selection forward; `k` moves it
    /// backward; any other character is ignored. Once terminated every
    /// character is ignored.
    pub fn on_key(&mut self, c: char, ctrl: bool)
        requires
            old(self).wf(),
        ensures
            final(self).wf(),
            final(self).favorites.items@ == old(self).favorites.items@,
            final(self).status == old(self).status,
            old(self).should_quit ==> *final(self) == *old(self),
            (!old(self).should_quit && (c == 'q' || (c == 'c' && ctrl))) ==> (
                final(self).should_quit && final(self).favorites == old(self).favorites
            ),
            (!old(self).should_quit && !(c == 'q' || (c == 'c' && ctrl)) && c == 'j') ==> (
                !final(self).should_quit && final(self).favorites.cursor_int() == next_cursor(
                    old(self).favorites.cursor_int(),
                    old(self).favorites.items@.len() as int,
                )
            ),
            (!old(self).should_quit && !(c == 'q' || (c == 'c' && ctrl)) && c == 'k') ==> (
                !final(self).should_quit && final(self).favorites.cursor_int() == prev_cursor(
                    old(self).favorites.cursor_int(),
                    old(self).favorites.items@.len() as int,
                )
            ),
            (!old(self).should_quit && !(c == 'q' || (c == 'c' && ctrl)) && c != 'j' && c != 'k')
                ==> *final(self) == *old(self),
    {
        if self.should_quit {
            return;
        }
        if c == 'q' || (c == 'c' && ctrl) {
            self.should_quit = true;
            return;
        }
        if c == 'j' {
            self.favorites.next();
        } else if c == 'k' {
            self.favorites.prev();
        }
    }

    /// Dispatches one directional key: `Up` moves the selection backward,
    /// `Down` forward, `Left` and `Right` are ignored, and nothing moves once
    /// terminated.
    pub fn on_arrow_key(&mut self, key: ArrowKey)
        requires
            old(self).wf(),
        ensures
            final(self).wf(),
            final(self).should_quit == old(self).should_quit,
            final(self).favorites.items@ == old(self).favorites.items@,
            final(self).status == old(self).status,
            old(self).should_quit ==> *final(self) == *old(self),
            (!old(self).should_quit && key is Up) ==> final(self).favorites.cursor_int()
                == prev_cursor(
                old(self).favorites.cursor_int(),
                old(self).favorites.items@.len() as int,
            ),
            (!old(self).should_quit && key is Down) ==> final(self).favorites.cursor_int()
                == next_cursor(
                old(self).favorites.cursor_int(),
                old(self).favorites.items@.len() as int,
            ),
            (!old(self).should_quit && (key is Left || key is Right)) ==> *final(self) == *old(
                self,
            ),
    {
        if self.should_quit {
            return;
        }
        match key {
            ArrowKey::Up => self.favorites.prev(),
            ArrowKey::Down => self.favorites.next(),
            ArrowKey::Left => {},
            ArrowKey::Right => {},
        }
    }

    /// Confirms the current selection: when an entry is selected, its path is
    /// resolved against the home directory and returned for the caller to
    /// launch an editor with. The state does not change here: whether the
    /// application terminates is decided by `on_launch_result`, once the
    /// outcome of the launch is known. With no selection, or once terminated,
    /// nothing is returned.
    pub fn on_enter(&self) -> (r: Option<String>)
        ensures
            self.should_quit ==> r is None,
            (!self.should_quit && self.favorites.spec_selected() is None) ==> r is None,
            !self.should_quit ==> (self.favorites.spec_selected() matches Some(entry) ==> (
                r matches Some(p) && (exists|h: Option<Seq<char>>|
                p@ == resolved_path(entry.path@, h)))),
    {
        if self.should_quit {
            return Option::None;
        }
        let path: Option<String> = match self.favorites.selected() {
            Option::Some(entry) => Option::Some(entry.path.clone()),
            Option::None => Option::None,
        };
        match path {
            Option::Some(p) => {
                let home = home_dir_string();
                let resolved = resolve_path(&p, &home);
                proof {
                    let sel = self.favorites.spec_selected()->0;
                    assert(p@ == sel.path@);
                    assert(resolved@ == resolved_path(sel.path@, opt_str_view(home)));
                    assert(exists|h: Option<Seq<char>>|
                        resolved@ == resolved_path(sel.path@, h));
                }
                Option::Some(resolved)
            },
            Option::None => Option::None,
        }
    }

    /// Records the outcome of a launch request: a successful start terminates
    /// the application; a failed one leaves it running, with a message on the
    /// status line instead of the user's context silently discarded. Once
    /// terminated, nothing changes.
    pub fn on_launch_result(&mut self, success: bool)
        requires
            old(self).wf(),
        ensures
            final(self).wf(),
            final(self).favorites == old(self).favorites,
            old(self).should_quit ==> *final(self) == *old(self),
            (!old(self).should_quit && success) ==> (
                final(self).should_quit && final(self).status == old(self).status
            ),
            (!old(self).should_quit && !success) ==> (
                !final(self).should_quit && (final(self).status matches Some(m)
                && m@ == "could not start the editor"@)
            ),
    {
        if self.should_quit {
            return;
        }
        if success {
            self.should_quit = true;
        } else {
            self.status = Option::Some(String::from_str("could not start the editor"));
        }
    }
}

} // verus!
