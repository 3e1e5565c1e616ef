use vstd::prelude::*;
use vstd::string::{StrSliceExecFns, StringExecFns};

use crate::input::{key_label, Key};
use crate::state::{notified, AppState, TabState};
use crate::util::{cycle_next, cycle_prev, next_in_cycle, prev_in_cycle, MAXIMUM_TABS, NOTIFICATION_SEPERATOR};

verus! {

/// A named tab with its own navigation state.
pub struct Tab {
    pub title: String,
    pub state: TabState,
}

impl Tab {
    pub fn new(title: String) -> (r: Tab)
        ensures
            r.title == title,
            r.state.is_fresh(),
            r.state.wf(),
    {
        Tab { title, state: TabState::default() }
    }

    pub fn update_title(&mut self, title: String)
        ensures
            final(self).title == title,
            final(self).state == old(self).state,
    {
        self.title = title;
    }
}

/// The controller: the interface state and the flags the event loop reads.
/// With `echo_keys` set, every key press is also recorded as a notification.
pub struct App {
    pub is_loading: bool,
    pub state: AppState,
    pub exit_app: bool,
    pub mouse_capture: bool,
    pub echo_keys: bool,
}

/// The tab that a shifted digit key (`!@#$%^&*()`, the digits 1 to 0 on the
/// keyboard) switches to.
pub open spec fn tab_shortcut(ch: char) -> Option<usize> {
    if ch == '!' {
        Some(0usize)
    } else if ch == '@' {
        Some(1usize)
    } else if ch == '#' {
        Some(2usize)
    } else if ch == '$' {
        Some(3usize)
    } else if ch == '%' {
        Some(4usize)
    } else if ch == '^' {
        Some(5usize)
    } else if ch == '&' {
        Some(6usize)
    } else if ch == '*' {
        Some(7usize)
    } else if ch == '(' {
        Some(8usize)
    } else if ch == ')' {
        Some(9usize)
    } else {
        None
    }
}

/// Keys handled before any region sees them: Ctrl with C, T, W or E, the
/// tab shortcuts, and Ctrl with an arrow.
pub open spec fn is_global_shortcut(key: Key) -> bool {
    match key {
        Key::Ctrl(c) => c == 'c' || c == 'C' || c == 't' || c == 'T' || c == 'w' || c == 'W' || c
            == 'e' || c == 'E',
        Key::Char(c) => tab_shortcut(c) is Some,
        Key::CtrlLeft | Key::CtrlUp | Key::CtrlRight | Key::CtrlDown => true,
        _ => false,
    }
}

/// The footer's scroll cursor after one tick: it advances by one over the
/// newest notification and the separator, and starts over after both.
pub open spec fn ticked_scroll(s: AppState) -> usize {
    let scroll = s.notification_scroll;
    if s.notifications.len() == 0 {
        scroll
    } else if scroll == s.notifications@.last().text@.len() + NOTIFICATION_SEPERATOR@.len() {
        0
    } else if scroll == usize::MAX {
        0
    } else {
        (scroll + 1) as usize
    }
}

/// The tab a shortcut character selects.
fn shortcut_tab_index(ch: char) -> (r: Option<usize>)
    ensures
        r == tab_shortcut(ch),
{
    match ch {
        '!' => Some(0),
        '@' => Some(1),
        '#' => Some(2),
        '$' => Some(3),
        '%' => Some(4),
        '^' => Some(5),
        '&' => Some(6),
        '*' => Some(7),
        '(' => Some(8),
        ')' => Some(9),
        _ => None,
    }
}

impl App {
    pub open spec fn wf(&self) -> bool {
        self.state.wf()
    }

    /// The flags and the session are the same in both.
    pub open spec fn same_flags(before: App, after: App) -> bool {
        &&& after.is_loading == before.is_loading
        &&& after.exit_app == before.exit_app
        &&& after.mouse_capture == before.mouse_capture
        &&& after.echo_keys == before.echo_keys
        &&& after.state.session == before.state.session
    }

    /// The tabs and the selected tab are the same in both.
    pub open spec fn same_tabs(before: App, after: App) -> bool {
        &&& after.state.tabs == before.state.tabs
        &&& after.state.selected_tab == before.state.selected_tab
    }

    /// The notification history and its scroll cursor are the same in both.
    pub open spec fn same_notifications(before: App, after: App) -> bool {
        &&& after.state.notifications == before.state.notifications
        &&& after.state.notification_scroll == before.state.notification_scroll
    }

    /// `after` is `before` with a notification of text `text` pushed and the
    /// footer's scrolling restarted.
    pub open spec fn notified_with(before: App, after: App, text: Seq<char>) -> bool {
        &&& notified(before.state.notifications@, after.state.notifications@, text)
        &&& after.state.notification_scroll == 0
    }

    /// A new fresh tab is appended and selected while fewer than the maximum
    /// are open; otherwise the tabs stay and a notification says why.
    pub open spec fn new_tab_step(before: App, after: App) -> bool {
        &&& App::same_flags(before, after)
        &&& if before.state.tabs.len() < MAXIMUM_TABS {
            &&& after.state.tabs@.len() == before.state.tabs@.len() + 1
            &&& after.state.tabs@.drop_last() == before.state.tabs@
            &&& after.state.tabs@.last().title@ == "New Tab"@
            &&& after.state.tabs@.last().state.is_fresh()
            &&& after.state.selected_tab == before.state.tabs.len()
            &&& App::same_notifications(before, after)
        } else {
            &&& App::same_tabs(before, after)
            &&& App::notified_with(before, after, "Maximum of 10 tabs are allowed!"@)
        }
    }

    /// The selected tab is closed unless it is the only one; the selection
    /// keeps its slot, or moves left when the last tab was closed.
    pub open spec fn delete_tab_step(before: App, after: App) -> bool {
        let sel = before.state.selected_tab as int;
        let n = before.state.tabs.len();
        &&& App::same_flags(before, after)
        &&& App::same_notifications(before, after)
        &&& if n > 1 {
            &&& after.state.tabs@ == before.state.tabs@.remove(sel)
            &&& after.state.selected_tab == (if sel == n - 1 {
                sel - 1
            } else {
                sel
            })
        } else {
            App::same_tabs(before, after)
        }
    }

    /// The tab a shortcut names is selected when it exists; a character that
    /// is no shortcut names the first tab.
    pub open spec fn switch_tab_step(before: App, after: App, ch: char) -> bool {
        let index = match tab_shortcut(ch) {
            Some(i) => i,
            None => 0usize,
        };
        &&& App::same_flags(before, after)
        &&& App::same_notifications(before, after)
        &&& after.state.tabs == before.state.tabs
        &&& after.state.selected_tab == (if index < before.state.tabs.len() {
            index
        } else {
            before.state.selected_tab
        })
    }

    /// Mouse capture is switched and a notification says to which.
    pub open spec fn toggle_mouse_step(before: App, after: App) -> bool {
        &&& after.mouse_capture == !before.mouse_capture
        &&& after.is_loading == before.is_loading
        &&& after.exit_app == before.exit_app
        &&& after.echo_keys == before.echo_keys
        &&& after.state.session == before.state.session
        &&& App::same_tabs(before, after)
        &&& App::notified_with(
            before,
            after,
            if before.mouse_capture {
                "Mouse capture disabled."@
            } else {
                "Mouse capture enabled."@
            },
        )
    }

    /// `after` is `before` with another tab selected.
    pub open spec fn selects(before: App, after: App, tab: int) -> bool {
        after == App { state: AppState { selected_tab: tab as usize, ..before.state }, ..before }
    }

    /// What a global shortcut does; any other key changes nothing.
    pub open spec fn global_step(before: App, after: App, key: Key) -> bool {
        let sel = before.state.selected_tab as int;
        let n = before.state.tabs.len() as int;
        match key {
            Key::Ctrl(c) => if c == 'c' || c == 'C' {
                after == App { exit_app: true, ..before }
            } else if c == 't' || c == 'T' {
                App::new_tab_step(before, after)
            } else if c == 'w' || c == 'W' {
                App::delete_tab_step(before, after)
            } else if c == 'e' || c == 'E' {
                App::toggle_mouse_step(before, after)
            } else {
                after == before
            },
            Key::Char(c) => if tab_shortcut(c) is Some {
                App::switch_tab_step(before, after, c)
            } else {
                after == before
            },
            Key::CtrlLeft | Key::CtrlUp => App::selects(before, after, prev_in_cycle(sel, n)),
            Key::CtrlRight | Key::CtrlDown => App::selects(before, after, next_in_cycle(sel, n)),
            _ => after == before,
        }
    }

    /// The selected tab's state takes the key; nothing else changes.
    pub open spec fn route_step(before: App, after: App, key: Key) -> bool {
        let sel = before.state.selected_tab as int;
        &&& App::same_flags(before, after)
        &&& App::same_notifications(before, after)
        &&& after.state.selected_tab == before.state.selected_tab
        &&& after.state.tabs@ == before.state.tabs@.update(sel, after.state.tabs@[sel])
        &&& after.state.tabs@[sel].title == before.state.tabs@[sel].title
        &&& TabState::input_step(before.state.tabs@[sel].state, after.state.tabs@[sel].state, key)
    }

    /// With echoing on, the key's name is pushed as a notification.
    pub open spec fn echo_step(before: App, after: App, key: Key) -> bool {
        if before.echo_keys {
            &&& App::same_flags(before, after)
            &&& App::same_tabs(before, after)
            &&& App::notified_with(before, after, key_label(key))
        } else {
            after == before
        }
    }

    /// A new controller with one fresh tab, an empty history, mouse capture
    /// and key echoing on, and nothing loading.
    pub fn new() -> (r: App)
        ensures
            r.wf(),
            !r.is_loading,
            !r.exit_app,
            r.mouse_capture,
            r.echo_keys,
            r.state.selected_tab == 0,
            r.state.tabs.len() == 1,
            r.state.tabs@[0].title@ == "New Tab"@,
            r.state.tabs@[0].state.is_fresh(),
            r.state.session is LoggedOut,
            r.state.notification_scroll == 0,
            r.state.notifications.len() == 0,
    {
        App {
            is_loading: false,
            state: AppState::default(),
            exit_app: false,
            mouse_capture: true,
            echo_keys: true,
        }
    }

    /// Handles the global shortcuts and says whether the key was one.
    pub fn handle_global_keys(&mut self, key: Key) -> (r: bool)
        requires
            old(self).wf(),
        ensures
            r == is_global_shortcut(key),
            App::global_step(*old(self), *final(self), key),
            final(self).wf(),
    {
        match key {
            Key::Ctrl(ch) => {
                if ch == 'C' || ch == 'c' {
                    self.exit_app = true;
                    true
                } else if ch == 'T' || ch == 't' {
                    self.new_tab();
                    true
                } else if ch == 'W' || ch == 'w' {
                    self.delete_tab();
                    true
                } else if ch == 'E' || ch == 'e' {
                    self.toggle_mouse_capture();
                    true
                } else {
                    false
                }
            },
            Key::Char(ch) => {
                if shortcut_tab_index(ch).is_some() {
                    self.switch_tab(ch);
                    true
                } else {
                    false
                }
            },
            Key::CtrlLeft | Key::CtrlUp => {
                self.state.selected_tab = cycle_prev(self.state.selected_tab, self.state.tabs.len());
                true
            },
            Key::CtrlRight | Key::CtrlDown => {
                self.state.selected_tab = cycle_next(self.state.selected_tab, self.state.tabs.len());
                true
            },
            _ => false,
        }
    }

    /// Hands a key to the selected tab's region chooser; see
    /// `TabState::window_hover_step`.
    pub fn handle_window_hover(&mut self, key: Key)
        requires
            old(self).wf(),
        ensures
            final(self).wf(),
            App::same_flags(*old(self), *final(self)),
            App::same_notifications(*old(self), *final(self)),
            final(self).state.selected_tab == old(self).state.selected_tab,
            final(self).state.tabs@ == old(self).state.tabs@.update(
                old(self).state.selected_tab as int,
                final(self).state.tabs@[old(self).state.selected_tab as int],
            ),
            final(self).state.tabs@[old(self).state.selected_tab as int].title == old(
                self,
            ).state.tabs@[old(self).state.selected_tab as int].title,
            TabState::window_hover_step(
                old(self).state.tabs@[old(self).state.selected_tab as int].state,
                final(self).state.tabs@[old(self).state.selected_tab as int].state,
                key,
            ),
    {
        let i = self.state.selected_tab;
        self.state.tabs[i].state.handle_window_hover(key);
        proof {
            self.lemma_tab_update_wf(*old(self), i as int);
        }
    }

    /// Hands a key to the selected tab's sidebar; see `TabState::sidebar_step`.
    pub fn handle_sidebar_input(&mut self, key: Key)
        requires
            old(self).wf(),
        ensures
            final(self).wf(),
            App::same_flags(*old(self), *final(self)),
            App::same_notifications(*old(self), *final(self)),
            final(self).state.selected_tab == old(self).state.selected_tab,
            final(self).state.tabs@ == old(self).state.tabs@.update(
                old(self).state.selected_tab as int,
                final(self).state.tabs@[old(self).state.selected_tab as int],
            ),
            final(self).state.tabs@[old(self).state.selected_tab as int].title == old(
                self,
            ).state.tabs@[old(self).state.selected_tab as int].title,
            TabState::sidebar_step(
                old(self).state.tabs@[old(self).state.selected_tab as int].state,
                final(self).state.tabs@[old(self).state.selected_tab as int].state,
                key,
            ),
    {
        let i = self.state.selected_tab;
        self.state.tabs[i].state.handle_sidebar_input(key);
        proof {
            self.lemma_tab_update_wf(*old(self), i as int);
        }
    }

    /// One key press: echoed when echoing is on, then taken by a global
    /// shortcut, or else routed to the selected tab.
    pub fn do_action(&mut self, key: Key)
        requires
            old(self).wf(),
        ensures
            final(self).wf(),
            exists|mid: App|
                {
                    &&& App::echo_step(*old(self), mid, key)
                    &&& mid.wf()
                    &&& if is_global_shortcut(key) {
                        App::global_step(mid, *final(self), key)
                    } else {
                        App::route_step(mid, *final(self), key)
                    }
                },
    {
        if self.echo_keys {
            self.state.dispatch_notification(key.label());
        }
        let ghost mid = *self;
        let consumed = self.handle_global_keys(key);
        if !consumed {
            let i = self.state.selected_tab;
            self.state.tabs[i].state.handle_input(key);
            proof {
                self.lemma_tab_update_wf(mid, i as int);
            }
        }
        assert(App::echo_step(*old(self), mid, key));
        assert(mid.wf());
        if consumed {
            assert(App::global_step(mid, *self, key));
        } else {
            assert(App::route_step(mid, *self, key));
        }
    }

    /// One tick: advances the footer's scroll cursor; see `ticked_scroll`.
    pub fn update_on_tick(&mut self)
        ensures
            *final(self) == (App {
                state: AppState { notification_scroll: ticked_scroll(old(self).state), ..old(self).state },
                ..*old(self)
            }),
    {
        let n = self.state.notifications.len();
        if n > 0 {
            let length = self.state.notifications[n - 1].text.as_str().unicode_len();
            let separator = NOTIFICATION_SEPERATOR.unicode_len();
            let scroll = self.state.notification_scroll;
            if scroll >= separator && scroll - separator == length {
                self.state.notification_scroll = 0;
            } else if scroll == usize::MAX {
                self.state.notification_scroll = 0;
            } else {
                self.state.notification_scroll = scroll + 1;
            }
        }
    }

    /// Marks the end of background work.
    pub fn loaded(&mut self)
        ensures
            *final(self) == (App { is_loading: false, ..*old(self) }),
    {
        self.is_loading = false;
    }

    /// Opens a new tab; see `new_tab_step`.
    pub fn new_tab(&mut self)
        requires
            old(self).wf(),
        ensures
            App::new_tab_step(*old(self), *final(self)),
            1 <= final(self).state.tabs.len() <= MAXIMUM_TABS,
            final(self).wf(),
    {
        if self.state.tabs.len() < MAXIMUM_TABS {
            let tabs_len = self.state.tabs.len();
            self.state.selected_tab = tabs_len;
            self.state.tabs.push(Tab::new(String::from_str("New Tab")));
            proof {
                assert(self.state.tabs@.drop_last() =~= old(self).state.tabs@);
                assert forall|i: int| 0 <= i < self.state.tabs.len() implies (#[trigger] self.state.tabs@[i]).state.wf() by {
                    if i < tabs_len {
                        assert(old(self).state.tabs@[i].state.wf());
                    }
                }
            }
        } else {
            self.state.dispatch_notification(String::from_str("Maximum of 10 tabs are allowed!"));
        }
    }

    /// Closes the selected tab; see `delete_tab_step`.
    pub fn delete_tab(&mut self)
        requires
            old(self).wf(),
        ensures
            App::delete_tab_step(*old(self), *final(self)),
            1 <= final(self).state.tabs.len() <= MAXIMUM_TABS,
            final(self).wf(),
    {
        if self.state.tabs.len() > 1 {
            let new_selected_tab = if self.state.selected_tab == self.state.tabs.len() - 1 {
                self.state.selected_tab - 1
            } else {
                self.state.selected_tab
            };
            self.state.tabs.remove(self.state.selected_tab);
            self.state.selected_tab = new_selected_tab;
            proof {
                let sel = old(self).state.selected_tab as int;
                assert forall|i: int| 0 <= i < self.state.tabs.len() implies (#[trigger] self.state.tabs@[i]).state.wf() by {
                    if i < sel {
                        assert(old(self).state.tabs@[i].state.wf());
                    } else {
                        assert(old(self).state.tabs@[i + 1].state.wf());
                    }
                }
            }
        }
    }

    /// Selects the tab a shortcut character names; see `switch_tab_step`.
    pub fn switch_tab(&mut self, ch: char)
        requires
            old(self).wf(),
        ensures
            App::switch_tab_step(*old(self), *final(self), ch),
            final(self).wf(),
    {
        let index: usize = match shortcut_tab_index(ch) {
            Some(i) => i,
            None => 0,
        };
        if index < self.state.tabs.len() {
            self.state.selected_tab = index;
        }
    }

    /// Switches mouse capture and records it; the terminal itself is set by
    /// the event loop, which reads `mouse_capture`.
    fn toggle_mouse_capture(&mut self)
        requires
            old(self).wf(),
        ensures
            App::toggle_mouse_step(*old(self), *final(self)),
            final(self).wf(),
    {
        if self.mouse_capture {
            self.state.dispatch_notification(String::from_str("Mouse capture disabled."));
            self.mouse_capture = false;
        } else {
            self.state.dispatch_notification(String::from_str("Mouse capture enabled."));
            self.mouse_capture = true;
        }
    }

    /// After one tab's state changed validly, the whole controller is valid.
    proof fn lemma_tab_update_wf(&self, before: App, i: int)
        requires
            before.wf(),
            i == before.state.selected_tab,
            self.state.selected_tab == before.state.selected_tab,
            self.state.notifications == before.state.notifications,
            self.state.tabs@.len() == before.state.tabs@.len(),
            self.state.tabs@[i].state.wf(),
            forall|j: int| 0 <= j < self.state.tabs@.len() && j != i ==> self.state.tabs@[j] == before.state.tabs@[j],
        ensures
            self.wf(),
    {
        assert forall|j: int| 0 <= j < self.state.tabs.len() implies (#[trigger] self.state.tabs@[j]).state.wf() by {
            if j != i {
                assert(before.state.tabs@[j].state.wf());
            }
        }
    }
}

} // verus!
