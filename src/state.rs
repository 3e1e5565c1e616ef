use std::time::Instant;

use vstd::prelude::*;
use vstd::string::StringExecFns;

use crate::app::Tab;
use crate::block::{lemma_deselection_clears, Block};
use crate::input::{is_backward_key, is_forward_key, Key};
use crate::pages::{lemma_catalogue_index, page_catalogue, page_index, Page, PageBlock, PAGE_COUNT};
use crate::util::{cycle_next, cycle_prev, next_in_cycle, prev_in_cycle, MAXIMUM_TABS, NOTIFICATION_HISTORY_LENGTH};

verus! {

/// std::time::Instant, carried as an opaque value: when a notification was raised.
#[verifier::external_type_specification]
#[verifier::external_body]
pub struct ExInstant(Instant);

/// Relies on std::time::Instant::now: it returns the current instant, of
/// which nothing is assumed.
pub assume_specification[ Instant::now ]() -> Instant;

/// The two regions of a tab that can hold focus.
#[derive(Clone, Copy, PartialEq, Eq, Structural, Debug)]
pub enum Window {
    SidebarWindow,
    PageWindow,
}

/// The navigation state of one tab: the page it shows, the sidebar's hover
/// cursor, and which region is hovered and which is active.
pub struct TabState {
    pub page_block: PageBlock,
    pub sidebar_hover: usize,
    pub active_window: Option<Window>,
    pub hovered_window: Option<Window>,
}

pub enum Session {
    LoggedOut,
    LoggedIn { serverid: String, jsessionid: String, csrf_token: String },
}

/// A status message and the instant it was raised.
pub struct Notification {
    pub text: String,
    pub origin_time: Instant,
}

impl Notification {
    pub fn new(text: String) -> (r: Notification)
        ensures
            r.text == text,
    {
        Notification { text, origin_time: Instant::now() }
    }
}

/// The queue after one push when it holds at most `cap` items: at `cap`
/// the oldest item leaves first.
pub open spec fn pushed_ring<T>(q: Seq<T>, x: T, cap: nat) -> Seq<T> {
    if q.len() == cap {
        q.drop_first().push(x)
    } else {
        q.push(x)
    }
}

/// The queue after pushing each of `xs` in turn.
pub open spec fn pushed_all<T>(q: Seq<T>, xs: Seq<T>, cap: nat) -> Seq<T>
    decreases xs.len(),
{
    if xs.len() == 0 {
        q
    } else {
        pushed_all(pushed_ring(q, xs[0], cap), xs.drop_first(), cap)
    }
}

/// A bounded queue keeps exactly the latest `cap` items pushed: pushing any
/// sequence onto a queue of at most `cap` items leaves the last
/// `min(cap, total)` items of the whole history, oldest first. In particular
/// `cap + 1` pushes onto an empty queue leave all but the first.
pub proof fn lemma_notification_ring<T>(q: Seq<T>, xs: Seq<T>, cap: nat)
    requires
        cap >= 1,
        q.len() <= cap,
    ensures
        pushed_all(q, xs, cap) == (q + xs).subrange(
            if q.len() + xs.len() > cap {
                q.len() + xs.len() - cap
            } else {
                0int
            },
            (q.len() + xs.len()) as int,
        ),
        pushed_all(q, xs, cap).len() == if q.len() + xs.len() > cap {
            cap as int
        } else {
            q.len() + xs.len() as int
        },
        q.len() == 0 && xs.len() == cap + 1 ==> pushed_all(q, xs, cap) == xs.drop_first(),
    decreases xs.len(),
{
    let total = q + xs;
    if xs.len() == 0 {
        assert(total.subrange(0, q.len() as int) =~= q);
    } else {
        let q1 = pushed_ring(q, xs[0], cap);
        let rest = xs.drop_first();
        lemma_notification_ring(q1, rest, cap);
        let s1: int = if q.len() + 1 > cap {
            q.len() + 1 - cap
        } else {
            0
        };
        assert(q1 =~= total.subrange(s1, q.len() + 1int));
        assert(q1 + rest =~= total.subrange(s1, total.len() as int));
        let s2: int = if q1.len() + rest.len() > cap {
            q1.len() + rest.len() - cap
        } else {
            0
        };
        assert((q1 + rest).subrange(s2, (q1.len() + rest.len()) as int) =~= total.subrange(
            s1 + s2,
            total.len() as int,
        ));
    }
    if q.len() == 0 && xs.len() == cap + 1 {
        assert(total.subrange(1, total.len() as int) =~= xs.drop_first());
    }
}

/// `after` is `before` with one notification of text `text` pushed.
pub open spec fn notified(before: Seq<Notification>, after: Seq<Notification>, text: Seq<char>) -> bool {
    &&& after.len() > 0
    &&& after == pushed_ring(before, after.last(), NOTIFICATION_HISTORY_LENGTH as nat)
    &&& after.last().text@ == text
}

/// The hovered region after a directional key: the two regions swap.
pub open spec fn flipped(w: Option<Window>) -> Option<Window> {
    match w {
        Some(Window::PageWindow) => Some(Window::SidebarWindow),
        Some(Window::SidebarWindow) => Some(Window::PageWindow),
        None => None,
    }
}

impl TabState {
    /// The sidebar cursor names a page and the page's tree is valid with a
    /// single chain of selections.
    pub open spec fn wf(&self) -> bool {
        &&& self.sidebar_hover < PAGE_COUNT
        &&& self.page_block.block.wf()
        &&& self.page_block.block.single_chain()
    }

    /// The state a new tab starts in: the debug page, freshly built, with
    /// the sidebar cursor on it, the sidebar hovered and nothing active.
    pub open spec fn is_fresh(&self) -> bool {
        &&& self.page_block.page == Page::Debug
        &&& self.page_block.is_fresh()
        &&& self.sidebar_hover == page_index(Page::Debug)
        &&& self.active_window is None
        &&& self.hovered_window == Some(Window::SidebarWindow)
    }

    /// A key while no region is active: directional keys swap the hovered
    /// region; Enter activates it, and entering the page hovers the first
    /// block of its tree.
    pub open spec fn window_hover_step(before: TabState, after: TabState, key: Key) -> bool {
        if is_forward_key(key) || is_backward_key(key) {
            after == TabState { hovered_window: flipped(before.hovered_window), ..before }
        } else if key is Enter {
            after == TabState {
                active_window: before.hovered_window,
                page_block: if before.hovered_window == Some(Window::PageWindow) {
                    PageBlock { page: before.page_block.page, block: before.page_block.block.hovered_first() }
                } else {
                    before.page_block
                },
                ..before
            }
        } else {
            after == before
        }
    }

    /// A key while the sidebar is active: directional keys move its cursor
    /// round the catalogue; Enter opens the hovered page afresh unless it is
    /// already shown; Esc leaves the sidebar and puts its cursor back on the
    /// page shown.
    pub open spec fn sidebar_step(before: TabState, after: TabState, key: Key) -> bool {
        let h = before.sidebar_hover as int;
        if is_forward_key(key) {
            after == TabState { sidebar_hover: next_in_cycle(h, PAGE_COUNT as int) as usize, ..before }
        } else if is_backward_key(key) {
            after == TabState { sidebar_hover: prev_in_cycle(h, PAGE_COUNT as int) as usize, ..before }
        } else if key is Enter {
            if page_catalogue()[h] != before.page_block.page {
                &&& after.page_block.page == page_catalogue()[h]
                &&& after.page_block.is_fresh()
                &&& after.sidebar_hover == before.sidebar_hover
                &&& after.active_window == before.active_window
                &&& after.hovered_window == before.hovered_window
            } else {
                after == before
            }
        } else if key is Esc {
            after == TabState {
                active_window: None,
                sidebar_hover: page_index(before.page_block.page) as usize,
                ..before
            }
        } else {
            after == before
        }
    }

    /// A key while the page is active: Esc with no block selected leaves the
    /// page and clears its tree's cursors; any other key goes into the tree.
    pub open spec fn page_step(before: TabState, after: TabState, key: Key) -> bool {
        &&& after.sidebar_hover == before.sidebar_hover
        &&& after.hovered_window == before.hovered_window
        &&& after.page_block.page == before.page_block.page
        &&& if key is Esc && before.page_block.block.selected() is None {
            &&& after.active_window is None
            &&& Block::deselection_of(after.page_block.block, before.page_block.block)
        } else {
            &&& after.active_window == before.active_window
            &&& Block::input_step(before.page_block.block, after.page_block.block, key)
        }
    }

    /// A key routed to a tab, by the region that is active.
    pub open spec fn input_step(before: TabState, after: TabState, key: Key) -> bool {
        match before.active_window {
            None => TabState::window_hover_step(before, after, key),
            Some(Window::SidebarWindow) => TabState::sidebar_step(before, after, key),
            Some(Window::PageWindow) => TabState::page_step(before, after, key),
        }
    }

    pub fn handle_window_hover(&mut self, key: Key)
        requires
            old(self).wf(),
        ensures
            TabState::window_hover_step(*old(self), *final(self), key),
            final(self).wf(),
    {
        if key.is_forward() || key.is_backward() {
            self.hovered_window = match self.hovered_window {
                Some(Window::PageWindow) => Some(Window::SidebarWindow),
                Some(Window::SidebarWindow) => Some(Window::PageWindow),
                None => None,
            };
        } else if key == Key::Enter {
            self.active_window = self.hovered_window;
            if self.active_window == Some(Window::PageWindow) {
                self.page_block.block.hover_first_block();
                proof {
                    crate::block::lemma_hovered_first_keeps(old(self).page_block.block);
                    lemma_hovered_first_chain(old(self).page_block.block);
                }
            }
        }
    }

    pub fn handle_sidebar_input(&mut self, key: Key)
        requires
            old(self).wf(),
        ensures
            TabState::sidebar_step(*old(self), *final(self), key),
            final(self).wf(),
    {
        proof {
            lemma_catalogue_index(self.page_block.page);
        }
        if key.is_forward() {
            self.sidebar_hover = cycle_next(self.sidebar_hover, PAGE_COUNT);
        } else if key.is_backward() {
            self.sidebar_hover = cycle_prev(self.sidebar_hover, PAGE_COUNT);
        } else if key == Key::Enter {
            let target = Page::nth(self.sidebar_hover);
            if target != self.page_block.page {
                self.page_block = PageBlock::new(target);
            }
        } else if key == Key::Esc {
            self.active_window = None;
            self.sidebar_hover = self.page_block.page.index();
        }
    }

    pub fn handle_page_input(&mut self, key: Key)
        requires
            old(self).wf(),
        ensures
            TabState::page_step(*old(self), *final(self), key),
            final(self).wf(),
    {
        if key == Key::Esc && !self.page_block.block.has_selected_child() {
            self.page_block.block.deselect();
            self.active_window = None;
            proof {
                lemma_deselection_clears(self.page_block.block, old(self).page_block.block);
            }
        } else {
            self.page_block.block.handle_input(key);
        }
    }

    /// Routes a key to the region that is active; see `input_step`.
    pub fn handle_input(&mut self, key: Key)
        requires
            old(self).wf(),
        ensures
            TabState::input_step(*old(self), *final(self), key),
            final(self).wf(),
    {
        match self.active_window {
            None => self.handle_window_hover(key),
            Some(Window::SidebarWindow) => self.handle_sidebar_input(key),
            Some(Window::PageWindow) => self.handle_page_input(key),
        }
    }
}

/// Hovering the first child keeps a single chain of selections.
pub proof fn lemma_hovered_first_chain(b: Block)
    ensures
        b.single_chain() ==> b.hovered_first().single_chain(),
{
    let h = b.hovered_first();
    crate::block::lemma_hovered_first_keeps(b);
    if b.single_chain() && b.is_container() {
        assert forall|j: int| 0 <= j < h.children().len() implies if h.selected() == Some(j as usize) {
            (#[trigger] h.children()[j]).single_chain()
        } else {
            h.children()[j].unselected()
        } by {
            assert(b.children()[j] == h.children()[j]);
        }
    }
}

impl Default for TabState {
    fn default() -> (r: Self)
        ensures
            r.is_fresh(),
            r.wf(),
    {
        let default_page = Page::Debug;
        let sidebar_hover = default_page.index();
        TabState {
            page_block: PageBlock::new(default_page),
            sidebar_hover,
            active_window: None,
            hovered_window: Some(Window::SidebarWindow),
        }
    }
}

/// Everything the interface shows: the tabs, which one is selected, the
/// session and the notification history with its scroll cursor.
pub struct AppState {
    pub selected_tab: usize,
    pub tabs: Vec<Tab>,
    pub session: Session,
    pub notification_scroll: usize,
    pub notifications: Vec<Notification>,
}

impl AppState {
    /// At least one and at most the maximum number of tabs exist, the
    /// selected one among them, every tab's state is valid, and the history
    /// is within its bound.
    pub open spec fn wf(&self) -> bool {
        &&& 1 <= self.tabs.len() <= MAXIMUM_TABS
        &&& self.selected_tab < self.tabs.len()
        &&& forall|i: int| 0 <= i < self.tabs.len() ==> (#[trigger] self.tabs@[i]).state.wf()
        &&& self.notifications.len() <= NOTIFICATION_HISTORY_LENGTH
    }

    pub fn is_logged_in(&self) -> (r: bool)
        ensures
            r == self.session is LoggedIn,
    {
        match self.session {
            Session::LoggedOut => false,
            Session::LoggedIn { .. } => true,
        }
    }

    /// Pushes a notification, dropping the oldest when the history is full,
    /// and restarts the footer's scrolling.
    pub fn dispatch_notification(&mut self, text: String)
        ensures
            final(self).notifications@.len() > 0,
            final(self).notifications@ == pushed_ring(
                old(self).notifications@,
                final(self).notifications@.last(),
                NOTIFICATION_HISTORY_LENGTH as nat,
            ),
            final(self).notifications@.last().text == text,
            final(self).notification_scroll == 0,
            final(self).selected_tab == old(self).selected_tab,
            final(self).tabs == old(self).tabs,
            final(self).session == old(self).session,
            old(self).wf() ==> final(self).wf(),
    {
        if self.notifications.len() == NOTIFICATION_HISTORY_LENGTH {
            self.notifications.remove(0);
        }
        let ghost kept = self.notifications@;
        self.notifications.push(Notification::new(text));
        self.notification_scroll = 0;
        proof {
            assert(self.notifications@.drop_last() == kept);
            if old(self).notifications@.len() == NOTIFICATION_HISTORY_LENGTH {
                assert(kept =~= old(self).notifications@.drop_first());
            }
            assert(self.notifications@ =~= kept.push(self.notifications@.last()));
        }
    }
}

impl Default for AppState {
    fn default() -> (r: Self)
        ensures
            r.wf(),
            r.selected_tab == 0,
            r.tabs.len() == 1,
            r.tabs@[0].title@ == "New Tab"@,
            r.tabs@[0].state.is_fresh(),
            r.session is LoggedOut,
            r.notification_scroll == 0,
            r.notifications.len() == 0,
    {
        let tab = Tab { title: String::from_str("New Tab"), state: TabState::default() };
        let mut tabs = Vec::new();
        tabs.push(tab);
        AppState {
            selected_tab: 0,
            tabs,
            session: Session::LoggedOut,
            notification_scroll: 0,
            notifications: Vec::new(),
        }
    }
}

} // verus!
