use vstd::prelude::*;

use crate::address::NameAddr;
use crate::date::MailDate;
use crate::detail::DetailViewport;
use crate::keys::{detail_command, detail_command_for, list_command, list_command_for, Command, KeyInput};
use crate::viewport::{ListViewport, Motion};

verus! {

/// One message of the list; `body` is fetched the first time the message is
/// opened.
#[derive(Clone, Debug)]
pub struct Email {
    pub _uid: u32,
    pub subject: String,
    pub from: NameAddr,
    pub to: Vec<NameAddr>,
    pub cc: Vec<NameAddr>,
    pub bcc: Vec<NameAddr>,
    pub date: MailDate,
    pub is_read: bool,
    pub body: Option<String>,
}

/// Which view is on screen.
#[derive(Clone, Copy, Debug, PartialEq, Eq, Structural)]
pub enum ViewMode {
    List,
    Detail(usize),
}

/// `e` after a fetch that returned `fetched`: a body is stored only where
/// there was none.
pub open spec fn with_fetched_body(e: Email, fetched: Option<String>) -> Email {
    if e.body is None && fetched is Some {
        Email { body: fetched, ..e }
    } else {
        e
    }
}

/// The state of a session: the messages, the list viewport over them, the
/// view mode and the scroll position of the detail view.
pub struct App {
    pub emails: Vec<Email>,
    pub list: ListViewport,
    pub mode: ViewMode,
    pub detail: DetailViewport,
}

/// The command that `input` is bound to in `mode`; keys that mean nothing in
/// the mode are bound to none.
pub open spec fn command_in(mode: ViewMode, input: KeyInput) -> Option<Command> {
    match mode {
        ViewMode::List => list_command(input),
        ViewMode::Detail(_) => detail_command(input),
    }
}

impl App {
    /// The viewport counts the messages, every motion can run, and the detail
    /// view shows a message that exists.
    pub open spec fn consistent(self) -> bool {
        &&& self.list.total == self.emails@.len()
        &&& self.list.in_bounds()
        &&& match self.mode {
            ViewMode::Detail(i) => i < self.emails@.len(),
            ViewMode::List => true,
        }
    }

    pub open spec fn unchanged(self, next: App) -> bool {
        &&& next.emails@ == self.emails@
        &&& next.list == self.list
        &&& next.mode == self.mode
        &&& next.detail == self.detail
    }

    /// The message that entering the detail view would show: the selected
    /// one, in list mode.
    pub open spec fn detail_target(self) -> Option<usize> {
        match (self.mode, self.list.selected) {
            (ViewMode::List, Some(i)) => if i < self.emails@.len() {
                Some(i)
            } else {
                None
            },
            _ => None,
        }
    }

    /// The message whose body must be fetched before entering the detail
    /// view, by its identifier.
    pub open spec fn fetch_needed(self) -> Option<u32> {
        match self.detail_target() {
            Some(i) => if self.emails@[i as int].body is None {
                Some(self.emails@[i as int]._uid)
            } else {
                None
            },
            None => None,
        }
    }

    /// Entering the detail view with the result of the fetch, if any.
    pub open spec fn view_effect(self, next: App, fetched: Option<String>) -> bool {
        match self.detail_target() {
            Some(i) => {
                &&& next.emails@ == self.emails@.update(
                    i as int,
                    with_fetched_body(self.emails@[i as int], fetched),
                )
                &&& next.list == self.list
                &&& next.mode == ViewMode::Detail(i)
                &&& next.detail.offset == 0
            },
            None => self.unchanged(next),
        }
    }

    /// Leaving the detail view.
    pub open spec fn back_effect(self, next: App) -> bool {
        match self.mode {
            ViewMode::Detail(_) => {
                &&& next.emails@ == self.emails@
                &&& next.list == self.list
                &&& next.mode == ViewMode::List
                &&& next.detail.offset == 0
            },
            ViewMode::List => self.unchanged(next),
        }
    }

    /// A change of the detail scroll position alone.
    pub open spec fn detail_effect(self, next: App, offset: int) -> bool {
        &&& next.emails@ == self.emails@
        &&& next.list == self.list
        &&& next.mode == self.mode
        &&& next.detail.offset == offset
    }

    /// What carrying out `cmd` does, `fetched` being the result of the
    /// fetch that came before it.
    pub open spec fn command_effect(self, next: App, cmd: Command, fetched: Option<String>) -> bool {
        match cmd {
            Command::Move(m) => {
                &&& next.emails@ == self.emails@
                &&& next.list == self.list.after(m)
                &&& next.mode == self.mode
                &&& next.detail == self.detail
            },
            Command::ViewEmail => self.view_effect(next, fetched),
            Command::BackToList => self.back_effect(next),
            Command::DetailDown => self.detail_effect(
                next,
                if self.detail.offset < u16::MAX {
                    self.detail.offset + 1
                } else {
                    u16::MAX as int
                },
            ),
            Command::DetailUp => self.detail_effect(
                next,
                if self.detail.offset > 0 {
                    self.detail.offset - 1
                } else {
                    0
                },
            ),
            Command::Quit => self.unchanged(next),
        }
    }

    /// A session over `emails` in list mode, with the cursor on the first
    /// message.
    pub fn new(emails: Vec<Email>) -> (r: App)
        ensures
            r.emails@ == emails@,
            r.list == ListViewport::initial(emails@.len() as usize),
            r.list.well_formed(),
            r.mode == ViewMode::List,
            r.detail.offset == 0,
            r.consistent(),
    {
        let total = emails.len();
        App {
            emails,
            list: ListViewport::new(total),
            mode: ViewMode::List,
            detail: DetailViewport::new(),
        }
    }

    /// Carries out a motion of the list viewport.
    pub fn apply_motion(&mut self, m: Motion)
        requires
            old(self).consistent(),
        ensures
            final(self).consistent(),
            old(self).command_effect(*final(self), Command::Move(m), None),
    {
        self.list.apply(m);
    }

    /// Records the height of the window, as reported by the terminal.
    pub fn set_visible_items(&mut self, height: usize)
        requires
            old(self).consistent(),
        ensures
            final(self).consistent(),
            final(self).list.well_formed(),
            old(self).command_effect(*final(self), Command::Move(Motion::Resize(height)), None),
    {
        self.list.resize(height);
    }

    /// Moves the cursor to the next message.
    pub fn next(&mut self)
        requires
            old(self).consistent(),
        ensures
            final(self).consistent(),
            old(self).command_effect(*final(self), Command::Move(Motion::Next), None),
    {
        self.list.next();
    }

    /// Moves the cursor to the previous message.
    pub fn previous(&mut self)
        requires
            old(self).consistent(),
        ensures
            final(self).consistent(),
            old(self).command_effect(*final(self), Command::Move(Motion::Previous), None),
    {
        self.list.previous();
    }

    /// Moves the cursor to the top of the window.
    pub fn goto_page_top(&mut self)
        requires
            old(self).consistent(),
        ensures
            final(self).consistent(),
            old(self).command_effect(*final(self), Command::Move(Motion::PageTop), None),
    {
        self.list.goto_page_top();
    }

    /// Moves the cursor to the middle of the window.
    pub fn goto_page_middle(&mut self)
        requires
            old(self).consistent(),
        ensures
            final(self).consistent(),
            old(self).command_effect(*final(self), Command::Move(Motion::PageMiddle), None),
    {
        self.list.goto_page_middle();
    }

    /// Moves the cursor to the bottom of the window.
    pub fn goto_page_bottom(&mut self)
        requires
            old(self).consistent(),
        ensures
            final(self).consistent(),
            old(self).command_effect(*final(self), Command::Move(Motion::PageBottom), None),
    {
        self.list.goto_page_bottom();
    }

    /// Scrolls forward one page.
    pub fn page_forward(&mut self)
        requires
            old(self).consistent(),
        ensures
            final(self).consistent(),
            old(self).command_effect(*final(self), Command::Move(Motion::PageForward), None),
    {
        self.list.page_forward();
    }

    /// Scrolls back one page.
    pub fn page_backward(&mut self)
        requires
            old(self).consistent(),
        ensures
            final(self).consistent(),
            old(self).command_effect(*final(self), Command::Move(Motion::PageBackward), None),
    {
        self.list.page_backward();
    }

    /// Scrolls forward half a page.
    pub fn half_page_forward(&mut self)
        requires
            old(self).consistent(),
        ensures
            final(self).consistent(),
            old(self).command_effect(*final(self), Command::Move(Motion::HalfPageForward), None),
    {
        self.list.half_page_forward();
    }

    /// Scrolls back half a page.
    pub fn half_page_backward(&mut self)
        requires
            old(self).consistent(),
        ensures
            final(self).consistent(),
            old(self).command_effect(*final(self), Command::Move(Motion::HalfPageBackward), None),
    {
        self.list.half_page_backward();
    }

    /// Scrolls forward one line.
    pub fn line_forward(&mut self)
        requires
            old(self).consistent(),
        ensures
            final(self).consistent(),
            old(self).command_effect(*final(self), Command::Move(Motion::LineForward), None),
    {
        self.list.line_forward();
    }

    /// Scrolls back one line.
    pub fn line_backward(&mut self)
        requires
            old(self).consistent(),
        ensures
            final(self).consistent(),
            old(self).command_effect(*final(self), Command::Move(Motion::LineBackward), None),
    {
        self.list.line_backward();
    }

    /// Scrolls the detail view down one line.
    pub fn detail_scroll_down(&mut self)
        requires
            old(self).consistent(),
        ensures
            final(self).consistent(),
            old(self).command_effect(*final(self), Command::DetailDown, None),
    {
        self.detail.scroll_down();
    }

    /// Scrolls the detail view up one line.
    pub fn detail_scroll_up(&mut self)
        requires
            old(self).consistent(),
        ensures
            final(self).consistent(),
            old(self).command_effect(*final(self), Command::DetailUp, None),
    {
        self.detail.scroll_up();
    }

    /// Scrolls the detail view down one line (the Control binding).
    pub fn detail_line_forward(&mut self)
        requires
            old(self).consistent(),
        ensures
            final(self).consistent(),
            old(self).command_effect(*final(self), Command::DetailDown, None),
    {
        self.detail.scroll_down();
    }

    /// Scrolls the detail view up one line (the Control binding).
    pub fn detail_line_backward(&mut self)
        requires
            old(self).consistent(),
        ensures
            final(self).consistent(),
            old(self).command_effect(*final(self), Command::DetailUp, None),
    {
        self.detail.scroll_up();
    }

    /// The identifier of the message whose body must be fetched before the
    /// detail view can show it, if any.
    pub fn pending_fetch(&self) -> (r: Option<u32>)
        requires
            self.consistent(),
        ensures
            r == self.fetch_needed(),
    {
        if let ViewMode::List = self.mode {
            if let Some(i) = self.list.selected {
                if self.emails[i].body.is_none() {
                    return Some(self.emails[i]._uid);
                }
            }
        }
        None
    }

    /// Opens the selected message in the detail view, storing `fetched` as
    /// its body where it had none; does nothing outside list mode.
    pub fn view_email(&mut self, fetched: Option<String>)
        requires
            old(self).consistent(),
        ensures
            final(self).consistent(),
            old(self).command_effect(*final(self), Command::ViewEmail, fetched),
    {
        if let ViewMode::List = self.mode {
            if let Some(i) = self.list.selected {
                if self.emails[i].body.is_none() {
                    if let Some(body) = fetched {
                        let mut e = self.emails.remove(i);
                        e.body = Some(body);
                        self.emails.insert(i, e);
                    }
                }
                proof {
                    assert(self.emails@ =~= old(self).emails@.update(
                        i as int,
                        with_fetched_body(old(self).emails@[i as int], fetched),
                    ));
                }
                self.mode = ViewMode::Detail(i);
                self.detail.reset();
            }
        }
    }

    /// Returns from the detail view to the list and forgets the detail
    /// scroll position; does nothing in list mode.
    pub fn back_to_list(&mut self)
        requires
            old(self).consistent(),
        ensures
            final(self).consistent(),
            old(self).command_effect(*final(self), Command::BackToList, None),
    {
        if let ViewMode::Detail(_) = self.mode {
            self.mode = ViewMode::List;
            self.detail.reset();
        }
    }

    /// The identifier of the message to fetch before `input` is handled:
    /// set only where the key opens a message that has no body yet.
    pub fn key_fetch(&self, input: KeyInput) -> (r: Option<u32>)
        requires
            self.consistent(),
        ensures
            r == if command_in(self.mode, input) == Some(Command::ViewEmail) {
                self.fetch_needed()
            } else {
                None
            },
    {
        let cmd = match self.mode {
            ViewMode::List => list_command_for(input),
            ViewMode::Detail(_) => detail_command_for(input),
        };
        match cmd {
            Some(Command::ViewEmail) => self.pending_fetch(),
            _ => None,
        }
    }

    /// Handles one key press; `fetched` is the body fetched for the message
    /// that `key_fetch` named, if any. Returns whether the session ends.
    pub fn handle_key(&mut self, input: KeyInput, fetched: Option<String>) -> (quit: bool)
        requires
            old(self).consistent(),
        ensures
            final(self).consistent(),
            quit == (command_in(old(self).mode, input) == Some(Command::Quit)),
            match command_in(old(self).mode, input) {
                Some(cmd) => old(self).command_effect(*final(self), cmd, fetched),
                None => old(self).unchanged(*final(self)),
            },
    {
        let cmd = match self.mode {
            ViewMode::List => list_command_for(input),
            ViewMode::Detail(_) => detail_command_for(input),
        };
        match cmd {
            None => false,
            Some(Command::Quit) => true,
            Some(Command::Move(m)) => {
                self.apply_motion(m);
                false
            },
            Some(Command::ViewEmail) => {
                self.view_email(fetched);
                false
            },
            Some(Command::BackToList) => {
                self.back_to_list();
                false
            },
            Some(Command::DetailDown) => {
                self.detail.scroll_down();
                false
            },
            Some(Command::DetailUp) => {
                self.detail.scroll_up();
                false
            },
        }
    }
}

} // verus!
