//! The actor of the display.
//!
//! It knows which page is shown. A page that is sent to it is drawn if it is
//! the page shown, or if it comes to replace the page shown; otherwise it is
//! left undrawn, the display showing another page.
use vstd::prelude::*;

use crate::display::pages::LandingPage;
use crate::display::pages::LandingPageView;
use crate::display::pages::LinkyPage;
use crate::display::pages::LinkyPageView;
use crate::display::pages::Page;

verus! {

/// How many messages wait for the actor.
pub const MAILBOX_CAPACITY: usize = 1;

/// What the actor is told.
#[derive(Debug)]
#[allow(inconsistent_fields)]
pub enum DisplayMessage {
    SetDisplayOn,
    SetDisplayOff,
    /// Show the landing page. With `replace` it becomes the page shown.
    DisplayLandingPage { page: LandingPage, replace: bool },
    /// Show the page of the power module, as its keeper has it.
    DisplayRpictPage { replace: bool },
    /// Show the page of the meter.
    DisplayLinkyPage { page: LinkyPage, replace: bool },
    /// Switch off, clear, and end.
    Shutdown,
}

/// What a [`DisplayMessage`] holds, as mathematical values.
#[allow(inconsistent_fields)]
pub enum DisplayMessageView {
    SetDisplayOn,
    SetDisplayOff,
    DisplayLandingPage { page: LandingPageView, replace: bool },
    DisplayRpictPage { replace: bool },
    DisplayLinkyPage { page: LinkyPageView, replace: bool },
    Shutdown,
}

impl View for DisplayMessage {
    type V = DisplayMessageView;

    open spec fn view(&self) -> DisplayMessageView {
        match self {
            DisplayMessage::SetDisplayOn => DisplayMessageView::SetDisplayOn,
            DisplayMessage::SetDisplayOff => DisplayMessageView::SetDisplayOff,
            DisplayMessage::DisplayLandingPage { page, replace } => {
                DisplayMessageView::DisplayLandingPage { page: page@, replace: *replace }
            },
            DisplayMessage::DisplayRpictPage { replace } => {
                DisplayMessageView::DisplayRpictPage { replace: *replace }
            },
            DisplayMessage::DisplayLinkyPage { page, replace } => {
                DisplayMessageView::DisplayLinkyPage { page: page@, replace: *replace }
            },
            DisplayMessage::Shutdown => DisplayMessageView::Shutdown,
        }
    }
}

/// What the actor does to the display.
#[derive(Clone, Copy, Debug, PartialEq, Eq)]
pub enum DisplayAction {
    /// Nothing.
    Skip,
    /// Switch the display on.
    On,
    /// Switch the display off.
    Off,
    /// Draw the page of the message and send it to the display.
    Draw(Page),
    /// Switch the display off, clear it, confirm, and end.
    Stop,
}

/// The page that a message brings, if it brings one, and whether it comes to
/// replace the page shown.
pub open spec fn page_of(message: DisplayMessageView) -> Option<(Page, bool)> {
    match message {
        DisplayMessageView::DisplayLandingPage { page, replace } => Some((Page::Landing, replace)),
        DisplayMessageView::DisplayRpictPage { replace } => Some((Page::Rpict, replace)),
        DisplayMessageView::DisplayLinkyPage { page, replace } => Some((Page::Linky, replace)),
        _ => None,
    }
}

/// The page shown after `page` was sent.
pub open spec fn shown_after(current: Page, page: Page, replace: bool) -> Page {
    if replace {
        page
    } else {
        current
    }
}

/// Whether `page` is drawn when it is sent: it is if it replaces the page
/// shown, or is the page shown.
pub open spec fn is_drawn(current: Page, page: Page, replace: bool) -> bool {
    replace || current == page
}

/// The page shown after `message`.
pub open spec fn next_page(current: Page, message: DisplayMessageView) -> Page {
    match page_of(message) {
        Some((page, replace)) => shown_after(current, page, replace),
        None => current,
    }
}

/// What the actor does at `message`.
pub open spec fn action_at(current: Page, message: DisplayMessageView) -> DisplayAction {
    match message {
        DisplayMessageView::SetDisplayOn => DisplayAction::On,
        DisplayMessageView::SetDisplayOff => DisplayAction::Off,
        DisplayMessageView::Shutdown => DisplayAction::Stop,
        _ => {
            let (page, replace) = page_of(message)->0;
            if is_drawn(current, page, replace) {
                DisplayAction::Draw(page)
            } else {
                DisplayAction::Skip
            }
        },
    }
}

/// A page that is drawn is the page shown afterwards, and a page that does
/// not come to replace is drawn only if it was shown already.
pub proof fn lemma_drawn_is_shown(current: Page, page: Page, replace: bool)
    ensures
        is_drawn(current, page, replace) <==> shown_after(current, page, replace) == page,
        !replace ==> shown_after(current, page, replace) == current,
        !replace ==> (is_drawn(current, page, replace) <==> current == page),
{
}

/// The actor of the display.
pub struct DisplayActor {
    current_page: Page,
}

impl View for DisplayActor {
    type V = Page;

    /// The page shown.
    closed spec fn view(&self) -> Page {
        self.current_page
    }
}

impl DisplayActor {
    /// The actor at startup: the landing page is the page shown.
    pub fn new() -> (actor: DisplayActor)
        ensures
            actor@ == Page::Landing,
    {
        DisplayActor { current_page: Page::Landing }
    }

    /// The page shown.
    pub fn current_page(&self) -> (page: Page)
        ensures
            page == self@,
    {
        self.current_page
    }

    /// The page `page` was sent. With `replace` it becomes the page shown.
    /// The result tells whether it is to be drawn.
    pub fn update_display(&mut self, page: Page, replace: bool) -> (draw: bool)
        ensures
            final(self)@ == shown_after(old(self)@, page, replace),
            draw == is_drawn(old(self)@, page, replace),
    {
        if replace {
            self.current_page = page;
        }
        match (self.current_page, page) {
            (Page::Landing, Page::Landing) => true,
            (Page::Rpict, Page::Rpict) => true,
            (Page::Linky, Page::Linky) => true,
            _ => false,
        }
    }

    /// A message has come. The result is what to do to the display.
    pub fn run(&mut self, message: &DisplayMessage) -> (action: DisplayAction)
        ensures
            final(self)@ == next_page(old(self)@, message@),
            action == action_at(old(self)@, message@),
    {
        match message {
            DisplayMessage::SetDisplayOn => DisplayAction::On,
            DisplayMessage::SetDisplayOff => DisplayAction::Off,
            DisplayMessage::DisplayLandingPage { page, replace } => {
                if self.update_display(Page::Landing, *replace) {
                    DisplayAction::Draw(Page::Landing)
                } else {
                    DisplayAction::Skip
                }
            },
            DisplayMessage::DisplayRpictPage { replace } => {
                if self.update_display(Page::Rpict, *replace) {
                    DisplayAction::Draw(Page::Rpict)
                } else {
                    DisplayAction::Skip
                }
            },
            DisplayMessage::DisplayLinkyPage { page, replace } => {
                if self.update_display(Page::Linky, *replace) {
                    DisplayAction::Draw(Page::Linky)
                } else {
                    DisplayAction::Skip
                }
            },
            DisplayMessage::Shutdown => DisplayAction::Stop,
        }
    }
}

} // verus!
