//! The coordinator: the actor between the sources, the button and the
//! display.
//!
//! It keeps the landing page and the page of the meter up to date, whatever
//! is shown, so that a page shows the latest values when its turn comes. It
//! knows whether the display is awake, and which page the button has turned
//! to. Every event makes it send one message to the display.
use vstd::prelude::*;

use crate::actor::button::ButtonMessage;
use crate::actor::datalogger::DataLoggerMessage;
use crate::actor::display::DisplayMessage;
use crate::actor::display::DisplayMessageView;
use crate::actor::linky::LinkyMessage;
use crate::actor::linky::LinkyMessageView;
use crate::actor::rpict::RpictMessage;
use crate::actor::rpict::RpictMessageView;
use crate::display::pages::LandingPage;
use crate::display::pages::LandingPageView;
use crate::display::pages::LinkyPage;
use crate::display::pages::LinkyPageView;
use crate::display::pages::Page;
use crate::driver::linky::tariff_period;

verus! {

/// How many messages wait for the actor.
pub const MAILBOX_CAPACITY: usize = 1;

/// How many pages the button turns through.
pub const PAGES: usize = 3;

/// The page at the place `position` of the round that the button turns
/// through: the landing page, the page of the power module, the page of the
/// meter.
pub open spec fn page_at(position: int) -> Page {
    if position % 3 == 0 {
        Page::Landing
    } else if position % 3 == 1 {
        Page::Rpict
    } else {
        Page::Linky
    }
}

/// The place of `page` in the round.
pub open spec fn place_of(page: Page) -> int {
    match page {
        Page::Landing => 0,
        Page::Rpict => 1,
        Page::Linky => 2,
    }
}

/// What the actor holds, as mathematical values.
pub struct HmiView {
    pub landing_page: LandingPageView,
    pub linky_page: LinkyPageView,
    /// The place in the round of the page that the button has turned to.
    pub position: int,
    pub is_display_active: bool,
}

/// The message that shows the landing page of `hmi`.
pub open spec fn show_landing(hmi: HmiView, replace: bool) -> DisplayMessageView {
    DisplayMessageView::DisplayLandingPage { page: hmi.landing_page, replace }
}

/// The message that shows the page of the meter of `hmi`.
pub open spec fn show_linky(hmi: HmiView, replace: bool) -> DisplayMessageView {
    DisplayMessageView::DisplayLinkyPage { page: hmi.linky_page, replace }
}

/// The message that shows the page `page` of `hmi`.
pub open spec fn show(hmi: HmiView, page: Page, replace: bool) -> DisplayMessageView {
    match page {
        Page::Landing => show_landing(hmi, replace),
        Page::Rpict => DisplayMessageView::DisplayRpictPage { replace },
        Page::Linky => show_linky(hmi, replace),
    }
}

/// The actor after a message of the power module: its connection is noted
/// on the landing page. Its frames are kept by the keeper of its page.
pub open spec fn after_rpict(hmi: HmiView, message: RpictMessageView) -> HmiView {
    match message {
        RpictMessageView::Connected => HmiView {
            landing_page: LandingPageView { is_rpict_on: true, ..hmi.landing_page },
            ..hmi
        },
        RpictMessageView::Disconnected => HmiView {
            landing_page: LandingPageView { is_rpict_on: false, ..hmi.landing_page },
            ..hmi
        },
        RpictMessageView::NewFrame(_) => hmi,
    }
}

/// The page that a message of the power module concerns.
pub open spec fn page_of_rpict(message: RpictMessageView) -> Page {
    match message {
        RpictMessageView::NewFrame(_) => Page::Rpict,
        _ => Page::Landing,
    }
}

/// The actor after a message of the meter: its connection is noted on the
/// landing page, its frame on its own page.
pub open spec fn after_linky(hmi: HmiView, message: LinkyMessageView) -> HmiView {
    match message {
        LinkyMessageView::Connected => HmiView {
            landing_page: LandingPageView { is_linky_on: true, ..hmi.landing_page },
            ..hmi
        },
        LinkyMessageView::Disconnected => HmiView {
            landing_page: LandingPageView { is_linky_on: false, ..hmi.landing_page },
            ..hmi
        },
        LinkyMessageView::NewFrame(frame) => HmiView {
            linky_page: LinkyPageView {
                adco: frame.adco,
                hchp: Some(frame.hchp),
                hchc: Some(frame.hchc),
                ptec: tariff_period(frame.ptec),
            },
            ..hmi
        },
    }
}

/// The page that a message of the meter concerns.
pub open spec fn page_of_linky(message: LinkyMessageView) -> Page {
    match message {
        LinkyMessageView::NewFrame(_) => Page::Linky,
        _ => Page::Landing,
    }
}

/// The actor after a message of the logger: whether the database is reached
/// is noted on the landing page. What becomes of the broker changes nothing.
pub open spec fn after_datalogger(hmi: HmiView, message: DataLoggerMessage) -> HmiView {
    match message {
        DataLoggerMessage::InfluxDbConnected => HmiView {
            landing_page: LandingPageView { is_wifi_on: true, ..hmi.landing_page },
            ..hmi
        },
        DataLoggerMessage::InfluxDbDisconnected => HmiView {
            landing_page: LandingPageView { is_wifi_on: false, ..hmi.landing_page },
            ..hmi
        },
        _ => hmi,
    }
}

/// The actor after a message of the button. A press turns to the next page
/// if the display is awake, and wakes the display if it is not, without
/// turning. Inactivity puts the display to sleep.
pub open spec fn after_button(hmi: HmiView, message: ButtonMessage) -> HmiView {
    match message {
        ButtonMessage::Press => if hmi.is_display_active {
            HmiView { position: (hmi.position + 1) % 3, ..hmi }
        } else {
            HmiView { is_display_active: true, ..hmi }
        },
        ButtonMessage::Inactivity => HmiView { is_display_active: false, ..hmi },
    }
}

/// What the actor sends to the display at a message of the button.
pub open spec fn sent_at_button(hmi: HmiView, message: ButtonMessage) -> DisplayMessageView {
    match message {
        ButtonMessage::Press => if hmi.is_display_active {
            show(hmi, page_at(hmi.position + 1), true)
        } else {
            DisplayMessageView::SetDisplayOn
        },
        ButtonMessage::Inactivity => DisplayMessageView::SetDisplayOff,
    }
}

/// The round has three pages: three presses, the display being awake, lead
/// back to the page they started from, and the pages come in the order
/// landing page, power module, meter.
pub proof fn lemma_round(hmi: HmiView)
    requires
        hmi.is_display_active,
        0 <= hmi.position < 3,
    ensures
        ({
            let once = after_button(hmi, ButtonMessage::Press);
            let twice = after_button(once, ButtonMessage::Press);
            let thrice = after_button(twice, ButtonMessage::Press);
            &&& thrice == hmi
            &&& page_at(once.position) != page_at(hmi.position)
            &&& page_at(twice.position) != page_at(hmi.position)
            &&& page_at(twice.position) != page_at(once.position)
            &&& page_at(hmi.position) == Page::Landing ==> page_at(once.position) == Page::Rpict
            &&& page_at(hmi.position) == Page::Rpict ==> page_at(once.position) == Page::Linky
            &&& page_at(hmi.position) == Page::Linky ==> page_at(once.position) == Page::Landing
        }),
{
}

/// A press that wakes the display does not turn the page, and inactivity
/// never does.
pub proof fn lemma_waking_does_not_turn(hmi: HmiView)
    requires
        !hmi.is_display_active,
    ensures
        after_button(hmi, ButtonMessage::Press).position == hmi.position,
        after_button(hmi, ButtonMessage::Press).is_display_active,
        sent_at_button(hmi, ButtonMessage::Press) == DisplayMessageView::SetDisplayOn,
        after_button(hmi, ButtonMessage::Inactivity).position == hmi.position,
{
}

/// The actor after the messages of the button of `messages`, in order.
pub open spec fn after_buttons(hmi: HmiView, messages: Seq<ButtonMessage>) -> HmiView
    decreases messages.len(),
{
    if messages.len() == 0 {
        hmi
    } else {
        after_button(after_buttons(hmi, messages.drop_last()), messages.last())
    }
}

/// A reading is kept whatever the display shows, and the button does not
/// touch it: when the page of the meter is turned to, however much later, it
/// shows the latest reading.
pub proof fn lemma_latest_reading_is_kept(
    hmi: HmiView,
    frame: crate::driver::linky::LinkyFrameView,
    messages: Seq<ButtonMessage>,
)
    ensures
        after_buttons(after_linky(hmi, LinkyMessageView::NewFrame(frame)), messages).linky_page
            == (LinkyPageView {
            adco: frame.adco,
            hchp: Some(frame.hchp),
            hchc: Some(frame.hchc),
            ptec: tariff_period(frame.ptec),
        }),
        after_buttons(hmi, messages).landing_page == hmi.landing_page,
    decreases messages.len(),
{
    if messages.len() > 0 {
        lemma_latest_reading_is_kept(hmi, frame, messages.drop_last());
    }
}

/// The coordinator.
pub struct HmiActor {
    landing_page: LandingPage,
    linky_page: LinkyPage,
    carousel: Page,
    is_display_active: bool,
}

impl View for HmiActor {
    type V = HmiView;

    closed spec fn view(&self) -> HmiView {
        HmiView {
            landing_page: self.landing_page@,
            linky_page: self.linky_page@,
            position: place_of(self.carousel),
            is_display_active: self.is_display_active,
        }
    }
}

impl HmiActor {
    /// The coordinator of a monitor of the version `version`: nothing is
    /// connected, nothing has been read, the landing page is the page turned
    /// to, and the display is awake.
    pub fn create(version: &str) -> (actor: HmiActor)
        ensures
            actor@ == (HmiView {
                landing_page: LandingPageView {
                    is_rpict_on: false,
                    is_linky_on: false,
                    is_wifi_on: false,
                    version: version@,
                },
                linky_page: LinkyPageView {
                    adco: "?"@,
                    hchp: None,
                    hchc: None,
                    ptec: crate::driver::linky::TariffPeriod::Unknown,
                },
                position: 0,
                is_display_active: true,
            }),
    {
        HmiActor {
            landing_page: LandingPage::new(version),
            linky_page: LinkyPage::new(),
            carousel: Page::Landing,
            is_display_active: true,
        }
    }

    /// Whether the display is awake.
    pub fn is_display_active(&self) -> (active: bool)
        ensures
            active == self@.is_display_active,
    {
        self.is_display_active
    }

    /// The page that the button has turned to.
    pub fn page(&self) -> (page: Page)
        ensures
            page == page_at(self@.position),
            0 <= self@.position < 3,
    {
        self.carousel
    }

    /// The actor starts. The result is what it sends to the display, in
    /// order: the landing page, to replace whatever is shown, and the word
    /// to switch on.
    pub fn run(&self) -> (messages: Vec<DisplayMessage>)
        ensures
            messages.len() == 2,
            messages[0]@ == show_landing(self@, true),
            messages[1]@ == DisplayMessageView::SetDisplayOn,
    {
        let mut messages: Vec<DisplayMessage> = Vec::new();
        messages.push(
            DisplayMessage::DisplayLandingPage { page: self.landing_page.copy(), replace: true },
        );
        messages.push(DisplayMessage::SetDisplayOn);
        messages
    }

    /// A message of the power module has come. The result is what the actor
    /// sends to the display: the page that the message concerns, not to
    /// replace the page shown.
    pub fn handle_rpict(&mut self, msg: &RpictMessage) -> (sent: DisplayMessage)
        ensures
            final(self)@ == after_rpict(old(self)@, msg@),
            sent@ == show(final(self)@, page_of_rpict(msg@), false),
    {
        match msg {
            RpictMessage::Connected => {
                self.landing_page.rpict_status(true);
                DisplayMessage::DisplayLandingPage {
                    page: self.landing_page.copy(),
                    replace: false,
                }
            },
            RpictMessage::Disconnected => {
                self.landing_page.rpict_status(false);
                DisplayMessage::DisplayLandingPage {
                    page: self.landing_page.copy(),
                    replace: false,
                }
            },
            RpictMessage::NewFrame(_) => DisplayMessage::DisplayRpictPage { replace: false },
        }
    }

    /// A message of the meter has come. The result is what the actor sends
    /// to the display: the page that the message concerns, not to replace
    /// the page shown.
    pub fn handle_linky(&mut self, msg: &LinkyMessage) -> (sent: DisplayMessage)
        ensures
            final(self)@ == after_linky(old(self)@, msg@),
            sent@ == show(final(self)@, page_of_linky(msg@), false),
    {
        match msg {
            LinkyMessage::Connected => {
                self.landing_page.linky_status(true);
                DisplayMessage::DisplayLandingPage {
                    page: self.landing_page.copy(),
                    replace: false,
                }
            },
            LinkyMessage::Disconnected => {
                self.landing_page.linky_status(false);
                DisplayMessage::DisplayLandingPage {
                    page: self.landing_page.copy(),
                    replace: false,
                }
            },
            LinkyMessage::NewFrame(frame) => {
                self.linky_page.update(frame.adco.clone(), frame.hchp, frame.hchc, frame.ptec());
                DisplayMessage::DisplayLinkyPage { page: self.linky_page.copy(), replace: false }
            },
        }
    }

    /// A message of the logger has come. The result is what the actor sends
    /// to the display: the landing page, not to replace the page shown.
    pub fn handle_datalogger(&mut self, msg: DataLoggerMessage) -> (sent: DisplayMessage)
        ensures
            final(self)@ == after_datalogger(old(self)@, msg),
            sent@ == show_landing(final(self)@, false),
    {
        match msg {
            DataLoggerMessage::InfluxDbConnected => {
                self.landing_page.wifi_status(true);
            },
            DataLoggerMessage::InfluxDbDisconnected => {
                self.landing_page.wifi_status(false);
            },
            _ => {},
        }
        DisplayMessage::DisplayLandingPage { page: self.landing_page.copy(), replace: false }
    }

    /// A message of the button has come. The result is what the actor sends
    /// to the display: at a press with the display awake the next page of
    /// the round, to replace the page shown; at a press with the display
    /// asleep the word to switch on; at inactivity the word to switch off.
    pub fn handle_button(&mut self, msg: ButtonMessage) -> (sent: DisplayMessage)
        ensures
            final(self)@ == after_button(old(self)@, msg),
            sent@ == sent_at_button(old(self)@, msg),
    {
        match msg {
            ButtonMessage::Press => {
                if self.is_display_active {
                    match self.carousel {
                        Page::Landing => {
                            self.carousel = Page::Rpict;
                            DisplayMessage::DisplayRpictPage { replace: true }
                        },
                        Page::Rpict => {
                            self.carousel = Page::Linky;
                            DisplayMessage::DisplayLinkyPage {
                                page: self.linky_page.copy(),
                                replace: true,
                            }
                        },
                        Page::Linky => {
                            self.carousel = Page::Landing;
                            DisplayMessage::DisplayLandingPage {
                                page: self.landing_page.copy(),
                                replace: true,
                            }
                        },
                    }
                } else {
                    self.is_display_active = true;
                    DisplayMessage::SetDisplayOn
                }
            },
            ButtonMessage::Inactivity => {
                self.is_display_active = false;
                DisplayMessage::SetDisplayOff
            },
        }
    }

    /// The actor is told to end. The result is what it sends to the display
    /// before it confirms: the word to switch off, clear, and end.
    pub fn shutdown(&self) -> (sent: DisplayMessage)
        ensures
            sent@ == DisplayMessageView::Shutdown,
    {
        DisplayMessage::Shutdown
    }
}

} // verus!
