//! The pages of the display, as far as they are made of plain values: which
//! pages there are, and what the landing page and the page of the meter
//! hold.
use vstd::prelude::*;
use vstd::string::*;

use crate::driver::linky::TariffPeriod;

verus! {

/// The pages that the display can show.
#[derive(Debug, Eq, PartialEq, Copy, Clone)]
pub enum Page {
    Landing,
    Rpict,
    Linky,
}

/// The page that is shown at startup: which parts of the system are up, and
/// the version of the monitor.
#[derive(Clone, Debug, PartialEq)]
pub struct LandingPage {
    pub is_rpict_on: bool,
    pub is_linky_on: bool,
    pub is_wifi_on: bool,
    pub version: String,
}

/// What a [`LandingPage`] holds, as mathematical values.
pub struct LandingPageView {
    pub is_rpict_on: bool,
    pub is_linky_on: bool,
    pub is_wifi_on: bool,
    pub version: Seq<char>,
}

impl View for LandingPage {
    type V = LandingPageView;

    open spec fn view(&self) -> LandingPageView {
        LandingPageView {
            is_rpict_on: self.is_rpict_on,
            is_linky_on: self.is_linky_on,
            is_wifi_on: self.is_wifi_on,
            version: self.version@,
        }
    }
}

impl LandingPage {
    /// The page of the version `version`, with every part down.
    pub fn new(version: &str) -> (page: LandingPage)
        ensures
            page@ == (LandingPageView {
                is_rpict_on: false,
                is_linky_on: false,
                is_wifi_on: false,
                version: version@,
            }),
    {
        LandingPage {
            is_rpict_on: false,
            is_linky_on: false,
            is_wifi_on: false,
            version: String::from_str(version),
        }
    }

    /// Notes whether the power module is up.
    pub fn rpict_status(&mut self, is_running: bool)
        ensures
            final(self)@ == (LandingPageView { is_rpict_on: is_running, ..old(self)@ }),
    {
        self.is_rpict_on = is_running;
    }

    /// Notes whether the meter is up.
    pub fn linky_status(&mut self, is_running: bool)
        ensures
            final(self)@ == (LandingPageView { is_linky_on: is_running, ..old(self)@ }),
    {
        self.is_linky_on = is_running;
    }

    /// Notes whether the network is up.
    pub fn wifi_status(&mut self, is_running: bool)
        ensures
            final(self)@ == (LandingPageView { is_wifi_on: is_running, ..old(self)@ }),
    {
        self.is_wifi_on = is_running;
    }

    /// A copy of the page.
    pub fn copy(&self) -> (page: LandingPage)
        ensures
            page@ == self@,
    {
        LandingPage {
            is_rpict_on: self.is_rpict_on,
            is_linky_on: self.is_linky_on,
            is_wifi_on: self.is_wifi_on,
            version: self.version.clone(),
        }
    }
}

/// The page of the meter: its address, its two indices, and the tariff
/// period it is in.
#[derive(Clone, Debug, PartialEq)]
pub struct LinkyPage {
    pub adco: String,
    pub hchp: Option<u32>,
    pub hchc: Option<u32>,
    pub ptec: TariffPeriod,
}

/// What a [`LinkyPage`] holds, as mathematical values.
pub struct LinkyPageView {
    pub adco: Seq<char>,
    pub hchp: Option<u32>,
    pub hchc: Option<u32>,
    pub ptec: TariffPeriod,
}

impl View for LinkyPage {
    type V = LinkyPageView;

    open spec fn view(&self) -> LinkyPageView {
        LinkyPageView { adco: self.adco@, hchp: self.hchp, hchc: self.hchc, ptec: self.ptec }
    }
}

impl LinkyPage {
    /// The page before the first reading: a question mark for the address,
    /// no index, and no known tariff period.
    pub fn new() -> (page: LinkyPage)
        ensures
            page@ == (LinkyPageView {
                adco: "?"@,
                hchp: None,
                hchc: None,
                ptec: TariffPeriod::Unknown,
            }),
    {
        LinkyPage {
            adco: String::from_str("?"),
            hchp: None,
            hchc: None,
            ptec: TariffPeriod::Unknown,
        }
    }

    /// Takes a reading.
    pub fn update(&mut self, adco: String, hchp: u32, hchc: u32, ptec: TariffPeriod)
        ensures
            final(self)@ == (LinkyPageView {
                adco: adco@,
                hchp: Some(hchp),
                hchc: Some(hchc),
                ptec,
            }),
    {
        self.adco = adco;
        self.hchp = Some(hchp);
        self.hchc = Some(hchc);
        self.ptec = ptec;
    }

    /// A copy of the page.
    pub fn copy(&self) -> (page: LinkyPage)
        ensures
            page@ == self@,
    {
        LinkyPage { adco: self.adco.clone(), hchp: self.hchp, hchc: self.hchc, ptec: self.ptec }
    }

    /// The mark before the peak index: `>` during peak hours, a space
    /// otherwise.
    pub fn hchp_mark(&self) -> (mark: char)
        ensures
            mark == if self.ptec == TariffPeriod::HP {
                '>'
            } else {
                ' '
            },
    {
        match self.ptec {
            TariffPeriod::HP => '>',
            _ => ' ',
        }
    }

    /// The mark before the off-peak index: `>` during off-peak hours, a
    /// space otherwise.
    pub fn hchc_mark(&self) -> (mark: char)
        ensures
            mark == if self.ptec == TariffPeriod::HC {
                '>'
            } else {
                ' '
            },
    {
        match self.ptec {
            TariffPeriod::HC => '>',
            _ => ' ',
        }
    }
}

} // verus!
