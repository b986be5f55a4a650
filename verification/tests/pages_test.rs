use energy_monitor::display::pages::LandingPage;
use energy_monitor::display::pages::LinkyPage;
use energy_monitor::driver::linky::TariffPeriod;

#[test]
fn test_landingpage_new() {
    // When
    let actual = LandingPage::new("0.0.0");
    // Then
    assert!(matches!(actual, LandingPage { is_rpict_on: false, is_linky_on: false, is_wifi_on: false, version }
        if version == "0.0.0"));
}

#[test]
fn test_landingpage_update() {
    // Given
    let mut actual = LandingPage::new("0.0.0");
    // When
    actual.rpict_status(true);
    actual.linky_status(true);
    actual.wifi_status(true);
    // Then
    assert!(matches!(actual, LandingPage { is_rpict_on: true, is_linky_on: true, is_wifi_on: true, .. }));
}

#[test]
fn test_landingpage_each_status_alone() {
    let mut page = LandingPage::new("1.2.3");
    page.linky_status(true);
    assert_eq!((page.is_rpict_on, page.is_linky_on, page.is_wifi_on), (false, true, false));
    page.wifi_status(true);
    page.linky_status(false);
    assert_eq!((page.is_rpict_on, page.is_linky_on, page.is_wifi_on), (false, false, true));
    page.rpict_status(true);
    page.wifi_status(false);
    assert_eq!((page.is_rpict_on, page.is_linky_on, page.is_wifi_on), (true, false, false));
    assert_eq!(page.version, "1.2.3");
    assert_eq!(page.copy(), page);
}

#[test]
fn test_linkypage_new() {
    // When
    let actual = LinkyPage::new();
    // Then
    assert!(matches!(actual, LinkyPage { adco, hchp: None, hchc: None, ptec: TariffPeriod::Unknown }
        if adco == "?"));
}

#[test]
fn test_linkypage_update() {
    // Given
    let mut actual = LinkyPage::new();
    // When
    actual.update("1234".into(), 11, 22, TariffPeriod::HC);
    // Then
    assert!(matches!(actual, LinkyPage { adco, hchp: Some(11), hchc: Some(22), ptec: TariffPeriod::HC }
        if adco == "1234"));
}

#[test]
fn test_linkypage_marks() {
    let mut page = LinkyPage::new();
    assert_eq!((page.hchp_mark(), page.hchc_mark()), (' ', ' '));
    page.update("1".into(), 1, 2, TariffPeriod::HP);
    assert_eq!((page.hchp_mark(), page.hchc_mark()), ('>', ' '));
    page.update("1".into(), 1, 2, TariffPeriod::HC);
    assert_eq!((page.hchp_mark(), page.hchc_mark()), (' ', '>'));
    assert_eq!(page.copy(), page);
}
