use oauth_pkce::handoff::{callback_page_html, CallbackPage, Handoff};

#[test]
fn matching_callback_delivers_exactly_once() {
    let mut h = Handoff::new();
    let page = h.deliver("S1", "CODE1", "S1");
    assert!(matches!(page, CallbackPage::Success));
    // A second callback, matching or not, must not alter the result.
    let again = h.deliver("S1", "CODE2", "S1");
    assert!(matches!(again, CallbackPage::Success));
    let other = h.deliver("S1", "CODE3", "WRONG");
    assert!(matches!(other, CallbackPage::InvalidState));
    let got = h.take().expect("one result must have been delivered");
    assert_eq!(got.code, "CODE1");
    assert_eq!(got.state, "S1");
}

#[test]
fn second_callback_after_take_delivers_nothing() {
    let mut h = Handoff::new();
    h.deliver("S1", "CODE1", "S1");
    let first = h.take();
    assert!(first.is_some());
    // The handoff stays closed: a later callback cannot refill it.
    let page = h.deliver("S1", "CODE2", "S1");
    assert!(matches!(page, CallbackPage::Success));
    assert!(h.take().is_none());
}

#[test]
fn mismatched_state_never_closes_the_handoff() {
    let mut h = Handoff::new();
    let page = h.deliver("S1", "CODE1", "WRONG");
    assert!(matches!(page, CallbackPage::InvalidState));
    assert!(h.take().is_none());
    // The handoff stays open for a legitimate later callback.
    let page = h.deliver("S1", "CODE2", "S1");
    assert!(matches!(page, CallbackPage::Success));
    let got = h.take().unwrap();
    assert_eq!(got.code, "CODE2");
    assert_eq!(got.state, "S1");
}

#[test]
fn empty_handoff_yields_nothing() {
    let mut h = Handoff::new();
    assert!(h.take().is_none());
}

#[test]
fn pages_carry_the_expected_bodies() {
    assert_eq!(
        callback_page_html(&CallbackPage::Success),
        "<html><body><h3>Authentication succeeded. You can close this window.</h3></body></html>"
    );
    assert_eq!(
        callback_page_html(&CallbackPage::InvalidState),
        "<html><body><h3>Invalid state parameter.</h3></body></html>"
    );
}
