use vstd::prelude::*;

use crate::query::str_eq;

verus! {

/// The code and state returned by the provider's redirect, whichever path
/// captured it.
pub struct CallbackResult {
    pub code: String,
    pub state: String,
}

/// The page the callback endpoint answers with.
pub enum CallbackPage {
    Success,
    InvalidState,
}

/// What one callback does to the single-use handoff, over its model
/// `(closed, pending)`: only the first callback whose state equals the
/// expected state delivers — it closes the handoff and sets the pending
/// result; every later or mismatched callback leaves both exactly as they
/// stand.
pub open spec fn deliver_step(
    closed: bool,
    pending: Option<(Seq<char>, Seq<char>)>,
    expected: Seq<char>,
    code: Seq<char>,
    state: Seq<char>,
) -> (bool, Option<(Seq<char>, Seq<char>)>) {
    if state == expected && !closed {
        (true, Some((code, state)))
    } else {
        (closed, pending)
    }
}

/// A single-use handoff: at most one callback result is ever delivered
/// through it, and delivery is decided by the anti-CSRF state check.
/// Once a delivery has happened the handoff is closed for good, whether or
/// not the consumer has already taken the result.
pub struct Handoff {
    closed: bool,
    slot: Option<CallbackResult>,
}

impl Handoff {
    /// Whether a delivery has already happened.
    pub closed spec fn is_closed(self) -> bool {
        self.closed
    }

    /// The delivered result the consumer has not taken yet.
    pub closed spec fn pending(self) -> Option<(Seq<char>, Seq<char>)> {
        match self.slot {
            Some(r) => Some((r.code@, r.state@)),
            None => None,
        }
    }

    /// An open handoff with nothing delivered.
    pub fn new() -> (h: Handoff)
        ensures
            !h.is_closed(),
            h.pending() is None,
    {
        Handoff { closed: false, slot: None }
    }

    /// Handles one callback: delivers `(code, state)` exactly when the
    /// state equals the expected state and the handoff is still open, and
    /// answers the success page whenever the state matches and the
    /// invalid-state page whenever it does not.
    pub fn deliver(&mut self, expected_state: &str, code: &str, state: &str) -> (page:
        CallbackPage)
        ensures
            (final(self).is_closed(), final(self).pending()) == deliver_step(
                old(self).is_closed(),
                old(self).pending(),
                expected_state@,
                code@,
                state@,
            ),
            page is Success <==> state@ == expected_state@,
    {
        if str_eq(state, expected_state) {
            if !self.closed {
                self.closed = true;
                self.slot = Some(
                    CallbackResult { code: code.to_owned(), state: state.to_owned() },
                );
            }
            CallbackPage::Success
        } else {
            CallbackPage::InvalidState
        }
    }

    /// Drains the handoff: the consumer takes ownership of whatever was
    /// delivered, exactly once; the handoff stays closed.
    pub fn take(&mut self) -> (r: Option<CallbackResult>)
        ensures
            final(self).pending() is None,
            final(self).is_closed() == old(self).is_closed(),
            r matches Some(cr) ==> old(self).pending() == Some((cr.code@, cr.state@)),
            r is None ==> old(self).pending() is None,
    {
        self.slot.take()
    }
}

/// The HTML body the callback endpoint answers with.
pub fn callback_page_html(page: &CallbackPage) -> (r: String)
    ensures
        page is Success ==> r@
            == "<html><body><h3>Authentication succeeded. You can close this window.</h3></body></html>"@,
        page is InvalidState ==> r@ == "<html><body><h3>Invalid state parameter.</h3></body></html>"@,
{
    match page {
        CallbackPage::Success => {
            "<html><body><h3>Authentication succeeded. You can close this window.</h3></body></html>".to_owned()
        },
        CallbackPage::InvalidState => {
            "<html><body><h3>Invalid state parameter.</h3></body></html>".to_owned()
        },
    }
}

/// Law: a matching callback on an open handoff delivers exactly one
/// result, and a later callback — matching or not — leaves the delivered
/// result exactly as it was.
pub proof fn lemma_handoff_single_use(
    expected: Seq<char>,
    code1: Seq<char>,
    state1: Seq<char>,
    code2: Seq<char>,
    state2: Seq<char>,
)
    requires
        state1 == expected,
    ensures
        ({
            let (c1, p1) = deliver_step(false, None, expected, code1, state1);
            &&& p1 == Some((code1, state1))
            &&& c1
            &&& deliver_step(c1, p1, expected, code2, state2) == (c1, p1)
        }),
{
}

/// Law: once the handoff is closed, no callback changes it — even after
/// the consumer has taken the result.
pub proof fn lemma_closed_stays_closed(
    pending: Option<(Seq<char>, Seq<char>)>,
    expected: Seq<char>,
    code: Seq<char>,
    state: Seq<char>,
)
    ensures
        deliver_step(true, pending, expected, code, state) == (true, pending),
{
}

/// Law: a callback whose state does not equal the expected state never
/// delivers and never closes the handoff, whatever it holds.
pub proof fn lemma_mismatch_never_delivers(
    closed: bool,
    pending: Option<(Seq<char>, Seq<char>)>,
    expected: Seq<char>,
    code: Seq<char>,
    state: Seq<char>,
)
    requires
        state != expected,
    ensures
        deliver_step(closed, pending, expected, code, state) == (closed, pending),
{
}

} // verus!
