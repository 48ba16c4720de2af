//! The decisions of the redirect listener: which callback request delivers
//! the authorization code, and whether binding left anything to listen on.

use crate::auth::AuthError;
use crate::oauth1::decimal_string;
use vstd::prelude::*;

verus! {

/// What one callback request does to the slot: the first request that
/// carries a code delivers it; every other request delivers nothing. The
/// first component tells whether a code has been delivered since.
pub open spec fn offer_step(delivered: bool, code: Option<Seq<char>>) -> (bool, Option<Seq<char>>) {
    if !delivered && code is Some {
        (true, code)
    } else {
        (delivered, None)
    }
}

/// The view of an optional text.
pub open spec fn opt_text(s: Option<String>) -> Option<Seq<char>> {
    match s {
        Some(s) => Some(s@),
        None => None,
    }
}

/// A single-use hand-over of the authorization code from the callback
/// requests to the waiting flow.
pub struct CodeSlot {
    delivered: bool,
}

impl View for CodeSlot {
    type V = bool;

    /// Whether a code has been delivered.
    closed spec fn view(&self) -> bool {
        self.delivered
    }
}

impl CodeSlot {
    /// A slot that has delivered nothing yet.
    pub fn new() -> (r: CodeSlot)
        ensures
            !r@,
    {
        CodeSlot { delivered: false }
    }

    /// Handles one callback request whose `code` query parameter is `code`;
    /// returns the code to hand to the flow, if this request delivers one.
    pub fn offer(&mut self, code: Option<String>) -> (r: Option<String>)
        ensures
            (final(self)@, opt_text(r)) == offer_step(old(self)@, opt_text(code)),
    {
        if !self.delivered && code.is_some() {
            self.delivered = true;
            code
        } else {
            None
        }
    }

    /// Whether a code has been delivered.
    pub fn is_delivered(&self) -> (r: bool)
        ensures
            r == self@,
    {
        self.delivered
    }
}

/// A callback that carries a code delivers exactly that code to a fresh
/// slot, and any request after it delivers nothing.
pub proof fn law_code_delivered_once(first: Seq<char>, later: Option<Seq<char>>)
    ensures
        offer_step(false, Some(first)) == (true, Some(first)),
        offer_step(offer_step(false, Some(first)).0, later).1 is None,
{
}

/// The text shown in the browser after the redirect.
pub fn confirmation_body() -> (r: String)
    ensures
        r@ == "Authorization successful! You can close this window."@,
{
    String::from_str("Authorization successful! You can close this window.")
}

/// The listener goes on when either loopback address was bound, and fails
/// with `InvalidCode` when neither was.
pub fn check_bound(v4_bound: bool, v6_bound: bool, port: u16) -> (r: Result<(), AuthError>)
    ensures
        r is Ok <==> (v4_bound || v6_bound),
        r is Err ==> r->Err_0 is InvalidCode,
{
    if v4_bound || v6_bound {
        Ok(())
    } else {
        let mut m = String::from_str("Failed to bind to any address on port ");
        let p = decimal_string(port as u64);
        m.append(p.as_str());
        Err(AuthError::InvalidCode(m))
    }
}

} // verus!
