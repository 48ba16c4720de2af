//! The OAuth2 authorization flow as a state machine. The caller performs
//! each action (open the browser, wait for the redirect, call the token and
//! identity endpoints, write the credential file) and reports what came of it
//! as the next event.

use crate::auth::{expiration_of, identity_username, Auth, AuthError};
use crate::store::{OAuth2Model, StoreModel, TokenStoreError};
use vstd::prelude::*;

verus! {

/// What the token endpoint issued.
pub struct Grant {
    pub access_token: String,
    pub refresh_token: Option<String>,
    pub expires_in: Option<u64>,
}

/// Where one authorization attempt stands.
pub enum FlowState {
    Idle,
    AwaitingUserConsent,
    AwaitingRedirect,
    ExchangingCode,
    FetchingIdentity(Grant),
    Persisting(String),
    Done(String),
    Failed(AuthError),
}

/// What came of the last action.
pub enum FlowEvent {
    /// An interactive attempt starts.
    Begin,
    /// The authorization page was opened in the browser.
    BrowserOpened,
    /// The redirect delivered this authorization code.
    CodeReceived(String),
    /// The token endpoint issued tokens.
    Granted(Grant),
    /// The identity endpoint answered, with the username if it had one.
    Identity(Option<String>),
    /// The credential file was written.
    Persisted,
    /// The last action failed.
    Failure(AuthError),
}

/// What the caller does next.
pub enum FlowAction {
    OpenBrowser,
    AwaitRedirect,
    ExchangeCode(String),
    ExchangeRefreshToken(String),
    FetchIdentity(String),
    WriteStore,
    Finish(String),
    Stop(AuthError),
}

/// The error of an event that does not fit the state.
pub open spec fn is_out_of_order(e: AuthError) -> bool {
    e is InvalidToken
}

/// The step of the flow for `state` and `event` when the store is `before`
/// and the client is configured as `client_ready` says; `after` is the store
/// afterwards.
pub open spec fn flow_transition(
    state: FlowState,
    event: FlowEvent,
    now: u64,
    client_ready: bool,
    before: StoreModel,
    next: FlowState,
    action: FlowAction,
    after: StoreModel,
) -> bool {
    match (state, event) {
        (_, FlowEvent::Failure(e)) => next == FlowState::Failed(e) && action == FlowAction::Stop(e)
            && after == before,
        (FlowState::Idle, FlowEvent::Begin) => after == before && if client_ready {
            next is AwaitingUserConsent && action is OpenBrowser
        } else {
            next is Failed && next->Failed_0 is MissingEnvVar && action is Stop && action->Stop_0
                == next->Failed_0
        },
        (FlowState::AwaitingUserConsent, FlowEvent::BrowserOpened) => next is AwaitingRedirect
            && action is AwaitRedirect && after == before,
        (FlowState::AwaitingRedirect, FlowEvent::CodeReceived(c)) => next is ExchangingCode
            && action == FlowAction::ExchangeCode(c) && after == before,
        (FlowState::ExchangingCode, FlowEvent::Granted(g)) => next == FlowState::FetchingIdentity(g)
            && action == FlowAction::FetchIdentity(g.access_token) && after == before,
        (FlowState::FetchingIdentity(g), FlowEvent::Identity(found)) => match found {
            None => after == before && next is Failed && next->Failed_0 is NetworkError
                && action is Stop && action->Stop_0 == next->Failed_0,
            Some(u) => match g.refresh_token {
                None => after == before && next == FlowState::Failed(
                    AuthError::TokenStoreError(TokenStoreError::RefreshTokenNotFound),
                ) && action == FlowAction::Stop(
                    AuthError::TokenStoreError(TokenStoreError::RefreshTokenNotFound),
                ),
                Some(rt) => after == before.put_oauth2(
                    u@,
                    OAuth2Model {
                        access_token: g.access_token@,
                        refresh_token: rt@,
                        expiration_time: expiration_of(now, g.expires_in),
                    },
                ) && next == FlowState::Persisting(g.access_token) && action is WriteStore,
            },
        },
        (FlowState::Persisting(t), FlowEvent::Persisted) => next == FlowState::Done(t)
            && action == FlowAction::Finish(t) && after == before,
        _ => after == before && next is Failed && is_out_of_order(next->Failed_0) && action is Stop
            && action->Stop_0 == next->Failed_0,
    }
}

impl Auth {
    /// One step of the OAuth2 flow: from `state`, on `event`, at `now`, the
    /// next state and the action to perform. A failure stops the flow; an
    /// event that does not fit the state stops it with `InvalidToken`. The
    /// username that the identity endpoint gave is stored with the issued
    /// tokens; the caller writes the file on `WriteStore`.
    pub fn flow_step(&mut self, state: FlowState, event: FlowEvent, now: u64) -> (r: (
        FlowState,
        FlowAction,
    ))
        ensures
            flow_transition(
                state,
                event,
                now,
                old(self).client_id@.len() > 0 && old(self).client_secret@.len() > 0,
                old(self).token_store@,
                r.0,
                r.1,
                final(self).token_store@,
            ),
            final(self).client_id == old(self).client_id,
            final(self).client_secret == old(self).client_secret,
    {
        match (state, event) {
            (_, FlowEvent::Failure(e)) => {
                let a = FlowAction::Stop(e.duplicate());
                (FlowState::Failed(e), a)
            },
            (FlowState::Idle, FlowEvent::Begin) => match self.check_client() {
                Ok(()) => (FlowState::AwaitingUserConsent, FlowAction::OpenBrowser),
                Err(e) => stop(e),
            },
            (FlowState::AwaitingUserConsent, FlowEvent::BrowserOpened) => {
                (FlowState::AwaitingRedirect, FlowAction::AwaitRedirect)
            },
            (FlowState::AwaitingRedirect, FlowEvent::CodeReceived(c)) => {
                (FlowState::ExchangingCode, FlowAction::ExchangeCode(c))
            },
            (FlowState::ExchangingCode, FlowEvent::Granted(g)) => {
                let a = FlowAction::FetchIdentity(g.access_token.clone());
                (FlowState::FetchingIdentity(g), a)
            },
            (FlowState::FetchingIdentity(g), FlowEvent::Identity(found)) => {
                match identity_username(found) {
                    Err(e) => stop(e),
                    Ok(u) => {
                        let saved = self.save_token_data(
                            u.as_str(),
                            g.access_token.as_str(),
                            match &g.refresh_token {
                                Some(rt) => Some(rt.as_str()),
                                None => None,
                            },
                            g.expires_in,
                            now,
                        );
                        match saved {
                            Ok(()) => (FlowState::Persisting(g.access_token), FlowAction::WriteStore),
                            Err(e) => stop(AuthError::TokenStoreError(e)),
                        }
                    },
                }
            },
            (FlowState::Persisting(t), FlowEvent::Persisted) => {
                let a = FlowAction::Finish(t.clone());
                (FlowState::Done(t), a)
            },
            _ => stop(AuthError::InvalidToken(String::from_str("unexpected step of the OAuth2 flow"))),
        }
    }

    /// Starts the refresh path: the token exchange of the stored refresh
    /// token of `username`, or of some identity when none is named.
    pub fn refresh_step(&self, username: Option<&str>) -> (r: (FlowState, FlowAction))
        ensures
            ({
                let m = self.token_store@;
                match username {
                    Some(u) => if m.oauth2.contains_key(u@) {
                        r.0 is ExchangingCode && r.1 is ExchangeRefreshToken && r.1->ExchangeRefreshToken_0@
                            == m.oauth2[u@].refresh_token
                    } else {
                        r.0 is Failed && r.0->Failed_0 is TokenNotFound && r.1 is Stop
                    },
                    None => if m.oauth2.is_empty() {
                        r.0 is Failed && r.0->Failed_0 is TokenNotFound && r.1 is Stop
                    } else {
                        r.0 is ExchangingCode && r.1 is ExchangeRefreshToken && exists|k: Seq<char>|
                            #[trigger] m.oauth2.contains_key(k) && r.1->ExchangeRefreshToken_0@
                                == m.oauth2[k].refresh_token
                    },
                }
            }),
    {
        match self.refresh_token_of(username) {
            Ok(rt) => (FlowState::ExchangingCode, FlowAction::ExchangeRefreshToken(rt)),
            Err(e) => stop(e),
        }
    }
}

/// The flow fails with `e`.
fn stop(e: AuthError) -> (r: (FlowState, FlowAction))
    ensures
        r.0 == FlowState::Failed(e),
        r.1 == FlowAction::Stop(e),
{
    let a = FlowAction::Stop(e.duplicate());
    (FlowState::Failed(e), a)
}

} // verus!
