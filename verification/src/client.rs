//! Client authentication state and secret validation.
//!
//! The client holds three independently written cells: the bundle tokens
//! recovered at initialization, the user session created by login, and
//! the validated signing secret, memoized after a single probe pass.
//! Network traffic lives outside; the state transitions and decisions
//! are here.

use vstd::prelude::*;
use vstd::string::StringExecFns;

use crate::bundle::BundleTokens;
use crate::error::error_message_spec;
use crate::error::ApiError;

verus! {

/// A logged-in user's session, created on successful login, overwritten
/// on re-login.
#[derive(Debug, Clone)]
pub struct UserSession {
    pub user_auth_token: String,
    pub display_name: String,
    pub subscription_label: String,
}

/// The shared mutable cells of the client: bundle tokens, session, and
/// the memoized validated secret.  Each is written rarely — tokens once
/// at initialization, the session on login, the secret exactly once.
pub struct ClientState {
    pub tokens: Option<BundleTokens>,
    pub session: Option<UserSession>,
    pub validated_secret: Option<String>,
}

impl ClientState {
    /// A fresh client: nothing initialized, nobody logged in, no secret
    /// validated.
    pub fn new() -> (r: Self)
        ensures
            r.tokens is None,
            r.session is None,
            r.validated_secret is None,
    {
        ClientState { tokens: None, session: None, validated_secret: None }
    }

    /// Store the tokens extraction produced.
    pub fn set_tokens(&mut self, tokens: BundleTokens)
        ensures
            final(self).tokens == Some(tokens),
            final(self).session == old(self).session,
            final(self).validated_secret == old(self).validated_secret,
    {
        self.tokens = Some(tokens);
    }

    /// The application id for the `X-App-Id` header; initialization must
    /// have run.
    pub fn app_id(&self) -> (r: Result<String, ApiError>)
        ensures
            self.tokens matches Some(t) ==> (r matches Ok(a) && a@ == t.app_id@),
            self.tokens is None ==> (r matches Err(e) && e matches ApiError::BundleExtractionError(
                m,
            ) && m@ == ("Client not initialized")@),
    {
        match &self.tokens {
            Some(t) => Ok(t.app_id.clone()),
            None => Err(
                ApiError::BundleExtractionError(String::from_str("Client not initialized")),
            ),
        }
    }

    /// The candidate secrets in extraction order; initialization must
    /// have run.
    pub fn secret_candidates(&self) -> (r: Result<Vec<String>, ApiError>)
        ensures
            self.tokens matches Some(t) ==> (r matches Ok(v) && v@ == t.secrets@),
            self.tokens is None ==> (r matches Err(e) && e matches ApiError::BundleExtractionError(
                m,
            ) && m@ == ("Client not initialized")@),
    {
        match &self.tokens {
            Some(t) => {
                let n = t.secrets.len();
                let mut out: Vec<String> = Vec::new();
                let mut k: usize = 0;
                while k < n
                    invariant
                        k <= n == t.secrets@.len(),
                        self.tokens matches Some(t2) && t2 == t,
                        out@.len() == k,
                        forall|j: int| 0 <= j < k ==> out@[j] == t.secrets@[j],
                    decreases n - k,
                {
                    out.push(t.secrets[k].clone());
                    k = k + 1;
                }
                proof {
                    assert(out@ =~= t.secrets@);
                }
                Ok(out)
            },
            None => Err(
                ApiError::BundleExtractionError(String::from_str("Client not initialized")),
            ),
        }
    }

    /// Is a user logged in?
    pub fn is_logged_in(&self) -> (r: bool)
        ensures
            r == (self.session is Some),
    {
        match &self.session {
            Some(_) => true,
            None => false,
        }
    }

    /// Store the session a successful login produced, replacing any
    /// earlier one.
    pub fn set_session(&mut self, session: UserSession)
        ensures
            final(self).session == Some(session),
            final(self).tokens == old(self).tokens,
            final(self).validated_secret == old(self).validated_secret,
    {
        self.session = Some(session);
    }

    /// The session token for the `X-User-Auth-Token` header; a user must
    /// be logged in.
    pub fn auth_token(&self) -> (r: Result<String, ApiError>)
        ensures
            self.session matches Some(s) ==> (r matches Ok(t) && t@ == s.user_auth_token@),
            self.session is None ==> (r matches Err(e) && e matches ApiError::AuthenticationError(
                m,
            ) && m@ == ("Not logged in")@),
    {
        match &self.session {
            Some(s) => Ok(s.user_auth_token.clone()),
            None => Err(ApiError::AuthenticationError(String::from_str("Not logged in"))),
        }
    }

    /// The memoized validated secret, if one was stored.
    pub fn memoized_secret(&self) -> (r: Option<String>)
        ensures
            self.validated_secret matches Some(s) ==> (r matches Some(x) && x@ == s@),
            self.validated_secret is None ==> r is None,
    {
        match &self.validated_secret {
            Some(s) => Some(s.clone()),
            None => None,
        }
    }

    /// Memoize the accepted secret.  Write-once: callers consult
    /// `memoized_secret` first and never re-derive a stored secret.
    pub fn note_validated_secret(&mut self, secret: String)
        requires
            old(self).validated_secret is None,
        ensures
            final(self).validated_secret == Some(secret),
            final(self).tokens == old(self).tokens,
            final(self).session == old(self).session,
    {
        self.validated_secret = Some(secret);
    }
}

/// One probe pass over the candidate secrets, in extraction order.
///
/// The surrounding application drains `next_probe`, issues the probe
/// request, and reports each verdict; the pass stops at the first
/// accepted candidate and never probes past it.
pub struct SecretValidation {
    pub candidates: Vec<String>,
    pub next_idx: usize,
    pub accepted: Option<String>,
}

impl SecretValidation {
    /// Start a pass over `candidates`.
    pub fn new(candidates: Vec<String>) -> (r: Self)
        ensures
            r.candidates == candidates,
            r.next_idx == 0,
            r.accepted is None,
    {
        SecretValidation { candidates, next_idx: 0, accepted: None }
    }

    /// The next candidate to probe, or `None` once a candidate was
    /// accepted or all candidates are exhausted: an accepted pass issues
    /// no further probes.
    pub fn next_probe(&self) -> (r: Option<String>)
        ensures
            self.accepted is Some || self.next_idx >= self.candidates@.len() ==> r is None,
            self.accepted is None && self.next_idx < self.candidates@.len() ==> (r matches Some(c)
                && c == self.candidates@[self.next_idx as int]),
    {
        match &self.accepted {
            Some(_) => None,
            None => {
                if self.next_idx < self.candidates.len() {
                    Some(self.candidates[self.next_idx].clone())
                } else {
                    None
                }
            },
        }
    }

    /// Record the backend's verdict on the candidate just probed: an
    /// acceptance fixes that candidate and ends the pass, a rejection
    /// moves to the next candidate.
    pub fn record_verdict(&mut self, accepted_now: bool)
        requires
            old(self).accepted is None,
            old(self).next_idx < old(self).candidates@.len(),
        ensures
            final(self).candidates == old(self).candidates,
            accepted_now ==> final(self).accepted == Some(
                old(self).candidates@[old(self).next_idx as int],
            ) && final(self).next_idx == old(self).next_idx,
            !accepted_now ==> final(self).accepted is None && final(self).next_idx == old(
                self,
            ).next_idx + 1,
    {
        let n = self.candidates.len();
        if accepted_now {
            self.accepted = Some(self.candidates[self.next_idx].clone());
        } else {
            proof {
                assert(self.next_idx < n);
            }
            self.next_idx = self.next_idx + 1;
        }
    }

    /// The pass's result once it is finished: the accepted secret, or
    /// `InvalidAppSecret` when every candidate was rejected.
    pub fn outcome(&self) -> (r: Result<String, ApiError>)
        requires
            self.accepted is Some || self.next_idx >= self.candidates@.len(),
        ensures
            self.accepted matches Some(s) ==> (r matches Ok(x) && x == s),
            self.accepted is None ==> (r matches Err(e) && e is InvalidAppSecret),
    {
        match &self.accepted {
            Some(s) => Ok(s.clone()),
            None => Err(ApiError::InvalidAppSecret),
        }
    }
}

/// What the boundary reports for a login attempt: either the session's
/// display data or a single error message.
#[derive(Debug, Clone)]
pub struct LoginResponse {
    pub success: bool,
    pub user_name: Option<String>,
    pub subscription: Option<String>,
    pub error: Option<String>,
}

impl LoginResponse {
    /// Fold a login result into the boundary's shape: display name and
    /// subscription on success, one message on failure.
    pub fn from_login_result(result: &Result<UserSession, ApiError>) -> (r: LoginResponse)
        ensures
            result matches Ok(s) ==> r.success && (r.user_name matches Some(u) && u@
                == s.display_name@) && (r.subscription matches Some(x) && x@
                == s.subscription_label@) && r.error is None,
            result matches Err(e) ==> !r.success && r.user_name is None && r.subscription is None
                && (r.error matches Some(m) && m@ == error_message_spec(*e)),
    {
        match result {
            Ok(s) => LoginResponse {
                success: true,
                user_name: Some(s.display_name.clone()),
                subscription: Some(s.subscription_label.clone()),
                error: None,
            },
            Err(e) => LoginResponse {
                success: false,
                user_name: None,
                subscription: None,
                error: Some(e.message()),
            },
        }
    }
}

} // verus!
