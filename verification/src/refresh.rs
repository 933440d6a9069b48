//! Refreshing a login, step by step: the refresh token, its session, its
//! user, and a fresh pair of tokens.

use vstd::prelude::*;
use crate::auth::{
    check_refresh_session, issue_token, jwt_hs256, refresh_ids, strip_password_hash, token_of, verify_token, Claims,
    User, CLOCK_SPAN_SECS,
};
use crate::error::{AppError, ErrorView};
use crate::ids::{hyphenated, uuid_parse};

verus! {

/// What a refresh waits for.
#[derive(Debug, Clone, Copy, PartialEq, Eq, Structural)]
pub enum RefreshStage {
    AwaitSession,
    AwaitUser,
    Finished,
}

/// The answer to a refresh: the user, shown without the password hash, and
/// new access and refresh tokens for the same session.
#[derive(Debug)]
pub struct RefreshedTokens {
    pub user: User,
    pub access_token: String,
    pub refresh_token: String,
}

/// What a refresh needs next.
#[derive(Debug)]
pub enum RefreshStep {
    /// Whether the session is stored and usable.
    LookupSession { session_id: u128 },
    /// The user, by id.
    LookupUser { user_id: u128 },
    /// The answer.
    Done(Result<RefreshedTokens, AppError>),
}

/// The state of a refresh.
pub struct RefreshView {
    pub secret: Seq<u8>,
    pub access_ttl: i64,
    pub refresh_ttl: i64,
    pub user_id: u128,
    pub session_id: u128,
    pub stage: RefreshStage,
}

/// A refresh in progress.
pub struct RefreshFlow {
    secret: Vec<u8>,
    access_ttl: i64,
    refresh_ttl: i64,
    user_id: u128,
    session_id: u128,
    stage: RefreshStage,
}

impl View for RefreshFlow {
    type V = RefreshView;

    closed spec fn view(&self) -> RefreshView {
        RefreshView {
            secret: self.secret@,
            access_ttl: self.access_ttl,
            refresh_ttl: self.refresh_ttl,
            user_id: self.user_id,
            session_id: self.session_id,
            stage: self.stage,
        }
    }
}

/// The refresh ends with this error.
pub open spec fn refresh_fails(step: RefreshStep, e: ErrorView) -> bool {
    step matches RefreshStep::Done(Err(x)) && x@ == e
}

/// Whether a lifetime can be added to any time the clock reads.
pub open spec fn ttl_fits(ttl: i64) -> bool {
    i64::MIN + CLOCK_SPAN_SECS <= ttl <= i64::MAX - CLOCK_SPAN_SECS
}

/// The answer of a refresh for the user: the user without the password hash,
/// and tokens for the user and the flow's session with the two lifetimes.
pub open spec fn refreshed(t: RefreshedTokens, u: User, v: RefreshView) -> bool {
    &&& t.user.id == u.id && t.user.username == u.username && t.user.email == u.email
    &&& t.user.status == u.status && t.user.password_hash is None
    &&& t.user.created_at == u.created_at && t.user.updated_at == u.updated_at
    &&& token_of(v.secret, u.id, v.session_id, v.access_ttl, t.access_token@)
    &&& token_of(v.secret, u.id, v.session_id, v.refresh_ttl, t.refresh_token@)
}

impl RefreshFlow {
    /// Starts from the claims of the refresh token (or the refusal of the
    /// token): they must name a user and a session by UUIDs; then the
    /// session is looked up.
    pub fn start_with_claims(
        secret: Vec<u8>,
        claims: Result<Claims, AppError>,
        access_ttl: i64,
        refresh_ttl: i64,
    ) -> (r: (RefreshFlow, RefreshStep))
        ensures
            r.0@.secret == secret@,
            r.0@.access_ttl == access_ttl,
            r.0@.refresh_ttl == refresh_ttl,
            match claims {
                Err(e) => r.0@.stage == RefreshStage::Finished && refresh_fails(r.1, e@),
                Ok(c) => match (uuid_parse(c.sub@), uuid_parse(c.session_id@)) {
                    (Ok(u), Ok(s)) => {
                        &&& r.0@.stage == RefreshStage::AwaitSession
                        &&& r.0@.user_id == u
                        &&& r.0@.session_id == s
                        &&& r.1 matches RefreshStep::LookupSession { session_id } && session_id == s
                    },
                    (Err(m), _) => r.0@.stage == RefreshStage::Finished && refresh_fails(r.1, ErrorView::Unauthorized(m)),
                    (Ok(_), Err(m)) => r.0@.stage == RefreshStage::Finished && refresh_fails(
                        r.1,
                        ErrorView::Unauthorized(m),
                    ),
                },
            },
            forall|u: u128, s: u128| #![trigger hyphenated(u), hyphenated(s)]
                claims matches Ok(c) && hyphenated(u) == c.sub@ && hyphenated(s) == c.session_id@ ==> r.0@.stage
                    == RefreshStage::AwaitSession && r.0@.user_id == u && r.0@.session_id == s,
    {
        let mut flow = RefreshFlow {
            secret,
            access_ttl,
            refresh_ttl,
            user_id: 0,
            session_id: 0,
            stage: RefreshStage::Finished,
        };
        let c = match claims {
            Ok(c) => c,
            Err(e) => return (flow, RefreshStep::Done(Err(e))),
        };
        match refresh_ids(&c) {
            Ok((u, s)) => {
                flow.user_id = u;
                flow.session_id = s;
                flow.stage = RefreshStage::AwaitSession;
                (flow, RefreshStep::LookupSession { session_id: s })
            },
            Err(e) => (flow, RefreshStep::Done(Err(e))),
        }
    }

    /// Starts a refresh from the refresh token, which must be one this
    /// server signed with `secret` and that has not expired; any other is
    /// refused as unauthorized. A token issued for a user and a session, when
    /// accepted, leads to the lookup of that session for that user.
    pub fn start(secret: Vec<u8>, token: &str, access_ttl: i64, refresh_ttl: i64) -> (r: (RefreshFlow, RefreshStep))
        ensures
            r.0@.secret == secret@,
            r.0@.access_ttl == access_ttl,
            r.0@.refresh_ttl == refresh_ttl,
            r.0@.stage == RefreshStage::Finished ==> (r.1 matches RefreshStep::Done(Err(e)) && e@ is Unauthorized),
            r.0@.stage != RefreshStage::Finished ==> r.0@.stage == RefreshStage::AwaitSession && (r.1 matches RefreshStep::LookupSession {
                session_id,
            } && session_id == r.0@.session_id),
            forall|u: u128, s: u128, ttl: i64| #[trigger] token_of(secret@, u, s, ttl, token@) && r.0@.stage
                != RefreshStage::Finished ==> r.0@.user_id == u && r.0@.session_id == s,
    {
        let claims = verify_token(secret.as_slice(), token);
        proof {
            assert forall|u: u128, s: u128, ttl: i64| #[trigger] token_of(secret@, u, s, ttl, token@) && claims is Ok implies
                claims->Ok_0.sub@ == hyphenated(u) && claims->Ok_0.session_id@ == hyphenated(s) by {
                let iat = choose|iat: i64|
                    -CLOCK_SPAN_SECS < iat < CLOCK_SPAN_SECS && i64::MIN <= iat + ttl <= i64::MAX && token@
                        == #[trigger] jwt_hs256(hyphenated(u), hyphenated(s), (iat + ttl) as i64, iat, secret@);
                assert(jwt_hs256(hyphenated(u), hyphenated(s), (iat + ttl) as i64, iat, secret@) == token@);
            }
        }
        Self::start_with_claims(secret, claims, access_ttl, refresh_ttl)
    }

    /// What the refresh waits for.
    pub fn stage(&self) -> (s: RefreshStage)
        ensures
            s == self@.stage,
    {
        self.stage
    }

    /// Takes whether the session is stored and usable: a missing one is
    /// refused as unauthorized; then the user is looked up.
    pub fn on_session(&mut self, found: Result<bool, AppError>) -> (step: RefreshStep)
        requires
            old(self)@.stage == RefreshStage::AwaitSession,
        ensures
            final(self)@ == (RefreshView { stage: final(self)@.stage, ..old(self)@ }),
            match found {
                Err(e) => final(self)@.stage == RefreshStage::Finished && refresh_fails(step, e@),
                Ok(false) => final(self)@.stage == RefreshStage::Finished && refresh_fails(
                    step,
                    ErrorView::Unauthorized("Session not found or expired"@),
                ),
                Ok(true) => final(self)@.stage == RefreshStage::AwaitUser && (step matches RefreshStep::LookupUser {
                    user_id,
                } && user_id == old(self)@.user_id),
            },
    {
        let f = match found {
            Ok(f) => f,
            Err(e) => {
                self.stage = RefreshStage::Finished;
                return RefreshStep::Done(Err(e));
            },
        };
        match check_refresh_session(f) {
            Ok(()) => {
                self.stage = RefreshStage::AwaitUser;
                RefreshStep::LookupUser { user_id: self.user_id }
            },
            Err(e) => {
                self.stage = RefreshStage::Finished;
                RefreshStep::Done(Err(e))
            },
        }
    }

    /// Takes the user: a failed lookup is the answer; otherwise a new access
    /// token and a new refresh token are issued for the user and the same
    /// session, and the user is shown without the password hash.
    pub fn on_user(&mut self, user: Result<User, AppError>) -> (step: RefreshStep)
        requires
            old(self)@.stage == RefreshStage::AwaitUser,
        ensures
            final(self)@ == (RefreshView { stage: RefreshStage::Finished, ..old(self)@ }),
            match user {
                Err(e) => refresh_fails(step, e@),
                Ok(u) => {
                    &&& step is Done
                    &&& (ttl_fits(old(self)@.access_ttl) && ttl_fits(old(self)@.refresh_ttl) ==> (step matches RefreshStep::Done(Ok(_))))
                    &&& (step matches RefreshStep::Done(Err(e)) ==> e@ == ErrorView::InternalServerError("Token expiry out of range"@))
                    &&& (step matches RefreshStep::Done(Ok(t)) ==> refreshed(t, u, old(self)@))
                },
            },
    {
        self.stage = RefreshStage::Finished;
        let u = match user {
            Ok(u) => u,
            Err(e) => return RefreshStep::Done(Err(e)),
        };
        let access_token = match issue_token(self.secret.as_slice(), u.id, self.session_id, self.access_ttl) {
            Ok(t) => t,
            Err(e) => return RefreshStep::Done(Err(e)),
        };
        let refresh_token = match issue_token(self.secret.as_slice(), u.id, self.session_id, self.refresh_ttl) {
            Ok(t) => t,
            Err(e) => return RefreshStep::Done(Err(e)),
        };
        RefreshStep::Done(Ok(RefreshedTokens { user: strip_password_hash(u), access_token, refresh_token }))
    }
}

} // verus!
