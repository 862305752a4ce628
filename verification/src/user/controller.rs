//! Decisions of the sign-up, sign-in and token-refresh endpoints. Each
//! request runs as a short exchange: the server reports what it has learnt
//! (an event), and the request's flow says what to do next (an action), until
//! a reply is sent.

use vstd::prelude::*;
use crate::libs::hash::{hash, hex, password_hash, pbkdf2_sha256, HASH_ROUNDS};
use crate::text::{trimmed_len, utf8};
use crate::models::api::{APIResponse, APIResult, APIStaticResult, HttpStatus, Reply, reply_view};
use crate::user::constant::{JWTError, Sign, ValidationError};
use crate::user::model::{Claims, User};
use crate::user::service::{Validation, credentials_too_long, credentials_too_short};

verus! {

/// How long a new session token stays valid, in seconds (three days).
pub const TOKEN_LIFETIME: u128 = 86400 * 3;

/// What the server does next while it serves an authentication request.
pub enum AuthAction {
    /// Count the accounts with this name.
    LookUpUser(String),
    /// Store an account with this name and this password hash.
    CreateUser { name: String, pass_hash: String },
    /// Count the accounts with this name and this password hash.
    VerifyPassword { name: String, pass_hash: String },
    /// Read the session token that the client holds.
    DecodeToken,
    /// Make a new session token for the user of this name.
    IssueToken(String),
    /// Keep the new token in the client's session, then send the reply.
    Remember(Reply),
    /// Send the reply; the request is over.
    Respond(Reply),
}

/// An action, with its strings and reply read as values.
pub enum ActionView {
    LookUpUser(Seq<char>),
    CreateUser(Seq<char>, Seq<char>),
    VerifyPassword(Seq<char>, Seq<char>),
    DecodeToken,
    IssueToken(Seq<char>),
    Remember((HttpStatus, bool, Seq<char>)),
    Respond((HttpStatus, bool, Seq<char>)),
}

impl View for AuthAction {
    type V = ActionView;

    open spec fn view(&self) -> ActionView {
        match self {
            AuthAction::LookUpUser(name) => ActionView::LookUpUser(name@),
            AuthAction::CreateUser { name, pass_hash } => ActionView::CreateUser(name@, pass_hash@),
            AuthAction::VerifyPassword { name, pass_hash } => ActionView::VerifyPassword(name@, pass_hash@),
            AuthAction::DecodeToken => ActionView::DecodeToken,
            AuthAction::IssueToken(name) => ActionView::IssueToken(name@),
            AuthAction::Remember(r) => ActionView::Remember(r@),
            AuthAction::Respond(r) => ActionView::Respond(r@),
        }
    }
}

/// The reply `body` with status `status`, sent as the last step.
pub open spec fn respond(status: HttpStatus, body: APIStaticResult) -> ActionView {
    ActionView::Respond(reply_view(status, body))
}

/// Whether a count of matching accounts means exactly one account matched.
pub open spec fn exactly_one(count: Result<i64, ()>) -> bool {
    count == Ok::<i64, ()>(1)
}

fn is_exactly_one(count: Result<i64, ()>) -> (b: bool)
    ensures
        b == exactly_one(count),
{
    match count {
        Ok(n) => n == 1,
        Err(_) => false,
    }
}

/// What the sign-up endpoint has learnt.
pub enum SignUpEvent {
    /// The request came in.
    Submitted,
    /// The count of accounts with the submitted name, or a failed lookup.
    LookedUp(Result<i64, ()>),
    /// Whether storing the account succeeded.
    Created(bool),
}

/// The next step of the sign-up of `user`, with the server's `secret`:
/// credentials of the wrong length are refused, a name that exactly one
/// account has is refused, and otherwise the account is stored as its name
/// and the hash of its password; a failed lookup counts as no account.
pub open spec fn sign_up_next(user: User, secret: Seq<char>, event: SignUpEvent) -> ActionView {
    match event {
        SignUpEvent::Submitted => if credentials_too_short(user.name@, user.pass@) {
            respond(HttpStatus::BadRequest, ValidationError::too_short())
        } else if credentials_too_long(user.name@, user.pass@) {
            respond(HttpStatus::BadRequest, ValidationError::too_long())
        } else {
            ActionView::LookUpUser(user.name@)
        },
        SignUpEvent::LookedUp(count) => if exactly_one(count) {
            respond(HttpStatus::Unauthorized, Sign::existed())
        } else {
            ActionView::CreateUser(user.name@, password_hash(user.pass@, secret))
        },
        SignUpEvent::Created(stored) => if stored {
            respond(HttpStatus::Success, APIResponse::success())
        } else {
            respond(HttpStatus::Unauthorized, APIResponse::failure())
        },
    }
}

/// A sign-up request for the submitted credentials.
pub struct SignUp {
    user: User,
    secret: String,
}

impl SignUp {
    /// The submitted credentials.
    pub closed spec fn submitted(&self) -> User {
        self.user
    }

    /// The server's secret that passwords are hashed with.
    pub closed spec fn secret(&self) -> Seq<char> {
        self.secret@
    }

    /// Starts the sign-up of `user`, hashing with `secret`.
    pub fn new(user: User, secret: String) -> (flow: SignUp)
        ensures
            flow.submitted() == user,
            flow.secret() == secret@,
    {
        SignUp { user, secret }
    }

    /// Decides the next step of this sign-up.
    pub fn step(&self, event: SignUpEvent) -> (action: AuthAction)
        ensures
            action@ == sign_up_next(self.submitted(), self.secret(), event),
            event is Submitted && (trimmed_len(self.submitted().name@) < 5 || trimmed_len(
                self.submitted().pass@,
            ) < 5) ==> action@ == ActionView::Respond(
                (HttpStatus::BadRequest, false, ValidationError::too_short().detail@),
            ),
            event is Submitted && 5 <= trimmed_len(self.submitted().name@) && 5 <= trimmed_len(
                self.submitted().pass@,
            ) && (trimmed_len(self.submitted().name@) > 32 || trimmed_len(self.submitted().pass@)
                > 32) ==> action@ == ActionView::Respond(
                (HttpStatus::BadRequest, false, ValidationError::too_long().detail@),
            ),
            event is Submitted && 5 <= trimmed_len(self.submitted().name@) <= 32 && 5 <= trimmed_len(
                self.submitted().pass@,
            ) <= 32 ==> action@ == ActionView::LookUpUser(self.submitted().name@),
            event == SignUpEvent::LookedUp(Ok(1)) ==> action@ == ActionView::Respond(
                (HttpStatus::Unauthorized, false, Sign::existed().detail@),
            ),
            (event matches SignUpEvent::LookedUp(count) && count != Ok::<i64, ()>(1)) ==> action@
                == ActionView::CreateUser(
                self.submitted().name@,
                hex(pbkdf2_sha256(utf8(self.submitted().pass@), utf8(self.secret()), HASH_ROUNDS)),
            ),
            event == SignUpEvent::Created(true) ==> action@ == ActionView::Respond(
                (HttpStatus::Success, true, APIResponse::success().detail@),
            ),
            event == SignUpEvent::Created(false) ==> action@ == ActionView::Respond(
                (HttpStatus::Unauthorized, false, APIResponse::failure().detail@),
            ),
    {
        match event {
            SignUpEvent::Submitted => {
                if Validation::is_too_short(&self.user) {
                    AuthAction::Respond(Reply::of(HttpStatus::BadRequest, ValidationError::too_short()))
                } else if Validation::is_too_long(&self.user) {
                    AuthAction::Respond(Reply::of(HttpStatus::BadRequest, ValidationError::too_long()))
                } else {
                    AuthAction::LookUpUser(self.user.name.clone())
                }
            },
            SignUpEvent::LookedUp(count) => {
                if is_exactly_one(count) {
                    AuthAction::Respond(Reply::of(HttpStatus::Unauthorized, Sign::existed()))
                } else {
                    AuthAction::CreateUser {
                        name: self.user.name.clone(),
                        pass_hash: hash(self.user.pass.as_str(), self.secret.as_str()),
                    }
                }
            },
            SignUpEvent::Created(stored) => {
                if stored {
                    AuthAction::Respond(Reply::of(HttpStatus::Success, APIResponse::success()))
                } else {
                    AuthAction::Respond(Reply::of(HttpStatus::Unauthorized, APIResponse::failure()))
                }
            },
        }
    }
}

/// What the sign-in endpoint has learnt.
pub enum SignInEvent {
    /// The request came in; `signed_in` tells whether the client already
    /// holds a session.
    Submitted { signed_in: bool },
    /// The count of accounts with the submitted name and password, or a
    /// failed lookup.
    Verified(Result<i64, ()>),
    /// Whether a session token could be made.
    TokenEncoded(bool),
}

/// The next step of the sign-in of `user`, with the server's `secret`: a
/// client with a session is refused, then credentials of the wrong length;
/// accounts are matched by name and password hash, and when exactly one
/// matches, a token is made for the submitted name and the session keeps it;
/// a failed lookup counts as no match.
pub open spec fn sign_in_next(user: User, secret: Seq<char>, event: SignInEvent) -> ActionView {
    match event {
        SignInEvent::Submitted { signed_in } => if signed_in {
            respond(HttpStatus::BadRequest, Sign::signed())
        } else if credentials_too_short(user.name@, user.pass@) {
            respond(HttpStatus::BadRequest, ValidationError::too_short())
        } else if credentials_too_long(user.name@, user.pass@) {
            respond(HttpStatus::BadRequest, ValidationError::too_long())
        } else {
            ActionView::VerifyPassword(user.name@, password_hash(user.pass@, secret))
        },
        SignInEvent::Verified(count) => if exactly_one(count) {
            ActionView::IssueToken(user.name@)
        } else {
            respond(HttpStatus::Unauthorized, Sign::incorrect())
        },
        SignInEvent::TokenEncoded(encoded) => if encoded {
            ActionView::Remember(reply_view(HttpStatus::Success, Sign::success()))
        } else {
            respond(HttpStatus::InternalServerError, JWTError::creation())
        },
    }
}

/// A sign-in request for the submitted credentials.
pub struct SignIn {
    user: User,
    secret: String,
}

impl SignIn {
    /// The submitted credentials.
    pub closed spec fn submitted(&self) -> User {
        self.user
    }

    /// The server's secret that passwords are hashed with.
    pub closed spec fn secret(&self) -> Seq<char> {
        self.secret@
    }

    /// Starts the sign-in of `user`, hashing with `secret`.
    pub fn new(user: User, secret: String) -> (flow: SignIn)
        ensures
            flow.submitted() == user,
            flow.secret() == secret@,
    {
        SignIn { user, secret }
    }

    /// Decides the next step of this sign-in.
    pub fn step(&self, event: SignInEvent) -> (action: AuthAction)
        ensures
            action@ == sign_in_next(self.submitted(), self.secret(), event),
            event == (SignInEvent::Submitted { signed_in: true }) ==> action@ == ActionView::Respond(
                (HttpStatus::BadRequest, false, Sign::signed().detail@),
            ),
            event == (SignInEvent::Submitted { signed_in: false }) && (trimmed_len(
                self.submitted().name@,
            ) < 5 || trimmed_len(self.submitted().pass@) < 5) ==> action@ == ActionView::Respond(
                (HttpStatus::BadRequest, false, ValidationError::too_short().detail@),
            ),
            event == (SignInEvent::Submitted { signed_in: false }) && 5 <= trimmed_len(
                self.submitted().name@,
            ) && 5 <= trimmed_len(self.submitted().pass@) && (trimmed_len(self.submitted().name@)
                > 32 || trimmed_len(self.submitted().pass@) > 32) ==> action@ == ActionView::Respond(
                (HttpStatus::BadRequest, false, ValidationError::too_long().detail@),
            ),
            event == (SignInEvent::Submitted { signed_in: false }) && 5 <= trimmed_len(
                self.submitted().name@,
            ) <= 32 && 5 <= trimmed_len(self.submitted().pass@) <= 32 ==> action@
                == ActionView::VerifyPassword(
                self.submitted().name@,
                hex(pbkdf2_sha256(utf8(self.submitted().pass@), utf8(self.secret()), HASH_ROUNDS)),
            ),
            event == SignInEvent::Verified(Ok(1)) ==> action@ == ActionView::IssueToken(
                self.submitted().name@,
            ),
            (event matches SignInEvent::Verified(count) && count != Ok::<i64, ()>(1)) ==> action@
                == ActionView::Respond((HttpStatus::Unauthorized, false, Sign::incorrect().detail@)),
            event == SignInEvent::TokenEncoded(true) ==> action@ == ActionView::Remember(
                (HttpStatus::Success, true, Sign::success().detail@),
            ),
            event == SignInEvent::TokenEncoded(false) ==> action@ == ActionView::Respond(
                (HttpStatus::InternalServerError, false, JWTError::creation().detail@),
            ),
    {
        match event {
            SignInEvent::Submitted { signed_in } => {
                if signed_in {
                    AuthAction::Respond(Reply::of(HttpStatus::BadRequest, Sign::signed()))
                } else if Validation::is_too_short(&self.user) {
                    AuthAction::Respond(Reply::of(HttpStatus::BadRequest, ValidationError::too_short()))
                } else if Validation::is_too_long(&self.user) {
                    AuthAction::Respond(Reply::of(HttpStatus::BadRequest, ValidationError::too_long()))
                } else {
                    AuthAction::VerifyPassword {
                        name: self.user.name.clone(),
                        pass_hash: hash(self.user.pass.as_str(), self.secret.as_str()),
                    }
                }
            },
            SignInEvent::Verified(count) => {
                if is_exactly_one(count) {
                    AuthAction::IssueToken(self.user.name.clone())
                } else {
                    AuthAction::Respond(Reply::of(HttpStatus::Unauthorized, Sign::incorrect()))
                }
            },
            SignInEvent::TokenEncoded(encoded) => {
                if encoded {
                    AuthAction::Remember(Reply::of(HttpStatus::Success, Sign::success()))
                } else {
                    AuthAction::Respond(Reply::of(HttpStatus::InternalServerError, JWTError::creation()))
                }
            },
        }
    }
}

/// What the token-refresh endpoint has learnt.
pub enum RefreshEvent {
    /// The request came in; `signed_in` tells whether the client holds a session.
    Submitted { signed_in: bool },
    /// What the session token holds, if it could be read, and the current
    /// time in seconds since the Unix epoch.
    Decoded { claims: Option<Claims>, now: u128 },
    /// Whether the new token could be made.
    TokenEncoded(bool),
}

/// Whether a token that expires at `exp` has expired at time `now`.
pub open spec fn expired(exp: u128, now: u128) -> bool {
    exp < now
}

/// The next step of a refresh, given the name of the user whose token was
/// read (`holder`, `None` until then): a client without a session is
/// refused, then one whose token cannot be read, then one whose token has
/// expired; otherwise a new token is made for the token's user, the session
/// keeps it, and the reply names that user.
pub open spec fn refresh_next(holder: Option<Seq<char>>, event: RefreshEvent) -> ActionView {
    match event {
        RefreshEvent::Submitted { signed_in } => if signed_in {
            ActionView::DecodeToken
        } else {
            respond(HttpStatus::Unauthorized, Sign::unauthorized())
        },
        RefreshEvent::Decoded { claims, now } => match claims {
            None => respond(HttpStatus::BadRequest, JWTError::invalid()),
            Some(c) => if expired(c.exp, now) {
                respond(HttpStatus::Unauthorized, JWTError::expired())
            } else {
                ActionView::IssueToken(c.name@)
            },
        },
        RefreshEvent::TokenEncoded(encoded) => if encoded {
            ActionView::Remember((HttpStatus::Success, true, holder.unwrap()))
        } else {
            respond(HttpStatus::InternalServerError, JWTError::creation())
        },
    }
}

/// The user a refresh learns from the token, once the token has been read
/// and has not expired.
pub open spec fn refresh_holder(holder: Option<Seq<char>>, event: RefreshEvent) -> Option<Seq<char>> {
    match event {
        RefreshEvent::Decoded { claims: Some(c), now } => if expired(c.exp, now) {
            holder
        } else {
            Some(c.name@)
        },
        _ => holder,
    }
}

/// A token-refresh request.
pub struct Refresh {
    holder: Option<String>,
}

impl Refresh {
    /// The name of the user whose valid token was read, once it was.
    pub closed spec fn holder_name(&self) -> Option<Seq<char>> {
        match self.holder {
            Some(n) => Some(n@),
            None => None,
        }
    }

    /// Starts a refresh.
    pub fn new() -> (flow: Refresh)
        ensures
            flow.holder_name() is None,
    {
        Refresh { holder: None }
    }

    /// Whether the user of a valid token is known.
    pub fn knows_holder(&self) -> (b: bool)
        ensures
            b == self.holder_name() is Some,
    {
        self.holder.is_some()
    }

    /// Decides the next step of this refresh. A new token is reported only
    /// once it was asked for, so only after a valid token was read.
    pub fn step(&mut self, event: RefreshEvent) -> (action: AuthAction)
        requires
            event matches RefreshEvent::TokenEncoded(_) ==> old(self).holder_name() is Some,
        ensures
            action@ == refresh_next(old(self).holder_name(), event),
            final(self).holder_name() == refresh_holder(old(self).holder_name(), event),
            event == (RefreshEvent::Submitted { signed_in: false }) ==> action@ == ActionView::Respond(
                (HttpStatus::Unauthorized, false, Sign::unauthorized().detail@),
            ),
            event == (RefreshEvent::Submitted { signed_in: true }) ==> action@
                == ActionView::DecodeToken,
            (event matches RefreshEvent::Decoded { claims: None, .. }) ==> action@
                == ActionView::Respond((HttpStatus::BadRequest, false, JWTError::invalid().detail@)),
            event matches RefreshEvent::Decoded { claims: Some(c), now } ==> if c.exp < now {
                &&& action@ == ActionView::Respond(
                    (HttpStatus::Unauthorized, false, JWTError::expired().detail@),
                )
                &&& final(self).holder_name() == old(self).holder_name()
            } else {
                &&& action@ == ActionView::IssueToken(c.name@)
                &&& final(self).holder_name() == Some(c.name@)
            },
            !(event is Decoded) ==> final(self).holder_name() == old(self).holder_name(),
            event == RefreshEvent::TokenEncoded(true) ==> action@ == ActionView::Remember(
                (HttpStatus::Success, true, old(self).holder_name().unwrap()),
            ),
            event == RefreshEvent::TokenEncoded(false) ==> action@ == ActionView::Respond(
                (HttpStatus::InternalServerError, false, JWTError::creation().detail@),
            ),
    {
        match event {
            RefreshEvent::Submitted { signed_in } => {
                if signed_in {
                    AuthAction::DecodeToken
                } else {
                    AuthAction::Respond(Reply::of(HttpStatus::Unauthorized, Sign::unauthorized()))
                }
            },
            RefreshEvent::Decoded { claims, now } => {
                match claims {
                    None => AuthAction::Respond(Reply::of(HttpStatus::BadRequest, JWTError::invalid())),
                    Some(c) => {
                        if c.exp < now {
                            AuthAction::Respond(Reply::of(HttpStatus::Unauthorized, JWTError::expired()))
                        } else {
                            self.holder = Some(c.name.clone());
                            AuthAction::IssueToken(c.name)
                        }
                    },
                }
            },
            RefreshEvent::TokenEncoded(encoded) => {
                if encoded {
                    let name = self.holder.as_ref().unwrap();
                    AuthAction::Remember(Reply::of_result(HttpStatus::Success, APIResult { success: true, detail: name.as_str() }))
                } else {
                    AuthAction::Respond(Reply::of(HttpStatus::InternalServerError, JWTError::creation()))
                }
            },
        }
    }
}

/// A sign-up whose trimmed name or password has fewer than 5 UTF-8 bytes is
/// refused with the too-short reply.
pub proof fn lemma_sign_up_refuses_short_credentials(user: User, secret: Seq<char>)
    requires
        trimmed_len(user.name@) < 5 || trimmed_len(user.pass@) < 5,
    ensures
        sign_up_next(user, secret, SignUpEvent::Submitted) == ActionView::Respond(
            (HttpStatus::BadRequest, false, ValidationError::too_short().detail@),
        ),
{
}

/// A sign-up whose name no account has stores the name with the hash of the
/// whole password under the server's secret.
pub proof fn lemma_sign_up_stores_password_hash(user: User, secret: Seq<char>, count: Result<i64, ()>)
    requires
        count != Ok::<i64, ()>(1),
    ensures
        sign_up_next(user, secret, SignUpEvent::LookedUp(count)) == ActionView::CreateUser(
            user.name@,
            hex(pbkdf2_sha256(utf8(user.pass@), utf8(secret), HASH_ROUNDS)),
        ),
{
}

/// A sign-in compares the name and the hash of the whole password, and once
/// the token is made it is kept and the reply is the successful "Logged in".
pub proof fn lemma_sign_in_checks_hash_and_succeeds(user: User, secret: Seq<char>)
    requires
        5 <= trimmed_len(user.name@) <= 32,
        5 <= trimmed_len(user.pass@) <= 32,
    ensures
        sign_in_next(user, secret, SignInEvent::Submitted { signed_in: false }) == ActionView::VerifyPassword(
            user.name@,
            hex(pbkdf2_sha256(utf8(user.pass@), utf8(secret), HASH_ROUNDS)),
        ),
        sign_in_next(user, secret, SignInEvent::Verified(Ok(1))) == ActionView::IssueToken(user.name@),
        sign_in_next(user, secret, SignInEvent::TokenEncoded(true)) == ActionView::Remember(
            (HttpStatus::Success, true, Sign::success().detail@),
        ),
{
}

/// A token whose expiry lies before now is never renewed: the refresh answers
/// "Token Expired" and learns no user; a token not yet expired is renewed for
/// its own user.
pub proof fn lemma_refresh_drops_expired_tokens(holder: Option<Seq<char>>, c: Claims, now: u128)
    ensures
        c.exp < now ==> refresh_next(holder, RefreshEvent::Decoded { claims: Some(c), now })
            == ActionView::Respond((HttpStatus::Unauthorized, false, JWTError::expired().detail@)),
        c.exp < now ==> refresh_holder(holder, RefreshEvent::Decoded { claims: Some(c), now }) == holder,
        c.exp >= now ==> refresh_next(holder, RefreshEvent::Decoded { claims: Some(c), now })
            == ActionView::IssueToken(c.name@),
        c.exp >= now ==> refresh_holder(holder, RefreshEvent::Decoded { claims: Some(c), now }) == Some(
            c.name@,
        ),
{
}

} // verus!
