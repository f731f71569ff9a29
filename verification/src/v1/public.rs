//! The decisions of the routes that need no user: registration, login, and the
//! reset of a password.

use vstd::prelude::*;
use crate::clock::{now, MAX_CLOCK, MAX_DURATION};
use crate::database::user::{password_checked, User, UserView};
use crate::encoding::{lowercase, to_lowercase};
use crate::error::Error;
use crate::text::str_eq;
use crate::v1::oauth::{issued, AccessToken, AccessTokenView};
use crate::v1::scope::{Scope, TokenType};
use crate::v1::{response, Message, Response, Status};

verus! {

/// The user that was found, if any, by its view.
pub open spec fn seen(user: Option<&User>) -> Option<UserView> {
    match user {
        Some(u) => Some(u@),
        None => None,
    }
}

/// How many seconds the token of a login lasts that is not to be remembered.
pub const SESSION_SECONDS: i64 = 3600;

/// Whether the token may use the routes that need no user.
pub open spec fn public_verdict(token: AccessTokenView) -> Result<(), Response> {
    if token.is_public() {
        Ok(())
    } else {
        Err(response(Status::Forbidden, Message::WrongPermissions))
    }
}

/// Judges whether the token may use the routes that need no user.
pub fn require_public(token: &AccessToken) -> (r: Result<(), Response>)
    ensures
        r == public_verdict(token@),
{
    if token.is_public() {
        Ok(())
    } else {
        Err(Response { status: Status::Forbidden, message: Message::WrongPermissions })
    }
}

/// What a registration answers: a token that is not public is refused, a name that
/// is taken is told before an email address that is taken.
pub open spec fn register_answer(token: AccessTokenView, name_taken: bool, email_taken: bool)
    -> Response {
    if !token.is_public() {
        response(Status::Forbidden, Message::WrongPermissions)
    } else if name_taken {
        response(Status::Accepted, Message::UsernameTaken)
    } else if email_taken {
        response(Status::Accepted, Message::EmailTaken)
    } else {
        response(Status::Success, Message::Registered)
    }
}

/// The answer of a registration. The user is registered where the request succeeds.
pub fn register(token: &AccessToken, name_taken: bool, email_taken: bool) -> (answer: Response)
    ensures
        answer == register_answer(token@, name_taken, email_taken),
{
    if !token.is_public() {
        Response { status: Status::Forbidden, message: Message::WrongPermissions }
    } else if name_taken {
        Response { status: Status::Accepted, message: Message::UsernameTaken }
    } else if email_taken {
        Response { status: Status::Accepted, message: Message::EmailTaken }
    } else {
        Response { status: Status::Success, message: Message::Registered }
    }
}

/// How many seconds the token of a login lasts: what the configuration says for a
/// session that is to be remembered, else an hour.
pub open spec fn session_length(remember_me: bool, session_remember: i64) -> i64 {
    if remember_me {
        session_remember
    } else {
        SESSION_SECONDS
    }
}

/// What a login comes to.
pub enum Login {
    /// The user is logged in with this token.
    Granted(AccessToken),
    /// The login is refused with this answer.
    Refused(Response),
}

/// What a login comes to, the token taken by its view.
pub enum LoginView {
    Granted(AccessTokenView),
    Refused(Response),
}

impl View for Login {
    type V = LoginView;

    open spec fn view(&self) -> LoginView {
        match *self {
            Login::Granted(token) => LoginView::Granted(token@),
            Login::Refused(answer) => LoginView::Refused(answer),
        }
    }
}

/// What a login comes to at `now`. The token of the request must be public. A user
/// that is not found is told the same as a wrong password; a ban is told before a
/// disabled account, and both before the password is looked at. The token that is
/// granted is the user's own, issued to the application of the token of the request.
pub open spec fn login_verdict(
    token: AccessTokenView,
    user: Option<UserView>,
    password: Seq<char>,
    remember_me: bool,
    session_remember: i64,
    now: i64,
) -> Result<LoginView, Error> {
    if !token.is_public() {
        Ok(LoginView::Refused(response(Status::Forbidden, Message::WrongPermissions)))
    } else {
        match user {
            None => Ok(LoginView::Refused(response(Status::Accepted, Message::IncorrectLogin))),
            Some(u) => if u.banned_at(now) {
                Ok(LoginView::Refused(response(Status::Accepted, Message::Banned)))
            } else if !u.enabled {
                Ok(LoginView::Refused(response(Status::Accepted, Message::Disabled)))
            } else {
                match password_checked(password, u.password) {
                    Err(e) => Err(e),
                    Ok(false) => Ok(
                        LoginView::Refused(response(Status::Accepted, Message::IncorrectLogin)),
                    ),
                    Ok(true) => Ok(
                        LoginView::Granted(
                            issued(
                                token.app_id,
                                seq![Scope::User(u.user_id)],
                                TokenType::Bearer,
                                now,
                                session_length(remember_me, session_remember),
                            ),
                        ),
                    ),
                }
            },
        }
    }
}

/// Decides on a login at `now`.
pub fn login_at(
    token: &AccessToken,
    user: Option<&User>,
    password: &str,
    remember_me: bool,
    session_remember: i64,
    now: i64,
) -> (r: Result<Login, Error>)
    requires
        0 <= now <= MAX_CLOCK,
        -MAX_DURATION <= session_remember <= MAX_DURATION,
    ensures
        match r {
            Ok(login) => login_verdict(
                token@,
                seen(user),
                password@,
                remember_me,
                session_remember,
                now,
            ) == Ok::<LoginView, Error>(login@),
            Err(e) => login_verdict(
                token@,
                seen(user),
                password@,
                remember_me,
                session_remember,
                now,
            ) == Err::<LoginView, Error>(e),
        },
{
    if !token.is_public() {
        return Ok(
            Login::Refused(
                Response { status: Status::Forbidden, message: Message::WrongPermissions },
            ),
        );
    }
    let user = match user {
        Some(u) => u,
        None => {
            return Ok(
                Login::Refused(
                    Response { status: Status::Accepted, message: Message::IncorrectLogin },
                ),
            );
        },
    };
    if user.is_banned_at(now) {
        return Ok(
            Login::Refused(Response { status: Status::Accepted, message: Message::Banned }),
        );
    }
    if !user.is_enabled() {
        return Ok(
            Login::Refused(Response { status: Status::Accepted, message: Message::Disabled }),
        );
    }
    match user.check_password(password) {
        Err(e) => Err(e),
        Ok(false) => Ok(
            Login::Refused(Response { status: Status::Accepted, message: Message::IncorrectLogin }),
        ),
        Ok(true) => {
            let validity = if remember_me {
                session_remember
            } else {
                SESSION_SECONDS
            };
            let scopes = [Scope::User(user.get_id())];
            assert(scopes@ =~= seq![Scope::User(user@.user_id)]);
            Ok(
                Login::Granted(
                    AccessToken::issued_at(
                        token.get_app_id(),
                        &scopes,
                        TokenType::Bearer,
                        now,
                        validity,
                    ),
                ),
            )
        },
    }
}

/// Decides on a login at the reading of the clock.
pub fn login(
    token: &AccessToken,
    user: Option<&User>,
    password: &str,
    remember_me: bool,
    session_remember: i64,
) -> (r: Result<Login, Error>)
    requires
        -MAX_DURATION <= session_remember <= MAX_DURATION,
    ensures
        exists|now: i64|
            0 <= now <= MAX_CLOCK && match r {
                Ok(login) => #[trigger] login_verdict(
                    token@,
                    seen(user),
                    password@,
                    remember_me,
                    session_remember,
                    now,
                ) == Ok::<LoginView, Error>(login@),
                Err(e) => login_verdict(
                    token@,
                    seen(user),
                    password@,
                    remember_me,
                    session_remember,
                    now,
                ) == Err::<LoginView, Error>(e),
            },
{
    let t = now();
    login_at(token, user, password, remember_me, session_remember, t)
}

/// What the start of a reset of a password answers: the reset begins where the user
/// of that name exists and the email address is the user's, compared in lower case.
pub open spec fn start_reset_answer(token: AccessTokenView, user: Option<UserView>, email: Seq<char>)
    -> Response {
    if !token.is_public() {
        response(Status::Forbidden, Message::WrongPermissions)
    } else {
        match user {
            Some(u) if lowercase(u.email.0) == lowercase(email) => response(
                Status::Success,
                Message::ResetBegun,
            ),
            _ => response(Status::Forbidden, Message::IncorrectUsernameOrEmail),
        }
    }
}

/// The answer to the start of a reset of a password. The key is issued and mailed
/// where the request succeeds.
pub fn start_reset_password(token: &AccessToken, user: Option<&User>, email: &str) -> (answer:
    Response)
    ensures
        answer == start_reset_answer(
            token@,
            seen(user),
            email@,
        ),
{
    if !token.is_public() {
        return Response { status: Status::Forbidden, message: Message::WrongPermissions };
    }
    match user {
        Some(u) => {
            let own = to_lowercase(u.get_email());
            let given = to_lowercase(email);
            if str_eq(own.as_str(), given.as_str()) {
                Response { status: Status::Success, message: Message::ResetBegun }
            } else {
                Response { status: Status::Forbidden, message: Message::IncorrectUsernameOrEmail }
            }
        },
        None => Response { status: Status::Forbidden, message: Message::IncorrectUsernameOrEmail },
    }
}

/// The answer to the reset of a password whose key was redeemed: only a public
/// token may ask for it.
pub fn reset_password(token: &AccessToken) -> (answer: Response)
    ensures
        answer == (if token@.is_public() {
            response(Status::Success, Message::PasswordReset)
        } else {
            response(Status::Forbidden, Message::WrongPermissions)
        }),
{
    if token.is_public() {
        Response { status: Status::Success, message: Message::PasswordReset }
    } else {
        Response { status: Status::Forbidden, message: Message::WrongPermissions }
    }
}

/// The answer to the confirmation of an email address whose key was redeemed: only
/// a public token may ask for it.
pub fn confirm_email(token: &AccessToken) -> (answer: Response)
    ensures
        answer == (if token@.is_public() {
            response(Status::Success, Message::EmailConfirmed)
        } else {
            response(Status::Forbidden, Message::WrongPermissions)
        }),
{
    if token.is_public() {
        Response { status: Status::Success, message: Message::EmailConfirmed }
    } else {
        Response { status: Status::Forbidden, message: Message::WrongPermissions }
    }
}

} // verus!
