//! Tokens, scopes and the decisions of the routes.

pub mod oauth;
pub mod public;
pub mod scope;
pub mod user;

use vstd::prelude::*;
use vstd::string::*;
use vstd::utf8::*;
use crate::encoding::{base32_text, to_base32};

verus! {

/// How many characters of a secret name the picture of its barcode.
pub const BARCODE_NAME_LEN: usize = 10;

/// The directory in which the pictures of the barcodes are kept.
pub open spec fn qrcodes_path() -> Seq<char> {
    "qrcodes/"@
}

/// The directory in which the pictures of the barcodes are kept.
pub fn get_qrcodes_path() -> (path: &'static str)
    ensures
        path@ == qrcodes_path(),
{
    "qrcodes/"
}

/// What the barcode of an authenticator says: the address of the time-based codes of
/// six digits that change every thirty seconds, for the user and the secret.
pub open spec fn barcode_text(secret: Seq<char>, user_email: Seq<char>) -> Seq<char> {
    "otpauth://totp/"@ + user_email + "?secret="@ + base32_text(encode_utf8(secret))
        + "&issuer=%20Auth%20Example&digits=6&period=30"@
}

/// Where the picture of the barcode of `secret` is kept: under the first ten
/// characters of the secret.
pub open spec fn barcode_file(secret: Seq<char>) -> Seq<char> {
    qrcodes_path() + secret.subrange(0, BARCODE_NAME_LEN as int) + ".png"@
}

/// What the barcode of an authenticator says. Rendering and saving the picture is
/// the caller's part.
pub fn create_barcode(secret: &str, user_email: &str) -> (info: String)
    ensures
        info@ == barcode_text(secret@, user_email@),
{
    let encoded = to_base32(secret.as_bytes());
    let mut info = String::from_str("otpauth://totp/");
    info.append(user_email);
    info.append("?secret=");
    info.append(encoded.as_str());
    info.append("&issuer=%20Auth%20Example&digits=6&period=30");
    info
}

/// Where the picture of the barcode of `secret` is kept, or nothing where the secret
/// is not ASCII or has fewer than ten characters.
pub fn barcode_path(secret: &str) -> (path: Option<String>)
    ensures
        match path {
            Some(p) => secret.is_ascii() && secret@.len() >= BARCODE_NAME_LEN && p@
                == barcode_file(secret@),
            None => !(secret.is_ascii() && secret@.len() >= BARCODE_NAME_LEN),
        },
{
    if !secret.is_ascii() {
        return None;
    }
    proof {
        is_ascii_spec_bytes(secret);
    }
    if secret.as_bytes().len() < BARCODE_NAME_LEN {
        return None;
    }
    let mut path = String::from_str("qrcodes/");
    path.append(secret.substring_ascii(0, BARCODE_NAME_LEN));
    path.append(".png");
    Some(path)
}

/// The status of an answer to a request.
#[derive(Clone, Copy, Debug, PartialEq, Eq, Structural)]
pub enum Status {
    /// The request was carried out.
    Success,
    /// The request was understood and not carried out; the message says why.
    Accepted,
    /// The request cannot be read.
    BadRequest,
    /// The request is not allowed.
    Forbidden,
    /// What the request is about is not there.
    NotFound,
}

/// What an answer says.
#[derive(Clone, Copy, Debug, PartialEq, Eq, Structural)]
pub enum Message {
    /// Nothing.
    Nothing,
    /// The token has expired.
    TokenExpired,
    /// No bearer token came with the request.
    TokenMissing,
    /// The token lacks the scope that the route asks for.
    WrongPermissions,
    /// The token is neither an administrator's nor the user's own.
    UnauthorizedScope,
    /// The token is no administrator's.
    UnauthorizedToken,
    /// The client is unknown or its secret is wrong.
    UnauthorizedClient,
    /// The user name is taken.
    UsernameTaken,
    /// The user name is taken by another user.
    UsernameTakenByOther,
    /// The email address is taken.
    EmailTaken,
    /// The user was registered.
    Registered,
    /// Name, email address or password are wrong.
    IncorrectLogin,
    /// The user is banned.
    Banned,
    /// The account is disabled.
    Disabled,
    /// The reset of the password has begun.
    ResetBegun,
    /// Name or email address are wrong.
    IncorrectUsernameOrEmail,
    /// The password was reset.
    PasswordReset,
    /// The email address was confirmed.
    EmailConfirmed,
    /// The confirmation was sent again.
    ConfirmationResent,
    /// The user of the token was removed meanwhile.
    UserWasDeleted,
    /// The code of the authenticator was right.
    Authenticated,
    /// The code of the authenticator was wrong.
    BadCode,
    /// The user that was asked for was removed.
    DeletedUser,
    /// The user was removed.
    UserRemoved,
    /// The user is not there.
    UserNotFound,
    /// The user was updated.
    UserUpdated,
    /// A confirmed first name cannot be changed by the user.
    FirstNameConfirmed,
    /// A confirmed last name cannot be changed by the user.
    LastNameConfirmed,
    /// A confirmed birthday cannot be changed by the user.
    BirthdayConfirmed,
}

/// The answer to a request that is not carried out, or that has nothing to hand over.
#[derive(Clone, Copy, Debug, PartialEq, Eq, Structural)]
pub struct Response {
    /// The status.
    pub status: Status,
    /// What the answer says.
    pub message: Message,
}

impl Message {
    /// The words of each message.
    pub open spec fn words(self) -> Seq<char> {
        match self {
            Message::Nothing => ""@,
            Message::TokenExpired => "the token has expired"@,
            Message::TokenMissing => "a bearer token must be provided"@,
            Message::WrongPermissions => "token does not have correct permissions"@,
            Message::UnauthorizedScope => "unauthorized scope"@,
            Message::UnauthorizedToken => "unauthorized token"@,
            Message::UnauthorizedClient => "unauthorized client or secret"@,
            Message::UsernameTaken => "user with that username already exists"@,
            Message::UsernameTakenByOther => " a user with that username already exists"@,
            Message::EmailTaken => "user with that email already exists"@,
            Message::Registered => "successfully registered!"@,
            Message::IncorrectLogin => "incorrect username, email or password"@,
            Message::Banned => "user is banned"@,
            Message::Disabled => "user is disabled"@,
            Message::ResetBegun => "began reset password process"@,
            Message::IncorrectUsernameOrEmail => "incorrect username or email"@,
            Message::PasswordReset => "successfully reset your password"@,
            Message::EmailConfirmed => "successfully confirmed email"@,
            Message::ConfirmationResent => "successfully resent confirmation email"@,
            Message::UserWasDeleted => "the user was deleted"@,
            Message::Authenticated => "successfully authenticated"@,
            Message::BadCode => "Unsuccessful authentication code"@,
            Message::DeletedUser => "deleted user"@,
            Message::UserRemoved => "user deleted"@,
            Message::UserNotFound => "user not found"@,
            Message::UserUpdated => "succesffuly updated user"@,
            Message::FirstNameConfirmed =>
                "users cannot change an already confirmed first name, please contact support if the change is needed"@,
            Message::LastNameConfirmed =>
                "users cannot change an already confirmed last name, please contact support if the change is needed"@,
            Message::BirthdayConfirmed =>
                "users cannot change an already confirmed birthday, please contact support if the change is needed"@,
        }
    }

    /// The words of the message.
    pub fn text(&self) -> (text: &'static str)
        ensures
            text@ == self.words(),
    {
        match self {
            Message::Nothing => "",
            Message::TokenExpired => "the token has expired",
            Message::TokenMissing => "a bearer token must be provided",
            Message::WrongPermissions => "token does not have correct permissions",
            Message::UnauthorizedScope => "unauthorized scope",
            Message::UnauthorizedToken => "unauthorized token",
            Message::UnauthorizedClient => "unauthorized client or secret",
            Message::UsernameTaken => "user with that username already exists",
            Message::UsernameTakenByOther => " a user with that username already exists",
            Message::EmailTaken => "user with that email already exists",
            Message::Registered => "successfully registered!",
            Message::IncorrectLogin => "incorrect username, email or password",
            Message::Banned => "user is banned",
            Message::Disabled => "user is disabled",
            Message::ResetBegun => "began reset password process",
            Message::IncorrectUsernameOrEmail => "incorrect username or email",
            Message::PasswordReset => "successfully reset your password",
            Message::EmailConfirmed => "successfully confirmed email",
            Message::ConfirmationResent => "successfully resent confirmation email",
            Message::UserWasDeleted => "the user was deleted",
            Message::Authenticated => "successfully authenticated",
            Message::BadCode => "Unsuccessful authentication code",
            Message::DeletedUser => "deleted user",
            Message::UserRemoved => "user deleted",
            Message::UserNotFound => "user not found",
            Message::UserUpdated => "succesffuly updated user",
            Message::FirstNameConfirmed =>
                "users cannot change an already confirmed first name, please contact support if the change is needed",
            Message::LastNameConfirmed =>
                "users cannot change an already confirmed last name, please contact support if the change is needed",
            Message::BirthdayConfirmed =>
                "users cannot change an already confirmed birthday, please contact support if the change is needed",
        }
    }
}

/// The answer of the given status and message.
pub open spec fn response(status: Status, message: Message) -> Response {
    Response { status, message }
}

/// What the bearer token of a request is worth at `now`: the token, or the answer
/// that refuses the request. `decoded` is nothing where no token came, and the
/// failure of the reading where the token could not be read.
pub open spec fn bearer_verdict(
    decoded: Option<Result<crate::v1::oauth::AccessTokenView, crate::error::Error>>,
    now: i64,
) -> Result<crate::v1::oauth::AccessTokenView, Response> {
    match decoded {
        None => Err(response(Status::Forbidden, Message::TokenMissing)),
        Some(Err(_)) => Err(response(Status::BadRequest, Message::Nothing)),
        Some(Ok(token)) => if token.expired_at(now) {
            Err(response(Status::Forbidden, Message::TokenExpired))
        } else {
            Ok(token)
        },
    }
}

/// Judges the bearer token of a request at `now`.
pub fn get_token_at(
    decoded: Option<Result<crate::v1::oauth::AccessToken, crate::error::Error>>,
    now: i64,
) -> (r: Result<crate::v1::oauth::AccessToken, Response>)
    ensures
        match r {
            Ok(token) => decoded matches Some(Ok(t)) && t == token && bearer_verdict(
                Some(Ok(t@)),
                now,
            ) == Ok::<crate::v1::oauth::AccessTokenView, Response>(token@),
            Err(answer) => match decoded {
                None => answer == response(Status::Forbidden, Message::TokenMissing),
                Some(Err(_)) => answer == response(Status::BadRequest, Message::Nothing),
                Some(Ok(t)) => t@.expired_at(now) && answer == response(
                    Status::Forbidden,
                    Message::TokenExpired,
                ),
            },
        },
{
    match decoded {
        None => Err(Response { status: Status::Forbidden, message: Message::TokenMissing }),
        Some(Err(_)) => Err(Response { status: Status::BadRequest, message: Message::Nothing }),
        Some(Ok(token)) => {
            if token.has_expired_at(now) {
                Err(Response { status: Status::Forbidden, message: Message::TokenExpired })
            } else {
                Ok(token)
            }
        },
    }
}

/// Judges the bearer token of a request at the reading of the clock.
pub fn get_token(
    decoded: Option<Result<crate::v1::oauth::AccessToken, crate::error::Error>>,
) -> (r: Result<crate::v1::oauth::AccessToken, Response>)
    ensures
        decoded is None ==> r == Err::<crate::v1::oauth::AccessToken, Response>(
            response(Status::Forbidden, Message::TokenMissing),
        ),
        decoded matches Some(Err(_)) ==> r == Err::<crate::v1::oauth::AccessToken, Response>(
            response(Status::BadRequest, Message::Nothing),
        ),
        decoded matches Some(Ok(t)) ==> exists|now: i64|
            0 <= now <= crate::clock::MAX_CLOCK && (if #[trigger] t@.expired_at(now) {
                r == Err::<crate::v1::oauth::AccessToken, Response>(
                    response(Status::Forbidden, Message::TokenExpired),
                )
            } else {
                r == Ok::<crate::v1::oauth::AccessToken, Response>(t)
            }),
{
    let t = crate::clock::now();
    get_token_at(decoded, t)
}

} // verus!
