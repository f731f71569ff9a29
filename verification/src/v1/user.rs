//! The decisions of the routes on users.

use vstd::prelude::*;
use crate::clock::{date_text, Date};
use crate::database::command::{commands_view, push_command, Command, CommandView};
use crate::database::keys::{user_key, verify_email_key};
use crate::database::user::{
    address_command, optional_text_view, password_checked, readdress_commands, rename_commands,
    unconfirmed, Address, AddressView, User, UserView,
};
use crate::database::{Database, RESEND_EMAIL_SECONDS};
use crate::secret::{email_confirmation_key, is_hash_of, is_one_time_key, pbkdf2_hash, EMAIL_KEY_BYTES, PASSWORD_ITERATIONS};
use crate::text::decimal;
use crate::utils::{EmailStruct, EmailType};
use crate::v1::oauth::given;
use crate::encoding::{lowercase, to_lowercase};
use crate::error::Error;
use crate::text::str_eq;
use crate::v1::oauth::{AccessToken, AccessTokenView};
use crate::v1::scope::Scope;
use crate::clock::{now, MAX_CLOCK};
use crate::secret::{totp_accepts, TOTP_PERIOD};
use crate::v1::{response, Message, Response, Status};

verus! {

impl AccessTokenView {
    /// The id of the last scope of a user among the first `upto` scopes.
    pub open spec fn last_user(self, upto: int) -> Option<u64>
        decreases upto,
    {
        if upto <= 0 || upto > self.scopes.len() {
            None
        } else {
            match self.scopes[upto - 1] {
                Scope::User(id) => Some(id),
                _ => self.last_user(upto - 1),
            }
        }
    }

    /// The user for whom the token speaks on the routes of a user: that of its last
    /// scope of a user.
    pub open spec fn speaks_for(self) -> Option<u64> {
        self.last_user(self.scopes.len() as int)
    }
}

/// The user for whom the token speaks, or the answer that refuses a token of no user.
pub fn user_of_token(token: &AccessToken) -> (r: Result<u64, Response>)
    ensures
        match r {
            Ok(id) => token@.speaks_for() == Some(id),
            Err(answer) => token@.speaks_for() is None && answer == response(
                Status::Forbidden,
                Message::WrongPermissions,
            ),
        },
{
    let scopes = token.get_scopes();
    let mut i: usize = scopes.len();
    while i > 0
        invariant
            0 <= i <= scopes.len(),
            scopes@ == token@.scopes,
            token@.speaks_for() == token@.last_user(i as int),
        decreases i,
    {
        match scopes[i - 1] {
            Scope::User(id) => {
                return Ok(id);
            },
            _ => {},
        }
        i -= 1;
    }
    Err(Response { status: Status::Forbidden, message: Message::WrongPermissions })
}

/// What the routes answer that act for the user of the token, before they act: a
/// token of no user is refused, and so is one whose user is no longer there.
pub open spec fn own_user_answer(token: AccessTokenView, exists: bool) -> Option<Response> {
    if token.speaks_for() is None {
        Some(response(Status::Forbidden, Message::WrongPermissions))
    } else if !exists {
        Some(response(Status::Forbidden, Message::UserWasDeleted))
    } else {
        None
    }
}

/// The answer when the confirmation of an email address is sent again.
pub fn resend_email_confirmation(token: &AccessToken, exists: bool) -> (answer: Response)
    ensures
        answer == match own_user_answer(token@, exists) {
            Some(refusal) => refusal,
            None => response(Status::Success, Message::ConfirmationResent),
        },
{
    match user_of_token(token) {
        Err(refusal) => refusal,
        Ok(_) => {
            if exists {
                Response { status: Status::Success, message: Message::ConfirmationResent }
            } else {
                Response { status: Status::Forbidden, message: Message::UserWasDeleted }
            }
        },
    }
}

/// The answer to a code of the authenticator, checked at `now`.
pub fn authenticate_at(token: &AccessToken, user: Option<&User>, code: u32, now: i64) -> (answer:
    Response)
    ensures
        answer == match own_user_answer(token@, user is Some) {
            Some(refusal) => refusal,
            None => if now >= 0 && crate::secret::totp_accepts(
                user->0@.authenticator_secret,
                code,
                crate::secret::TOTP_PERIOD,
                now as u64,
            ) {
                response(Status::Success, Message::Authenticated)
            } else {
                response(Status::Accepted, Message::BadCode)
            },
        },
{
    match user_of_token(token) {
        Err(refusal) => refusal,
        Ok(_) => match user {
            None => Response { status: Status::Forbidden, message: Message::UserWasDeleted },
            Some(u) => {
                if u.check_authenticator_code_at(code, now) {
                    Response { status: Status::Success, message: Message::Authenticated }
                } else {
                    Response { status: Status::Accepted, message: Message::BadCode }
                }
            },
        },
    }
}

/// Whether a token may read or change the user with the id: an administrator's may,
/// and the user's own.
pub fn may_access(token: &AccessToken, user_id: u64) -> (r: Result<(), Response>)
    ensures
        match r {
            Ok(_) => token@.authorizes(Some(user_id), false),
            Err(answer) => !token@.authorizes(Some(user_id), false) && answer == response(
                Status::Forbidden,
                Message::UnauthorizedScope,
            ),
        },
{
    if token.authorizes(Some(user_id), false) {
        Ok(())
    } else {
        Err(Response { status: Status::Forbidden, message: Message::UnauthorizedScope })
    }
}

/// Whether a token may do what only administrators do.
pub fn require_admin(token: &AccessToken, message: Message) -> (r: Result<(), Response>)
    ensures
        match r {
            Ok(_) => token@.is_admin(),
            Err(answer) => !token@.is_admin() && answer == response(Status::Forbidden, message),
        },
{
    if token.is_admin() {
        Ok(())
    } else {
        Err(Response { status: Status::Forbidden, message })
    }
}

/// The answer to the reading of a user: nothing is refused to an administrator or
/// to the user; a user that is not there is told as removed. `None` says that the
/// user is handed over.
pub fn get_user(token: &AccessToken, user_id: u64, exists: bool) -> (answer: Option<Response>)
    ensures
        answer == (if !token@.authorizes(Some(user_id), false) {
            Some(response(Status::Forbidden, Message::UnauthorizedScope))
        } else if !exists {
            Some(response(Status::Accepted, Message::DeletedUser))
        } else {
            None
        }),
{
    match may_access(token, user_id) {
        Err(refusal) => Some(refusal),
        Ok(_) => {
            if exists {
                None
            } else {
                Some(Response { status: Status::Accepted, message: Message::DeletedUser })
            }
        },
    }
}

/// The answer to the removal of a user: only an administrator removes users. The
/// user is removed where the request succeeds.
pub fn delete_user(token: &AccessToken, exists: bool) -> (answer: Response)
    ensures
        answer == (if !token@.is_admin() {
            response(Status::Forbidden, Message::UnauthorizedScope)
        } else if exists {
            response(Status::Success, Message::UserRemoved)
        } else {
            response(Status::NotFound, Message::UserNotFound)
        }),
{
    match require_admin(token, Message::UnauthorizedScope) {
        Err(refusal) => refusal,
        Ok(_) => {
            if exists {
                Response { status: Status::Success, message: Message::UserRemoved }
            } else {
                Response { status: Status::NotFound, message: Message::UserNotFound }
            }
        },
    }
}

/// Whether a user may take a name: the name is free, or it is in lower case the name
/// that the user holds, which is the user's own in another case.
pub fn may_rename(user: &User, new_username: &str, taken: bool) -> (r: bool)
    ensures
        r == (!taken || user@.username == lowercase(new_username@)),
{
    if !taken {
        return true;
    }
    let new = to_lowercase(new_username);
    str_eq(user.get_username(), new.as_str())
}

/// Whether a field that may be confirmed is changed on request: as long as it is
/// not confirmed, and at any time by an administrator.
pub fn may_change(token: &AccessToken, confirmed: bool) -> (r: bool)
    ensures
        r == (!confirmed || token@.is_admin()),
{
    !confirmed || token.is_admin()
}

/// Whether the password of a user is changed on request: for a token that is no
/// administrator's, where the old password came with the request and is right.
pub fn may_change_password(token: &AccessToken, user: &User, old_password: Option<&str>) -> (r:
    Result<bool, Error>)
    ensures
        r == (if token@.is_admin() {
            Ok::<bool, Error>(false)
        } else {
            match old_password {
                None => Ok::<bool, Error>(false),
                Some(old) => password_checked(old@, user@.password),
            }
        }),
{
    if token.is_admin() {
        return Ok(false);
    }
    match old_password {
        None => Ok(false),
        Some(old) => user.check_password(old),
    }
}

/// The answer to a code of the authenticator, checked at the reading of the clock.
pub fn authenticate(token: &AccessToken, user: Option<&User>, code: u32) -> (answer: Response)
    ensures
        match own_user_answer(token@, user is Some) {
            Some(refusal) => answer == refusal,
            None => exists|now: i64|
                0 <= now <= MAX_CLOCK && answer == (if #[trigger] totp_accepts(
                    user->0@.authenticator_secret,
                    code,
                    TOTP_PERIOD,
                    now as u64,
                ) {
                    response(Status::Success, Message::Authenticated)
                } else {
                    response(Status::Accepted, Message::BadCode)
                }),
        },
{
    let t = now();
    authenticate_at(token, user, code, t)
}

/// Whether a new secret of the authenticator is made for the user of the token:
/// nothing is refused where the token speaks for a user that is there.
pub fn generate_authenticator_code(token: &AccessToken, exists: bool) -> (refusal: Option<
    Response,
>)
    ensures
        refusal == own_user_answer(token@, exists),
{
    match user_of_token(token) {
        Err(refusal) => Some(refusal),
        Ok(_) => {
            if exists {
                None
            } else {
                Some(Response { status: Status::Forbidden, message: Message::UserWasDeleted })
            }
        },
    }
}

/// Whether all users are handed over: to administrators only.
pub fn get_all_users(token: &AccessToken) -> (r: Result<(), Response>)
    ensures
        match r {
            Ok(_) => token@.is_admin(),
            Err(answer) => !token@.is_admin() && answer == response(
                Status::Forbidden,
                Message::UnauthorizedScope,
            ),
        },
{
    require_admin(token, Message::UnauthorizedScope)
}

/// Whether a user is updated on request: by an administrator or by the user, where
/// the user is there. `None` says that the update goes on, field by field.
pub fn update_user(token: &AccessToken, user_id: u64, exists: bool) -> (answer: Option<Response>)
    ensures
        answer == (if !token@.authorizes(Some(user_id), false) {
            Some(response(Status::Forbidden, Message::UnauthorizedScope))
        } else if !exists {
            Some(response(Status::Success, Message::Nothing))
        } else {
            None
        }),
{
    match may_access(token, user_id) {
        Err(refusal) => Some(refusal),
        Ok(_) => {
            if exists {
                None
            } else {
                Some(Response { status: Status::Success, message: Message::Nothing })
            }
        },
    }
}

/// What a request to update a user asks for. A field that is absent is left as it is.
pub struct UpdateUser {
    /// Another name.
    pub new_username: Option<String>,
    /// Another password.
    pub new_password: Option<String>,
    /// The password so far, which a user gives to change it.
    pub old_password: Option<String>,
    /// Another first name.
    pub new_first: Option<String>,
    /// Another last name.
    pub new_last: Option<String>,
    /// Another address.
    pub new_address: Option<Address>,
    /// Another birthday.
    pub new_birthday: Option<Date>,
    /// Another phone number.
    pub new_phone: Option<String>,
    /// Another email address.
    pub new_email: Option<String>,
    /// Another place of the picture.
    pub new_image: Option<String>,
}

/// How far an update has come: the commands to run so far, the answer as it stands,
/// whether the update has stopped, and the mail to send.
pub struct Update {
    /// The commands that store what was changed, in their order.
    pub commands: Vec<Command>,
    /// The answer to the request.
    pub answer: Response,
    /// Whether a refusal has ended the update.
    pub stopped: bool,
    /// The mail that carries the key to confirm another email address.
    pub mail: Option<EmailStruct>,
}

/// An update with the user that it has changed so far, as specifications see them.
pub struct Draft {
    pub user: UserView,
    pub commands: Seq<CommandView>,
    pub answer: Response,
    pub stopped: bool,
    pub mail: Option<(Seq<char>, Seq<char>)>,
}

/// An update and the user as it stands, seen together.
pub open spec fn draft(user: UserView, update: Update) -> Draft {
    Draft {
        user,
        commands: commands_view(update.commands@),
        answer: update.answer,
        stopped: update.stopped,
        mail: match update.mail {
            Some(m) => Some((m.email@, m.email_key@)),
            None => None,
        },
    }
}

/// An update that goes on with the user changed and more commands to run.
pub open spec fn changed(d: Draft, user: UserView, commands: Seq<CommandView>) -> Draft {
    Draft { user, commands: d.commands + commands, ..d }
}

/// An update that a refusal ends: what was changed before stays changed.
pub open spec fn refused(d: Draft, message: Message) -> Draft {
    Draft { answer: response(Status::Accepted, message), stopped: true, ..d }
}

/// The name: taken where it is free or the user's own in another case; else the
/// answer tells of the conflict, the name is left, and the update goes on.
pub open spec fn with_username(d: Draft, name: Option<Seq<char>>, taken: bool) -> Draft {
    match name {
        Some(n) if !d.stopped => if !taken || d.user.username == lowercase(n) {
            changed(
                d,
                UserView { username: lowercase(n), display_name: n, ..d.user },
                rename_commands(d.user.user_id, d.user.username, n),
            )
        } else {
            Draft { answer: response(Status::Accepted, Message::UsernameTakenByOther), ..d }
        },
        _ => d,
    }
}

/// The password: the hash is stored where one is given.
pub open spec fn with_password(d: Draft, hash: Option<Seq<char>>) -> Draft {
    match hash {
        Some(h) if !d.stopped => changed(
            d,
            UserView { password: h, ..d.user },
            seq![
                CommandView::HSet { key: user_key(d.user.user_id), field: "password"@, value: h },
            ],
        ),
        _ => d,
    }
}

/// The first name: set, and then not confirmed, unless it is confirmed and the token
/// is no administrator's, which ends the update.
pub open spec fn with_first_name(d: Draft, admin: bool, name: Option<Seq<char>>) -> Draft {
    match name {
        Some(n) if !d.stopped => if admin || !(d.user.first_name matches Some(f) && f.1) {
            changed(
                d,
                UserView { first_name: Some((n, false)), ..d.user },
                seq![
                    CommandView::HSetMultiple {
                        key: user_key(d.user.user_id),
                        items: unconfirmed("first_name"@, n, "first_name_confirmed"@),
                    },
                ],
            )
        } else {
            refused(d, Message::FirstNameConfirmed)
        },
        _ => d,
    }
}

/// The last name: as the first name.
pub open spec fn with_last_name(d: Draft, admin: bool, name: Option<Seq<char>>) -> Draft {
    match name {
        Some(n) if !d.stopped => if admin || !(d.user.last_name matches Some(f) && f.1) {
            changed(
                d,
                UserView { last_name: Some((n, false)), ..d.user },
                seq![
                    CommandView::HSetMultiple {
                        key: user_key(d.user.user_id),
                        items: unconfirmed("last_name"@, n, "last_name_confirmed"@),
                    },
                ],
            )
        } else {
            refused(d, Message::LastNameConfirmed)
        },
        _ => d,
    }
}

/// The address: set, and then not confirmed.
pub open spec fn with_address(d: Draft, address: Option<AddressView>) -> Draft {
    match address {
        Some(a) if !d.stopped => changed(
            d,
            UserView { address: Some((a, false)), ..d.user },
            seq![address_command(d.user.user_id, Some(a))],
        ),
        _ => d,
    }
}

/// The birthday: as the first name.
pub open spec fn with_birthday(d: Draft, admin: bool, date: Option<(int, int, int)>) -> Draft {
    match date {
        Some(b) if !d.stopped => if admin || !(d.user.birthday matches Some(f) && f.1) {
            changed(
                d,
                UserView { birthday: Some((b, false)), ..d.user },
                seq![
                    CommandView::HSetMultiple {
                        key: user_key(d.user.user_id),
                        items: unconfirmed("birthday"@, date_text(b.0, b.1, b.2), "birthday_confirmed"@),
                    },
                ],
            )
        } else {
            refused(d, Message::BirthdayConfirmed)
        },
        _ => d,
    }
}

/// The phone number: set, and then not confirmed.
pub open spec fn with_phone(d: Draft, phone: Option<Seq<char>>) -> Draft {
    match phone {
        Some(p) if !d.stopped => changed(
            d,
            UserView { phone: Some((p, false)), ..d.user },
            seq![
                CommandView::HSetMultiple {
                    key: user_key(d.user.user_id),
                    items: unconfirmed("phone"@, p, "phone_confirmed"@),
                },
            ],
        ),
        _ => d,
    }
}

/// The email address: where it is taken the answer tells so, the address is left,
/// and the update goes on; else it is set and then not confirmed, the key to confirm
/// it is issued, and the mail that carries the key is to be sent to it.
pub open spec fn with_email(d: Draft, email: Option<Seq<char>>, taken: bool, key: Seq<char>)
    -> Draft {
    match email {
        Some(e) if !d.stopped => if taken {
            Draft { answer: response(Status::Accepted, Message::EmailTaken), ..d }
        } else {
            Draft {
                mail: Some((e, key)),
                ..changed(
                    d,
                    UserView { email: (lowercase(e), false), ..d.user },
                    readdress_commands(d.user.user_id, d.user.email.0, e) + seq![
                        CommandView::SetEx {
                            key: verify_email_key(key),
                            value: decimal(d.user.user_id as nat),
                            seconds: RESEND_EMAIL_SECONDS,
                        },
                    ],
                )
            }
        },
        _ => d,
    }
}

/// The place of the picture: set.
pub open spec fn with_image(d: Draft, image: Option<Seq<char>>) -> Draft {
    match image {
        Some(i) if !d.stopped => changed(
            d,
            UserView { image_url: Some(i), ..d.user },
            seq![
                CommandView::HSet { key: user_key(d.user.user_id), field: "image_url"@, value: i },
            ],
        ),
        _ => d,
    }
}

/// The update that has changed nothing yet.
pub open spec fn first_draft(user: UserView) -> Draft {
    Draft {
        user,
        commands: Seq::empty(),
        answer: response(Status::Success, Message::UserUpdated),
        stopped: false,
        mail: None,
    }
}

/// What an update comes to. The fields are taken in this order: name, password,
/// first name, last name, address, birthday, phone number, email address, picture.
/// A refusal of a confirmed field ends the update at once: the fields before it are
/// changed, those after it are not.
pub open spec fn update_outcome(
    admin: bool,
    user: UserView,
    request: UpdateUser,
    name_taken: bool,
    email_taken: bool,
    hash: Option<Seq<char>>,
    key: Seq<char>,
) -> Draft {
    let d1 = with_username(first_draft(user), optional_text_view(request.new_username), name_taken);
    let d2 = with_password(d1, hash);
    let d3 = with_first_name(d2, admin, optional_text_view(request.new_first));
    let d4 = with_last_name(d3, admin, optional_text_view(request.new_last));
    let d5 = with_address(
        d4,
        match request.new_address {
            Some(a) => Some(a@),
            None => None,
        },
    );
    let d6 = with_birthday(
        d5,
        admin,
        match request.new_birthday {
            Some(b) => Some(b.parts()),
            None => None,
        },
    );
    let d7 = with_phone(d6, optional_text_view(request.new_phone));
    let d8 = with_email(d7, optional_text_view(request.new_email), email_taken, key);
    with_image(d8, optional_text_view(request.new_image))
}

/// The text of a field of a request, where it is there.
pub fn asked(text: &Option<String>) -> (r: Option<&str>)
    ensures
        given(r) == optional_text_view(*text),
{
    match text {
        Some(t) => Some(t.as_str()),
        None => None,
    }
}

impl Update {
    /// An update that has changed nothing yet.
    pub fn new() -> (update: Update)
        ensures
            forall|user: UserView| #[trigger] draft(user, update) == first_draft(user),
    {
        let commands: Vec<Command> = Vec::new();
        assert(commands_view(commands@) =~= Seq::empty());
        Update {
            commands,
            answer: Response { status: Status::Success, message: Message::UserUpdated },
            stopped: false,
            mail: None,
        }
    }

    /// Adds commands to run.
    pub fn run(&mut self, mut commands: Vec<Command>)
        ensures
            commands_view(final(self).commands@) == commands_view(old(self).commands@)
                + commands_view(commands@),
            final(self).answer == old(self).answer,
            final(self).stopped == old(self).stopped,
            final(self).mail == old(self).mail,
    {
        let ghost before = commands_view(self.commands@);
        let ghost added = commands_view(commands@);
        self.commands.append(&mut commands);
        assert(commands_view(self.commands@) =~= before + added);
    }

    /// Adds one command to run.
    pub fn run_one(&mut self, command: Command)
        ensures
            commands_view(final(self).commands@) == commands_view(old(self).commands@) + seq![
                command@,
            ],
            final(self).answer == old(self).answer,
            final(self).stopped == old(self).stopped,
            final(self).mail == old(self).mail,
    {
        let ghost before = commands_view(self.commands@);
        push_command(&mut self.commands, command);
        assert(commands_view(self.commands@) =~= before + seq![command@]);
    }

    /// Takes another name for the user, where that is allowed.
    pub fn username(&mut self, user: &mut User, name: Option<&str>, taken: bool)
        ensures
            draft(final(user)@, *final(self)) == with_username(
                draft(old(user)@, *old(self)),
                given(name),
                taken,
            ),
    {
        if self.stopped {
            return ;
        }
        match name {
            Some(n) => {
                if may_rename(user, n, taken) {
                    let commands = user.set_username(n);
                    self.run(commands);
                } else {
                    self.answer =
                    Response { status: Status::Accepted, message: Message::UsernameTakenByOther };
                }
            },
            None => {},
        }
    }

    /// Stores the hash of another password for the user.
    pub fn password(&mut self, user: &mut User, hash: Option<String>)
        ensures
            draft(final(user)@, *final(self)) == with_password(
                draft(old(user)@, *old(self)),
                optional_text_view(hash),
            ),
    {
        if self.stopped {
            return ;
        }
        match hash {
            Some(h) => {
                let command = user.set_password_hash(h);
                self.run_one(command);
            },
            None => {},
        }
    }

    /// Takes another first name for the user, where that is allowed.
    pub fn first_name(&mut self, token: &AccessToken, user: &mut User, name: Option<&str>)
        ensures
            draft(final(user)@, *final(self)) == with_first_name(
                draft(old(user)@, *old(self)),
                token@.is_admin(),
                given(name),
            ),
    {
        if self.stopped {
            return ;
        }
        match name {
            Some(n) => {
                if may_change(token, user.is_first_name_confirmed()) {
                    let command = user.set_first_name(n);
                    self.run_one(command);
                } else {
                    self.refuse(Message::FirstNameConfirmed);
                }
            },
            None => {},
        }
    }

    /// Takes another last name for the user, where that is allowed.
    pub fn last_name(&mut self, token: &AccessToken, user: &mut User, name: Option<&str>)
        ensures
            draft(final(user)@, *final(self)) == with_last_name(
                draft(old(user)@, *old(self)),
                token@.is_admin(),
                given(name),
            ),
    {
        if self.stopped {
            return ;
        }
        match name {
            Some(n) => {
                if may_change(token, user.is_last_name_confirmed()) {
                    let command = user.set_last_name(n);
                    self.run_one(command);
                } else {
                    self.refuse(Message::LastNameConfirmed);
                }
            },
            None => {},
        }
    }

    /// Takes another address for the user.
    pub fn address(&mut self, user: &mut User, address: Option<Address>)
        ensures
            draft(final(user)@, *final(self)) == with_address(
                draft(old(user)@, *old(self)),
                match address {
                    Some(a) => Some(a@),
                    None => None,
                },
            ),
    {
        if self.stopped {
            return ;
        }
        match address {
            Some(a) => {
                let command = user.set_address(Some(a));
                self.run_one(command);
            },
            None => {},
        }
    }

    /// Takes another birthday for the user, where that is allowed.
    pub fn birthday(&mut self, token: &AccessToken, user: &mut User, date: Option<Date>)
        ensures
            draft(final(user)@, *final(self)) == with_birthday(
                draft(old(user)@, *old(self)),
                token@.is_admin(),
                match date {
                    Some(b) => Some(b.parts()),
                    None => None,
                },
            ),
    {
        if self.stopped {
            return ;
        }
        match date {
            Some(b) => {
                if may_change(token, user.is_birthday_confirmed()) {
                    let command = user.set_birthday(Some(b));
                    self.run_one(command);
                } else {
                    self.refuse(Message::BirthdayConfirmed);
                }
            },
            None => {},
        }
    }

    /// Takes another phone number for the user.
    pub fn phone(&mut self, user: &mut User, phone: Option<&str>)
        ensures
            draft(final(user)@, *final(self)) == with_phone(
                draft(old(user)@, *old(self)),
                given(phone),
            ),
    {
        if self.stopped {
            return ;
        }
        match phone {
            Some(p) => {
                let command = user.set_phone(Some(p));
                self.run_one(command);
            },
            None => {},
        }
    }

    /// Takes another email address for the user, where it is free, and issues the
    /// key `key` to confirm it.
    pub fn email(&mut self, user: &mut User, email: Option<&str>, taken: bool, key: &str)
        ensures
            draft(final(user)@, *final(self)) == with_email(
                draft(old(user)@, *old(self)),
                given(email),
                taken,
                key@,
            ),
    {
        if self.stopped {
            return ;
        }
        match email {
            Some(e) => {
                if taken {
                    self.answer =
                    Response { status: Status::Accepted, message: Message::EmailTaken };
                } else {
                    let ghost before = commands_view(self.commands@);
                    let ghost id = user@.user_id;
                    let ghost old_email = user@.email.0;
                    let commands = user.set_email(e);
                    self.run(commands);
                    self.run_one(Database::start_confirm_email(user.get_id(), key));
                    self.mail = Some(
                        EmailStruct {
                            email: String::from_str(e),
                            email_key: String::from_str(key),
                            email_type: EmailType::Email,
                        },
                    );
                    assert(commands_view(self.commands@) =~= before + (readdress_commands(
                        id,
                        old_email,
                        e@,
                    ) + seq![
                        CommandView::SetEx {
                            key: verify_email_key(key@),
                            value: decimal(id as nat),
                            seconds: RESEND_EMAIL_SECONDS,
                        },
                    ]));
                }
            },
            None => {},
        }
    }

    /// Takes another place of the picture for the user.
    pub fn image(&mut self, user: &mut User, image: Option<&str>)
        ensures
            draft(final(user)@, *final(self)) == with_image(
                draft(old(user)@, *old(self)),
                given(image),
            ),
    {
        if self.stopped {
            return ;
        }
        match image {
            Some(i) => {
                let command = user.set_image(Some(i));
                self.run_one(command);
            },
            None => {},
        }
    }

    /// Ends the update with a refusal.
    pub fn refuse(&mut self, message: Message)
        ensures
            final(self).commands == old(self).commands,
            final(self).mail == old(self).mail,
            final(self).stopped,
            final(self).answer == response(Status::Accepted, message),
    {
        self.answer = Response { status: Status::Accepted, message };
        self.stopped = true;
    }
}

/// Carries out a request to update a user, from what the store and the outside gave:
/// whether the name and the email address that are asked for are taken, the hash of
/// the new password where the password is to change, and the key that confirms
/// another email address.
pub fn update_fields_with(
    token: &AccessToken,
    user: &mut User,
    request: UpdateUser,
    name_taken: bool,
    email_taken: bool,
    hash: Option<String>,
    key: &str,
) -> (update: Update)
    ensures
        draft(final(user)@, update) == update_outcome(
            token@.is_admin(),
            old(user)@,
            request,
            name_taken,
            email_taken,
            optional_text_view(hash),
            key@,
        ),
{
    let mut update = Update::new();
    update.username(user, asked(&request.new_username), name_taken);
    update.password(user, hash);
    update.first_name(token, user, asked(&request.new_first));
    update.last_name(token, user, asked(&request.new_last));
    update.address(user, request.new_address);
    update.birthday(token, user, request.new_birthday);
    update.phone(user, asked(&request.new_phone));
    update.email(user, asked(&request.new_email), email_taken, key);
    update.image(user, asked(&request.new_image));
    update
}

/// Whether an update changes the password: where another password is asked for, the
/// token is no administrator's, and the old password came with the request and is
/// right. The check of the old password may fail with `PasswordError`.
pub open spec fn password_change(admin: bool, user: UserView, request: UpdateUser) -> Result<
    bool,
    Error,
> {
    match (request.new_password, request.old_password) {
        (Some(_), Some(old)) if !admin => password_checked(old@, user.password),
        _ => Ok(false),
    }
}

/// Carries out a request to update a user; `name_taken` and `email_taken` say what
/// the store answered for the name and the email address that are asked for.
///
/// Fails, and changes nothing, with `PasswordError` where the stored hash cannot be
/// checked, and with `IO` where the system gives no randomness for the salt of the
/// new hash.
pub fn update_fields(
    token: &AccessToken,
    user: &mut User,
    request: UpdateUser,
    name_taken: bool,
    email_taken: bool,
) -> (r: Result<Update, Error>)
    ensures
        match r {
            Ok(update) => exists|hash: Option<Seq<char>>, key: Seq<char>|
                {
                    &&& is_one_time_key(key, EMAIL_KEY_BYTES as nat)
                    &&& match password_change(token@.is_admin(), old(user)@, request) {
                        Ok(true) => hash matches Some(h) && is_hash_of(
                            h,
                            request.new_password->0@,
                        ),
                        Ok(false) => hash is None,
                        Err(_) => false,
                    }
                    &&& draft(final(user)@, update) == #[trigger] update_outcome(
                        token@.is_admin(),
                        old(user)@,
                        request,
                        name_taken,
                        email_taken,
                        hash,
                        key,
                    )
                },
            Err(e) => final(user)@ == old(user)@ && (password_change(
                token@.is_admin(),
                old(user)@,
                request,
            ) == Err::<bool, Error>(e) || (password_change(token@.is_admin(), old(user)@, request)
                == Ok::<bool, Error>(true) && e == Error::IO)),
        },
{
    let change = match &request.new_password {
        Some(_) => match may_change_password(token, user, asked(&request.old_password)) {
            Ok(change) => change,
            Err(e) => {
                return Err(e);
            },
        },
        None => false,
    };
    let hash = if change {
        match &request.new_password {
            Some(new) => match pbkdf2_hash(new.as_str(), PASSWORD_ITERATIONS) {
                Some(h) => Some(h),
                None => {
                    return Err(Error::IO);
                },
            },
            None => None,
        }
    } else {
        None
    };
    let key = email_confirmation_key();
    let ghost h = optional_text_view(hash);
    let update = update_fields_with(
        token,
        user,
        request,
        name_taken,
        email_taken,
        hash,
        key.as_str(),
    );
    assert(draft(user@, update) == update_outcome(
        token@.is_admin(),
        old(user)@,
        request,
        name_taken,
        email_taken,
        h,
        key@,
    ));
    Ok(update)
}

} // verus!
