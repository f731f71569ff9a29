use rest_api_server::database::oauth::DeveloperClient;
use rest_api_server::database::user::User;
use rest_api_server::database::Database;
use rest_api_server::error::Error;
use rest_api_server::v1::oauth::{create_client, token, token_at, AccessToken};
use rest_api_server::v1::public::{
    confirm_email, login, login_at, register, require_public, reset_password,
    start_reset_password, Login,
};
use rest_api_server::v1::scope::{Scope, TokenType};
use rest_api_server::v1::user::{
    authenticate, authenticate_at, delete_user, generate_authenticator_code, get_all_users,
    get_user, may_access, may_change, may_change_password, may_rename, require_admin,
    resend_email_confirmation, update_fields, update_fields_with, update_user, user_of_token,
    UpdateUser,
};
use rest_api_server::database::command::Command;
use rest_api_server::v1::{get_token, get_token_at, Message, Response, Status};

fn pairs(items: &[(&str, &str)]) -> Vec<(String, String)> {
    items.iter().map(|(k, v)| (k.to_string(), v.to_string())).collect()
}

fn with(scopes: &[Scope]) -> AccessToken {
    AccessToken::issued_at("app", scopes, TokenType::Bearer, 1_000, 100)
}

fn answer(status: Status, message: Message) -> Response {
    Response { status, message }
}

fn user(fields: &[(&str, &str)]) -> User {
    User::from_db_data_at(42, &pairs(fields), &vec![], 0).unwrap()
}

fn hashed(password: &str) -> String {
    let mut fresh = user(&[]);
    match fresh.set_password(password).unwrap() {
        rest_api_server::database::command::Command::HSet { value, .. } => value,
        other => panic!("{:?}", other),
    }
}

#[test]
fn a_client_of_admin_scope_and_a_token_of_a_user() {
    let scopes = vec![Scope::Admin];
    let admitted = Database::admit_new_client(
        "console",
        &scopes,
        &rest_api_server::database::command::Reply::Int(0),
    )
    .unwrap()
    .0;
    let (id, secret, commands) = Database::create_developer_client(admitted, 1, 0);
    assert_eq!(commands.len(), 2);
    let data = match &commands[0] {
        rest_api_server::database::command::Command::HSetMultiple { items, .. } => items.clone(),
        other => panic!("{:?}", other),
    };
    let client = DeveloperClient::from_db_data(&id, &data).unwrap();
    assert_eq!(client.get_scopes(), &vec![Scope::Admin]);
    assert_eq!(client.get_secret(), &secret);
    let token = AccessToken::issued_at("42", &[Scope::User(42)], TokenType::Bearer, 0, 3_600);
    assert!(!token.is_admin());
    assert!(token.is_user(42));
    assert!(!token.is_user(7));
}

#[test]
fn the_bearer_token_of_a_request() {
    assert_eq!(get_token_at(None, 0).unwrap_err(), answer(Status::Forbidden, Message::TokenMissing));
    assert_eq!(
        get_token_at(Some(Err(Error::Base64)), 0).unwrap_err(),
        answer(Status::BadRequest, Message::Nothing)
    );
    assert_eq!(
        get_token_at(Some(Ok(with(&[]))), 1_100).unwrap_err(),
        answer(Status::Forbidden, Message::TokenExpired)
    );
    assert_eq!(get_token_at(Some(Ok(with(&[]))), 1_099).unwrap().get_expiration(), 1_100);
    assert_eq!(get_token(Some(Ok(with(&[])))).unwrap_err().message, Message::TokenExpired);
    let fresh = AccessToken::new("app", &[], TokenType::Bearer, 60);
    assert!(get_token(Some(Ok(fresh))).is_ok());
    assert_eq!(get_token(None).unwrap_err().message.text(), "a bearer token must be provided");
}

#[test]
fn a_client_asks_for_a_token() {
    let data = pairs(&[
        ("name", "app"),
        ("secret", "MDEyMzQ1Njc4OTAxMjM0NTY3ODk="),
        ("scopes", "[\"Public\",\"Admin\"]"),
    ]);
    let client = DeveloperClient::from_db_data("9-x", &data).unwrap();
    assert_eq!(
        token_at(None, Some(&client), 5).unwrap_err(),
        answer(Status::BadRequest, Message::Nothing)
    );
    assert_eq!(
        token_at(Some("wrong"), Some(&client), 5).unwrap_err(),
        answer(Status::Forbidden, Message::UnauthorizedClient)
    );
    assert_eq!(
        token_at(Some("MDEyMzQ1Njc4OTAxMjM0NTY3ODk="), None, 5).unwrap_err(),
        answer(Status::Forbidden, Message::UnauthorizedClient)
    );
    let granted = token_at(Some("MDEyMzQ1Njc4OTAxMjM0NTY3ODk="), Some(&client), 5).unwrap();
    assert_eq!(granted.get_app_id(), "9-x");
    assert_eq!(granted.get_scopes(), &vec![Scope::Public, Scope::Admin]);
    assert_eq!(granted.get_expiration(), 5 + 28_800);
    let now = token(Some("MDEyMzQ1Njc4OTAxMjM0NTY3ODk="), Some(&client)).unwrap();
    assert!(!now.has_expired());
    assert!(token(None, None).is_err());
}

#[test]
fn only_administrators_create_clients() {
    assert!(create_client(&with(&[Scope::Admin])).is_ok());
    assert_eq!(
        create_client(&with(&[Scope::Public, Scope::User(1)])).unwrap_err(),
        answer(Status::Forbidden, Message::UnauthorizedToken)
    );
    assert_eq!(
        require_admin(&with(&[]), Message::UnauthorizedScope).unwrap_err(),
        answer(Status::Forbidden, Message::UnauthorizedScope)
    );
}

#[test]
fn the_answers_of_a_registration() {
    let public = with(&[Scope::Public]);
    assert_eq!(register(&public, false, false), answer(Status::Success, Message::Registered));
    assert_eq!(register(&public, true, false), answer(Status::Accepted, Message::UsernameTaken));
    assert_eq!(register(&public, true, true), answer(Status::Accepted, Message::UsernameTaken));
    assert_eq!(register(&public, false, true), answer(Status::Accepted, Message::EmailTaken));
    assert_eq!(
        register(&with(&[Scope::Admin]), false, false),
        answer(Status::Forbidden, Message::WrongPermissions)
    );
    assert!(require_public(&public).is_ok());
    assert_eq!(
        require_public(&with(&[Scope::User(1)])).unwrap_err(),
        answer(Status::Forbidden, Message::WrongPermissions)
    );
    assert_eq!(Message::Registered.text(), "successfully registered!");
    assert_eq!(Message::UsernameTaken.text(), "user with that username already exists");
    assert_eq!(Message::EmailTaken.text(), "user with that email already exists");
    assert_eq!(Message::WrongPermissions.text(), "token does not have correct permissions");
}

#[test]
fn a_login_is_granted_to_the_right_password() {
    let public = with(&[Scope::Public]);
    let hash = hashed("pw");
    let alice = user(&[("enabled", "1"), ("password", &hash)]);
    match login_at(&public, Some(&alice), "pw", false, 99, 1_000).unwrap() {
        Login::Granted(token) => {
            assert_eq!(token.get_app_id(), "app");
            assert_eq!(token.get_scopes(), &vec![Scope::User(42)]);
            assert_eq!(token.get_expiration(), 1_000 + 3_600);
        }
        Login::Refused(r) => panic!("{:?}", r),
    }
    match login_at(&public, Some(&alice), "pw", true, 99, 1_000).unwrap() {
        Login::Granted(token) => assert_eq!(token.get_expiration(), 1_099),
        Login::Refused(r) => panic!("{:?}", r),
    }
    assert!(matches!(login(&public, Some(&alice), "pw", false, 0).unwrap(), Login::Granted(_)));
}

#[test]
fn a_login_is_refused() {
    let public = with(&[Scope::Public]);
    let hash = hashed("pw");
    let refused = |token: &AccessToken, user: Option<&User>, password: &str, now: i64| {
        match login_at(token, user, password, false, 0, now).unwrap() {
            Login::Refused(r) => r,
            Login::Granted(_) => panic!("granted"),
        }
    };
    let alice = user(&[("enabled", "1"), ("password", &hash)]);
    assert_eq!(
        refused(&with(&[Scope::Admin]), Some(&alice), "pw", 0),
        answer(Status::Forbidden, Message::WrongPermissions)
    );
    assert_eq!(refused(&public, None, "pw", 0), answer(Status::Accepted, Message::IncorrectLogin));
    assert_eq!(
        refused(&public, Some(&alice), "PW", 0),
        answer(Status::Accepted, Message::IncorrectLogin)
    );
    let disabled = user(&[("enabled", "0"), ("password", &hash)]);
    assert_eq!(
        refused(&public, Some(&disabled), "pw", 0),
        answer(Status::Accepted, Message::Disabled)
    );
    let banned = user(&[("enabled", "0"), ("password", &hash), ("banned", "500")]);
    assert_eq!(refused(&public, Some(&banned), "pw", 499), answer(Status::Accepted, Message::Banned));
    assert_eq!(
        refused(&public, Some(&banned), "pw", 500),
        answer(Status::Accepted, Message::Disabled)
    );
    let broken = user(&[("enabled", "1"), ("password", "plain")]);
    assert_eq!(
        login_at(&public, Some(&broken), "plain", false, 0, 0).map(|_| ()).unwrap_err(),
        Error::PasswordError
    );
}

#[test]
fn the_reset_of_a_password_begins_for_the_right_address() {
    let public = with(&[Scope::Public]);
    let alice = user(&[("email", "alice@example.com")]);
    assert_eq!(
        start_reset_password(&public, Some(&alice), "Alice@Example.COM"),
        answer(Status::Success, Message::ResetBegun)
    );
    assert_eq!(
        start_reset_password(&public, Some(&alice), "bob@example.com"),
        answer(Status::Forbidden, Message::IncorrectUsernameOrEmail)
    );
    assert_eq!(
        start_reset_password(&public, None, "alice@example.com"),
        answer(Status::Forbidden, Message::IncorrectUsernameOrEmail)
    );
    assert_eq!(
        start_reset_password(&with(&[]), Some(&alice), "alice@example.com"),
        answer(Status::Forbidden, Message::WrongPermissions)
    );
    assert_eq!(reset_password(&public), answer(Status::Success, Message::PasswordReset));
    assert_eq!(reset_password(&with(&[])), answer(Status::Forbidden, Message::WrongPermissions));
    assert_eq!(confirm_email(&public), answer(Status::Success, Message::EmailConfirmed));
    assert_eq!(confirm_email(&with(&[Scope::Admin])), answer(Status::Forbidden, Message::WrongPermissions));
}

#[test]
fn the_user_for_whom_a_token_speaks() {
    assert_eq!(user_of_token(&with(&[Scope::User(3)])).unwrap(), 3);
    assert_eq!(user_of_token(&with(&[Scope::User(3), Scope::Admin, Scope::User(9), Scope::Public])).unwrap(), 9);
    assert_eq!(
        user_of_token(&with(&[Scope::Admin, Scope::Public])).unwrap_err(),
        answer(Status::Forbidden, Message::WrongPermissions)
    );
    let token = with(&[Scope::User(3)]);
    assert_eq!(resend_email_confirmation(&token, true), answer(Status::Success, Message::ConfirmationResent));
    assert_eq!(resend_email_confirmation(&token, false), answer(Status::Forbidden, Message::UserWasDeleted));
    assert_eq!(
        resend_email_confirmation(&with(&[]), true),
        answer(Status::Forbidden, Message::WrongPermissions)
    );
}

#[test]
fn the_code_of_the_authenticator_is_judged() {
    let token = with(&[Scope::User(42)]);
    let alice = user(&[("authenticator_secret", "12345678901234567890")]);
    assert_eq!(
        authenticate_at(&token, Some(&alice), 287082, 59),
        answer(Status::Success, Message::Authenticated)
    );
    assert_eq!(
        authenticate_at(&token, Some(&alice), 287082, 90),
        answer(Status::Accepted, Message::BadCode)
    );
    assert_eq!(
        authenticate_at(&token, None, 287082, 59),
        answer(Status::Forbidden, Message::UserWasDeleted)
    );
    assert_eq!(
        authenticate_at(&with(&[Scope::Admin]), Some(&alice), 287082, 59),
        answer(Status::Forbidden, Message::WrongPermissions)
    );
}

#[test]
fn a_user_is_read_by_itself_and_by_administrators() {
    let own = with(&[Scope::User(5)]);
    let admin = with(&[Scope::Admin]);
    let public = with(&[Scope::Public]);
    assert_eq!(get_user(&own, 5, true), None);
    assert_eq!(get_user(&admin, 5, true), None);
    assert_eq!(get_user(&own, 6, true), Some(answer(Status::Forbidden, Message::UnauthorizedScope)));
    assert_eq!(get_user(&public, 5, true), Some(answer(Status::Forbidden, Message::UnauthorizedScope)));
    assert_eq!(get_user(&own, 5, false), Some(answer(Status::Accepted, Message::DeletedUser)));
    assert!(may_access(&own, 5).is_ok());
    assert!(may_access(&own, 6).is_err());
    assert_eq!(delete_user(&admin, true), answer(Status::Success, Message::UserRemoved));
    assert_eq!(delete_user(&admin, false), answer(Status::NotFound, Message::UserNotFound));
    assert_eq!(delete_user(&own, true), answer(Status::Forbidden, Message::UnauthorizedScope));
}

#[test]
fn what_an_update_may_change() {
    let own = with(&[Scope::User(42)]);
    let admin = with(&[Scope::Admin]);
    assert!(may_change(&own, false));
    assert!(!may_change(&own, true));
    assert!(may_change(&admin, true));
    let alice = user(&[("username", "alice"), ("password", &hashed("old"))]);
    assert!(may_rename(&alice, "alicia", false));
    assert!(may_rename(&alice, "ALICE", true));
    assert!(!may_rename(&alice, "bob", true));
    assert_eq!(may_change_password(&own, &alice, Some("old")), Ok(true));
    assert_eq!(may_change_password(&own, &alice, Some("new")), Ok(false));
    assert_eq!(may_change_password(&own, &alice, None), Ok(false));
    assert_eq!(may_change_password(&admin, &alice, Some("old")), Ok(false));
    let broken = user(&[("password", "plain")]);
    assert_eq!(may_change_password(&own, &broken, Some("plain")), Err(Error::PasswordError));
}

#[test]
fn the_gates_of_the_routes_on_users() {
    let own = with(&[Scope::User(42)]);
    let admin = with(&[Scope::Admin]);
    assert_eq!(generate_authenticator_code(&own, true), None);
    assert_eq!(
        generate_authenticator_code(&own, false),
        Some(answer(Status::Forbidden, Message::UserWasDeleted))
    );
    assert_eq!(
        generate_authenticator_code(&admin, true),
        Some(answer(Status::Forbidden, Message::WrongPermissions))
    );
    assert!(get_all_users(&admin).is_ok());
    assert_eq!(get_all_users(&own).unwrap_err(), answer(Status::Forbidden, Message::UnauthorizedScope));
    assert_eq!(update_user(&own, 42, true), None);
    assert_eq!(update_user(&admin, 42, true), None);
    assert_eq!(update_user(&own, 42, false), Some(answer(Status::Success, Message::Nothing)));
    assert_eq!(update_user(&own, 43, true), Some(answer(Status::Forbidden, Message::UnauthorizedScope)));
    let alice = user(&[("authenticator_secret", "12345678901234567890")]);
    assert_eq!(authenticate(&own, Some(&alice), 1_000_000), answer(Status::Accepted, Message::BadCode));
    assert_eq!(authenticate(&own, None, 1), answer(Status::Forbidden, Message::UserWasDeleted));
}

fn request() -> UpdateUser {
    UpdateUser {
        new_username: None,
        new_password: None,
        old_password: None,
        new_first: None,
        new_last: None,
        new_address: None,
        new_birthday: None,
        new_phone: None,
        new_email: None,
        new_image: None,
    }
}

#[test]
fn an_update_without_fields_changes_nothing() {
    let own = with(&[Scope::User(42)]);
    let mut alice = user(&[("username", "alice")]);
    let update = update_fields_with(&own, &mut alice, request(), true, true, None, "k");
    assert!(update.commands.is_empty());
    assert!(update.mail.is_none());
    assert!(!update.stopped);
    assert_eq!(update.answer, answer(Status::Success, Message::UserUpdated));
}

#[test]
fn a_name_that_another_user_has_is_left_and_the_update_goes_on() {
    let own = with(&[Scope::User(42)]);
    let mut alice = user(&[("username", "alice")]);
    let mut asked = request();
    asked.new_username = Some("bob".to_string());
    asked.new_phone = Some("555".to_string());
    let update = update_fields_with(&own, &mut alice, asked, true, false, None, "k");
    assert_eq!(update.answer, answer(Status::Accepted, Message::UsernameTakenByOther));
    assert_eq!(update.answer.message.text(), " a user with that username already exists");
    assert!(!update.stopped);
    assert_eq!(alice.get_username(), "alice");
    assert_eq!(alice.get_phone(), Some(("555", false)));
    assert_eq!(update.commands.len(), 1);
    assert!(matches!(&update.commands[0], Command::HSetMultiple { key, items }
        if key == "users:42" && items[0] == ("phone".to_string(), "555".to_string())));
    // The user's own name in another case is no conflict.
    let mut asked = request();
    asked.new_username = Some("ALICE".to_string());
    let update = update_fields_with(&own, &mut alice, asked, true, false, None, "k");
    assert_eq!(update.answer, answer(Status::Success, Message::UserUpdated));
    assert_eq!(alice.get_display_name(), "ALICE");
    assert_eq!(update.commands.len(), 2);
}

#[test]
fn a_confirmed_first_name_ends_the_update_of_a_user() {
    let own = with(&[Scope::User(42)]);
    let fields = [
        ("username", "alice"),
        ("first_name", "Alice"),
        ("first_name_confirmed", "1"),
        ("email", "a@x"),
    ];
    let mut alice = user(&fields);
    let mut asked = request();
    asked.new_username = Some("alicia".to_string());
    asked.new_first = Some("Alicia".to_string());
    asked.new_last = Some("Smith".to_string());
    asked.new_phone = Some("555".to_string());
    asked.new_email = Some("b@x".to_string());
    asked.new_image = Some("http://i".to_string());
    let update = update_fields_with(&own, &mut alice, asked, false, false, None, "k");
    assert_eq!(update.answer, answer(Status::Accepted, Message::FirstNameConfirmed));
    assert!(update.stopped);
    assert!(update.mail.is_none());
    // The name before it was changed; nothing after it was.
    assert_eq!(update.commands.len(), 3);
    assert_eq!(alice.get_username(), "alicia");
    assert_eq!(alice.get_first_name(), Some("Alice"));
    assert!(alice.is_first_name_confirmed());
    assert_eq!(alice.get_last_name(), None);
    assert_eq!(alice.get_phone(), None);
    assert_eq!(alice.get_email(), "a@x");
    assert_eq!(alice.get_image_url(), None);
    // An administrator changes it.
    let mut alice = user(&fields);
    let mut asked = request();
    asked.new_first = Some("Alicia".to_string());
    let update = update_fields_with(&with(&[Scope::Admin]), &mut alice, asked, false, false, None, "k");
    assert_eq!(update.answer, answer(Status::Success, Message::UserUpdated));
    assert_eq!(alice.get_first_name(), Some("Alicia"));
    assert!(!alice.is_first_name_confirmed());
}

#[test]
fn a_confirmed_last_name_or_birthday_ends_the_update() {
    let own = with(&[Scope::User(42)]);
    let mut alice = user(&[("last_name", "Jones"), ("last_name_confirmed", "1")]);
    let mut asked = request();
    asked.new_last = Some("Smith".to_string());
    asked.new_image = Some("http://i".to_string());
    let update = update_fields_with(&own, &mut alice, asked, false, false, None, "k");
    assert_eq!(update.answer, answer(Status::Accepted, Message::LastNameConfirmed));
    assert!(update.commands.is_empty());
    let mut alice = user(&[("birthday", "1990-01-02"), ("birthday_confirmed", "1")]);
    let mut asked = request();
    asked.new_birthday = rest_api_server::clock::Date::new(1991, 1, 2);
    asked.new_phone = Some("5".to_string());
    let update = update_fields_with(&own, &mut alice, asked, false, false, None, "k");
    assert_eq!(update.answer, answer(Status::Accepted, Message::BirthdayConfirmed));
    assert!(update.commands.is_empty());
    assert_eq!(alice.get_birthday().unwrap().year(), 1990);
}

#[test]
fn an_update_of_every_field() {
    let own = with(&[Scope::User(42)]);
    let mut alice = user(&[("username", "alice"), ("email", "a@x")]);
    let asked = UpdateUser {
        new_username: Some("Alicia".to_string()),
        new_password: None,
        old_password: None,
        new_first: Some("A".to_string()),
        new_last: Some("B".to_string()),
        new_address: Some(rest_api_server::database::user::Address::new(
            "1".to_string(), None, "c".to_string(), "s".to_string(), "z".to_string(), "co".to_string(),
        )),
        new_birthday: rest_api_server::clock::Date::new(1991, 1, 2),
        new_phone: Some("5".to_string()),
        new_email: Some("New@x".to_string()),
        new_image: Some("http://i".to_string()),
    };
    let update = update_fields_with(&own, &mut alice, asked, false, false, Some("HASH".to_string()), "KEY");
    assert_eq!(update.answer, answer(Status::Success, Message::UserUpdated));
    let kinds: Vec<String> = update
        .commands
        .iter()
        .map(|c| match c {
            Command::HSetMultiple { key, items } => format!("HMSET {} {}", key, items[0].0),
            Command::HSet { key, field, .. } => format!("HSET {} {}", key, field),
            Command::HDel { key, field } => format!("HDEL {} {}", key, field),
            Command::SetEx { key, value, seconds } => format!("SETEX {} {} {}", key, value, seconds),
            other => format!("{:?}", other),
        })
        .collect();
    assert_eq!(
        kinds,
        vec![
            "HMSET users:42 username",
            "HSET userkeys alicia",
            "HDEL userkeys alice",
            "HSET users:42 password",
            "HMSET users:42 first_name",
            "HMSET users:42 last_name",
            "HMSET users:42:addr address1",
            "HMSET users:42 birthday",
            "HMSET users:42 phone",
            "HMSET users:42 email",
            "HSET emailkeys new@x",
            "HDEL emailkeys a@x",
            "SETEX verify_emails:KEY 42 604800",
            "HSET users:42 image_url",
        ]
    );
    let mail = update.mail.unwrap();
    assert_eq!((mail.email.as_str(), mail.email_key.as_str()), ("New@x", "KEY"));
    assert_eq!(alice.get_password(), "HASH");
    assert_eq!(alice.get_email(), "new@x");
    assert_eq!(alice.get_username(), "alicia");
    assert_eq!(alice.get_display_name(), "Alicia");
}

#[test]
fn an_email_address_that_is_taken_is_left() {
    let own = with(&[Scope::User(42)]);
    let mut alice = user(&[("email", "a@x")]);
    let mut asked = request();
    asked.new_email = Some("b@x".to_string());
    asked.new_image = Some("http://i".to_string());
    let update = update_fields_with(&own, &mut alice, asked, false, true, None, "k");
    assert_eq!(update.answer, answer(Status::Accepted, Message::EmailTaken));
    assert!(update.mail.is_none());
    assert_eq!(alice.get_email(), "a@x");
    assert_eq!(update.commands.len(), 1);
}

#[test]
fn a_password_is_changed_for_the_old_one() {
    let own = with(&[Scope::User(42)]);
    let hash = hashed("old");
    let mut alice = user(&[("password", &hash)]);
    let mut asked = request();
    asked.new_password = Some("new".to_string());
    asked.old_password = Some("wrong".to_string());
    let update = update_fields(&own, &mut alice, asked, false, false).unwrap();
    assert!(update.commands.is_empty());
    assert_eq!(alice.check_password("old"), Ok(true));
    let mut asked = request();
    asked.new_password = Some("new".to_string());
    asked.old_password = Some("old".to_string());
    let update = update_fields(&own, &mut alice, asked, false, false).unwrap();
    assert_eq!(update.commands.len(), 1);
    assert_eq!(alice.check_password("new"), Ok(true));
    assert_eq!(alice.check_password("old"), Ok(false));
    let mut asked = request();
    asked.new_password = Some("newer".to_string());
    asked.old_password = Some("new".to_string());
    let update = update_fields(&with(&[Scope::Admin]), &mut alice, asked, false, false).unwrap();
    assert!(update.commands.is_empty());
    let mut broken = user(&[("password", "plain")]);
    let mut asked = request();
    asked.new_password = Some("x".to_string());
    asked.old_password = Some("plain".to_string());
    assert_eq!(
        update_fields(&own, &mut broken, asked, false, false).map(|_| ()).unwrap_err(),
        Error::PasswordError
    );
    let mut asked = request();
    asked.new_email = Some("n@x".to_string());
    let update = update_fields(&own, &mut broken, asked, false, false).unwrap();
    assert_eq!(update.mail.unwrap().email_key.len(), 7);
}
