use rest_api_server::error::Error;
use rest_api_server::v1::oauth::AccessToken;
use rest_api_server::v1::scope::{scopes_from_text, scopes_to_text, Scope, TokenType};

fn sample() -> AccessToken {
    AccessToken::issued_at(
        "7-abcdefghij",
        &[Scope::Admin, Scope::User(42), Scope::Public],
        TokenType::Bearer,
        1_000,
        3_600,
    )
}

fn same(a: &AccessToken, b: &AccessToken) -> bool {
    a.get_app_id() == b.get_app_id() && a.get_scopes() == b.get_scopes()
        && a.get_token_type() == b.get_token_type() && a.get_expiration() == b.get_expiration()
}

#[test]
fn scopes_are_written_as_json() {
    assert_eq!(scopes_to_text(&vec![]), "[]");
    assert_eq!(scopes_to_text(&vec![Scope::Admin]), "[\"Admin\"]");
    assert_eq!(scopes_to_text(&vec![Scope::Public]), "[\"Public\"]");
    assert_eq!(
        scopes_to_text(&vec![Scope::Admin, Scope::User(42), Scope::Public]),
        "[\"Admin\",{\"variant\":\"User\",\"fields\":[42]},\"Public\"]"
    );
    assert_eq!(
        scopes_to_text(&vec![Scope::User(u64::MAX)]),
        "[{\"variant\":\"User\",\"fields\":[18446744073709551615]}]"
    );
}

#[test]
fn scopes_are_read_back() {
    for scopes in [
        vec![],
        vec![Scope::Admin],
        vec![Scope::User(0)],
        vec![Scope::User(7), Scope::User(7), Scope::Public],
        vec![Scope::Public, Scope::Admin, Scope::User(u64::MAX)],
    ] {
        assert_eq!(scopes_from_text(&scopes_to_text(&scopes)), Some(scopes));
    }
}

#[test]
fn only_the_exact_text_of_scopes_is_read() {
    for text in [
        "",
        "[",
        "]",
        "[\"Admin\"",
        "[\"Admin\",]",
        "[,\"Admin\"]",
        "[\"admin\"]",
        "[ \"Admin\"]",
        "[\"Admin\"] ",
        "[\"Admin\"]]",
        "[{\"variant\":\"User\",\"fields\":[]}]",
        "[{\"variant\":\"User\",\"fields\":[007]}]",
        "[{\"variant\":\"User\",\"fields\":[+7]}]",
        "[{\"variant\":\"User\",\"fields\":[18446744073709551616]}]",
        "[{\"variant\":\"User\",\"fields\":[7]]",
        "[{\"variant\":\"Admin\",\"fields\":[7]}]",
        "[\"Admin\"é]",
    ] {
        assert_eq!(scopes_from_text(text), None, "{:?}", text);
    }
    assert_eq!(
        scopes_from_text("[{\"variant\":\"User\",\"fields\":[0]}]"),
        Some(vec![Scope::User(0)])
    );
}

#[test]
fn a_token_is_good_for_its_validity() {
    let token = AccessToken::issued_at("app", &[Scope::Public], TokenType::Bearer, 1_000, 60);
    assert_eq!(token.get_expiration(), 1_060);
    assert!(!token.has_expired_at(1_000));
    assert!(!token.has_expired_at(1_059));
    assert!(token.has_expired_at(1_060));
    assert!(token.has_expired_at(1_061));
}

#[test]
fn a_token_without_validity_has_expired_at_once() {
    let token = AccessToken::issued_at("app", &[], TokenType::Bearer, 1_000, 0);
    assert!(token.has_expired_at(1_000));
}

#[test]
fn a_fresh_token_has_not_expired() {
    let token = AccessToken::new("app", &[Scope::Admin], TokenType::Bearer, 28_800);
    assert!(!token.has_expired());
    assert!(token.get_expiration() > 28_800);
    let spent = AccessToken::new("app", &[Scope::Admin], TokenType::Bearer, -1);
    assert!(spent.has_expired());
}

#[test]
fn a_token_of_a_user_is_that_user_s_alone() {
    let token = AccessToken::issued_at("app", &[Scope::User(42)], TokenType::Bearer, 0, 3_600);
    assert!(!token.is_admin());
    assert!(!token.is_public());
    assert!(token.is_user(42));
    assert!(!token.is_user(7));
    assert_eq!(token.get_user_id(), Some(42));
}

#[test]
fn scopes_are_members_whatever_their_order() {
    let token = sample();
    assert!(token.is_admin());
    assert!(token.is_public());
    assert!(token.is_user(42));
    assert!(!token.is_user(43));
    assert_eq!(token.get_user_id(), Some(42));
    let none = AccessToken::issued_at("app", &[], TokenType::Bearer, 0, 1);
    assert!(!none.is_admin());
    assert!(!none.is_public());
    assert_eq!(none.get_user_id(), None);
    let two = AccessToken::issued_at(
        "app",
        &[Scope::Public, Scope::User(3), Scope::User(9)],
        TokenType::Bearer,
        0,
        1,
    );
    assert_eq!(two.get_user_id(), Some(3));
}

#[test]
fn authorization_is_membership() {
    let admin = AccessToken::issued_at("a", &[Scope::Admin], TokenType::Bearer, 0, 1);
    let public = AccessToken::issued_at("a", &[Scope::Public], TokenType::Bearer, 0, 1);
    let user = AccessToken::issued_at("a", &[Scope::User(5)], TokenType::Bearer, 0, 1);
    for owner in [None, Some(5), Some(6)] {
        for open in [false, true] {
            assert!(admin.authorizes(owner, open));
            assert_eq!(public.authorizes(owner, open), open);
            assert_eq!(user.authorizes(owner, open), owner == Some(5));
        }
    }
}

#[test]
fn the_fields_of_a_token() {
    let fields = sample().to_fields();
    assert_eq!(
        fields,
        vec![
            ("app_id".to_string(), "7-abcdefghij".to_string()),
            ("expiration".to_string(), "4600".to_string()),
            (
                "scopes".to_string(),
                "[\"Admin\",{\"variant\":\"User\",\"fields\":[42]},\"Public\"]".to_string()
            ),
            ("token_type".to_string(), "Bearer".to_string()),
        ]
    );
}

#[test]
fn the_plaintext_of_a_token_is_a_json_object() {
    let token = AccessToken::issued_at("a\"b", &[Scope::Admin], TokenType::Bearer, 5, 5);
    let text = String::from_utf8(token.plaintext()).unwrap();
    assert_eq!(
        text,
        "{\"app_id\":\"a\\\"b\",\"expiration\":\"10\",\"scopes\":\"[\\\"Admin\\\"]\",\"token_type\":\"Bearer\"}"
    );
}

#[test]
fn a_token_comes_back_from_its_plaintext() {
    for token in [
        sample(),
        AccessToken::issued_at("", &[], TokenType::Bearer, 0, 0),
        AccessToken::issued_at("né \"q\" \\ \n\u{7f}", &[Scope::User(0)], TokenType::Bearer, -5, -5),
        AccessToken::issued_at("x", &[Scope::Public], TokenType::Bearer, i64::MAX - 1, 1),
    ] {
        let read = AccessToken::from_token_at(token.plaintext(), 77).unwrap();
        assert!(same(&read, &token));
    }
}

#[test]
fn a_token_comes_back_through_its_transport_string() {
    let token = sample();
    // The channel of this test encrypts by adding one to every byte.
    let encrypted: Vec<u8> = token.plaintext().iter().map(|b| b.wrapping_add(1)).collect();
    let dto = token.clone().into_dto_at(&encrypted, 1_600);
    assert_eq!(dto.app_id, "7-abcdefghij");
    assert_eq!(dto.scopes, "[\"Admin\",{\"variant\":\"User\",\"fields\":[42]},\"Public\"]");
    assert_eq!(dto.token_type, TokenType::Bearer);
    assert_eq!(dto.expiration, 3_000);
    let received = AccessToken::ciphertext(&dto.access_token).unwrap();
    for bytes in [vec![], vec![0u8], vec![0, 0], vec![255; 3], (0..=255u8).collect::<Vec<u8>>()] {
        let text = sample().into_dto_at(&bytes, 0).access_token;
        assert_eq!(AccessToken::ciphertext(&text).unwrap(), bytes);
    }
    assert_eq!(received, encrypted);
    let decrypted: Vec<u8> = received.iter().map(|b| b.wrapping_sub(1)).collect();
    let read = AccessToken::from_token_at(decrypted, 0).unwrap();
    assert!(same(&read, &token));
}

#[test]
fn the_transport_string_is_standard_base64() {
    let token = sample();
    assert_eq!(token.clone().into_dto_at(b"hello", 0).access_token, "aGVsbG8=");
    assert_eq!(token.clone().into_dto_at(&[0xfb, 0xff], 0).access_token, "+/8=");
    assert_eq!(token.into_dto_at(&[], 0).access_token, "");
    assert_eq!(AccessToken::ciphertext("aGVsbG8=").unwrap(), b"hello".to_vec());
    assert_eq!(AccessToken::ciphertext("+/8=").unwrap(), vec![0xfb, 0xff]);
    assert_eq!(AccessToken::ciphertext("").unwrap(), Vec::<u8>::new());
}

#[test]
fn a_transport_string_that_is_not_base64_is_refused() {
    assert_eq!(AccessToken::ciphertext("a b*c").unwrap_err(), Error::Base64);
    assert_eq!(AccessToken::ciphertext("abcde").unwrap_err(), Error::Base64);
}

#[test]
fn the_seconds_left_of_a_token() {
    let token = AccessToken::issued_at("a", &[], TokenType::Bearer, 100, 50);
    assert_eq!(token.clone().into_dto_at(&[1], 100).expiration, 50);
    assert_eq!(token.clone().into_dto_at(&[1], 150).expiration, 0);
    assert_eq!(token.clone().into_dto_at(&[1], 200).expiration, -50);
    assert_eq!(token.clone().into_dto_at(&[1], i64::MIN).expiration, i64::MAX);
    let old = AccessToken::issued_at("a", &[], TokenType::Bearer, i64::MIN, 0);
    assert_eq!(old.into_dto_at(&[1], 1).expiration, i64::MIN);
    let dto = token.into_dto(&[1]);
    assert!(dto.expiration < 0);
}

#[test]
fn bytes_that_are_no_text_are_refused() {
    assert_eq!(AccessToken::from_token_at(vec![0xff, 0xfe], 0).unwrap_err(), Error::StringUTF8);
}

#[test]
fn text_that_is_no_object_of_strings_is_refused() {
    for text in ["", "not json", "[]", "{\"app_id\":1}", "{\"app_id\":\"a\"", "\"app_id\""] {
        assert_eq!(
            AccessToken::from_token_at(text.as_bytes().to_vec(), 0).unwrap_err(),
            Error::Json,
            "{:?}",
            text
        );
    }
}

#[test]
fn text_that_is_not_flat_is_refused_unread() {
    let exponent = format!("1e{}", "9".repeat(30));
    let nested = "[".repeat(200_000);
    let objects = format!("{{\"a\":{}", "{\"a\":".repeat(100_000));
    for text in [exponent.as_str(), nested.as_str(), objects.as_str(), "{\"a\":[\"b\"]}", "{\"a\":{}}", "-1", "{\"a\":1e5}"] {
        assert_eq!(
            AccessToken::from_token_at(text.as_bytes().to_vec(), 0).unwrap_err(),
            Error::Json
        );
    }
    // Inside a string none of these counts.
    let token = AccessToken::from_token_at(b"{\"app_id\":\"[{1e99\\\"[\"}".to_vec(), 0).unwrap();
    assert_eq!(token.get_app_id(), "[{1e99\"[");
}

#[test]
fn a_field_that_no_token_has_is_refused() {
    let text = "{\"app_id\":\"a\",\"colour\":\"red\"}";
    assert_eq!(
        AccessToken::from_token_at(text.as_bytes().to_vec(), 0).unwrap_err(),
        Error::UnknownField
    );
}

#[test]
fn a_field_that_cannot_be_read_is_refused() {
    let scopes = "{\"scopes\":\"[Admin]\"}";
    assert_eq!(AccessToken::from_token_at(scopes.as_bytes().to_vec(), 0).unwrap_err(), Error::Json);
    let expiration = "{\"expiration\":\"soon\"}";
    assert_eq!(
        AccessToken::from_token_at(expiration.as_bytes().to_vec(), 0).unwrap_err(),
        Error::Json
    );
    let fields = vec![("expiration".to_string(), "x".to_string()), ("nope".to_string(), "".to_string())];
    assert_eq!(AccessToken::from_fields(&fields, 0).unwrap_err(), Error::Json);
    let fields = vec![("nope".to_string(), "".to_string()), ("expiration".to_string(), "x".to_string())];
    assert_eq!(AccessToken::from_fields(&fields, 0).unwrap_err(), Error::UnknownField);
}

#[test]
fn absent_fields_leave_an_empty_token() {
    let token = AccessToken::from_token_at(b"{}".to_vec(), 55).unwrap();
    assert_eq!(token.get_app_id(), "");
    assert!(token.get_scopes().is_empty());
    assert_eq!(token.get_expiration(), 55);
    let read = AccessToken::from_token(b"{\"token_type\":\"whatever\"}".to_vec()).unwrap();
    assert!(read.get_expiration() > 0);
}

#[test]
fn a_changed_plaintext_is_never_another_token_unnoticed() {
    let token = sample();
    let plain = token.plaintext();
    // The name of the token type is the one part of the plaintext that is not read.
    let unread = plain.len() - 8..plain.len() - 2;
    assert_eq!(&plain[unread.clone()], b"Bearer");
    for i in 0..plain.len() {
        let mut changed = plain.clone();
        changed[i] ^= 0x01;
        match AccessToken::from_token_at(changed, 0) {
            Ok(read) => assert_eq!(same(&read, &token), unread.contains(&i), "byte {}", i),
            Err(e) => assert!(
                matches!(e, Error::Json | Error::UnknownField | Error::StringUTF8),
                "byte {}",
                i
            ),
        }
    }
}

#[test]
fn the_last_of_two_fields_of_one_name_counts() {
    let fields = vec![
        ("app_id".to_string(), "first".to_string()),
        ("app_id".to_string(), "second".to_string()),
    ];
    assert_eq!(AccessToken::from_fields(&fields, 0).unwrap().get_app_id(), "second");
}
