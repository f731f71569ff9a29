use rest_api_server::config::{Config, ConfigValue};
use rest_api_server::error::Error;
use rest_api_server::v1::{barcode_path, create_barcode, get_qrcodes_path};

#[test]
fn the_default_configuration() {
    let config = Config::default();
    assert_eq!(config.get_session_remember(), 14 * 24 * 60 * 60);
    assert_eq!(config.get_ssl_cert(), "my.domain.com.crt");
    assert_eq!(config.get_ssl_key(), "my.domain.com.pem");
    let absent = Config::from_file(None).unwrap();
    assert_eq!(absent.get_session_remember(), 1_209_600);
}

#[test]
fn a_configuration_is_read_from_toml() {
    let config = Config::from_file(Some("session_remember = 3600\nssl_key = \"k.pem\"\n")).unwrap();
    assert_eq!(config.get_session_remember(), 3600);
    assert_eq!(config.get_ssl_cert(), "my.domain.com.crt");
    assert_eq!(config.get_ssl_key(), "k.pem");
    let empty = Config::from_file(Some("")).unwrap();
    assert_eq!(empty.get_session_remember(), 1_209_600);
    let all = Config::from_file(Some("ssl_cert = 'c.crt'\nssl_key = 'k.pem'\nsession_remember = -5")).unwrap();
    assert_eq!(all.get_session_remember(), -5);
    assert_eq!(all.get_ssl_cert(), "c.crt");
}

#[test]
fn a_faulty_configuration_is_refused() {
    assert!(Config::from_file(Some("session_remember = ")).is_none());
    assert!(Config::from_file(Some("session_remember = \"long\"")).is_none());
    assert!(Config::from_file(Some("session_remember = 1.5")).is_none());
    assert!(Config::from_file(Some("ssl_cert = 5")).is_none());
    assert!(Config::from_file(Some("colour = \"red\"")).is_none());
    assert!(Config::from_file(Some("session_remember = 9223372036854775807")).is_none());
    assert!(Config::from_file(Some("session_remember = 9223372036854775")).is_some());
    assert!(Config::from_file(Some("session_remember = 9223372036854776")).is_none());
}

#[test]
fn entries_are_applied_in_their_order() {
    let entries = vec![
        ("session_remember".to_string(), ConfigValue::Integer(1)),
        ("ssl_cert".to_string(), ConfigValue::Text("a".to_string())),
        ("session_remember".to_string(), ConfigValue::Integer(2)),
    ];
    let config = Config::from_entries(&entries).unwrap();
    assert_eq!(config.get_session_remember(), 2);
    assert_eq!(config.get_ssl_cert(), "a");
    let mut config = Config::default();
    assert!(!config.apply("ssl_key", &ConfigValue::Other));
    assert!(!config.apply("ssl_key", &ConfigValue::Integer(1)));
    assert_eq!(config.get_ssl_key(), "my.domain.com.pem");
    assert!(config.apply("ssl_key", &ConfigValue::Text("k".to_string())));
    assert_eq!(config.get_ssl_key(), "k");
    assert!(Config::from_entries(&vec![("x".to_string(), ConfigValue::Other)]).is_none());
}

#[test]
fn the_text_of_a_barcode() {
    assert_eq!(
        create_barcode("12345678901234567890", "a@b.c"),
        "otpauth://totp/a@b.c?secret=GEZDGNBVGY3TQOJQGEZDGNBVGY3TQOJQ&issuer=%20Auth%20Example&digits=6&period=30"
    );
    assert_eq!(
        create_barcode("ab", ""),
        "otpauth://totp/?secret=MFRA====&issuer=%20Auth%20Example&digits=6&period=30"
    );
}

#[test]
fn the_place_of_a_barcode() {
    assert_eq!(get_qrcodes_path(), "qrcodes/");
    assert_eq!(barcode_path("abcdefghijklmnopqrst"), Some("qrcodes/abcdefghij.png".to_string()));
    assert_eq!(barcode_path("abcdefghij"), Some("qrcodes/abcdefghij.png".to_string()));
    assert_eq!(barcode_path("abcdefghi"), None);
    assert_eq!(barcode_path("abcdefghiéklmnop"), None);
}

#[test]
fn the_descriptions_of_errors() {
    assert_eq!(Error::RequestError.description(), "the request did not return OK");
    assert_eq!(Error::NoScopes.description(), "No scopes were supplied to create the client");
    assert_eq!(Error::RequestLimitReached.description(), "The client reached his request limit");
    assert_eq!(Error::ConnectionExists.description(), "Connection already exists");
    assert_eq!(Error::ClientDoesNotExist.description(), "The client does not exist");
    assert_eq!(Error::ClientExists.description(), "This client already exists");
    assert_eq!(Error::IncorrectKey.description(), "Incorrect key");
    assert_eq!(Error::FailedCreatePNG.description(), "Failed to create png");
    assert_eq!(Error::UserDoesNotExist.description(), "User does not exist");
    assert_eq!(Error::PasswordError.description(), "Hash is not in Rust PBKDF2 format.");
    let failure = Error::Redis.because("connection refused");
    assert_eq!(failure.error, Error::Redis);
    assert_eq!(failure.cause, "connection refused");
    assert_eq!(failure.description(), "the store failed: connection refused");
    for e in [Error::IO, Error::Redis, Error::RequestError, Error::FailedCreatePNG] {
        assert!(e.concerns_infrastructure());
    }
    for e in [Error::IncorrectKey, Error::UserExists, Error::Json, Error::Base64, Error::UnknownField] {
        assert!(!e.concerns_infrastructure());
    }
}
