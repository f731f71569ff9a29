use std::collections::BTreeMap;

use rest_api_server::clock::Date;
use rest_api_server::database::command::{Command, Reply};
use rest_api_server::database::oauth::DeveloperClient;
use rest_api_server::database::user::{Address, NewUserDetails, User};
use rest_api_server::database::Database;
use rest_api_server::error::Error;
use rest_api_server::secret::{
    email_confirmation_key, one_time_key, password_reset_key, random_bytes, random_text,
};
use rest_api_server::v1::scope::Scope;

// A store in memory that carries out the commands as the real one does.
enum Value {
    Text(String, Option<i64>),
    Hash(BTreeMap<String, String>),
}

struct Store {
    values: BTreeMap<String, Value>,
    now: i64,
}

fn flag(b: bool) -> Reply {
    Reply::Int(if b { 1 } else { 0 })
}

impl Store {
    fn new() -> Store {
        Store { values: BTreeMap::new(), now: 0 }
    }

    fn purge(&mut self, key: &str) {
        let expired = matches!(self.values.get(key), Some(Value::Text(_, Some(t))) if *t <= self.now);
        if expired {
            self.values.remove(key);
        }
    }

    fn hash(&mut self, key: &str) -> &mut BTreeMap<String, String> {
        if !matches!(self.values.get(key), Some(Value::Hash(_))) {
            self.values.insert(key.to_string(), Value::Hash(BTreeMap::new()));
        }
        match self.values.get_mut(key) {
            Some(Value::Hash(h)) => h,
            _ => unreachable!(),
        }
    }

    fn is_text(&self, key: &str) -> bool {
        matches!(self.values.get(key), Some(Value::Text(..)))
    }

    fn field(&self, key: &str, field: &str) -> Option<String> {
        match self.values.get(key) {
            Some(Value::Hash(h)) => h.get(field).cloned(),
            _ => None,
        }
    }

    fn tidy(&mut self, key: &str) {
        let empty = matches!(self.values.get(key), Some(Value::Hash(h)) if h.is_empty());
        if empty {
            self.values.remove(key);
        }
    }

    fn execute(&mut self, command: &Command) -> Reply {
        match command {
            Command::Exists { key } => {
                self.purge(key);
                flag(self.values.contains_key(key))
            }
            Command::SetNx { key, value } => {
                self.purge(key);
                if self.values.contains_key(key) {
                    flag(false)
                } else {
                    self.values.insert(key.clone(), Value::Text(value.clone(), None));
                    flag(true)
                }
            }
            Command::Incr { key } => {
                self.purge(key);
                let (n, expiry) = match self.values.get(key) {
                    None => (0, None),
                    Some(Value::Text(t, e)) => (t.parse::<i64>().expect("a number"), *e),
                    Some(Value::Hash(_)) => panic!("wrong type"),
                };
                self.values.insert(key.clone(), Value::Text((n + 1).to_string(), expiry));
                Reply::Int(n + 1)
            }
            Command::Get { key } => {
                self.purge(key);
                match self.values.get(key) {
                    None => Reply::Nil,
                    Some(Value::Text(t, _)) => Reply::Text(t.clone()),
                    Some(Value::Hash(_)) => panic!("wrong type"),
                }
            }
            Command::SetEx { key, value, seconds } => {
                assert!(*seconds > 0);
                self.values.insert(
                    key.clone(),
                    Value::Text(value.clone(), Some(self.now + *seconds as i64)),
                );
                Reply::Done
            }
            Command::Del { key } => {
                self.purge(key);
                flag(self.values.remove(key).is_some())
            }
            Command::HSet { key, field, value } => {
                self.purge(key);
                assert!(!self.is_text(key));
                flag(self.hash(key).insert(field.clone(), value.clone()).is_none())
            }
            Command::HSetNx { key, field, value } => {
                self.purge(key);
                assert!(!self.is_text(key));
                if self.field(key, field).is_some() {
                    flag(false)
                } else {
                    self.hash(key).insert(field.clone(), value.clone());
                    flag(true)
                }
            }
            Command::HSetMultiple { key, items } => {
                self.purge(key);
                assert!(!self.is_text(key));
                assert!(!items.is_empty());
                for (field, value) in items {
                    self.hash(key).insert(field.clone(), value.clone());
                }
                Reply::Done
            }
            Command::HGet { key, field } => {
                self.purge(key);
                assert!(!self.is_text(key));
                match self.field(key, field) {
                    Some(t) => Reply::Text(t),
                    None => Reply::Nil,
                }
            }
            Command::HDel { key, field } => {
                self.purge(key);
                assert!(!self.is_text(key));
                let removed = match self.values.get_mut(key) {
                    Some(Value::Hash(h)) => h.remove(field).is_some(),
                    _ => false,
                };
                self.tidy(key);
                flag(removed)
            }
            Command::HExists { key, field } => {
                self.purge(key);
                assert!(!self.is_text(key));
                flag(self.field(key, field).is_some())
            }
            Command::HGetAll { key } => {
                self.purge(key);
                match self.values.get(key) {
                    Some(Value::Hash(h)) => {
                        // The fields come in an order of the store's own.
                        Reply::Fields(h.iter().rev().map(|(k, v)| (k.clone(), v.clone())).collect())
                    }
                    Some(Value::Text(..)) => panic!("wrong type"),
                    None => Reply::Fields(vec![]),
                }
            }
            Command::HVals { key } => {
                self.purge(key);
                match self.values.get(key) {
                    Some(Value::Hash(h)) => Reply::Texts(h.values().cloned().collect()),
                    Some(Value::Text(..)) => panic!("wrong type"),
                    None => Reply::Texts(vec![]),
                }
            }
        }
    }

    fn run(&mut self, commands: &[Command]) -> Vec<Reply> {
        commands.iter().map(|c| self.execute(c)).collect()
    }

    fn start(&mut self) {
        for command in Database::new() {
            let key = match &command {
                Command::Exists { key } => key.clone(),
                _ => unreachable!(),
            };
            let reply = self.execute(&command);
            if let Some(set) = Database::start_counter(&key, &reply).unwrap() {
                assert!(matches!(self.execute(&set), Reply::Int(1)));
            }
        }
    }

    fn register(&mut self, username: &str, email: &str, email_key: &str) -> Result<u64, Error> {
        let answers = self.run(&Database::check_new_user(username, email));
        let (admitted, draw) = Database::admit_new_user(username, email, &answers)?;
        let id = Database::read_id(&self.execute(&draw))?;
        let commands = Database::create_user_simple(admitted, id, "secret", email_key)?;
        self.run(&commands);
        Ok(id)
    }

    fn user(&mut self, id: u64) -> Option<User> {
        let answers = self.run(&Database::get_user_by_id(id));
        Database::read_user_at(id, &answers, 1).unwrap()
    }

    fn id_by_name(&mut self, username: &str) -> Option<u64> {
        let reply = self.execute(&Database::get_user_by_username(username));
        Database::read_optional_id(&reply).unwrap()
    }

    fn id_by_email(&mut self, email: &str) -> Option<u64> {
        match Database::get_user_by_email(email) {
            Some(command) => Database::read_optional_id(&self.execute(&command)).unwrap(),
            None => None,
        }
    }
}

fn started() -> Store {
    let mut store = Store::new();
    store.start();
    store
}

fn admitted(username: &str, email: &str) -> rest_api_server::database::user::NewUser {
    Database::admit_new_user(username, email, &vec![Reply::Int(0), Reply::Int(0)]).unwrap().0
}

fn admitted_client(name: &str, scopes: &[Scope]) -> rest_api_server::database::oauth::NewClient {
    Database::admit_new_client(name, scopes, &Reply::Int(0)).unwrap().0
}

fn pairs(items: &[(&str, &str)]) -> Vec<(String, String)> {
    items.iter().map(|(k, v)| (k.to_string(), v.to_string())).collect()
}

#[test]
fn a_fresh_store_gets_its_three_counters() {
    let mut store = started();
    for key in ["next_user_id", "next_client_id", "next_transaction_id"] {
        assert!(matches!(store.execute(&Command::Get { key: key.to_string() }), Reply::Text(ref t) if t == "0"));
    }
    // Starting again changes nothing.
    store.execute(&Database::increment_user_id());
    store.start();
    assert!(matches!(store.execute(&Command::Get { key: "next_user_id".to_string() }), Reply::Text(ref t) if t == "1"));
}

#[test]
fn a_counter_that_is_there_is_not_started() {
    assert!(Database::start_counter("next_user_id", &Reply::Int(1)).unwrap().is_none());
    assert!(matches!(
        Database::start_counter("next_user_id", &Reply::Int(0)).unwrap(),
        Some(Command::SetNx { ref key, ref value }) if key == "next_user_id" && value == "0"
    ));
    assert_eq!(Database::start_counter("next_user_id", &Reply::Nil).unwrap_err(), Error::Redis);
}

#[test]
fn ids_are_drawn_one_after_the_other() {
    let mut store = started();
    let mut ids = vec![];
    for _ in 0..50 {
        ids.push(Database::read_id(&store.execute(&Database::increment_user_id())).unwrap());
    }
    assert_eq!(ids, (1..=50).collect::<Vec<u64>>());
    let client = Database::read_id(&store.execute(&Database::increment_client_id())).unwrap();
    assert_eq!(client, 1);
}

#[test]
fn an_id_is_read_from_a_number_only() {
    assert_eq!(Database::read_id(&Reply::Int(7)).unwrap(), 7);
    assert_eq!(Database::read_id(&Reply::Int(0)).unwrap(), 0);
    assert_eq!(Database::read_id(&Reply::Int(-1)).unwrap_err(), Error::Redis);
    assert_eq!(Database::read_id(&Reply::Text("7".to_string())).unwrap_err(), Error::Redis);
    assert_eq!(Database::read_optional_id(&Reply::Nil).unwrap(), None);
    assert_eq!(Database::read_optional_id(&Reply::Text("12".to_string())).unwrap(), Some(12));
    assert_eq!(Database::read_optional_id(&Reply::Text("x".to_string())).unwrap_err(), Error::Redis);
    assert_eq!(Database::read_optional_id(&Reply::Int(12)).unwrap_err(), Error::Redis);
    assert_eq!(Database::read_flag(&Reply::Int(0)).unwrap(), false);
    assert_eq!(Database::read_flag(&Reply::Int(1)).unwrap(), true);
    assert_eq!(Database::read_flag(&Reply::Done).unwrap_err(), Error::Redis);
}

#[test]
fn the_commands_of_a_registration() {
    let commands = Database::create_user_simple_with(
        admitted("Alice", "Alice@Example.com"), 5, "HASH", "KEY", "SECRET", 1_400_000_000,
    );
    assert_eq!(commands.len(), 4);
    assert!(matches!(&commands[0], Command::HSetNx { key, field, value }
        if key == "userkeys" && field == "alice" && value == "5"));
    assert!(matches!(&commands[1], Command::HSetNx { key, field, value }
        if key == "emailkeys" && field == "alice@example.com" && value == "5"));
    assert!(matches!(&commands[2], Command::SetEx { key, value, seconds }
        if key == "verify_emails:KEY" && value == "5" && *seconds == 86400));
    match &commands[3] {
        Command::HSetMultiple { key, items } => {
            assert_eq!(key, "users:5");
            assert_eq!(
                items,
                &pairs(&[
                    ("username", "alice"),
                    ("password", "HASH"),
                    ("display_name", "Alice"),
                    ("first_name", ""),
                    ("first_name_confirmed", "0"),
                    ("last_name", ""),
                    ("last_name_confirmed", "0"),
                    ("email", "alice@example.com"),
                    ("email_confirmed", "0"),
                    ("birthday_confirmed", "0"),
                    ("authenticator_secret", "SECRET"),
                    ("address_confirmed", "0"),
                    ("phone_confirmed", "0"),
                    ("image_url", ""),
                    ("enabled", "1"),
                    ("registration_time", "1400000000"),
                    ("last_activity", "1400000000"),
                    ("banned", ""),
                ])
            );
        }
        other => panic!("{:?}", other),
    }
}

#[test]
fn a_registered_user_is_found_by_name_email_and_id() {
    let mut store = started();
    let id = store.register("Alice", "Alice@Example.com", "k1").unwrap();
    assert_eq!(id, 1);
    assert_eq!(store.id_by_name("alice"), Some(1));
    assert_eq!(store.id_by_name("ALICE"), Some(1));
    assert_eq!(store.id_by_email("alice@example.com"), Some(1));
    assert_eq!(store.id_by_email("ALICE@EXAMPLE.COM"), Some(1));
    assert_eq!(store.id_by_email("alice"), None);
    assert_eq!(store.id_by_name("bob"), None);
    let user = store.user(1).unwrap();
    assert_eq!(user.get_id(), 1);
    assert_eq!(user.get_username(), "alice");
    assert_eq!(user.get_display_name(), "Alice");
    assert_eq!(user.get_email(), "alice@example.com");
    assert!(!user.is_email_confirmed());
    assert!(user.is_enabled());
    assert_eq!(user.get_first_name(), None);
    assert_eq!(user.get_last_name(), None);
    assert!(user.get_birthday().is_none());
    assert_eq!(user.get_phone(), None);
    assert_eq!(user.get_image_url(), None);
    assert!(user.get_address().is_none());
    assert_eq!(user.get_banned(), None);
    assert!(user.get_registration_time() > 0);
    assert_eq!(user.get_registration_time(), user.get_last_activity_time());
    assert!(user.check_password("secret").unwrap());
    assert!(!user.check_password("Secret").unwrap());
    assert!(matches!(store.execute(&Database::check_user_exists(1)), Reply::Int(1)));
    assert!(matches!(store.execute(&Database::check_user_exists(2)), Reply::Int(0)));
}

#[test]
fn a_name_is_taken_whatever_its_case() {
    let mut store = started();
    assert_eq!(store.register("alice", "alice@example.com", "k1").unwrap(), 1);
    assert_eq!(store.register("ALICE", "other@example.com", "k2").unwrap_err(), Error::UserExists);
    assert_eq!(store.register("bob", "ALICE@example.COM", "k3").unwrap_err(), Error::UserExists);
    // A refused registration draws no id.
    assert_eq!(store.register("bob", "bob@example.com", "k4").unwrap(), 2);
    assert!(matches!(store.execute(&Database::check_username_exists("AlIcE")), Reply::Int(1)));
    assert!(matches!(store.execute(&Database::check_email_exists("Bob@Example.Com")), Reply::Int(1)));
    assert!(matches!(store.execute(&Database::check_username_exists("carol")), Reply::Int(0)));
}

#[test]
fn the_answers_before_a_registration() {
    let decide = |replies: Vec<Reply>| Database::admit_new_user("a", "a@b", &replies).map(|r| r.1);
    assert!(matches!(
        decide(vec![Reply::Int(0), Reply::Int(0)]).unwrap(),
        Command::Incr { ref key } if key == "next_user_id"
    ));
    assert_eq!(decide(vec![Reply::Int(1), Reply::Int(0)]).unwrap_err(), Error::UserExists);
    assert_eq!(decide(vec![Reply::Int(0), Reply::Int(1)]).unwrap_err(), Error::UserExists);
    assert_eq!(decide(vec![Reply::Int(0)]).unwrap_err(), Error::Redis);
    assert_eq!(decide(vec![Reply::Nil, Reply::Int(1)]).unwrap_err(), Error::Redis);
}

#[test]
fn a_removed_user_is_gone() {
    let mut store = started();
    store.register("alice", "alice@example.com", "k1").unwrap();
    store.register("bob", "bob@example.com", "k2").unwrap();
    let mut alice = store.user(1).unwrap();
    let address = Address::new(
        "1 Main St".to_string(), None, "Town".to_string(), "State".to_string(),
        "12345".to_string(), "Country".to_string(),
    );
    let command = alice.set_address(Some(address));
    store.execute(&command);
    assert!(store.user(1).unwrap().get_address().is_some());
    store.run(&alice.delete());
    assert_eq!(store.id_by_name("alice"), None);
    assert_eq!(store.id_by_email("alice@example.com"), None);
    assert!(store.user(1).is_none());
    assert!(matches!(store.execute(&Command::Exists { key: "users:1:addr".to_string() }), Reply::Int(0)));
    // The other user stays.
    assert_eq!(store.id_by_name("bob"), Some(2));
    assert_eq!(store.user(2).unwrap().get_username(), "bob");
    // The name is free again.
    assert_eq!(store.register("alice", "alice@example.com", "k3").unwrap(), 3);
}

#[test]
fn a_one_time_key_is_redeemed_once() {
    let mut store = started();
    let id = store.register("alice", "alice@example.com", "mailkey").unwrap();
    store.now = 100;
    let first = store.run(&Database::try_confirm_email("mailkey"));
    assert_eq!(Database::read_redeemed(&first).unwrap(), id);
    let second = store.run(&Database::try_confirm_email("mailkey"));
    assert_eq!(Database::read_redeemed(&second).unwrap_err(), Error::IncorrectKey);
    let never = store.run(&Database::try_confirm_email("other"));
    assert_eq!(Database::read_redeemed(&never).unwrap_err(), Error::IncorrectKey);
}

#[test]
fn a_one_time_key_expires() {
    let mut store = started();
    store.now = 1_000;
    store.execute(&Database::start_reset_password(9, "reset"));
    store.execute(&Database::start_confirm_email(9, "mail"));
    store.now = 1_000 + 86_400 - 1;
    let kept = store.run(&Database::confirm_password_reset("reset"));
    assert_eq!(Database::read_redeemed(&kept).unwrap(), 9);
    store.execute(&Database::start_reset_password(9, "reset"));
    store.now += 86_400;
    let late = store.run(&Database::confirm_password_reset("reset"));
    assert_eq!(Database::read_redeemed(&late).unwrap_err(), Error::IncorrectKey);
    // The key that is sent again lasts seven days.
    store.now = 1_000 + 604_800 - 1;
    let mail = store.run(&Database::try_confirm_email("mail"));
    assert_eq!(Database::read_redeemed(&mail).unwrap(), 9);
}

#[test]
fn keys_of_the_two_families_do_not_meet() {
    let mut store = started();
    store.execute(&Database::start_reset_password(1, "k"));
    store.execute(&Database::start_confirm_email(2, "k"));
    let reset = store.run(&Database::confirm_password_reset("k"));
    assert_eq!(Database::read_redeemed(&reset).unwrap(), 1);
    let mail = store.run(&Database::try_confirm_email("k"));
    assert_eq!(Database::read_redeemed(&mail).unwrap(), 2);
}

#[test]
fn two_keys_of_one_user_are_both_good() {
    let mut store = started();
    store.execute(&Database::start_confirm_email(4, "one"));
    store.execute(&Database::start_confirm_email(4, "two"));
    assert_eq!(Database::read_redeemed(&store.run(&Database::try_confirm_email("two"))).unwrap(), 4);
    assert_eq!(Database::read_redeemed(&store.run(&Database::try_confirm_email("one"))).unwrap(), 4);
}

#[test]
fn a_redeemed_key_of_a_user_that_is_gone() {
    let user = User::from_db_data_at(3, &pairs(&[("username", "x")]), &vec![], 0).unwrap();
    assert_eq!(Database::redeemed_user(Some(user)).unwrap().get_id(), 3);
    assert_eq!(Database::redeemed_user(None).unwrap_err(), Error::UserDoesNotExist);
}

#[test]
fn the_answers_of_a_redemption() {
    assert_eq!(Database::read_redeemed(&vec![Reply::Text("3".to_string()), Reply::Int(1)]).unwrap(), 3);
    assert_eq!(Database::read_redeemed(&vec![Reply::Nil, Reply::Int(0)]).unwrap_err(), Error::IncorrectKey);
    assert_eq!(Database::read_redeemed(&vec![Reply::Nil]).unwrap_err(), Error::Redis);
    assert_eq!(Database::read_redeemed(&vec![Reply::Text("x".to_string()), Reply::Int(1)]).unwrap_err(), Error::Redis);
}

#[test]
fn a_user_is_read_from_its_hashes() {
    let data = pairs(&[
        ("username", "carol"),
        ("display_name", "Carol"),
        ("password", "$rpbkdf2$0$x"),
        ("email", "carol@example.com"),
        ("email_confirmed", "1"),
        ("authenticator_secret", "abcdefghijklmnopqrst"),
        ("first_name", "Carol"),
        ("first_name_confirmed", "1"),
        ("last_name", "Jones"),
        ("last_name_confirmed", "0"),
        ("birthday", "1990-02-28"),
        ("birthday_confirmed", "1"),
        ("address_confirmed", "1"),
        ("phone", "555"),
        ("phone_confirmed", "0"),
        ("image_url", "http://x/y.png"),
        ("enabled", "1"),
        ("registration_time", "1400000000"),
        ("last_activity", "1500000000"),
        ("banned", "1600000000"),
    ]);
    let address = pairs(&[
        ("address1", "1 Main St"),
        ("address2", ""),
        ("city", "Town"),
        ("state", "State"),
        ("zip", "12345"),
        ("country", "Country"),
    ]);
    let user = User::from_db_data_at(11, &data, &address, 5).unwrap();
    assert_eq!(user.get_id(), 11);
    assert_eq!(user.get_username(), "carol");
    assert_eq!(user.get_display_name(), "Carol");
    assert_eq!(user.get_password(), "$rpbkdf2$0$x");
    assert_eq!(user.get_email(), "carol@example.com");
    assert!(user.is_email_confirmed());
    assert_eq!(user.get_first_name(), Some("Carol"));
    assert!(user.is_first_name_confirmed());
    assert_eq!(user.get_last_name(), Some("Jones"));
    assert!(!user.is_last_name_confirmed());
    let birthday = user.get_birthday().unwrap();
    assert_eq!((birthday.year(), birthday.month(), birthday.day()), (1990, 2, 28));
    assert!(user.is_birthday_confirmed());
    assert_eq!(user.get_phone(), Some(("555", false)));
    assert_eq!(user.get_image_url(), Some("http://x/y.png"));
    let read = user.get_address().unwrap();
    assert_eq!(read.get_address1(), "1 Main St");
    assert_eq!(read.get_address2(), None);
    assert_eq!(read.get_city(), "Town");
    assert_eq!(read.get_state(), "State");
    assert_eq!(read.get_zip(), "12345");
    assert_eq!(read.get_country(), "Country");
    assert!(user.is_address_confirmed());
    assert!(user.is_enabled());
    assert_eq!(user.get_registration_time(), 1_400_000_000);
    assert_eq!(user.get_last_activity_time(), 1_500_000_000);
    assert_eq!(user.get_banned(), Some(1_600_000_000));
    assert!(user.is_banned_at(1_599_999_999));
    assert!(!user.is_banned_at(1_600_000_000));
    assert!(!user.is_banned());
}

#[test]
fn absent_fields_of_a_user_are_empty() {
    let user = User::from_db_data_at(3, &pairs(&[("username", "x")]), &vec![], 77).unwrap();
    assert_eq!(user.get_username(), "x");
    assert_eq!(user.get_email(), "");
    assert!(!user.is_enabled());
    assert!(!user.is_email_confirmed());
    assert_eq!(user.get_registration_time(), 77);
    assert_eq!(user.get_last_activity_time(), 77);
    assert_eq!(user.get_banned(), None);
    assert!(!user.is_first_name_confirmed());
    assert!(!user.is_birthday_confirmed());
    assert!(!user.is_address_confirmed());
    let clocked = User::from_db_data(3, &pairs(&[("username", "x")]), &vec![]).unwrap();
    assert!(clocked.get_registration_time() > 1_600_000_000);
}

#[test]
fn a_birthday_that_is_no_date_is_left_out() {
    for text in ["yesterday", "1990-02-30", "1990/02/28", "90-2"] {
        let user = User::from_db_data_at(
            3, &pairs(&[("birthday", text), ("birthday_confirmed", "1")]), &vec![], 0,
        ).unwrap();
        assert!(user.get_birthday().is_none(), "{:?}", text);
        assert!(!user.is_birthday_confirmed());
    }
}

#[test]
fn faulty_fields_of_a_user_are_refused() {
    let unknown = pairs(&[("username", "x"), ("colour", "red")]);
    assert_eq!(User::from_db_data_at(1, &unknown, &vec![], 0).unwrap_err(), Error::UnknownField);
    let mark = pairs(&[("enabled", "yes")]);
    assert_eq!(User::from_db_data_at(1, &mark, &vec![], 0).unwrap_err(), Error::Redis);
    let large = pairs(&[("enabled", "256")]);
    assert_eq!(User::from_db_data_at(1, &large, &vec![], 0).unwrap_err(), Error::Redis);
    let instant = pairs(&[("registration_time", "")]);
    assert_eq!(User::from_db_data_at(1, &instant, &vec![], 0).unwrap_err(), Error::Redis);
    let banned = pairs(&[("banned", "never")]);
    assert_eq!(User::from_db_data_at(1, &banned, &vec![], 0).unwrap_err(), Error::Redis);
    let first = pairs(&[("enabled", "yes"), ("colour", "red")]);
    assert_eq!(User::from_db_data_at(1, &first, &vec![], 0).unwrap_err(), Error::Redis);
    let second = pairs(&[("colour", "red"), ("enabled", "yes")]);
    assert_eq!(User::from_db_data_at(1, &second, &vec![], 0).unwrap_err(), Error::UnknownField);
    let address = pairs(&[("street", "x")]);
    assert_eq!(
        User::from_db_data_at(1, &pairs(&[("username", "x")]), &address, 0).unwrap_err(),
        Error::UnknownField
    );
    assert_eq!(
        Database::read_user_at(1, &vec![Reply::Nil, Reply::Fields(vec![])], 0).unwrap_err(),
        Error::Redis
    );
    assert_eq!(Database::read_user_at(1, &vec![Reply::Fields(vec![])], 0).unwrap_err(), Error::Redis);
    assert!(Database::read_user_at(1, &vec![Reply::Fields(vec![]), Reply::Fields(vec![])], 0).unwrap().is_none());
}

#[test]
fn the_last_of_two_fields_of_a_user_counts() {
    let data = pairs(&[("username", "a"), ("enabled", "0"), ("username", "b"), ("enabled", "1")]);
    let user = User::from_db_data_at(1, &data, &vec![], 0).unwrap();
    assert_eq!(user.get_username(), "b");
    assert!(user.is_enabled());
}

#[test]
fn changes_of_a_user_are_stored_and_read_back() {
    let mut store = started();
    store.register("alice", "alice@example.com", "k").unwrap();
    let mut user = store.user(1).unwrap();
    store.execute(&user.set_first_name("Alice"));
    store.execute(&user.set_last_name("Smith"));
    store.execute(&user.set_phone(Some("555-1234")));
    store.execute(&user.set_image(Some("http://img")));
    store.execute(&user.set_birthday(Date::new(1984, 12, 31)));
    store.execute(&user.confirm_email());
    store.execute(&user.set_last_activity_time_at(2_000_000_000));
    let (secret, command) = user.get_authenticator_secret();
    store.execute(&command);
    assert_eq!(user.get_first_name(), Some("Alice"));
    let read = store.user(1).unwrap();
    assert_eq!(read.get_first_name(), Some("Alice"));
    assert!(!read.is_first_name_confirmed());
    assert_eq!(read.get_last_name(), Some("Smith"));
    assert_eq!(read.get_phone(), Some(("555-1234", false)));
    assert_eq!(read.get_image_url(), Some("http://img"));
    let birthday = read.get_birthday().unwrap();
    assert_eq!((birthday.year(), birthday.month(), birthday.day()), (1984, 12, 31));
    assert!(read.is_email_confirmed());
    assert_eq!(read.get_last_activity_time(), 2_000_000_000);
    assert_eq!(secret.len(), 20);
    assert!(secret.chars().all(|c| c.is_ascii_alphanumeric()));
    let mut user = read;
    store.execute(&user.set_phone(None));
    store.execute(&user.set_image(None));
    store.execute(&user.set_birthday(None));
    store.execute(&user.disable());
    let read = store.user(1).unwrap();
    assert_eq!(read.get_phone(), None);
    assert_eq!(read.get_image_url(), None);
    assert!(read.get_birthday().is_none());
    assert!(!read.is_enabled());
    let mut user = read;
    store.execute(&user.enable());
    assert!(store.user(1).unwrap().is_enabled());
    store.execute(&user.ban(3_000_000_000));
    let read = store.user(1).unwrap();
    assert!(!read.is_enabled());
    assert_eq!(read.get_banned(), Some(3_000_000_000));
    assert!(read.is_banned_at(2_999_999_999));
    let command = user.set_last_activity_time();
    store.execute(&command);
    assert!(user.get_last_activity_time() > 1_600_000_000);
}

#[test]
fn a_user_keeps_its_index_entry_when_only_the_case_of_its_name_changes() {
    let mut store = started();
    store.register("alice", "alice@example.com", "k").unwrap();
    let mut user = store.user(1).unwrap();
    let commands = user.set_username("ALICE");
    assert_eq!(commands.len(), 2);
    store.run(&commands);
    assert_eq!(store.id_by_name("alice"), Some(1));
    assert_eq!(store.user(1).unwrap().get_display_name(), "ALICE");
    store.run(&user.set_email("ALICE@example.com"));
    assert_eq!(store.id_by_email("alice@example.com"), Some(1));
    assert_eq!(user.set_username("bob").len(), 3);
}

#[test]
fn a_user_changes_name_and_email() {
    let mut store = started();
    store.register("alice", "alice@example.com", "k").unwrap();
    let mut user = store.user(1).unwrap();
    store.run(&user.set_username("Alicia"));
    assert_eq!(store.id_by_name("alice"), None);
    assert_eq!(store.id_by_name("alicia"), Some(1));
    store.run(&user.set_email("New@Example.com"));
    assert_eq!(store.id_by_email("alice@example.com"), None);
    assert_eq!(store.id_by_email("new@example.com"), Some(1));
    let read = store.user(1).unwrap();
    assert_eq!(read.get_username(), "alicia");
    assert_eq!(read.get_display_name(), "Alicia");
    assert_eq!(read.get_email(), "new@example.com");
    assert!(!read.is_email_confirmed());
    assert_eq!(user.get_username(), "alicia");
    assert_eq!(user.get_display_name(), "Alicia");
    assert_eq!(user.get_email(), "new@example.com");
    assert!(user.same_user(&read));
    // What the user holds after the changes is what the store holds: removing it
    // with the user as changed frees both the name and the address.
    store.run(&user.delete());
    assert_eq!(store.id_by_name("alicia"), None);
    assert_eq!(store.id_by_email("new@example.com"), None);
}

#[test]
fn a_password_is_stored_as_a_hash_and_checked() {
    let mut store = started();
    store.register("alice", "alice@example.com", "k").unwrap();
    let mut user = store.user(1).unwrap();
    let command = user.set_password("correct horse").unwrap();
    store.execute(&command);
    let read = store.user(1).unwrap();
    assert!(read.get_password().starts_with("$rpbkdf2$0$AAAABQ==$"));
    assert_ne!(read.get_password(), "correct horse");
    assert_eq!(read.check_password("correct horse"), Ok(true));
    assert_eq!(read.check_password("wrong"), Ok(false));
    assert_eq!(read.check_password("secret"), Ok(false));
}

#[test]
fn a_hash_of_any_count_of_iterations_is_checked() {
    for iterations in [1u32, 2, 5, 1000] {
        let hash = crypto::pbkdf2::pbkdf2_simple("pw", iterations).unwrap();
        let user = User::from_db_data_at(1, &pairs(&[("password", &hash)]), &vec![], 0).unwrap();
        assert_eq!(user.check_password("pw"), Ok(true), "{}", iterations);
        assert_eq!(user.check_password("pW"), Ok(false));
    }
    for hash in ["$rpbkdf2$0$AAAAAA==$AAAA$AAAA$", "$rpbkdf2$0$AAAAAA==$", "$rpbkdf2$0$AAAAAA==", "$rpbkdf2$0$AAAABQ==", "$rpbkdf2$0$AAAABQ$AAAA$AAAA$x", "$rpbkdf2$1$AAAABQ==$AAAA$AAAA$", "$rpbkdf2$0$AAAAAAU=$AAAA$AAAA$"] {
        let user = User::from_db_data_at(1, &pairs(&[("password", hash)]), &vec![], 0).unwrap();
        assert_eq!(user.check_password("pw"), Err(Error::PasswordError), "{:?}", hash);
    }
    assert!(rest_api_server::secret::check_iterations("$rpbkdf2$0$AAAABQ==$"));
    assert!(rest_api_server::secret::check_iterations("$rpbkdf2$0$AQAAAA==$rest"));
    assert!(!rest_api_server::secret::check_iterations("$rpbkdf2$0$AAAAAA==$"));
    assert!(!rest_api_server::secret::check_iterations("$rpbkdf2$0$AAAABQ=="));
    assert!(!rest_api_server::secret::check_iterations("rpbkdf2$0$AAAABQ==$"));
}

#[test]
fn a_hash_in_another_format_is_refused() {
    for hash in ["", "plain", "$rpbkdf2$0$AAAAAA==$AAAA$AAAA$", "$rpbkdf2$0$AAAABQ==$not base64$x$", "$rpbkdf2$0$AAAABQ==$"] {
        let user = User::from_db_data_at(1, &pairs(&[("password", hash)]), &vec![], 0).unwrap();
        assert_eq!(user.check_password("x"), Err(Error::PasswordError), "{:?}", hash);
    }
}

#[test]
fn the_code_of_the_authenticator() {
    let user = User::from_db_data_at(
        1, &pairs(&[("authenticator_secret", "12345678901234567890")]), &vec![], 0,
    ).unwrap();
    // The codes of this secret at these instants are those of the standard's examples.
    assert!(user.check_authenticator_code_at(287082, 59));
    assert!(user.check_authenticator_code_at(287082, 30));
    assert!(!user.check_authenticator_code_at(287082, 60));
    assert!(user.check_authenticator_code_at(81804, 1111111109));
    assert!(!user.check_authenticator_code_at(287083, 59));
    assert!(!user.check_authenticator_code_at(287082, -1));
    assert!(!user.check_authenticator_code(1_000_000));
}

#[test]
fn the_age_of_a_user() {
    let user = User::from_db_data_at(1, &pairs(&[("birthday", "1990-06-15")]), &vec![], 0).unwrap();
    assert_eq!(user.get_age_on(&Date::new(2020, 6, 15).unwrap()), Some(30));
    assert_eq!(user.get_age_on(&Date::new(2020, 6, 14).unwrap()), Some(29));
    assert_eq!(user.get_age_on(&Date::new(2020, 5, 30).unwrap()), Some(29));
    assert_eq!(user.get_age_on(&Date::new(2020, 7, 1).unwrap()), Some(30));
    assert_eq!(user.get_age_on(&Date::new(1990, 6, 16).unwrap()), Some(0));
    assert_eq!(user.get_age_on(&Date::new(1991, 1, 1).unwrap()), Some(0));
    assert_eq!(user.get_age_on(&Date::new(2245, 6, 15).unwrap()), Some(255));
    assert_eq!(user.get_age_on(&Date::new(2246, 6, 15).unwrap()), Some(255));
    assert_eq!(user.get_age_on(&Date::new(3000, 1, 1).unwrap()), Some(255));
    assert_eq!(user.get_age_on(&Date::new(1990, 1, 1).unwrap()), Some(0));
    assert_eq!(user.get_age_on(&Date::new(1989, 12, 31).unwrap()), Some(0));
    assert_eq!(user.get_age_on(&Date::new(1900, 1, 1).unwrap()), Some(0));
    assert!(user.get_age().unwrap() >= 30);
    let none = User::from_db_data_at(1, &vec![], &vec![], 0).unwrap();
    assert_eq!(none.get_age_on(&Date::new(2020, 1, 1).unwrap()), None);
    assert_eq!(none.get_age(), None);
}

#[test]
fn the_profile_of_a_user() {
    let data = pairs(&[
        ("display_name", "Carol"),
        ("first_name", "Carol"),
        ("image_url", "http://x"),
        ("birthday", "2000-01-01"),
    ]);
    let address = pairs(&[("city", "Town"), ("state", "State"), ("country", "Country"), ("zip", "1")]);
    let user = User::from_db_data_at(8, &data, &address, 0).unwrap();
    let profile = user.get_profile_on(&Date::new(2010, 1, 1).unwrap());
    assert_eq!(profile.user_id, 8);
    assert_eq!(profile.display_name, "Carol");
    assert_eq!(profile.first_name, Some("Carol".to_string()));
    assert_eq!(profile.last_name, None);
    assert_eq!(profile.image_url, Some("http://x".to_string()));
    assert_eq!(profile.age, Some(10));
    assert_eq!(profile.address, Some("Town, State, Country".to_string()));
    assert!(user.get_profile().age.is_some());
}

#[test]
fn dates_of_the_calendar() {
    assert!(Date::new(2024, 2, 29).is_some());
    assert!(Date::new(2023, 2, 29).is_none());
    assert!(Date::new(2023, 13, 1).is_none());
    assert!(Date::new(2023, 0, 1).is_none());
    assert!(Date::new(2023, 4, 31).is_none());
    assert!(Date::new(400_000, 1, 1).is_none());
    let date = Date::new(2015, 9, 5).unwrap();
    assert_eq!(date.to_text(), "2015-09-05");
    assert_eq!(Date::new(7, 1, 2).unwrap().to_text(), "0007-01-02");
    let read = Date::parse("2015-09-05", "%Y-%m-%d").unwrap();
    assert!(read.same(&date));
    assert!(!read.before(&date));
    assert!(Date::new(2015, 9, 4).unwrap().before(&date));
    assert!(Date::new(2015, 8, 30).unwrap().before(&date));
    assert!(Date::new(2014, 12, 31).unwrap().before(&date));
    assert!(!Date::new(2015, 9, 6).unwrap().before(&date));
    assert!(Date::parse("2015-09-31", "%Y-%m-%d").is_none());
    assert!(Date::parse("05.09.2015", "%d.%m.%Y").unwrap().same(&date));
    let today = Date::today();
    assert!(today.year() >= 2024);
    assert!(Date::new(today.year(), today.month(), today.day()).unwrap().same(&today));
    assert!(date.before(&today));
}

#[test]
fn the_commands_of_a_full_registration() {
    let details = NewUserDetails {
        first: Some("Dan".to_string()),
        last: None,
        birthday: Date::new(1970, 1, 2),
        phone: Some("1".to_string()),
        image: None,
        address: Some(Address::new(
            "a1".to_string(), Some("a2".to_string()), "c".to_string(), "s".to_string(),
            "z".to_string(), "co".to_string(),
        )),
    };
    let commands = Database::create_user_with(admitted("Dan", "Dan@X"), 2, "H", &details, "K", 9);
    assert_eq!(commands.len(), 5);
    assert!(matches!(&commands[0], Command::HSetNx { key, field, value }
        if key == "userkeys" && field == "dan" && value == "2"));
    assert!(matches!(&commands[1], Command::HSetNx { key, field, value }
        if key == "emailkeys" && field == "dan@x" && value == "2"));
    match &commands[2] {
        Command::HSetMultiple { key, items } => {
            assert_eq!(key, "users:2");
            assert_eq!(
                items,
                &pairs(&[
                    ("username", "dan"),
                    ("password", "H"),
                    ("display_name", "Dan"),
                    ("first_name", "Dan"),
                    ("first_name_confirmed", "0"),
                    ("last_name", ""),
                    ("last_name_confirmed", "0"),
                    ("email", "dan@x"),
                    ("email_confirmed", "0"),
                    ("birthday", "1970-01-02"),
                    ("birthday_confirmed", "0"),
                    ("address_confirmed", "0"),
                    ("phone", "1"),
                    ("phone_confirmed", "0"),
                    ("image_url", ""),
                    ("enabled", "1"),
                    ("registration_time", "9"),
                    ("last_activity", "9"),
                    ("banned", ""),
                ])
            );
        }
        other => panic!("{:?}", other),
    }
    assert!(matches!(&commands[3], Command::SetEx { key, value, seconds }
        if key == "verify_emails:K" && value == "2" && *seconds == 86400));
    match &commands[4] {
        Command::HSetMultiple { key, items } => {
            assert_eq!(key, "users:2:addr");
            assert_eq!(
                items,
                &pairs(&[
                    ("address1", "a1"), ("address2", "a2"), ("city", "c"),
                    ("state", "s"), ("zip", "z"), ("country", "co"),
                ])
            );
        }
        other => panic!("{:?}", other),
    }
    let mut store = started();
    let run = Database::create_user(admitted("Dan", "Dan@X"), 1, "pw", &details, "K2").unwrap();
    store.run(&run);
    let user = store.user(1).unwrap();
    assert_eq!(user.get_username(), "dan");
    assert_eq!(user.get_first_name(), Some("Dan"));
    assert_eq!(user.get_address().unwrap().get_address2(), Some("a2"));
    assert!(user.check_password("pw").unwrap());
    let bare = NewUserDetails { first: None, last: None, birthday: None, phone: None, image: None, address: None };
    let commands = Database::create_user_with(admitted("E", "e@x"), 3, "H", &bare, "K", 9);
    assert!(matches!(&commands[4], Command::Del { key } if key == "users:3:addr"));
}

#[test]
fn the_ids_of_all_users() {
    let mut store = started();
    store.register("alice", "alice@example.com", "k1").unwrap();
    store.register("bob", "bob@example.com", "k2").unwrap();
    let reply = store.execute(&Database::get_all_user_ids());
    let mut ids = Database::read_ids(&reply).unwrap();
    ids.sort();
    assert_eq!(ids, vec![1, 2]);
    assert_eq!(Database::read_ids(&Reply::Texts(vec![])).unwrap(), Vec::<u64>::new());
    assert_eq!(Database::read_ids(&Reply::Texts(vec!["1".to_string(), "x".to_string()])).unwrap_err(), Error::Redis);
    assert_eq!(Database::read_ids(&Reply::Nil).unwrap_err(), Error::Redis);
}

#[test]
fn a_client_is_created_and_read_back() {
    let mut store = started();
    let scopes = vec![Scope::Admin];
    let reply = store.execute(&Database::check_client_exists_name("app"));
    let (client, draw) = Database::admit_new_client("app", &scopes, &reply).unwrap();
    let number = Database::read_id(&store.execute(&draw)).unwrap();
    let (id, secret, commands) = Database::create_developer_client(client, number, 100);
    store.run(&commands);
    assert!(id.starts_with("1-"));
    assert_eq!(id.len(), 12);
    assert!(id[2..].chars().all(|c| c.is_ascii_alphanumeric()));
    assert_eq!(secret.len(), 20);
    let reply = store.execute(&Database::get_client(&id));
    let client = Database::read_client(&id, &reply).unwrap().unwrap();
    assert_eq!(client.get_id(), id);
    assert_eq!(client.get_name(), "app");
    assert_eq!(client.get_scopes(), &scopes);
    assert_eq!(client.get_secret(), &secret);
    assert_eq!(client.get_request_count(), 0);
    assert_eq!(client.get_request_limit(), 100);
    // The name leads to the id, and is taken.
    assert!(matches!(store.execute(&Database::get_client_id_by_name("app")), Reply::Text(ref t) if *t == id));
    let taken = store.execute(&Database::check_client_exists_name("app"));
    assert_eq!(
        Database::admit_new_client("app", &scopes, &taken).map(|r| r.1).unwrap_err(),
        Error::ClientExists
    );
    assert!(matches!(store.execute(&Database::get_all_client_ids()), Reply::Texts(ref t) if t == &vec![id.clone()]));
    // Removing it frees the name.
    store.run(&client.delete());
    let reply = store.execute(&Database::get_client(&id));
    assert!(Database::read_client(&id, &reply).unwrap().is_none());
    assert!(matches!(store.execute(&Database::check_client_exists_name("app")), Reply::Int(0)));
}

#[test]
fn a_client_needs_scopes() {
    let decide = |reply: Reply, scopes: &[Scope]| Database::admit_new_client("n", scopes, &reply).map(|r| r.1);
    assert_eq!(decide(Reply::Int(0), &[]).unwrap_err(), Error::NoScopes);
    assert_eq!(decide(Reply::Int(1), &[]).unwrap_err(), Error::ClientExists);
    assert_eq!(decide(Reply::Nil, &[Scope::Admin]).unwrap_err(), Error::Redis);
    assert!(matches!(decide(Reply::Int(0), &[Scope::Admin]).unwrap(), Command::Incr { ref key } if key == "next_client_id"));
}

#[test]
fn the_commands_of_a_new_client() {
    let scopes = vec![Scope::Public, Scope::User(3)];
    let commands = Database::create_developer_client_with(
        admitted_client("app", &scopes), "4-abc", b"01234567890123456789", 7,
    );
    assert_eq!(commands.len(), 2);
    match &commands[0] {
        Command::HSetMultiple { key, items } => {
            assert_eq!(key, "clients:4-abc");
            assert_eq!(
                items,
                &pairs(&[
                    ("name", "app"),
                    ("scopes", "[\"Public\",{\"variant\":\"User\",\"fields\":[3]}]"),
                    ("secret", "MDEyMzQ1Njc4OTAxMjM0NTY3ODk="),
                    ("request_count", "0"),
                    ("request_limit", "7"),
                ])
            );
        }
        other => panic!("{:?}", other),
    }
    assert!(matches!(&commands[1], Command::HSetNx { key, field, value }
        if key == "clientkeys" && field == "app" && value == "4-abc"));
}

#[test]
fn a_client_is_read_from_its_hash() {
    let data = pairs(&[
        ("name", "app"),
        ("secret", "MDEyMzQ1Njc4OTAxMjM0NTY3ODk="),
        ("scopes", "[\"Admin\"]"),
        ("request_count", "3"),
    ]);
    let client = DeveloperClient::from_db_data("9-x", &data).unwrap();
    assert_eq!(client.get_secret(), &b"01234567890123456789".to_vec());
    assert_eq!(client.get_request_count(), 3);
    assert_eq!(client.get_request_limit(), 0);
    assert!(client.has_secret("MDEyMzQ1Njc4OTAxMjM0NTY3ODk="));
    assert!(!client.has_secret("MDEyMzQ1Njc4OTAxMjM0NTY3ODk"));
    let no_scopes = pairs(&[("name", "app"), ("secret", "MDEyMzQ1Njc4OTAxMjM0NTY3ODk=")]);
    assert_eq!(DeveloperClient::from_db_data("9-x", &no_scopes).unwrap_err(), Error::Json);
    let short = pairs(&[("scopes", "[]"), ("secret", "aGVsbG8=")]);
    assert_eq!(DeveloperClient::from_db_data("9-x", &short).unwrap_err(), Error::Base64);
    let bad = pairs(&[("scopes", "[]"), ("secret", "***")]);
    assert_eq!(DeveloperClient::from_db_data("9-x", &bad).unwrap_err(), Error::Base64);
    let count = pairs(&[("request_count", "-1")]);
    assert_eq!(DeveloperClient::from_db_data("9-x", &count).unwrap_err(), Error::Redis);
    let unknown = pairs(&[("owner", "me")]);
    assert_eq!(DeveloperClient::from_db_data("9-x", &unknown).unwrap_err(), Error::UnknownField);
    assert_eq!(Database::read_client("9-x", &Reply::Nil).unwrap_err(), Error::Redis);
}

#[test]
fn the_requests_of_a_client_are_counted_up_to_its_limit() {
    let data = pairs(&[
        ("name", "app"),
        ("secret", "MDEyMzQ1Njc4OTAxMjM0NTY3ODk="),
        ("scopes", "[\"Admin\"]"),
        ("request_count", "0"),
        ("request_limit", "2"),
    ]);
    let mut client = DeveloperClient::from_db_data("9-x", &data).unwrap();
    let (count, command) = client.increment_request_count().unwrap();
    assert_eq!(count, 1);
    assert!(matches!(command, Command::HSet { ref key, ref field, ref value }
        if key == "clients:9-x" && field == "request_count" && value == "1"));
    assert_eq!(client.increment_request_count().unwrap().0, 2);
    assert_eq!(client.increment_request_count().unwrap_err(), Error::RequestLimitReached);
    assert_eq!(client.get_request_count(), 2);
    let command = client.reset_request_count();
    assert!(matches!(command, Command::HSet { ref key, ref field, ref value }
        if key == "clients:9-x" && field == "request_count" && value == "0"));
    assert_eq!(client.get_request_count(), 0);
    assert_eq!(client.increment_request_count().unwrap().0, 1);
}

#[test]
fn a_client_without_limit_is_never_stopped() {
    let data = pairs(&[
        ("secret", "MDEyMzQ1Njc4OTAxMjM0NTY3ODk="),
        ("scopes", "[]"),
        ("request_count", "4294967294"),
        ("request_limit", "0"),
    ]);
    let mut client = DeveloperClient::from_db_data("9-x", &data).unwrap();
    assert_eq!(client.increment_request_count().unwrap().0, u32::MAX);
    assert_eq!(client.increment_request_count().unwrap_err(), Error::RequestLimitReached);
}

#[test]
fn the_secret_of_a_client_is_changed() {
    let mut store = started();
    let scopes = vec![Scope::Public];
    let (id, _secret, commands) = Database::create_developer_client(admitted_client("app", &scopes), 1, 0);
    store.run(&commands);
    let reply = store.execute(&Database::get_client(&id));
    let mut client = Database::read_client(&id, &reply).unwrap().unwrap();
    let command = client.set_secret(b"abcdefghijklmnopqrst");
    store.execute(&command);
    let reply = store.execute(&Database::get_client(&id));
    let read = Database::read_client(&id, &reply).unwrap().unwrap();
    assert_eq!(read.get_secret(), &b"abcdefghijklmnopqrst".to_vec());
    assert!(read.has_secret("YWJjZGVmZ2hpamtsbW5vcHFyc3Q="));
    let (count, command) = client.increment_request_count().unwrap();
    store.execute(&command);
    assert_eq!(count, 1);
    let reply = store.execute(&Database::get_client(&id));
    assert_eq!(Database::read_client(&id, &reply).unwrap().unwrap().get_request_count(), 1);
    store.execute(&Database::reset_request_count(&id));
    let reply = store.execute(&Database::get_client(&id));
    assert_eq!(Database::read_client(&id, &reply).unwrap().unwrap().get_request_count(), 0);
}

#[test]
fn the_barcodes_of_a_client() {
    let mut store = started();
    store.now = 10;
    assert!(matches!(store.execute(&Database::client_barcode_exists(3, "code")), Reply::Int(0)));
    let command = Database::create_client_barcode(3, "code");
    assert!(matches!(&command, Command::SetEx { key, value, seconds }
        if key == "clients:3:barcodes:code" && value == "0" && *seconds == 28800));
    store.execute(&command);
    assert!(matches!(store.execute(&Database::client_barcode_exists(3, "code")), Reply::Int(1)));
    store.now = 10 + 28_800;
    assert!(matches!(store.execute(&Database::client_barcode_exists(3, "code")), Reply::Int(0)));
    store.execute(&Database::create_client_barcode(3, "code"));
    store.execute(&Database::client_remove_barcode(3, "code"));
    assert!(matches!(store.execute(&Database::client_barcode_exists(3, "code")), Reply::Int(0)));
    assert!(matches!(Database::change_client_name(3, "n"), Command::HSet { ref key, ref field, ref value }
        if key == "clients:3" && field == "name" && value == "n"));
    assert!(matches!(Database::check_client_exists_id(3), Command::HExists { ref key, ref field }
        if key == "clients:3" && field == "name"));
}

#[test]
fn one_time_keys_are_url_safe_base64() {
    let mail = email_confirmation_key();
    assert_eq!(mail.len(), 7);
    let reset = password_reset_key();
    assert_eq!(reset.len(), 14);
    for key in [mail, reset, one_time_key(10)] {
        assert!(key.chars().all(|c| c.is_ascii_alphanumeric() || c == '-' || c == '_'), "{:?}", key);
    }
    assert_ne!(one_time_key(10), one_time_key(10));
    assert_eq!(random_bytes(0), Vec::<u8>::new());
    assert_eq!(random_bytes(33).len(), 33);
    assert_ne!(random_bytes(16), vec![0u8; 16]);
    assert_eq!(random_text(0), "");
    let text = random_text(40);
    assert_eq!(text.len(), 40);
    assert!(text.chars().all(|c| c.is_ascii_alphanumeric()));
}
