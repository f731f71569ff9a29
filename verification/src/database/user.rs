//! Users: the stored record, and the commands that create, change and remove it.

use vstd::prelude::*;
use crate::clock::{date_parsed, now, Date, MAX_CLOCK};
use crate::secret::{
    check_iterations, names_iterations, pbkdf2_verdict, totp_accepts, totp_verify, TOTP_PERIOD,
};
use crate::database::command::{
    commands_view, hdel, hexists, hget, hset, hset_nx, pairs_view, push_command, push_pair,
    replies_view, Command, CommandView, Pairs, Reply, ReplyView,
};
use crate::database::keys::{
    email_index_key, make_reset_password_key, make_user_address_key, make_user_enc_keys_key,
    make_user_key, make_user_sign_keys_key, make_verify_email_key, reset_password_key,
    user_address_key, user_enc_keys_key, user_index_key, user_key, user_sign_keys_key,
    verify_email_key,
};
use crate::database::{
    optional_id_of, Database, RESEND_EMAIL_SECONDS, RESET_PASSWORD_SECONDS, TOTP_SECRET_LEN,
    VERIFY_EMAIL_SECONDS,
};
use crate::encoding::{lowercase, to_lowercase};
use crate::secret::{
    all_alphanumeric, is_hash_of, password_verdict, pbkdf2_hash, random_text,
    PASSWORD_ITERATIONS,
};
use crate::text::{decimal, i64_to_string, signed_decimal, u64_to_string};
use crate::clock::date_text;
use vstd::string::*;
use crate::database::record::{
    byte_field, byte_of, instant_field, instant_of, optional_instant_field, optional_instant_of,
    text_field, text_of,
};
use crate::error::Error;
use crate::text::{parse_i64, parse_i64_spec, parse_u8, parse_u8_spec, str_eq};

verus! {

/// The format in which a birthday is stored.
pub open spec fn birthday_format() -> Seq<char> {
    "%Y-%m-%d"@
}

/// A postal address.
#[derive(Clone, Debug)]
pub struct Address {
    address1: String,
    address2: Option<String>,
    city: String,
    state: String,
    zip: String,
    country: String,
}

/// A postal address, its strings taken as characters.
pub struct AddressView {
    pub address1: Seq<char>,
    pub address2: Option<Seq<char>>,
    pub city: Seq<char>,
    pub state: Seq<char>,
    pub zip: Seq<char>,
    pub country: Seq<char>,
}

/// The characters of a string that may be absent.
pub open spec fn optional_text_view(text: Option<String>) -> Option<Seq<char>> {
    match text {
        Some(t) => Some(t@),
        None => None,
    }
}

/// The characters of a text that carries a mark.
pub open spec fn marked_text_view(text: Option<String>, mark: bool) -> Option<(Seq<char>, bool)> {
    match text {
        Some(t) => Some((t@, mark)),
        None => None,
    }
}

impl View for Address {
    type V = AddressView;

    closed spec fn view(&self) -> AddressView {
        AddressView {
            address1: self.address1@,
            address2: optional_text_view(self.address2),
            city: self.city@,
            state: self.state@,
            zip: self.zip@,
            country: self.country@,
        }
    }
}

impl Address {
    /// An address of the given lines.
    pub fn new(
        address1: String,
        address2: Option<String>,
        city: String,
        state: String,
        zip: String,
        country: String,
    ) -> (address: Address)
        ensures
            address@ == (AddressView {
                address1: address1@,
                address2: optional_text_view(address2),
                city: city@,
                state: state@,
                zip: zip@,
                country: country@,
            }),
    {
        Address { address1, address2, city, state, zip, country }
    }

    /// The first line.
    pub fn get_address1(&self) -> (text: &str)
        ensures
            text@ == self@.address1,
    {
        self.address1.as_str()
    }

    /// The second line, where there is one.
    pub fn get_address2(&self) -> (text: Option<&str>)
        ensures
            match text {
                Some(t) => self@.address2 == Some(t@),
                None => self@.address2 is None,
            },
    {
        match &self.address2 {
            Some(t) => Some(t.as_str()),
            None => None,
        }
    }

    /// The city.
    pub fn get_city(&self) -> (text: &str)
        ensures
            text@ == self@.city,
    {
        self.city.as_str()
    }

    /// The state.
    pub fn get_state(&self) -> (text: &str)
        ensures
            text@ == self@.state,
    {
        self.state.as_str()
    }

    /// The postal code.
    pub fn get_zip(&self) -> (text: &str)
        ensures
            text@ == self@.zip,
    {
        self.zip.as_str()
    }

    /// The country.
    pub fn get_country(&self) -> (text: &str)
        ensures
            text@ == self@.country,
    {
        self.country.as_str()
    }
}

/// All that the store holds of one user.
#[derive(Clone, Debug)]
pub struct User {
    user_id: u64,
    username: String,
    password: String,
    display_name: String,
    email: String,
    email_confirmed: bool,
    first_name: Option<String>,
    first_name_confirmed: bool,
    last_name: Option<String>,
    last_name_confirmed: bool,
    authenticator_secret: String,
    birthday: Option<Date>,
    birthday_confirmed: bool,
    phone: Option<String>,
    phone_confirmed: bool,
    image_url: Option<String>,
    address: Option<Address>,
    address_confirmed: bool,
    enabled: bool,
    registration_time: i64,
    last_activity: i64,
    banned: Option<i64>,
}

/// A user, the strings taken as characters and the birthday as year, month and day.
/// Where a field carries a mark, the mark says whether the field was confirmed.
pub struct UserView {
    pub user_id: u64,
    pub username: Seq<char>,
    pub password: Seq<char>,
    pub display_name: Seq<char>,
    pub email: (Seq<char>, bool),
    pub first_name: Option<(Seq<char>, bool)>,
    pub last_name: Option<(Seq<char>, bool)>,
    pub authenticator_secret: Seq<char>,
    pub birthday: Option<((int, int, int), bool)>,
    pub phone: Option<(Seq<char>, bool)>,
    pub image_url: Option<Seq<char>>,
    pub address: Option<(AddressView, bool)>,
    pub enabled: bool,
    pub registration_time: i64,
    pub last_activity: i64,
    pub banned: Option<i64>,
}

impl View for User {
    type V = UserView;

    closed spec fn view(&self) -> UserView {
        UserView {
            user_id: self.user_id,
            username: self.username@,
            password: self.password@,
            display_name: self.display_name@,
            email: (self.email@, self.email_confirmed),
            first_name: marked_text_view(self.first_name, self.first_name_confirmed),
            last_name: marked_text_view(self.last_name, self.last_name_confirmed),
            authenticator_secret: self.authenticator_secret@,
            birthday: match self.birthday {
                Some(b) => Some((b.parts(), self.birthday_confirmed)),
                None => None,
            },
            phone: marked_text_view(self.phone, self.phone_confirmed),
            image_url: optional_text_view(self.image_url),
            address: match self.address {
                Some(a) => Some((a@, self.address_confirmed)),
                None => None,
            },
            enabled: self.enabled,
            registration_time: self.registration_time,
            last_activity: self.last_activity,
            banned: self.banned,
        }
    }
}

/// Whether a field of a user's hash holds free text.
pub open spec fn is_user_text_field(key: Seq<char>) -> bool {
    key == "username"@ || key == "password"@ || key == "display_name"@ || key == "email"@ || key
        == "authenticator_secret"@ || key == "first_name"@ || key == "last_name"@ || key
        == "birthday"@ || key == "phone"@ || key == "image_url"@
}

/// Whether a field of a user's hash holds a mark, written as a small number.
pub open spec fn is_user_mark_field(key: Seq<char>) -> bool {
    key == "email_confirmed"@ || key == "first_name_confirmed"@ || key == "last_name_confirmed"@
        || key == "birthday_confirmed"@ || key == "address_confirmed"@ || key
        == "phone_confirmed"@ || key == "enabled"@
}

/// Whether a field of a user's hash holds an instant that must be there.
pub open spec fn is_user_instant_field(key: Seq<char>) -> bool {
    key == "registration_time"@ || key == "last_activity"@
}

/// What is wrong with one field of a user's hash, if anything: its name is unknown
/// (`UnknownField`), or its text is not what the field holds (`Redis`).
pub open spec fn user_field_fault(key: Seq<char>, value: Seq<char>) -> Option<Error> {
    if is_user_text_field(key) {
        None
    } else if is_user_mark_field(key) {
        if parse_u8_spec(value) is Some {
            None
        } else {
            Some(Error::Redis)
        }
    } else if is_user_instant_field(key) {
        if parse_i64_spec(value) is Some {
            None
        } else {
            Some(Error::Redis)
        }
    } else if key == "banned"@ {
        if value.len() == 0 || parse_i64_spec(value) is Some {
            None
        } else {
            Some(Error::Redis)
        }
    } else {
        Some(Error::UnknownField)
    }
}

/// The fault of the first faulty field of a user's hash.
pub open spec fn first_user_fault(data: Pairs) -> Option<Error>
    decreases data.len(),
{
    if data.len() == 0 {
        None
    } else {
        match first_user_fault(data.drop_last()) {
            Some(e) => Some(e),
            None => user_field_fault(data.last().0, data.last().1),
        }
    }
}

/// Whether a field belongs to an address hash. All of them hold free text.
pub open spec fn is_address_field(key: Seq<char>) -> bool {
    key == "address1"@ || key == "address2"@ || key == "city"@ || key == "state"@ || key == "zip"@
        || key == "country"@
}

/// Whether an address hash holds a field that the library never writes.
pub open spec fn address_fault(data: Pairs) -> bool {
    exists|i: int| 0 <= i < data.len() && !is_address_field(#[trigger] data[i].0)
}

/// A text with its mark, where the text is not empty.
pub open spec fn marked_field(data: Pairs, key: Seq<char>, mark: Seq<char>) -> Option<
    (Seq<char>, bool),
> {
    if text_of(data, key).len() > 0 {
        Some((text_of(data, key), byte_of(data, mark) == 1))
    } else {
        None
    }
}

/// The address that an address hash holds.
pub open spec fn address_of(data: Pairs) -> AddressView {
    AddressView {
        address1: text_of(data, "address1"@),
        address2: if text_of(data, "address2"@).len() == 0 {
            None
        } else {
            Some(text_of(data, "address2"@))
        },
        city: text_of(data, "city"@),
        state: text_of(data, "state"@),
        zip: text_of(data, "zip"@),
        country: text_of(data, "country"@),
    }
}

/// The user that two hashes hold: the user's own and the one of the address. A field
/// that is absent is empty, zero or, for the two instants that must be there, `now`.
pub open spec fn user_of(user_id: u64, data: Pairs, address: Pairs, now: i64) -> UserView {
    UserView {
        user_id,
        username: text_of(data, "username"@),
        password: text_of(data, "password"@),
        display_name: text_of(data, "display_name"@),
        email: (text_of(data, "email"@), byte_of(data, "email_confirmed"@) == 1),
        first_name: marked_field(data, "first_name"@, "first_name_confirmed"@),
        last_name: marked_field(data, "last_name"@, "last_name_confirmed"@),
        authenticator_secret: text_of(data, "authenticator_secret"@),
        birthday: if text_of(data, "birthday"@).len() > 0 {
            match date_parsed(text_of(data, "birthday"@), birthday_format()) {
                Some(d) => Some((d, byte_of(data, "birthday_confirmed"@) == 1)),
                None => None,
            }
        } else {
            None
        },
        phone: marked_field(data, "phone"@, "phone_confirmed"@),
        image_url: if text_of(data, "image_url"@).len() > 0 {
            Some(text_of(data, "image_url"@))
        } else {
            None
        },
        address: if address.len() > 0 {
            Some((address_of(address), byte_of(data, "address_confirmed"@) == 1))
        } else {
            None
        },
        enabled: byte_of(data, "enabled"@) == 1,
        registration_time: instant_of(data, "registration_time"@, now),
        last_activity: instant_of(data, "last_activity"@, now),
        banned: optional_instant_of(data, "banned"@),
    }
}

/// Tells what is wrong with one field of a user's hash.
pub fn check_user_field(key: &str, value: &str) -> (fault: Option<Error>)
    ensures
        fault == user_field_fault(key@, value@),
{
    if str_eq(key, "username") || str_eq(key, "password") || str_eq(key, "display_name") || str_eq(
        key,
        "email",
    ) || str_eq(key, "authenticator_secret") || str_eq(key, "first_name") || str_eq(
        key,
        "last_name",
    ) || str_eq(key, "birthday") || str_eq(key, "phone") || str_eq(key, "image_url") {
        None
    } else if str_eq(key, "email_confirmed") || str_eq(key, "first_name_confirmed") || str_eq(
        key,
        "last_name_confirmed",
    ) || str_eq(key, "birthday_confirmed") || str_eq(key, "address_confirmed") || str_eq(
        key,
        "phone_confirmed",
    ) || str_eq(key, "enabled") {
        match parse_u8(value) {
            Some(_) => None,
            None => Some(Error::Redis),
        }
    } else if str_eq(key, "registration_time") || str_eq(key, "last_activity") {
        match parse_i64(value) {
            Some(_) => None,
            None => Some(Error::Redis),
        }
    } else if str_eq(key, "banned") {
        if value.is_empty() {
            None
        } else {
            match parse_i64(value) {
                Some(_) => None,
                None => Some(Error::Redis),
            }
        }
    } else {
        Some(Error::UnknownField)
    }
}

/// Tells the fault of the first faulty field of a user's hash.
pub fn check_user_fields(data: &Vec<(String, String)>) -> (fault: Option<Error>)
    ensures
        fault == first_user_fault(pairs_view(data@)),
{
    let ghost all = pairs_view(data@);
    let mut i: usize = 0;
    assert(all.subrange(0, 0).len() == 0);
    while i < data.len()
        invariant
            0 <= i <= data.len(),
            all == pairs_view(data@),
            first_user_fault(all.subrange(0, i as int)) is None,
        decreases data.len() - i,
    {
        let ghost longer = all.subrange(0, i + 1);
        proof {
            assert(longer.drop_last() =~= all.subrange(0, i as int));
            assert(longer.last() == (data@[i as int].0@, data@[i as int].1@));
        }
        match check_user_field(data[i].0.as_str(), data[i].1.as_str()) {
            Some(e) => {
                proof {
                    lemma_fault_stays(all, i + 1);
                }
                return Some(e);
            },
            None => {},
        }
        i += 1;
    }
    assert(all.subrange(0, i as int) =~= all);
    None
}

/// A fault found in the first fields of a hash is the fault of the hash.
pub proof fn lemma_fault_stays(data: Pairs, k: int)
    requires
        0 <= k <= data.len(),
        first_user_fault(data.subrange(0, k)) is Some,
    ensures
        first_user_fault(data) == first_user_fault(data.subrange(0, k)),
    decreases data.len() - k,
{
    if k == data.len() {
        assert(data.subrange(0, k) =~= data);
    } else {
        let longer = data.subrange(0, k + 1);
        assert(longer.drop_last() =~= data.subrange(0, k));
        lemma_fault_stays(data, k + 1);
    }
}

/// Whether an address hash holds only fields that the library writes.
pub fn check_address_fields(data: &Vec<(String, String)>) -> (good: bool)
    ensures
        good == !address_fault(pairs_view(data@)),
{
    let ghost all = pairs_view(data@);
    let mut i: usize = 0;
    while i < data.len()
        invariant
            0 <= i <= data.len(),
            all == pairs_view(data@),
            forall|j: int| 0 <= j < i ==> is_address_field(#[trigger] all[j].0),
        decreases data.len() - i,
    {
        let key = data[i].0.as_str();
        assert(all[i as int].0 == key@);
        if !(str_eq(key, "address1") || str_eq(key, "address2") || str_eq(key, "city") || str_eq(
            key,
            "state",
        ) || str_eq(key, "zip") || str_eq(key, "country")) {
            return false;
        }
        i += 1;
    }
    true
}

/// How many full years lie between a birthday and a day: the difference of the
/// years, less one where the day comes earlier in its year than the birthday. A
/// birthday that is still to come gives zero, and no age is above 255.
pub open spec fn age_between(birthday: (int, int, int), today: (int, int, int)) -> u8 {
    let years = today.0 - birthday.0 - (if today.1 < birthday.1 || (today.1 == birthday.1
        && today.2 < birthday.2) {
        1int
    } else {
        0int
    });
    if years < 0 {
        0u8
    } else if years > 255 {
        255u8
    } else {
        years as u8
    }
}

/// Whether a day may be the day it is: a date of the calendar, in no year before
/// that of the epoch.
pub open spec fn may_be_today(day: (int, int, int)) -> bool {
    crate::clock::calendar_date(day.0, day.1, day.2) && day.0 >= crate::clock::EPOCH_YEAR
}

/// The place that a profile shows for an address.
pub open spec fn profile_address(address: AddressView) -> Seq<char> {
    address.city + ", "@ + address.state + ", "@ + address.country
}

/// What a user shows to other users.
#[derive(Clone, Debug)]
pub struct Profile {
    /// The user's id.
    pub user_id: u64,
    /// The name the user goes by.
    pub display_name: String,
    /// The first name.
    pub first_name: Option<String>,
    /// The last name.
    pub last_name: Option<String>,
    /// Where the user's picture is.
    pub image_url: Option<String>,
    /// The age in years.
    pub age: Option<u8>,
    /// City, state and country.
    pub address: Option<String>,
}

impl User {
    /// Reads a user from the two hashes that the store keeps of it, at the instant `now`.
    ///
    /// Fails on the first field of the user's hash that is faulty, then on an address
    /// hash with a field that the library never writes.
    pub fn from_db_data_at(
        user_id: u64,
        data: &Vec<(String, String)>,
        address_data: &Vec<(String, String)>,
        now: i64,
    ) -> (r: Result<User, Error>)
        ensures
            match r {
                Ok(user) => first_user_fault(pairs_view(data@)) is None && !address_fault(
                    pairs_view(address_data@),
                ) && user@ == user_of(user_id, pairs_view(data@), pairs_view(address_data@), now),
                Err(e) => first_user_fault(pairs_view(data@)) == Some(e) || (first_user_fault(
                    pairs_view(data@),
                ) is None && address_fault(pairs_view(address_data@)) && e == Error::UnknownField),
            },
    {
        match check_user_fields(data) {
            Some(e) => {
                return Err(e);
            },
            None => {},
        }
        if !check_address_fields(address_data) {
            return Err(Error::UnknownField);
        }
        let first_name = text_field(data, "first_name");
        let last_name = text_field(data, "last_name");
        let birthday = text_field(data, "birthday");
        let phone = text_field(data, "phone");
        let image_url = text_field(data, "image_url");
        let address = if address_data.len() > 0 {
            let address2 = text_field(address_data, "address2");
            Some(
                Address::new(
                    text_field(address_data, "address1"),
                    if address2.as_str().is_empty() {
                        None
                    } else {
                        Some(address2)
                    },
                    text_field(address_data, "city"),
                    text_field(address_data, "state"),
                    text_field(address_data, "zip"),
                    text_field(address_data, "country"),
                ),
            )
        } else {
            None
        };
        let user = User {
            user_id,
            username: text_field(data, "username"),
            password: text_field(data, "password"),
            display_name: text_field(data, "display_name"),
            email: text_field(data, "email"),
            email_confirmed: byte_field(data, "email_confirmed") == 1,
            first_name: if first_name.as_str().is_empty() {
                None
            } else {
                Some(first_name)
            },
            first_name_confirmed: byte_field(data, "first_name_confirmed") == 1,
            last_name: if last_name.as_str().is_empty() {
                None
            } else {
                Some(last_name)
            },
            last_name_confirmed: byte_field(data, "last_name_confirmed") == 1,
            authenticator_secret: text_field(data, "authenticator_secret"),
            birthday: if birthday.as_str().is_empty() {
                None
            } else {
                Date::parse(birthday.as_str(), "%Y-%m-%d")
            },
            birthday_confirmed: byte_field(data, "birthday_confirmed") == 1,
            phone: if phone.as_str().is_empty() {
                None
            } else {
                Some(phone)
            },
            phone_confirmed: byte_field(data, "phone_confirmed") == 1,
            image_url: if image_url.as_str().is_empty() {
                None
            } else {
                Some(image_url)
            },
            address,
            address_confirmed: byte_field(data, "address_confirmed") == 1,
            enabled: byte_field(data, "enabled") == 1,
            registration_time: instant_field(data, "registration_time", now),
            last_activity: instant_field(data, "last_activity", now),
            banned: optional_instant_field(data, "banned"),
        };
        Ok(user)
    }

    /// Reads a user from the two hashes that the store keeps of it. Where the hash
    /// lacks one of the two instants that must be there, the clock gives it.
    pub fn from_db_data(
        user_id: u64,
        data: &Vec<(String, String)>,
        address_data: &Vec<(String, String)>,
    ) -> (r: Result<User, Error>)
        ensures
            match r {
                Ok(user) => first_user_fault(pairs_view(data@)) is None && !address_fault(
                    pairs_view(address_data@),
                ) && exists|t: i64|
                    0 <= t <= MAX_CLOCK && user@ == #[trigger] user_of(
                        user_id,
                        pairs_view(data@),
                        pairs_view(address_data@),
                        t,
                    ),
                Err(e) => first_user_fault(pairs_view(data@)) == Some(e) || (first_user_fault(
                    pairs_view(data@),
                ) is None && address_fault(pairs_view(address_data@)) && e == Error::UnknownField),
            },
    {
        let t = now();
        User::from_db_data_at(user_id, data, address_data, t)
    }
}

/// The fields that a registration writes into the hash of a new user.
pub open spec fn simple_user_fields(
    name: Seq<char>,
    hash: Seq<char>,
    display_name: Seq<char>,
    email: Seq<char>,
    secret: Seq<char>,
    instant: i64,
) -> Pairs {
    seq![
        ("username"@, name),
        ("password"@, hash),
        ("display_name"@, display_name),
        ("first_name"@, ""@),
        ("first_name_confirmed"@, "0"@),
        ("last_name"@, ""@),
        ("last_name_confirmed"@, "0"@),
        ("email"@, email),
        ("email_confirmed"@, "0"@),
        ("birthday_confirmed"@, "0"@),
        ("authenticator_secret"@, secret),
        ("address_confirmed"@, "0"@),
        ("phone_confirmed"@, "0"@),
        ("image_url"@, ""@),
        ("enabled"@, "1"@),
        ("registration_time"@, signed_decimal(instant as int)),
        ("last_activity"@, signed_decimal(instant as int)),
        ("banned"@, ""@),
    ]
}

/// The commands of a registration: both index entries, the one-time key that confirms
/// the email address, and the hash of the user.
pub open spec fn simple_user_commands(
    id: u64,
    name: Seq<char>,
    hash: Seq<char>,
    display_name: Seq<char>,
    email: Seq<char>,
    email_key: Seq<char>,
    secret: Seq<char>,
    instant: i64,
) -> Seq<CommandView> {
    seq![
        CommandView::HSetNx { key: user_index_key(), field: name, value: decimal(id as nat) },
        CommandView::HSetNx { key: email_index_key(), field: email, value: decimal(id as nat) },
        CommandView::SetEx {
            key: verify_email_key(email_key),
            value: decimal(id as nat),
            seconds: VERIFY_EMAIL_SECONDS,
        },
        CommandView::HSetMultiple {
            key: user_key(id),
            items: simple_user_fields(name, hash, display_name, email, secret, instant),
        },
    ]
}

/// A user that was admitted to registration: the name and the email address were
/// asked for and found free. Only `Database::admit_new_user` makes one, and the
/// commands of a registration are made from one.
#[derive(Debug)]
pub struct NewUser {
    display_name: String,
    name: String,
    email: String,
}

/// An admitted user: the name as it was given, and the name and the email address
/// in lower case.
pub struct NewUserView {
    pub display_name: Seq<char>,
    pub name: Seq<char>,
    pub email: Seq<char>,
}

impl View for NewUser {
    type V = NewUserView;

    closed spec fn view(&self) -> NewUserView {
        NewUserView { display_name: self.display_name@, name: self.name@, email: self.email@ }
    }
}

/// The commands that ask whether a user name and an email address are taken.
pub open spec fn new_user_questions(name: Seq<char>, email: Seq<char>) -> Seq<CommandView> {
    seq![
        CommandView::HExists { key: user_index_key(), field: name },
        CommandView::HExists { key: email_index_key(), field: email },
    ]
}

/// What the answers to the two questions of a registration mean: `Ok` where neither
/// the name nor the address is taken.
pub open spec fn new_user_verdict(replies: Seq<ReplyView>) -> Result<(), Error> {
    if replies.len() != 2 {
        Err(Error::Redis)
    } else {
        match (crate::database::command::flag_of(replies[0]), crate::database::command::flag_of(replies[1])) {
            (Some(false), Some(false)) => Ok(()),
            (Some(_), Some(_)) => Err(Error::UserExists),
            _ => Err(Error::Redis),
        }
    }
}

/// The commands that remove a user: the hash, the keys, the address and both index entries.
pub open spec fn delete_user_commands(id: u64, name: Seq<char>, email: Seq<char>) -> Seq<
    CommandView,
> {
    seq![
        CommandView::Del { key: user_key(id) },
        CommandView::Del { key: user_sign_keys_key(id) },
        CommandView::Del { key: user_enc_keys_key(id) },
        CommandView::Del { key: user_address_key(id) },
        CommandView::HDel { key: user_index_key(), field: name },
        CommandView::HDel { key: email_index_key(), field: email },
    ]
}

/// The commands that read a user: the user's hash, then the hash of the address.
pub open spec fn get_user_commands(id: u64) -> Seq<CommandView> {
    seq![
        CommandView::HGetAll { key: user_key(id) },
        CommandView::HGetAll { key: user_address_key(id) },
    ]
}

/// The commands that redeem a one-time key: read it, then remove it.
pub open spec fn redeem_commands(key: Seq<char>) -> Seq<CommandView> {
    seq![CommandView::Get { key }, CommandView::Del { key }]
}

/// What the answers to a redemption mean: the user that the key stood for, or
/// `IncorrectKey` where the store showed no such key.
pub open spec fn redeemed(replies: Seq<ReplyView>) -> Result<u64, Error> {
    if replies.len() != 2 {
        Err(Error::Redis)
    } else {
        match optional_id_of(replies[0]) {
            Some(Some(id)) => Ok(id),
            Some(None) => Err(Error::IncorrectKey),
            None => Err(Error::Redis),
        }
    }
}

/// What the two answers to the reading of a user mean: the user, or nothing where the
/// store holds no hash of it.
pub open spec fn user_read(user_id: u64, replies: Seq<ReplyView>, now: i64) -> Result<
    Option<UserView>,
    Error,
> {
    if replies.len() == 2 && replies[0] is Fields && replies[1] is Fields {
        let data = replies[0]->Fields_0;
        let address = replies[1]->Fields_0;
        if data.len() == 0 {
            Ok(None)
        } else if first_user_fault(data) is Some {
            Err(first_user_fault(data)->0)
        } else if address_fault(address) {
            Err(Error::UnknownField)
        } else {
            Ok(Some(user_of(user_id, data, address, now)))
        }
    } else {
        Err(Error::Redis)
    }
}

impl Database {
    /// Asks whether a user of that name exists. Names are compared in lower case.
    pub fn check_username_exists(username: &str) -> (c: Command)
        ensures
            c@ == (CommandView::HExists { key: user_index_key(), field: lowercase(username@) }),
    {
        let name = to_lowercase(username);
        hexists("userkeys", name.as_str())
    }

    /// Asks whether a user of that email address exists. Addresses are compared in
    /// lower case.
    pub fn check_email_exists(email: &str) -> (c: Command)
        ensures
            c@ == (CommandView::HExists { key: email_index_key(), field: lowercase(email@) }),
    {
        let address = to_lowercase(email);
        hexists("emailkeys", address.as_str())
    }

    /// Asks whether the user with the id exists.
    pub fn check_user_exists(id: u64) -> (c: Command)
        ensures
            c@ == (CommandView::HExists { key: user_key(id), field: "username"@ }),
    {
        let key = make_user_key(id);
        hexists(key.as_str(), "username")
    }

    /// The two questions that come before a registration.
    pub fn check_new_user(username: &str, email: &str) -> (commands: Vec<Command>)
        ensures
            commands_view(commands@) == new_user_questions(lowercase(username@), lowercase(email@)),
    {
        let mut commands = Vec::new();
        assert(commands_view(commands@) =~= Seq::empty());
        push_command(&mut commands, Database::check_username_exists(username));
        push_command(&mut commands, Database::check_email_exists(email));
        commands
    }

    /// Decides on the registration of `username` with `email` from the answers to its
    /// two questions: the admitted user and the command that draws its id, or
    /// `UserExists` where the name or the address is taken, or `Redis` where the
    /// answers are not two yes-or-no answers.
    pub fn admit_new_user(username: &str, email: &str, replies: &Vec<Reply>) -> (r: Result<
        (NewUser, Command),
        Error,
    >)
        ensures
            match r {
                Ok((admitted, c)) => new_user_verdict(replies_view(replies@)) is Ok && admitted@
                    == (NewUserView {
                    display_name: username@,
                    name: lowercase(username@),
                    email: lowercase(email@),
                }) && c@ == (CommandView::Incr { key: crate::database::keys::next_user_id_key() }),
                Err(e) => new_user_verdict(replies_view(replies@)) == Err::<(), Error>(e),
            },
    {
        if replies.len() != 2 {
            return Err(Error::Redis);
        }
        assert(replies_view(replies@)[0] == replies@[0]@);
        assert(replies_view(replies@)[1] == replies@[1]@);
        match (replies[0].as_flag(), replies[1].as_flag()) {
            (Some(false), Some(false)) => Ok(
                (
                    NewUser {
                        display_name: String::from_str(username),
                        name: to_lowercase(username),
                        email: to_lowercase(email),
                    },
                    Database::increment_user_id(),
                ),
            ),
            (Some(_), Some(_)) => Err(Error::UserExists),
            _ => Err(Error::Redis),
        }
    }

    /// The commands of a registration, from the values that it stores.
    pub fn create_user_simple_with(
        admitted: NewUser,
        id: u64,
        hash: &str,
        email_key: &str,
        secret: &str,
        instant: i64,
    ) -> (commands: Vec<Command>)
        ensures
            commands_view(commands@) == simple_user_commands(
                id,
                admitted@.name,
                hash@,
                admitted@.display_name,
                admitted@.email,
                email_key@,
                secret@,
                instant,
            ),
    {
        let name = admitted.name.as_str();
        let display_name = admitted.display_name.as_str();
        let email = admitted.email.as_str();
        let id_text = u64_to_string(id);
        let instant_text = i64_to_string(instant);
        let mut items: Vec<(String, String)> = Vec::new();
        assert(pairs_view(items@) =~= Seq::empty());
        push_pair(&mut items, "username", name);
        push_pair(&mut items, "password", hash);
        push_pair(&mut items, "display_name", display_name);
        push_pair(&mut items, "first_name", "");
        push_pair(&mut items, "first_name_confirmed", "0");
        push_pair(&mut items, "last_name", "");
        push_pair(&mut items, "last_name_confirmed", "0");
        push_pair(&mut items, "email", email);
        push_pair(&mut items, "email_confirmed", "0");
        push_pair(&mut items, "birthday_confirmed", "0");
        push_pair(&mut items, "authenticator_secret", secret);
        push_pair(&mut items, "address_confirmed", "0");
        push_pair(&mut items, "phone_confirmed", "0");
        push_pair(&mut items, "image_url", "");
        push_pair(&mut items, "enabled", "1");
        push_pair(&mut items, "registration_time", instant_text.as_str());
        push_pair(&mut items, "last_activity", instant_text.as_str());
        push_pair(&mut items, "banned", "");
        assert(pairs_view(items@) =~= simple_user_fields(
            admitted@.name,
            hash@,
            admitted@.display_name,
            admitted@.email,
            secret@,
            instant,
        ));
        let mut commands = Vec::new();
        assert(commands_view(commands@) =~= Seq::empty());
        push_command(&mut commands, hset_nx("userkeys", name, id_text.as_str()));
        push_command(&mut commands, hset_nx("emailkeys", email, id_text.as_str()));
        push_command(
            &mut commands,
            Command::SetEx {
                key: make_verify_email_key(email_key),
                value: id_text.clone(),
                seconds: VERIFY_EMAIL_SECONDS,
            },
        );
        push_command(&mut commands, Command::HSetMultiple { key: make_user_key(id), items });
        assert(commands_view(commands@) =~= simple_user_commands(
            id,
            admitted@.name,
            hash@,
            admitted@.display_name,
            admitted@.email,
            email_key@,
            secret@,
            instant,
        ));
        commands
    }

    /// The commands of the registration of an admitted user with the freshly drawn
    /// id `id`.
    ///
    /// The password is stored as a salted hash, the name and the
    /// email address also in lower case, and the authenticator gets a random secret.
    /// Fails with `IO` where the system gives no randomness for the salt.
    pub fn create_user_simple(admitted: NewUser, id: u64, password: &str, email_key: &str) -> (r:
        Result<Vec<Command>, Error>)
        ensures
            match r {
                Ok(commands) => exists|hash: Seq<char>, secret: Seq<char>, instant: i64|
                    is_hash_of(hash, password@) && secret.len() == TOTP_SECRET_LEN
                        && all_alphanumeric(secret) && 0 <= instant <= MAX_CLOCK && commands_view(
                        commands@,
                    ) == #[trigger] simple_user_commands(
                        id,
                        admitted@.name,
                        hash,
                        admitted@.display_name,
                        admitted@.email,
                        email_key@,
                        secret,
                        instant,
                    ),
                Err(e) => e == Error::IO,
            },
    {
        let hash = match pbkdf2_hash(password, PASSWORD_ITERATIONS) {
            Some(h) => h,
            None => {
                return Err(Error::IO);
            },
        };
        let secret = random_text(TOTP_SECRET_LEN);
        let instant = now();
        Ok(
            Database::create_user_simple_with(
                admitted,
                id,
                hash.as_str(),
                email_key,
                secret.as_str(),
                instant,
            ),
        )
    }

    /// The commands that read the user with the id.
    pub fn get_user_by_id(id: u64) -> (commands: Vec<Command>)
        ensures
            commands_view(commands@) == get_user_commands(id),
    {
        let mut commands = Vec::new();
        assert(commands_view(commands@) =~= Seq::empty());
        push_command(&mut commands, Command::HGetAll { key: make_user_key(id) });
        push_command(&mut commands, Command::HGetAll { key: make_user_address_key(id) });
        commands
    }

    /// Reads the user from the two answers, at the instant `now`. Nothing where the
    /// store holds no hash of the user.
    pub fn read_user_at(user_id: u64, replies: &Vec<Reply>, now: i64) -> (r: Result<
        Option<User>,
        Error,
    >)
        ensures
            match r {
                Ok(Some(user)) => user_read(user_id, replies_view(replies@), now) == Ok::<
                    Option<UserView>,
                    Error,
                >(Some(user@)),
                Ok(None) => user_read(user_id, replies_view(replies@), now) == Ok::<
                    Option<UserView>,
                    Error,
                >(None),
                Err(e) => user_read(user_id, replies_view(replies@), now) == Err::<
                    Option<UserView>,
                    Error,
                >(e),
            },
    {
        if replies.len() != 2 {
            return Err(Error::Redis);
        }
        assert(replies_view(replies@)[0] == replies@[0]@);
        assert(replies_view(replies@)[1] == replies@[1]@);
        match (&replies[0], &replies[1]) {
            (Reply::Fields(data), Reply::Fields(address)) => {
                if data.len() == 0 {
                    Ok(None)
                } else {
                    match User::from_db_data_at(user_id, data, address, now) {
                        Ok(user) => Ok(Some(user)),
                        Err(e) => Err(e),
                    }
                }
            },
            _ => Err(Error::Redis),
        }
    }

    /// Reads the user from the two answers. Where the hash lacks one of the two
    /// instants that must be there, the clock gives it.
    pub fn read_user(user_id: u64, replies: &Vec<Reply>) -> (r: Result<Option<User>, Error>)
        ensures
            exists|now: i64|
                0 <= now <= MAX_CLOCK && match r {
                    Ok(Some(user)) => #[trigger] user_read(user_id, replies_view(replies@), now)
                        == Ok::<Option<UserView>, Error>(Some(user@)),
                    Ok(None) => user_read(user_id, replies_view(replies@), now) == Ok::<
                        Option<UserView>,
                        Error,
                    >(None),
                    Err(e) => user_read(user_id, replies_view(replies@), now) == Err::<
                        Option<UserView>,
                        Error,
                    >(e),
                },
    {
        let t = now();
        Database::read_user_at(user_id, replies, t)
    }

    /// The commands that redeem the one-time key that confirms an email address.
    pub fn try_confirm_email(email_key: &str) -> (commands: Vec<Command>)
        ensures
            commands_view(commands@) == redeem_commands(verify_email_key(email_key@)),
    {
        let mut commands = Vec::new();
        assert(commands_view(commands@) =~= Seq::empty());
        push_command(&mut commands, Command::Get { key: make_verify_email_key(email_key) });
        push_command(&mut commands, Command::Del { key: make_verify_email_key(email_key) });
        commands
    }

    /// The commands that redeem the one-time key that resets a password.
    pub fn confirm_password_reset(password_key: &str) -> (commands: Vec<Command>)
        ensures
            commands_view(commands@) == redeem_commands(reset_password_key(password_key@)),
    {
        let mut commands = Vec::new();
        assert(commands_view(commands@) =~= Seq::empty());
        push_command(&mut commands, Command::Get { key: make_reset_password_key(password_key) });
        push_command(&mut commands, Command::Del { key: make_reset_password_key(password_key) });
        commands
    }

    /// Reads the user that a redeemed one-time key stood for. Fails with
    /// `IncorrectKey` where the store showed no such key: it was never issued, was
    /// redeemed before, or has expired.
    pub fn read_redeemed(replies: &Vec<Reply>) -> (r: Result<u64, Error>)
        ensures
            r == redeemed(replies_view(replies@)),
    {
        if replies.len() != 2 {
            return Err(Error::Redis);
        }
        assert(replies_view(replies@)[0] == replies@[0]@);
        match Database::read_optional_id(&replies[0]) {
            Ok(Some(id)) => Ok(id),
            Ok(None) => Err(Error::IncorrectKey),
            Err(e) => Err(e),
        }
    }

    /// The user that a redeemed one-time key stood for, once it was read from the
    /// store. Fails with `UserDoesNotExist` where the user is no longer there.
    pub fn redeemed_user(read: Option<User>) -> (r: Result<User, Error>)
        ensures
            match read {
                Some(user) => r == Ok::<User, Error>(user),
                None => r == Err::<User, Error>(Error::UserDoesNotExist),
            },
    {
        match read {
            Some(user) => Ok(user),
            None => Err(Error::UserDoesNotExist),
        }
    }

    /// The command that issues the one-time key that resets the password of the user.
    pub fn start_reset_password(user_id: u64, password_key: &str) -> (c: Command)
        ensures
            c@ == (CommandView::SetEx {
                key: reset_password_key(password_key@),
                value: decimal(user_id as nat),
                seconds: RESET_PASSWORD_SECONDS,
            }),
    {
        Command::SetEx {
            key: make_reset_password_key(password_key),
            value: u64_to_string(user_id),
            seconds: RESET_PASSWORD_SECONDS,
        }
    }

    /// The command that issues anew the one-time key that confirms the email address
    /// of the user.
    pub fn start_confirm_email(user_id: u64, email_key: &str) -> (c: Command)
        ensures
            c@ == (CommandView::SetEx {
                key: verify_email_key(email_key@),
                value: decimal(user_id as nat),
                seconds: RESEND_EMAIL_SECONDS,
            }),
    {
        Command::SetEx {
            key: make_verify_email_key(email_key),
            value: u64_to_string(user_id),
            seconds: RESEND_EMAIL_SECONDS,
        }
    }

    /// The commands that remove the user with its keys, its address and both of its
    /// index entries.
    pub fn delete_user(user: &User) -> (commands: Vec<Command>)
        ensures
            commands_view(commands@) == delete_user_commands(
                user@.user_id,
                user@.username,
                user@.email.0,
            ),
    {
        let id = user.user_id;
        let name = user.username.as_str();
        let address = user.email.as_str();
        let mut commands = Vec::new();
        assert(commands_view(commands@) =~= Seq::empty());
        push_command(&mut commands, Command::Del { key: make_user_key(id) });
        push_command(&mut commands, Command::Del { key: make_user_sign_keys_key(id) });
        push_command(&mut commands, Command::Del { key: make_user_enc_keys_key(id) });
        push_command(&mut commands, Command::Del { key: make_user_address_key(id) });
        push_command(&mut commands, hdel("userkeys", name));
        push_command(&mut commands, hdel("emailkeys", address));
        commands
    }

    /// The command that looks up the id of the user of that name.
    pub fn get_user_id_by_username(username: &str) -> (c: Command)
        ensures
            c@ == (CommandView::HGet { key: user_index_key(), field: lowercase(username@) }),
    {
        let name = to_lowercase(username);
        hget("userkeys", name.as_str())
    }

    /// The command that looks up the id of the user of that email address.
    pub fn get_user_id_by_email(email: &str) -> (c: Command)
        ensures
            c@ == (CommandView::HGet { key: email_index_key(), field: lowercase(email@) }),
    {
        let address = to_lowercase(email);
        hget("emailkeys", address.as_str())
    }
}

/// The two fields that hold a text and the mark that it is not confirmed.
pub open spec fn unconfirmed(field: Seq<char>, text: Seq<char>, mark: Seq<char>) -> Pairs {
    seq![(field, text), (mark, "0"@)]
}

/// The fields of an address.
pub open spec fn address_fields(address: AddressView) -> Pairs {
    seq![
        ("address1"@, address.address1),
        ("address2"@, match address.address2 {
            Some(line) => line,
            None => ""@,
        }),
        ("city"@, address.city),
        ("state"@, address.state),
        ("zip"@, address.zip),
        ("country"@, address.country),
    ]
}

/// The command that stores or removes the address of a user.
pub open spec fn address_command(id: u64, address: Option<AddressView>) -> CommandView {
    match address {
        Some(a) => CommandView::HSetMultiple { key: user_address_key(id), items: address_fields(a) },
        None => CommandView::Del { key: user_address_key(id) },
    }
}

/// The commands that move the entry of an index: the new entry is set, and the old
/// one removed unless it is the new one.
pub open spec fn move_entry(index: Seq<char>, id: u64, old_field: Seq<char>, new_field: Seq<char>)
    -> Seq<CommandView> {
    if old_field == new_field {
        seq![CommandView::HSet { key: index, field: new_field, value: decimal(id as nat) }]
    } else {
        seq![
            CommandView::HSet { key: index, field: new_field, value: decimal(id as nat) },
            CommandView::HDel { key: index, field: old_field },
        ]
    }
}

/// The commands that give a user another name: the hash, then the entry of the index.
/// The old name is taken as the user holds it, which is as the index holds it.
pub open spec fn rename_commands(id: u64, old_name: Seq<char>, new_name: Seq<char>) -> Seq<
    CommandView,
> {
    seq![
        CommandView::HSetMultiple {
            key: user_key(id),
            items: seq![("username"@, lowercase(new_name)), ("display_name"@, new_name)],
        },
    ] + move_entry(user_index_key(), id, old_name, lowercase(new_name))
}

/// The commands that give a user another email address: the hash, then the entry of
/// the index. The old address is taken as the user holds it, which is as the index
/// holds it.
pub open spec fn readdress_commands(id: u64, old_email: Seq<char>, new_email: Seq<char>) -> Seq<
    CommandView,
> {
    seq![
        CommandView::HSetMultiple {
            key: user_key(id),
            items: unconfirmed("email"@, lowercase(new_email), "email_confirmed"@),
        },
    ] + move_entry(email_index_key(), id, old_email, lowercase(new_email))
}

/// Adds the commands that move the entry of an index.
pub fn push_move_entry(
    commands: &mut Vec<Command>,
    index: &str,
    id: u64,
    old_field: &str,
    new_field: &str,
)
    ensures
        commands_view(final(commands)@) == commands_view(old(commands)@) + move_entry(
            index@,
            id,
            old_field@,
            new_field@,
        ),
{
    let id_text = u64_to_string(id);
    let ghost before = commands_view(commands@);
    push_command(commands, hset(String::from_str(index), new_field, id_text.as_str()));
    if !str_eq(old_field, new_field) {
        push_command(commands, hdel(index, old_field));
    }
    assert(commands_view(commands@) =~= before + move_entry(index@, id, old_field@, new_field@));
}

/// Whether a text holds the character.
pub fn contains_char(text: &str, c: char) -> (r: bool)
    ensures
        r == text@.contains(c),
{
    let n = text.unicode_len();
    let mut i: usize = 0;
    while i < n
        invariant
            0 <= i <= n,
            n == text@.len(),
            forall|j: int| 0 <= j < i ==> text@[j] != c,
        decreases n - i,
    {
        if text.get_char(i) == c {
            return true;
        }
        i += 1;
    }
    false
}

/// The command that sets a text of a user and marks it as not confirmed.
pub fn set_unconfirmed(user_id: u64, field: &str, text: &str, mark: &str) -> (c: Command)
    ensures
        c@ == (CommandView::HSetMultiple {
            key: user_key(user_id),
            items: unconfirmed(field@, text@, mark@),
        }),
{
    let mut items: Vec<(String, String)> = Vec::new();
    assert(pairs_view(items@) =~= Seq::empty());
    push_pair(&mut items, field, text);
    push_pair(&mut items, mark, "0");
    assert(pairs_view(items@) =~= unconfirmed(field@, text@, mark@));
    Command::HSetMultiple { key: make_user_key(user_id), items }
}

impl Database {
    /// The command that sets the first name of the user. The name is then not confirmed.
    pub fn set_user_first_name(user_id: u64, name: &str) -> (c: Command)
        ensures
            c@ == (CommandView::HSetMultiple {
                key: user_key(user_id),
                items: unconfirmed("first_name"@, name@, "first_name_confirmed"@),
            }),
    {
        set_unconfirmed(user_id, "first_name", name, "first_name_confirmed")
    }

    /// The command that sets the last name of the user. The name is then not confirmed.
    pub fn set_user_last_name(user_id: u64, name: &str) -> (c: Command)
        ensures
            c@ == (CommandView::HSetMultiple {
                key: user_key(user_id),
                items: unconfirmed("last_name"@, name@, "last_name_confirmed"@),
            }),
    {
        set_unconfirmed(user_id, "last_name", name, "last_name_confirmed")
    }

    /// The command that sets the phone number of the user, or empties it. The number
    /// is then not confirmed.
    pub fn set_user_phone(user_id: u64, phone: Option<&str>) -> (c: Command)
        ensures
            c@ == (CommandView::HSetMultiple {
                key: user_key(user_id),
                items: unconfirmed(
                    "phone"@,
                    match phone {
                        Some(p) => p@,
                        None => ""@,
                    },
                    "phone_confirmed"@,
                ),
            }),
    {
        match phone {
            Some(p) => set_unconfirmed(user_id, "phone", p, "phone_confirmed"),
            None => set_unconfirmed(user_id, "phone", "", "phone_confirmed"),
        }
    }

    /// The command that sets the birthday of the user, or empties it. The birthday is
    /// then not confirmed.
    pub fn set_user_birthday(user_id: u64, date: Option<&Date>) -> (c: Command)
        ensures
            c@ == (CommandView::HSetMultiple {
                key: user_key(user_id),
                items: unconfirmed(
                    "birthday"@,
                    match date {
                        Some(d) => date_text(d.parts().0, d.parts().1, d.parts().2),
                        None => ""@,
                    },
                    "birthday_confirmed"@,
                ),
            }),
    {
        match date {
            Some(d) => {
                let text = d.to_text();
                set_unconfirmed(user_id, "birthday", text.as_str(), "birthday_confirmed")
            },
            None => set_unconfirmed(user_id, "birthday", "", "birthday_confirmed"),
        }
    }

    /// The command that sets one field of the hash of the user.
    pub fn set_user_field(user_id: u64, field: &str, value: &str) -> (c: Command)
        ensures
            c@ == (CommandView::HSet { key: user_key(user_id), field: field@, value: value@ }),
    {
        hset(make_user_key(user_id), field, value)
    }

    /// The command that stores the hash of a password of the user.
    pub fn set_user_password(user_id: u64, hash: &str) -> (c: Command)
        ensures
            c@ == (CommandView::HSet { key: user_key(user_id), field: "password"@, value: hash@ }),
    {
        Database::set_user_field(user_id, "password", hash)
    }

    /// The command that sets where the picture of the user is, or empties it.
    pub fn set_user_image(user_id: u64, image: Option<&str>) -> (c: Command)
        ensures
            c@ == (CommandView::HSet {
                key: user_key(user_id),
                field: "image_url"@,
                value: match image {
                    Some(i) => i@,
                    None => ""@,
                },
            }),
    {
        match image {
            Some(i) => Database::set_user_field(user_id, "image_url", i),
            None => Database::set_user_field(user_id, "image_url", ""),
        }
    }

    /// The command that marks the email address of the user as confirmed.
    pub fn confirm_email(user_id: u64) -> (c: Command)
        ensures
            c@ == (CommandView::HSet {
                key: user_key(user_id),
                field: "email_confirmed"@,
                value: "1"@,
            }),
    {
        Database::set_user_field(user_id, "email_confirmed", "1")
    }

    /// The command that enables the account of the user.
    pub fn enable_user(user_id: u64) -> (c: Command)
        ensures
            c@ == (CommandView::HSet { key: user_key(user_id), field: "enabled"@, value: "1"@ }),
    {
        Database::set_user_field(user_id, "enabled", "1")
    }

    /// The command that disables the account of the user.
    pub fn disable_user(user_id: u64) -> (c: Command)
        ensures
            c@ == (CommandView::HSet { key: user_key(user_id), field: "enabled"@, value: "0"@ }),
    {
        Database::set_user_field(user_id, "enabled", "0")
    }

    /// The command that notes `instant` as the last activity of the user.
    pub fn set_last_activity_time(user_id: u64, instant: i64) -> (c: Command)
        ensures
            c@ == (CommandView::HSet {
                key: user_key(user_id),
                field: "last_activity"@,
                value: signed_decimal(instant as int),
            }),
    {
        let text = i64_to_string(instant);
        Database::set_user_field(user_id, "last_activity", text.as_str())
    }

    /// The command that stores a secret of the authenticator of the user.
    pub fn set_authenticator_secret(user_id: u64, secret: &str) -> (c: Command)
        ensures
            c@ == (CommandView::HSet {
                key: user_key(user_id),
                field: "authenticator_secret"@,
                value: secret@,
            }),
    {
        Database::set_user_field(user_id, "authenticator_secret", secret)
    }

    /// A fresh random secret for the authenticator of the user, with the command that
    /// stores it.
    pub fn create_new_user_authenticator_secret(user_id: u64) -> (r: (String, Command))
        ensures
            r.0@.len() == TOTP_SECRET_LEN,
            all_alphanumeric(r.0@),
            r.1@ == (CommandView::HSet {
                key: user_key(user_id),
                field: "authenticator_secret"@,
                value: r.0@,
            }),
    {
        let secret = random_text(TOTP_SECRET_LEN);
        let command = Database::set_authenticator_secret(user_id, secret.as_str());
        (secret, command)
    }

    /// The command that bans the user until the instant `until`: the account is
    /// disabled as well.
    pub fn ban_user(user_id: u64, until: i64) -> (c: Command)
        ensures
            c@ == (CommandView::HSetMultiple {
                key: user_key(user_id),
                items: seq![("enabled"@, "0"@), ("banned"@, signed_decimal(until as int))],
            }),
    {
        let text = i64_to_string(until);
        let mut items: Vec<(String, String)> = Vec::new();
        assert(pairs_view(items@) =~= Seq::empty());
        push_pair(&mut items, "enabled", "0");
        push_pair(&mut items, "banned", text.as_str());
        assert(pairs_view(items@) =~= seq![
            ("enabled"@, "0"@),
            ("banned"@, signed_decimal(until as int)),
        ]);
        Command::HSetMultiple { key: make_user_key(user_id), items }
    }

    /// The command that removes the address of the user.
    pub fn delete_address(user_id: u64) -> (c: Command)
        ensures
            c@ == (CommandView::Del { key: user_address_key(user_id) }),
    {
        Command::Del { key: make_user_address_key(user_id) }
    }

    /// The command that stores the address of the user, or removes it.
    pub fn set_user_address(user_id: u64, address: Option<&Address>) -> (c: Command)
        ensures
            c@ == address_command(
                user_id,
                match address {
                    Some(a) => Some(a@),
                    None => None,
                },
            ),
    {
        match address {
            Some(a) => {
                let mut items: Vec<(String, String)> = Vec::new();
                assert(pairs_view(items@) =~= Seq::empty());
                push_pair(&mut items, "address1", a.get_address1());
                match a.get_address2() {
                    Some(line) => {
                        push_pair(&mut items, "address2", line);
                    },
                    None => {
                        push_pair(&mut items, "address2", "");
                    },
                }
                push_pair(&mut items, "city", a.get_city());
                push_pair(&mut items, "state", a.get_state());
                push_pair(&mut items, "zip", a.get_zip());
                push_pair(&mut items, "country", a.get_country());
                assert(pairs_view(items@) =~= address_fields(a@));
                Command::HSetMultiple { key: make_user_address_key(user_id), items }
            },
            None => Database::delete_address(user_id),
        }
    }

    /// The commands that give the user another name. Whether the name is free is
    /// asked before, with `check_username_exists`.
    pub fn set_username(user_id: u64, old_username: &str, new_username: &str) -> (commands: Vec<
        Command,
    >)
        ensures
            commands_view(commands@) == rename_commands(user_id, old_username@, new_username@),
    {
        let new_name = to_lowercase(new_username);
        let mut items: Vec<(String, String)> = Vec::new();
        assert(pairs_view(items@) =~= Seq::empty());
        push_pair(&mut items, "username", new_name.as_str());
        push_pair(&mut items, "display_name", new_username);
        assert(pairs_view(items@) =~= seq![
            ("username"@, lowercase(new_username@)),
            ("display_name"@, new_username@),
        ]);
        let mut commands = Vec::new();
        assert(commands_view(commands@) =~= Seq::empty());
        push_command(&mut commands, Command::HSetMultiple { key: make_user_key(user_id), items });
        push_move_entry(&mut commands, "userkeys", user_id, old_username, new_name.as_str());
        assert(commands_view(commands@) =~= rename_commands(
            user_id,
            old_username@,
            new_username@,
        ));
        commands
    }

    /// The commands that give the user another email address, which is then not
    /// confirmed. Whether the address is free is asked before, with `check_email_exists`.
    pub fn set_user_email(user_id: u64, old_email: &str, new_email: &str) -> (commands: Vec<
        Command,
    >)
        ensures
            commands_view(commands@) == readdress_commands(user_id, old_email@, new_email@),
    {
        let new_address = to_lowercase(new_email);
        let mut commands = Vec::new();
        assert(commands_view(commands@) =~= Seq::empty());
        push_command(
            &mut commands,
            set_unconfirmed(user_id, "email", new_address.as_str(), "email_confirmed"),
        );
        push_move_entry(
            &mut commands,
            "emailkeys",
            user_id,
            old_email,
            new_address.as_str(),
        );
        assert(commands_view(commands@) =~= readdress_commands(user_id, old_email@, new_email@));
        commands
    }

    /// The command that looks up the user of that email address, or nothing where the
    /// text is no email address: it holds no `@`, and no user is looked for.
    pub fn get_user_by_email(email: &str) -> (c: Option<Command>)
        ensures
            match c {
                Some(command) => email@.contains('@') && command@ == (CommandView::HGet {
                    key: email_index_key(),
                    field: lowercase(email@),
                }),
                None => !email@.contains('@'),
            },
    {
        if !contains_char(email, '@') {
            return None;
        }
        Some(Database::get_user_id_by_email(email))
    }

    /// The command that looks up the user of that name.
    pub fn get_user_by_username(username: &str) -> (c: Command)
        ensures
            c@ == (CommandView::HGet { key: user_index_key(), field: lowercase(username@) }),
    {
        Database::get_user_id_by_username(username)
    }

    /// The command that lists the ids of all users.
    pub fn get_all_user_ids() -> (c: Command)
        ensures
            c@ == (CommandView::HVals { key: user_index_key() }),
    {
        Command::HVals { key: String::from_str("userkeys") }
    }
}

/// The ids that a list of numerals holds, or nothing where one of them is no numeral.
pub open spec fn ids_of(texts: Seq<Seq<char>>) -> Option<Seq<u64>>
    decreases texts.len(),
{
    if texts.len() == 0 {
        Some(Seq::empty())
    } else {
        match (ids_of(texts.drop_last()), crate::text::parse_u64_spec(texts.last())) {
            (Some(ids), Some(id)) => Some(ids.push(id)),
            _ => None,
        }
    }
}

impl Database {
    /// Reads the ids of the answer to a listing. Fails with `Redis` where the answer
    /// is no list of numerals of ids.
    pub fn read_ids(reply: &Reply) -> (r: Result<Vec<u64>, Error>)
        ensures
            match r {
                Ok(ids) => reply@ is Texts && ids_of(reply@->Texts_0) == Some(ids@),
                Err(e) => e == Error::Redis && (reply@ is Texts ==> ids_of(reply@->Texts_0) is None),
            },
    {
        match reply {
            Reply::Texts(texts) => {
                let ghost all = crate::database::command::texts_view(texts@);
                let mut ids: Vec<u64> = Vec::new();
                let mut i: usize = 0;
                assert(all.subrange(0, 0) =~= Seq::empty());
                while i < texts.len()
                    invariant
                        0 <= i <= texts.len(),
                        all == crate::database::command::texts_view(texts@),
                        reply@ == ReplyView::Texts(all),
                        ids_of(all.subrange(0, i as int)) == Some(ids@),
                    decreases texts.len() - i,
                {
                    let ghost longer = all.subrange(0, i + 1);
                    proof {
                        assert(longer.drop_last() =~= all.subrange(0, i as int));
                        assert(longer.last() == texts@[i as int]@);
                    }
                    match crate::text::parse_u64(texts[i].as_str()) {
                        Some(id) => {
                            ids.push(id);
                        },
                        None => {
                            proof {
                                assert(ids_of(longer) is None);
                                lemma_ids_stay_none(all, i + 1);
                                assert(reply@->Texts_0 == all);
                            }
                            return Err(Error::Redis);
                        },
                    }
                    i += 1;
                }
                assert(all.subrange(0, i as int) =~= all);
                Ok(ids)
            },
            _ => Err(Error::Redis),
        }
    }
}

/// A list whose first texts hold no ids holds none.
pub proof fn lemma_ids_stay_none(texts: Seq<Seq<char>>, k: int)
    requires
        0 <= k <= texts.len(),
        ids_of(texts.subrange(0, k)) is None,
    ensures
        ids_of(texts) is None,
    decreases texts.len() - k,
{
    if k == texts.len() {
        assert(texts.subrange(0, k) =~= texts);
    } else {
        let longer = texts.subrange(0, k + 1);
        assert(longer.drop_last() =~= texts.subrange(0, k));
        lemma_ids_stay_none(texts, k + 1);
    }
}

impl User {
    /// The id of the user.
    pub fn get_id(&self) -> (id: u64)
        ensures
            id == self@.user_id,
    {
        self.user_id
    }

    /// The name of the user, in lower case.
    pub fn get_username(&self) -> (name: &str)
        ensures
            name@ == self@.username,
    {
        self.username.as_str()
    }

    /// The name that the user goes by.
    pub fn get_display_name(&self) -> (name: &str)
        ensures
            name@ == self@.display_name,
    {
        self.display_name.as_str()
    }

    /// The hash of the password of the user.
    pub fn get_password(&self) -> (hash: &str)
        ensures
            hash@ == self@.password,
    {
        self.password.as_str()
    }

    /// The first name, where the user gave one.
    pub fn get_first_name(&self) -> (name: Option<&str>)
        ensures
            match name {
                Some(n) => self@.first_name matches Some(f) && f.0 == n@,
                None => self@.first_name is None,
            },
    {
        match &self.first_name {
            Some(n) => Some(n.as_str()),
            None => None,
        }
    }

    /// Whether the first name was confirmed.
    pub fn is_first_name_confirmed(&self) -> (r: bool)
        ensures
            r == (self@.first_name matches Some(n) && n.1),
    {
        self.first_name.is_some() && self.first_name_confirmed
    }

    /// The last name, where the user gave one.
    pub fn get_last_name(&self) -> (name: Option<&str>)
        ensures
            match name {
                Some(n) => self@.last_name matches Some(f) && f.0 == n@,
                None => self@.last_name is None,
            },
    {
        match &self.last_name {
            Some(n) => Some(n.as_str()),
            None => None,
        }
    }

    /// Whether the last name was confirmed.
    pub fn is_last_name_confirmed(&self) -> (r: bool)
        ensures
            r == (self@.last_name matches Some(n) && n.1),
    {
        self.last_name.is_some() && self.last_name_confirmed
    }

    /// The email address of the user.
    pub fn get_email(&self) -> (email: &str)
        ensures
            email@ == self@.email.0,
    {
        self.email.as_str()
    }

    /// Whether the email address was confirmed.
    pub fn is_email_confirmed(&self) -> (r: bool)
        ensures
            r == self@.email.1,
    {
        self.email_confirmed
    }

    /// The birthday, where the user gave one.
    pub fn get_birthday(&self) -> (date: Option<Date>)
        ensures
            match date {
                Some(d) => self@.birthday matches Some(b) && b.0 == d.parts(),
                None => self@.birthday is None,
            },
    {
        self.birthday
    }

    /// Whether the birthday was confirmed.
    pub fn is_birthday_confirmed(&self) -> (r: bool)
        ensures
            r == (self@.birthday matches Some(b) && b.1),
    {
        self.birthday.is_some() && self.birthday_confirmed
    }

    /// The phone number, where the user gave one, and whether it was confirmed.
    pub fn get_phone(&self) -> (phone: Option<(&str, bool)>)
        ensures
            match phone {
                Some(p) => self@.phone == Some((p.0@, p.1)),
                None => self@.phone is None,
            },
    {
        match &self.phone {
            Some(p) => Some((p.as_str(), self.phone_confirmed)),
            None => None,
        }
    }

    /// Where the picture of the user is, where there is one.
    pub fn get_image_url(&self) -> (url: Option<&str>)
        ensures
            match url {
                Some(u) => self@.image_url == Some(u@),
                None => self@.image_url is None,
            },
    {
        match &self.image_url {
            Some(u) => Some(u.as_str()),
            None => None,
        }
    }

    /// The address, where the user gave one.
    pub fn get_address(&self) -> (address: Option<&Address>)
        ensures
            match address {
                Some(a) => self@.address matches Some(b) && b.0 == a@,
                None => self@.address is None,
            },
    {
        match &self.address {
            Some(a) => Some(a),
            None => None,
        }
    }

    /// Whether the address was confirmed.
    pub fn is_address_confirmed(&self) -> (r: bool)
        ensures
            r == (self@.address matches Some(a) && a.1),
    {
        self.address.is_some() && self.address_confirmed
    }

    /// Whether the account is enabled.
    pub fn is_enabled(&self) -> (r: bool)
        ensures
            r == self@.enabled,
    {
        self.enabled
    }

    /// The instant at which the user registered.
    pub fn get_registration_time(&self) -> (t: i64)
        ensures
            t == self@.registration_time,
    {
        self.registration_time
    }

    /// The instant at which the user was last active.
    pub fn get_last_activity_time(&self) -> (t: i64)
        ensures
            t == self@.last_activity,
    {
        self.last_activity
    }

    /// The instant until which the user is banned, where a ban was set.
    pub fn get_banned(&self) -> (until: Option<i64>)
        ensures
            until == self@.banned,
    {
        self.banned
    }

    /// Whether the user is banned at `now`: a ban was set and has not run out.
    pub fn is_banned_at(&self, now: i64) -> (r: bool)
        ensures
            r == self@.banned_at(now),
    {
        match self.banned {
            Some(until) => until > now,
            None => false,
        }
    }

    /// Whether the user is banned. The clock is read at every call.
    pub fn is_banned(&self) -> (r: bool)
        ensures
            exists|now: i64| 0 <= now <= MAX_CLOCK && r == #[trigger] self@.banned_at(now),
    {
        let t = now();
        self.is_banned_at(t)
    }

    /// The age of the user on the day `today`, where the user gave a birthday.
    pub fn get_age_on(&self, today: &Date) -> (age: Option<u8>)
        ensures
            match self@.birthday {
                Some(b) => age == Some(age_between(b.0, today.parts())),
                None => age is None,
            },
    {
        match &self.birthday {
            Some(birthday) => {
                let difference: i64 = today.year() as i64 - birthday.year() as i64;
                let years: i64 = if today.month() < birthday.month() || (today.month()
                    == birthday.month() && today.day() < birthday.day()) {
                    difference - 1
                } else {
                    difference
                };
                if years < 0 {
                    Some(0)
                } else if years > 255 {
                    Some(255)
                } else {
                    Some(years as u8)
                }
            },
            None => None,
        }
    }
}

impl UserView {
    /// Whether the user is banned at `now`: a ban was set and has not run out.
    pub open spec fn banned_at(self, now: i64) -> bool {
        self.banned matches Some(until) && until > now
    }
}

/// What the check of a password against the stored hash of a user says: whether
/// they match, or `PasswordError` where the hash names no count of iterations or is
/// not in the format of the check.
pub open spec fn password_checked(password: Seq<char>, hash: Seq<char>) -> Result<bool, Error> {
    if names_iterations(hash) {
        match password_verdict(password, hash) {
            Some(matches) => Ok(matches),
            None => Err(Error::PasswordError),
        }
    } else {
        Err(Error::PasswordError)
    }
}

/// A password passes the check against a hash of it as the library stores it.
pub proof fn lemma_stored_password_is_accepted(password: Seq<char>, hash: Seq<char>)
    requires
        is_hash_of(hash, password),
    ensures
        password_checked(password, hash) == Ok::<bool, Error>(true),
{
    crate::secret::lemma_counts(hash, PASSWORD_ITERATIONS);
}

/// The profile of a user on the day `today`.
pub open spec fn profile_of(user: UserView, today: (int, int, int)) -> ProfileView {
    ProfileView {
        user_id: user.user_id,
        display_name: user.display_name,
        first_name: match user.first_name {
            Some(n) => Some(n.0),
            None => None,
        },
        last_name: match user.last_name {
            Some(n) => Some(n.0),
            None => None,
        },
        image_url: user.image_url,
        age: match user.birthday {
            Some(b) => Some(age_between(b.0, today)),
            None => None,
        },
        address: match user.address {
            Some(a) => Some(profile_address(a.0)),
            None => None,
        },
    }
}

/// A profile, its strings taken as characters.
pub struct ProfileView {
    pub user_id: u64,
    pub display_name: Seq<char>,
    pub first_name: Option<Seq<char>>,
    pub last_name: Option<Seq<char>>,
    pub image_url: Option<Seq<char>>,
    pub age: Option<u8>,
    pub address: Option<Seq<char>>,
}

impl View for Profile {
    type V = ProfileView;

    open spec fn view(&self) -> ProfileView {
        ProfileView {
            user_id: self.user_id,
            display_name: self.display_name@,
            first_name: optional_text_view(self.first_name),
            last_name: optional_text_view(self.last_name),
            image_url: optional_text_view(self.image_url),
            age: self.age,
            address: optional_text_view(self.address),
        }
    }
}

/// A copy of a text that may be absent.
pub fn copy_text(text: &Option<String>) -> (copy: Option<String>)
    ensures
        optional_text_view(copy) == optional_text_view(*text),
{
    match text {
        Some(t) => Some(t.clone()),
        None => None,
    }
}

impl User {
    /// What the user shows to other users on the day `today`.
    pub fn get_profile_on(&self, today: &Date) -> (profile: Profile)
        ensures
            profile@ == profile_of(self@, today.parts()),
    {
        let address = match &self.address {
            Some(a) => {
                let mut place = String::from_str(a.get_city());
                place.append(", ");
                place.append(a.get_state());
                place.append(", ");
                place.append(a.get_country());
                assert(place@ =~= profile_address(a@));
                Some(place)
            },
            None => None,
        };
        Profile {
            user_id: self.user_id,
            display_name: self.display_name.clone(),
            first_name: copy_text(&self.first_name),
            last_name: copy_text(&self.last_name),
            image_url: copy_text(&self.image_url),
            age: self.get_age_on(today),
            address,
        }
    }

    /// What the user shows to other users. The age is that of the day it is.
    pub fn get_profile(&self) -> (profile: Profile)
        ensures
            exists|today: (int, int, int)|
                may_be_today(today) && profile@ == #[trigger] profile_of(self@, today),
    {
        let today = Date::today();
        self.get_profile_on(&today)
    }

    /// The age of the user on the day it is, where the user gave a birthday.
    pub fn get_age(&self) -> (age: Option<u8>)
        ensures
            match self@.birthday {
                Some(b) => exists|today: (int, int, int)|
                    may_be_today(today) && age == Some(#[trigger] age_between(b.0, today)),
                None => age is None,
            },
    {
        let today = Date::today();
        self.get_age_on(&today)
    }

    /// Checks a password against the stored hash.
    pub fn check_password(&self, password: &str) -> (r: Result<bool, Error>)
        ensures
            r == password_checked(password@, self@.password),
    {
        if !check_iterations(self.password.as_str()) {
            return Err(Error::PasswordError);
        }
        match pbkdf2_verdict(password, self.password.as_str()) {
            Some(matches) => Ok(matches),
            None => Err(Error::PasswordError),
        }
    }

    /// Whether `code` is the time-based code of the authenticator of the user at the
    /// instant `now`. No code is good at an instant before the epoch.
    pub fn check_authenticator_code_at(&self, code: u32, now: i64) -> (r: bool)
        ensures
            r == (now >= 0 && totp_accepts(
                self@.authenticator_secret,
                code,
                TOTP_PERIOD,
                now as u64,
            )),
    {
        if now < 0 {
            return false;
        }
        totp_verify(self.authenticator_secret.as_str(), code, TOTP_PERIOD, now as u64)
    }

    /// Whether `code` is the time-based code of the authenticator of the user now.
    pub fn check_authenticator_code(&self, code: u32) -> (r: bool)
        ensures
            exists|now: i64|
                0 <= now <= MAX_CLOCK && r == #[trigger] totp_accepts(
                    self@.authenticator_secret,
                    code,
                    TOTP_PERIOD,
                    now as u64,
                ),
    {
        let t = now();
        self.check_authenticator_code_at(code, t)
    }

    /// Gives the authenticator a fresh random secret, and returns it with the command
    /// that stores it.
    pub fn get_authenticator_secret(&mut self) -> (r: (String, Command))
        ensures
            r.0@.len() == TOTP_SECRET_LEN,
            all_alphanumeric(r.0@),
            r.1@ == (CommandView::HSet {
                key: user_key(old(self)@.user_id),
                field: "authenticator_secret"@,
                value: r.0@,
            }),
            final(self)@ == (UserView { authenticator_secret: r.0@, ..old(self)@ }),
    {
        let (secret, command) = Database::create_new_user_authenticator_secret(self.user_id);
        self.authenticator_secret = secret.clone();
        (secret, command)
    }

    /// Sets the first name, which is then not confirmed, and returns the command
    /// that stores it.
    pub fn set_first_name(&mut self, name: &str) -> (c: Command)
        ensures
            c@ == (CommandView::HSetMultiple {
                key: user_key(old(self)@.user_id),
                items: unconfirmed("first_name"@, name@, "first_name_confirmed"@),
            }),
            final(self)@ == (UserView { first_name: Some((name@, false)), ..old(self)@ }),
    {
        self.first_name = Some(String::from_str(name));
        self.first_name_confirmed = false;
        Database::set_user_first_name(self.user_id, name)
    }

    /// Sets the last name, which is then not confirmed, and returns the command that
    /// stores it.
    pub fn set_last_name(&mut self, name: &str) -> (c: Command)
        ensures
            c@ == (CommandView::HSetMultiple {
                key: user_key(old(self)@.user_id),
                items: unconfirmed("last_name"@, name@, "last_name_confirmed"@),
            }),
            final(self)@ == (UserView { last_name: Some((name@, false)), ..old(self)@ }),
    {
        self.last_name = Some(String::from_str(name));
        self.last_name_confirmed = false;
        Database::set_user_last_name(self.user_id, name)
    }

    /// Gives the user another name, and returns the commands that store it. The user
    /// holds the name in lower case, as the store does, and goes by the name as given.
    pub fn set_username(&mut self, username: &str) -> (commands: Vec<Command>)
        ensures
            commands_view(commands@) == rename_commands(
                old(self)@.user_id,
                old(self)@.username,
                username@,
            ),
            final(self)@ == (UserView {
                username: lowercase(username@),
                display_name: username@,
                ..old(self)@
            }),
    {
        let commands = Database::set_username(self.user_id, self.username.as_str(), username);
        self.username = to_lowercase(username);
        self.display_name = String::from_str(username);
        commands
    }

    /// Stores the hash `hash` as the password of the user, and returns the command
    /// that stores it.
    pub fn set_password_hash(&mut self, hash: String) -> (c: Command)
        ensures
            c@ == (CommandView::HSet {
                key: user_key(old(self)@.user_id),
                field: "password"@,
                value: hash@,
            }),
            final(self)@ == (UserView { password: hash@, ..old(self)@ }),
    {
        let command = Database::set_user_password(self.user_id, hash.as_str());
        self.password = hash;
        command
    }

    /// Gives the user another password, and returns the command that stores its
    /// salted hash. Fails with `IO`, and changes nothing, where the system gives no
    /// randomness for the salt.
    pub fn set_password(&mut self, password: &str) -> (r: Result<Command, Error>)
        ensures
            match r {
                Ok(c) => exists|hash: Seq<char>|
                    #[trigger] is_hash_of(hash, password@) && c@ == (
                    CommandView::HSet {
                        key: user_key(old(self)@.user_id),
                        field: "password"@,
                        value: hash,
                    }) && final(self)@ == (UserView { password: hash, ..old(self)@ }),
                Err(e) => e == Error::IO && final(self)@ == old(self)@,
            },
    {
        match pbkdf2_hash(password, PASSWORD_ITERATIONS) {
            Some(hash) => {
                let ghost h = hash@;
                assert(is_hash_of(h, password@));
                let c = self.set_password_hash(hash);
                assert(c@ == (CommandView::HSet {
                    key: user_key(old(self)@.user_id),
                    field: "password"@,
                    value: h,
                }));
                Ok(c)
            },
            None => Err(Error::IO),
        }
    }

    /// Gives the user another email address, which is then not confirmed, and
    /// returns the commands that store it. The user holds the address in lower case,
    /// as the store does.
    pub fn set_email(&mut self, email: &str) -> (commands: Vec<Command>)
        ensures
            commands_view(commands@) == readdress_commands(
                old(self)@.user_id,
                old(self)@.email.0,
                email@,
            ),
            final(self)@ == (UserView { email: (lowercase(email@), false), ..old(self)@ }),
    {
        let commands = Database::set_user_email(self.user_id, self.email.as_str(), email);
        self.email = to_lowercase(email);
        self.email_confirmed = false;
        commands
    }

    /// Sets or removes the birthday, which is then not confirmed, and returns the
    /// command that stores it.
    pub fn set_birthday(&mut self, date: Option<Date>) -> (c: Command)
        ensures
            c@ == (CommandView::HSetMultiple {
                key: user_key(old(self)@.user_id),
                items: unconfirmed(
                    "birthday"@,
                    match date {
                        Some(d) => date_text(d.parts().0, d.parts().1, d.parts().2),
                        None => ""@,
                    },
                    "birthday_confirmed"@,
                ),
            }),
            final(self)@ == (UserView {
                birthday: match date {
                    Some(d) => Some((d.parts(), false)),
                    None => None,
                },
                ..old(self)@
            }),
    {
        let command = match &date {
            Some(d) => Database::set_user_birthday(self.user_id, Some(d)),
            None => Database::set_user_birthday(self.user_id, None),
        };
        self.birthday = date;
        self.birthday_confirmed = false;
        command
    }

    /// Sets or removes the phone number, which is then not confirmed, and returns
    /// the command that stores it.
    pub fn set_phone(&mut self, phone: Option<&str>) -> (c: Command)
        ensures
            c@ == (CommandView::HSetMultiple {
                key: user_key(old(self)@.user_id),
                items: unconfirmed(
                    "phone"@,
                    match phone {
                        Some(p) => p@,
                        None => ""@,
                    },
                    "phone_confirmed"@,
                ),
            }),
            final(self)@ == (UserView {
                phone: match phone {
                    Some(p) => Some((p@, false)),
                    None => None,
                },
                ..old(self)@
            }),
    {
        let command = Database::set_user_phone(self.user_id, phone);
        self.phone = match phone {
            Some(p) => Some(String::from_str(p)),
            None => None,
        };
        self.phone_confirmed = false;
        command
    }

    /// Sets or removes the place of the picture, and returns the command that stores it.
    pub fn set_image(&mut self, image_url: Option<&str>) -> (c: Command)
        ensures
            c@ == (CommandView::HSet {
                key: user_key(old(self)@.user_id),
                field: "image_url"@,
                value: match image_url {
                    Some(i) => i@,
                    None => ""@,
                },
            }),
            final(self)@ == (UserView {
                image_url: match image_url {
                    Some(i) => Some(i@),
                    None => None,
                },
                ..old(self)@
            }),
    {
        let command = Database::set_user_image(self.user_id, image_url);
        self.image_url = match image_url {
            Some(i) => Some(String::from_str(i)),
            None => None,
        };
        command
    }

    /// Sets or removes the address, which is then not confirmed, and returns the
    /// command that stores it.
    pub fn set_address(&mut self, address: Option<Address>) -> (c: Command)
        ensures
            c@ == address_command(
                old(self)@.user_id,
                match address {
                    Some(a) => Some(a@),
                    None => None,
                },
            ),
            final(self)@ == (UserView {
                address: match address {
                    Some(a) => Some((a@, false)),
                    None => None,
                },
                ..old(self)@
            }),
    {
        let command = match &address {
            Some(a) => Database::set_user_address(self.user_id, Some(a)),
            None => Database::set_user_address(self.user_id, None),
        };
        self.address = address;
        self.address_confirmed = false;
        command
    }

    /// Marks the email address as confirmed, and returns the command that stores it.
    pub fn confirm_email(&mut self) -> (c: Command)
        ensures
            c@ == (CommandView::HSet {
                key: user_key(old(self)@.user_id),
                field: "email_confirmed"@,
                value: "1"@,
            }),
            final(self)@ == (UserView { email: (old(self)@.email.0, true), ..old(self)@ }),
    {
        self.email_confirmed = true;
        Database::confirm_email(self.user_id)
    }

    /// Bans the user until the instant `until`, which disables the account, and
    /// returns the command that stores it.
    pub fn ban(&mut self, until: i64) -> (c: Command)
        ensures
            c@ == (CommandView::HSetMultiple {
                key: user_key(old(self)@.user_id),
                items: seq![("enabled"@, "0"@), ("banned"@, signed_decimal(until as int))],
            }),
            final(self)@ == (UserView { enabled: false, banned: Some(until), ..old(self)@ }),
    {
        self.enabled = false;
        self.banned = Some(until);
        Database::ban_user(self.user_id, until)
    }

    /// Notes `instant` as the last activity, and returns the command that stores it.
    pub fn set_last_activity_time_at(&mut self, instant: i64) -> (c: Command)
        ensures
            c@ == (CommandView::HSet {
                key: user_key(old(self)@.user_id),
                field: "last_activity"@,
                value: signed_decimal(instant as int),
            }),
            final(self)@ == (UserView { last_activity: instant, ..old(self)@ }),
    {
        self.last_activity = instant;
        Database::set_last_activity_time(self.user_id, instant)
    }

    /// Notes the reading of the clock as the last activity, and returns the command
    /// that stores it.
    pub fn set_last_activity_time(&mut self) -> (c: Command)
        ensures
            exists|instant: i64|
                0 <= instant <= MAX_CLOCK && c@ == (CommandView::HSet {
                    key: user_key(old(self)@.user_id),
                    field: "last_activity"@,
                    value: #[trigger] signed_decimal(instant as int),
                }) && final(self)@ == (UserView { last_activity: instant, ..old(self)@ }),
    {
        let t = now();
        self.set_last_activity_time_at(t)
    }

    /// The command that issues the one-time key that resets the password of the user.
    pub fn start_reset_password(&self, key: &str) -> (c: Command)
        ensures
            c@ == (CommandView::SetEx {
                key: reset_password_key(key@),
                value: decimal(self@.user_id as nat),
                seconds: RESET_PASSWORD_SECONDS,
            }),
    {
        Database::start_reset_password(self.user_id, key)
    }

    /// Disables the account, and returns the command that stores it.
    pub fn disable(&mut self) -> (c: Command)
        ensures
            c@ == (CommandView::HSet {
                key: user_key(old(self)@.user_id),
                field: "enabled"@,
                value: "0"@,
            }),
            final(self)@ == (UserView { enabled: false, ..old(self)@ }),
    {
        self.enabled = false;
        Database::disable_user(self.user_id)
    }

    /// Enables the account, and returns the command that stores it.
    pub fn enable(&mut self) -> (c: Command)
        ensures
            c@ == (CommandView::HSet {
                key: user_key(old(self)@.user_id),
                field: "enabled"@,
                value: "1"@,
            }),
            final(self)@ == (UserView { enabled: true, ..old(self)@ }),
    {
        self.enabled = true;
        Database::enable_user(self.user_id)
    }

    /// The commands that remove the user from the store. The user is consumed.
    pub fn delete(self) -> (commands: Vec<Command>)
        ensures
            commands_view(commands@) == delete_user_commands(
                self@.user_id,
                self@.username,
                self@.email.0,
            ),
    {
        Database::delete_user(&self)
    }

    /// Whether two users are the same user: they have the same id.
    pub fn same_user(&self, other: &User) -> (r: bool)
        ensures
            r == (self@.user_id == other@.user_id),
    {
        self.user_id == other.user_id
    }
}

/// The fields that a full registration writes into the hash of a new user.
pub open spec fn full_user_fields(
    name: Seq<char>,
    hash: Seq<char>,
    display_name: Seq<char>,
    email: Seq<char>,
    first_name: Seq<char>,
    last_name: Seq<char>,
    birthday: Seq<char>,
    phone: Seq<char>,
    image_url: Seq<char>,
    instant: i64,
) -> Pairs {
    seq![
        ("username"@, name),
        ("password"@, hash),
        ("display_name"@, display_name),
        ("first_name"@, first_name),
        ("first_name_confirmed"@, "0"@),
        ("last_name"@, last_name),
        ("last_name_confirmed"@, "0"@),
        ("email"@, email),
        ("email_confirmed"@, "0"@),
        ("birthday"@, birthday),
        ("birthday_confirmed"@, "0"@),
        ("address_confirmed"@, "0"@),
        ("phone"@, phone),
        ("phone_confirmed"@, "0"@),
        ("image_url"@, image_url),
        ("enabled"@, "1"@),
        ("registration_time"@, signed_decimal(instant as int)),
        ("last_activity"@, signed_decimal(instant as int)),
        ("banned"@, ""@),
    ]
}

/// The commands of a full registration: both index entries, the hash of the user,
/// the one-time key that confirms the email address, and the address.
pub open spec fn full_user_commands(
    id: u64,
    fields: Pairs,
    name: Seq<char>,
    email: Seq<char>,
    email_key: Seq<char>,
    address: Option<AddressView>,
) -> Seq<CommandView> {
    seq![
        CommandView::HSetNx { key: user_index_key(), field: name, value: decimal(id as nat) },
        CommandView::HSetNx { key: email_index_key(), field: email, value: decimal(id as nat) },
        CommandView::HSetMultiple { key: user_key(id), items: fields },
        CommandView::SetEx {
            key: verify_email_key(email_key),
            value: decimal(id as nat),
            seconds: VERIFY_EMAIL_SECONDS,
        },
        address_command(id, address),
    ]
}

/// The text of a birthday that may be absent: empty where it is absent.
pub open spec fn birthday_text(date: Option<Date>) -> Seq<char> {
    match date {
        Some(d) => date_text(d.parts().0, d.parts().1, d.parts().2),
        None => ""@,
    }
}

/// The text of a text that may be absent: empty where it is absent.
pub open spec fn text_or_empty(text: Option<Seq<char>>) -> Seq<char> {
    match text {
        Some(t) => t,
        None => ""@,
    }
}

/// What a full registration knows of the new user beyond name, password and email address.
pub struct NewUserDetails {
    /// The first name.
    pub first: Option<String>,
    /// The last name.
    pub last: Option<String>,
    /// The birthday.
    pub birthday: Option<Date>,
    /// The phone number.
    pub phone: Option<String>,
    /// Where the picture is.
    pub image: Option<String>,
    /// The address.
    pub address: Option<Address>,
}

/// The text of a text that may be absent.
pub fn or_empty(text: &Option<String>) -> (r: &str)
    ensures
        r@ == text_or_empty(optional_text_view(*text)),
{
    match text {
        Some(t) => t.as_str(),
        None => "",
    }
}

impl Database {
    /// The commands of a full registration, from the values that it stores.
    pub fn create_user_with(
        admitted: NewUser,
        id: u64,
        hash: &str,
        details: &NewUserDetails,
        email_key: &str,
        instant: i64,
    ) -> (commands: Vec<Command>)
        ensures
            commands_view(commands@) == full_user_commands(
                id,
                full_user_fields(
                    admitted@.name,
                    hash@,
                    admitted@.display_name,
                    admitted@.email,
                    text_or_empty(optional_text_view(details.first)),
                    text_or_empty(optional_text_view(details.last)),
                    birthday_text(details.birthday),
                    text_or_empty(optional_text_view(details.phone)),
                    text_or_empty(optional_text_view(details.image)),
                    instant,
                ),
                admitted@.name,
                admitted@.email,
                email_key@,
                match details.address {
                    Some(a) => Some(a@),
                    None => None,
                },
            ),
    {
        let name = admitted.name.as_str();
        let display_name = admitted.display_name.as_str();
        let email = admitted.email.as_str();
        let id_text = u64_to_string(id);
        let instant_text = i64_to_string(instant);
        let birthday = match &details.birthday {
            Some(d) => d.to_text(),
            None => String::from_str(""),
        };
        let mut items: Vec<(String, String)> = Vec::new();
        assert(pairs_view(items@) =~= Seq::empty());
        push_pair(&mut items, "username", name);
        push_pair(&mut items, "password", hash);
        push_pair(&mut items, "display_name", display_name);
        push_pair(&mut items, "first_name", or_empty(&details.first));
        push_pair(&mut items, "first_name_confirmed", "0");
        push_pair(&mut items, "last_name", or_empty(&details.last));
        push_pair(&mut items, "last_name_confirmed", "0");
        push_pair(&mut items, "email", email);
        push_pair(&mut items, "email_confirmed", "0");
        push_pair(&mut items, "birthday", birthday.as_str());
        push_pair(&mut items, "birthday_confirmed", "0");
        push_pair(&mut items, "address_confirmed", "0");
        push_pair(&mut items, "phone", or_empty(&details.phone));
        push_pair(&mut items, "phone_confirmed", "0");
        push_pair(&mut items, "image_url", or_empty(&details.image));
        push_pair(&mut items, "enabled", "1");
        push_pair(&mut items, "registration_time", instant_text.as_str());
        push_pair(&mut items, "last_activity", instant_text.as_str());
        push_pair(&mut items, "banned", "");
        let ghost fields = full_user_fields(
            admitted@.name,
            hash@,
            admitted@.display_name,
            admitted@.email,
            text_or_empty(optional_text_view(details.first)),
            text_or_empty(optional_text_view(details.last)),
            birthday_text(details.birthday),
            text_or_empty(optional_text_view(details.phone)),
            text_or_empty(optional_text_view(details.image)),
            instant,
        );
        assert(pairs_view(items@) =~= fields);
        let mut commands = Vec::new();
        assert(commands_view(commands@) =~= Seq::empty());
        push_command(&mut commands, hset_nx("userkeys", name, id_text.as_str()));
        push_command(&mut commands, hset_nx("emailkeys", email, id_text.as_str()));
        push_command(&mut commands, Command::HSetMultiple { key: make_user_key(id), items });
        push_command(
            &mut commands,
            Command::SetEx {
                key: make_verify_email_key(email_key),
                value: id_text.clone(),
                seconds: VERIFY_EMAIL_SECONDS,
            },
        );
        let address_step = match &details.address {
            Some(a) => Database::set_user_address(id, Some(a)),
            None => Database::set_user_address(id, None),
        };
        push_command(&mut commands, address_step);
        assert(commands_view(commands@) =~= full_user_commands(
            id,
            fields,
            admitted@.name,
            admitted@.email,
            email_key@,
            match details.address {
                Some(a) => Some(a@),
                None => None,
            },
        ));
        commands
    }

    /// The commands of the full registration of an admitted user with the freshly
    /// drawn id `id`.
    ///
    /// The password is stored as a salted hash, the name and the email address also
    /// in lower case. Fails with `IO` where the system gives no randomness for the salt.
    pub fn create_user(
        admitted: NewUser,
        id: u64,
        password: &str,
        details: &NewUserDetails,
        email_key: &str,
    ) -> (r: Result<Vec<Command>, Error>)
        ensures
            match r {
                Ok(commands) => exists|hash: Seq<char>, instant: i64|
                    is_hash_of(hash, password@) && 0 <= instant <= MAX_CLOCK
                        && commands_view(commands@) == full_user_commands(
                        id,
                        #[trigger] full_user_fields(
                            admitted@.name,
                            hash,
                            admitted@.display_name,
                            admitted@.email,
                            text_or_empty(optional_text_view(details.first)),
                            text_or_empty(optional_text_view(details.last)),
                            birthday_text(details.birthday),
                            text_or_empty(optional_text_view(details.phone)),
                            text_or_empty(optional_text_view(details.image)),
                            instant,
                        ),
                        admitted@.name,
                        admitted@.email,
                        email_key@,
                        match details.address {
                            Some(a) => Some(a@),
                            None => None,
                        },
                    ),
                Err(e) => e == Error::IO,
            },
    {
        let hash = match pbkdf2_hash(password, PASSWORD_ITERATIONS) {
            Some(h) => h,
            None => {
                return Err(Error::IO);
            },
        };
        let instant = now();
        Ok(
            Database::create_user_with(
                admitted,
                id,
                hash.as_str(),
                details,
                email_key,
                instant,
            ),
        )
    }
}

} // verus!
