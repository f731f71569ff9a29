//! Access tokens.
//!
//! A token is not stored anywhere. It travels as the base64 of the encrypted JSON
//! object of its four fields, and is read back from that string on every request.
//! Encrypting and decrypting is the part of the caller, between the two halves of
//! writing and of reading.

use vstd::prelude::*;
use vstd::string::*;
use vstd::utf8::*;
use crate::clock::{now, MAX_CLOCK, MAX_DURATION};
use crate::database::command::{pairs_view, push_pair, Pairs};
use crate::database::record::{
    distinct_keys, find_last, last_value, lemma_last_value_of_distinct, text_field, text_of,
};
use crate::encoding::{
    base64_bytes, base64_text, check_flat, decode_object, encode_object, from_base64, is_flat,
    json_object_fields,
    json_object_text, text_from_utf8, to_base64,
};
use crate::database::oauth::{DeveloperClient, DeveloperClientView};
use crate::error::Error;
use crate::v1::{response, Message, Response, Status};
use crate::text::{
    i64_to_string, lemma_parse_signed_decimal, parse_i64, parse_i64_spec, signed_decimal, str_eq,
};
use crate::v1::scope::{
    lemma_scopes_round_trip, scopes_from_text, scopes_of_text, scopes_text, scopes_to_text, Scope,
    TokenType,
};

verus! {

/// A grant: who it was issued to, what it allows, and until when.
#[derive(Clone, Debug)]
pub struct AccessToken {
    app_id: String,
    scopes: Vec<Scope>,
    token_type: TokenType,
    expiration: i64,
}

/// A token, its strings taken as characters.
pub struct AccessTokenView {
    pub app_id: Seq<char>,
    pub scopes: Seq<Scope>,
    pub token_type: TokenType,
    pub expiration: i64,
}

impl View for AccessToken {
    type V = AccessTokenView;

    closed spec fn view(&self) -> AccessTokenView {
        AccessTokenView {
            app_id: self.app_id@,
            scopes: self.scopes@,
            token_type: self.token_type,
            expiration: self.expiration,
        }
    }
}

/// A token as it is handed to the client that asked for it.
#[derive(Debug)]
pub struct AccessTokenDTO {
    /// Who the token was issued to.
    pub app_id: String,
    /// The text of the list of scopes.
    pub scopes: String,
    /// The transport string.
    pub access_token: String,
    /// How the token is presented.
    pub token_type: TokenType,
    /// How many seconds the token is still good for.
    pub expiration: i64,
}

impl AccessTokenView {
    /// Whether the token is no longer good at `now`.
    pub open spec fn expired_at(self, now: i64) -> bool {
        self.expiration <= now
    }

    /// Whether the token allows everything.
    pub open spec fn is_admin(self) -> bool {
        self.scopes.contains(Scope::Admin)
    }

    /// Whether the token allows what needs no user.
    pub open spec fn is_public(self) -> bool {
        self.scopes.contains(Scope::Public)
    }

    /// Whether the token allows what belongs to the user with the id.
    pub open spec fn is_user(self, user_id: u64) -> bool {
        self.scopes.contains(Scope::User(user_id))
    }

    /// Whether the token authorizes an action on what belongs to `owner`, or on
    /// nobody's where there is no owner; `public` says that the action is open to
    /// public tokens. The order of the scopes plays no part.
    pub open spec fn authorizes(self, owner: Option<u64>, public: bool) -> bool {
        self.is_admin() || (owner matches Some(id) && self.is_user(id)) || (public
            && self.is_public())
    }

    /// The id of the first scope of a user, counted from `from` on.
    pub open spec fn first_user(self, from: int) -> Option<u64>
        decreases self.scopes.len() - from,
    {
        if from < 0 || from >= self.scopes.len() {
            None
        } else {
            match self.scopes[from] {
                Scope::User(id) => Some(id),
                _ => self.first_user(from + 1),
            }
        }
    }
}

/// The token that is issued at `now` and good for `validity` seconds.
pub open spec fn issued(
    app_id: Seq<char>,
    scopes: Seq<Scope>,
    token_type: TokenType,
    now: i64,
    validity: i64,
) -> AccessTokenView {
    AccessTokenView { app_id, scopes, token_type, expiration: (now + validity) as i64 }
}

/// The seconds from `now` to `expiration`, as far as sixty-four bits hold them.
pub open spec fn seconds_left(expiration: i64, now: i64) -> i64 {
    if expiration - now < i64::MIN {
        i64::MIN
    } else if expiration - now > i64::MAX {
        i64::MAX
    } else {
        (expiration - now) as i64
    }
}

/// The four fields of a token, by name.
pub open spec fn token_fields(token: AccessTokenView) -> Pairs {
    seq![
        ("app_id"@, token.app_id),
        ("expiration"@, signed_decimal(token.expiration as int)),
        ("scopes"@, scopes_text(token.scopes)),
        ("token_type"@, token.token_type.name()),
    ]
}

/// What is wrong with one field of a token, if anything: its name is unknown
/// (`UnknownField`), or its text is not what the field holds (`Json`).
pub open spec fn token_field_fault(key: Seq<char>, value: Seq<char>) -> Option<Error> {
    if key == "app_id"@ || key == "token_type"@ {
        None
    } else if key == "scopes"@ {
        if scopes_of_text(value) is Some {
            None
        } else {
            Some(Error::Json)
        }
    } else if key == "expiration"@ {
        if parse_i64_spec(value) is Some {
            None
        } else {
            Some(Error::Json)
        }
    } else {
        Some(Error::UnknownField)
    }
}

/// The fault of the first faulty field of a token.
pub open spec fn first_token_fault(fields: Pairs) -> Option<Error>
    decreases fields.len(),
{
    if fields.len() == 0 {
        None
    } else {
        match first_token_fault(fields.drop_last()) {
            Some(e) => Some(e),
            None => token_field_fault(fields.last().0, fields.last().1),
        }
    }
}

/// The token that the fields hold. A field that is absent leaves the token without
/// an id, without scopes, or good until `now`.
pub open spec fn token_of_fields(fields: Pairs, now: i64) -> Result<AccessTokenView, Error> {
    match first_token_fault(fields) {
        Some(e) => Err(e),
        None => Ok(
            AccessTokenView {
                app_id: text_of(fields, "app_id"@),
                scopes: match last_value(fields, "scopes"@) {
                    Some(text) => match scopes_of_text(text) {
                        Some(scopes) => scopes,
                        None => Seq::empty(),
                    },
                    None => Seq::empty(),
                },
                token_type: TokenType::Bearer,
                expiration: match last_value(fields, "expiration"@) {
                    Some(text) => match parse_i64_spec(text) {
                        Some(t) => t,
                        None => now,
                    },
                    None => now,
                },
            },
        ),
    }
}

/// The bytes that are encrypted for a token.
pub open spec fn plaintext_of(token: AccessTokenView) -> Seq<u8> {
    encode_utf8(json_object_text(token_fields(token)))
}

/// The token that decrypted bytes hold: `StringUTF8` where the bytes are no text,
/// `Json` where the text is not flat or is no object of strings, else what the
/// fields hold.
pub open spec fn token_of_plaintext(bytes: Seq<u8>, now: i64) -> Result<AccessTokenView, Error> {
    if !valid_utf8(bytes) {
        Err(Error::StringUTF8)
    } else if !is_flat(bytes) {
        Err(Error::Json)
    } else {
        match json_object_fields(decode_utf8(bytes)) {
            Some(fields) => token_of_fields(fields, now),
            None => Err(Error::Json),
        }
    }
}

impl AccessToken {
    /// The token that is issued at `now` and good for `validity` seconds.
    pub fn issued_at(
        app_id: &str,
        scopes: &[Scope],
        token_type: TokenType,
        now: i64,
        validity: i64,
    ) -> (token: AccessToken)
        requires
            i64::MIN <= now + validity <= i64::MAX,
        ensures
            token@ == issued(app_id@, scopes@, token_type, now, validity),
    {
        let mut own: Vec<Scope> = Vec::new();
        let mut i: usize = 0;
        while i < scopes.len()
            invariant
                0 <= i <= scopes.len(),
                own@ == scopes@.take(i as int),
            decreases scopes.len() - i,
        {
            own.push(scopes[i]);
            assert(own@ =~= scopes@.take(i + 1));
            i += 1;
        }
        assert(own@ =~= scopes@);
        AccessToken {
            app_id: String::from_str(app_id),
            scopes: own,
            token_type,
            expiration: now + validity,
        }
    }

    /// A token that is good for `validity` seconds from the reading of the clock.
    pub fn new(app_id: &str, scopes: &[Scope], token_type: TokenType, validity: i64) -> (token:
        AccessToken)
        requires
            -MAX_DURATION <= validity <= MAX_DURATION,
        ensures
            exists|now: i64|
                0 <= now <= MAX_CLOCK && token@ == #[trigger] issued(
                    app_id@,
                    scopes@,
                    token_type,
                    now,
                    validity,
                ),
    {
        let t = now();
        AccessToken::issued_at(app_id, scopes, token_type, t, validity)
    }

    /// Who the token was issued to.
    pub fn get_app_id(&self) -> (app_id: &str)
        ensures
            app_id@ == self@.app_id,
    {
        self.app_id.as_str()
    }

    /// What the token allows.
    pub fn get_scopes(&self) -> (scopes: &Vec<Scope>)
        ensures
            scopes@ == self@.scopes,
    {
        &self.scopes
    }

    /// How the token is presented.
    pub fn get_token_type(&self) -> (token_type: TokenType)
        ensures
            token_type == self@.token_type,
    {
        self.token_type
    }

    /// Whether the token holds the scope.
    pub fn has_scope(&self, scope: Scope) -> (r: bool)
        ensures
            r == self@.scopes.contains(scope),
    {
        let mut i: usize = 0;
        while i < self.scopes.len()
            invariant
                0 <= i <= self.scopes.len(),
                forall|j: int| 0 <= j < i ==> self.scopes@[j] != scope,
            decreases self.scopes.len() - i,
        {
            if self.scopes[i] == scope {
                return true;
            }
            i += 1;
        }
        false
    }

    /// Whether the token allows everything.
    pub fn is_admin(&self) -> (r: bool)
        ensures
            r == self@.is_admin(),
    {
        self.has_scope(Scope::Admin)
    }

    /// Whether the token allows what needs no user.
    pub fn is_public(&self) -> (r: bool)
        ensures
            r == self@.is_public(),
    {
        self.has_scope(Scope::Public)
    }

    /// Whether the token allows what belongs to the user with the id.
    pub fn is_user(&self, user_id: u64) -> (r: bool)
        ensures
            r == self@.is_user(user_id),
    {
        self.has_scope(Scope::User(user_id))
    }

    /// Whether the token authorizes an action on what belongs to `owner`; `public`
    /// says that the action is open to public tokens.
    pub fn authorizes(&self, owner: Option<u64>, public: bool) -> (r: bool)
        ensures
            r == self@.authorizes(owner, public),
    {
        if self.is_admin() {
            return true;
        }
        match owner {
            Some(id) => {
                if self.is_user(id) {
                    return true;
                }
            },
            None => {},
        }
        public && self.is_public()
    }

    /// The id of the user of the first scope that belongs to a user.
    pub fn get_user_id(&self) -> (id: Option<u64>)
        ensures
            id == self@.first_user(0),
    {
        let mut i: usize = 0;
        while i < self.scopes.len()
            invariant
                0 <= i <= self.scopes.len(),
                self@.first_user(0) == self@.first_user(i as int),
            decreases self.scopes.len() - i,
        {
            match self.scopes[i] {
                Scope::User(id) => {
                    return Some(id);
                },
                _ => {},
            }
            i += 1;
        }
        None
    }

    /// The instant from which the token is no longer good.
    pub fn get_expiration(&self) -> (expiration: i64)
        ensures
            expiration == self@.expiration,
    {
        self.expiration
    }

    /// Whether the token is no longer good at `now`.
    pub fn has_expired_at(&self, now: i64) -> (r: bool)
        ensures
            r == self@.expired_at(now),
    {
        self.expiration <= now
    }

    /// Whether the token is no longer good. The clock is read at every call.
    pub fn has_expired(&self) -> (r: bool)
        ensures
            exists|now: i64| 0 <= now <= MAX_CLOCK && r == #[trigger] self@.expired_at(now),
    {
        let t = now();
        self.has_expired_at(t)
    }
}

impl AccessToken {
    /// The four fields of the token, by name.
    pub fn to_fields(&self) -> (fields: Vec<(String, String)>)
        ensures
            pairs_view(fields@) == token_fields(self@),
    {
        let expiration = i64_to_string(self.expiration);
        let scopes = scopes_to_text(&self.scopes);
        let mut fields: Vec<(String, String)> = Vec::new();
        assert(pairs_view(fields@) =~= Seq::empty());
        push_pair(&mut fields, "app_id", self.app_id.as_str());
        push_pair(&mut fields, "expiration", expiration.as_str());
        push_pair(&mut fields, "scopes", scopes.as_str());
        push_pair(&mut fields, "token_type", self.token_type.as_str());
        assert(pairs_view(fields@) =~= token_fields(self@));
        fields
    }

    /// The bytes to encrypt: the JSON object of the four fields. The token comes
    /// back from them: read at any instant, they give this token.
    pub fn plaintext(&self) -> (bytes: Vec<u8>)
        ensures
            bytes@ == plaintext_of(self@),
            forall|now: i64| #[trigger]
                token_of_plaintext(bytes@, now) == Ok::<AccessTokenView, Error>(self@),
    {
        let fields = self.to_fields();
        let text = encode_object(&fields);
        proof {
            encode_utf8_valid_utf8(text@);
            encode_utf8_decode_utf8(text@);
            let read = json_object_fields(text@)->0;
            assert forall|now: i64| #[trigger]
                token_of_plaintext(encode_utf8(text@), now) == Ok::<AccessTokenView, Error>(
                    self@,
                ) by {
                lemma_read_fields(self@, read, now);
            }
        }
        text.as_str().as_bytes_vec()
    }

    /// The token as it is handed out, once its plaintext was encrypted to `encrypted`:
    /// the transport string is the base64 of the encrypted bytes, in the standard
    /// alphabet, and the expiration is told in seconds from `now`.
    pub fn into_dto_at(self, encrypted: &[u8], now: i64) -> (dto: AccessTokenDTO)
        ensures
            dto.app_id@ == self@.app_id,
            dto.scopes@ == scopes_text(self@.scopes),
            dto.access_token@ == base64_text(encrypted@, false),
            base64_bytes(dto.access_token@) == Some(encrypted@),
            dto.token_type == self@.token_type,
            dto.expiration == seconds_left(self@.expiration, now),
    {
        let scopes = scopes_to_text(&self.scopes);
        let access_token = to_base64(encrypted);
        let expiration = if now >= 0 && self.expiration < i64::MIN + now {
            i64::MIN
        } else if now < 0 && self.expiration > i64::MAX + now {
            i64::MAX
        } else {
            self.expiration - now
        };
        AccessTokenDTO {
            app_id: self.app_id,
            scopes,
            access_token,
            token_type: self.token_type,
            expiration,
        }
    }

    /// The token as it is handed out, once its plaintext was encrypted to `encrypted`.
    /// The expiration is told in seconds from the reading of the clock.
    pub fn into_dto(self, encrypted: &[u8]) -> (dto: AccessTokenDTO)
        ensures
            dto.app_id@ == self@.app_id,
            dto.scopes@ == scopes_text(self@.scopes),
            dto.access_token@ == base64_text(encrypted@, false),
            base64_bytes(dto.access_token@) == Some(encrypted@),
            dto.token_type == self@.token_type,
            exists|now: i64|
                0 <= now <= MAX_CLOCK && dto.expiration == #[trigger] seconds_left(
                    self@.expiration,
                    now,
                ),
    {
        let t = now();
        self.into_dto_at(encrypted, t)
    }

    /// The encrypted bytes that a transport string stands for. Fails with `Base64`
    /// where the string is not base64.
    pub fn ciphertext(token: &str) -> (r: Result<Vec<u8>, Error>)
        ensures
            match r {
                Ok(bytes) => base64_bytes(token@) == Some(bytes@),
                Err(e) => base64_bytes(token@) is None && e == Error::Base64,
            },
    {
        match from_base64(token) {
            Some(bytes) => Ok(bytes),
            None => Err(Error::Base64),
        }
    }

    /// Tells what is wrong with one field of a token.
    pub fn check_field(key: &str, value: &str) -> (fault: Option<Error>)
        ensures
            fault == token_field_fault(key@, value@),
    {
        if str_eq(key, "app_id") || str_eq(key, "token_type") {
            None
        } else if str_eq(key, "scopes") {
            match scopes_from_text(value) {
                Some(_) => None,
                None => Some(Error::Json),
            }
        } else if str_eq(key, "expiration") {
            match parse_i64(value) {
                Some(_) => None,
                None => Some(Error::Json),
            }
        } else {
            Some(Error::UnknownField)
        }
    }

    /// Tells the fault of the first faulty field of a token.
    pub fn check_fields(fields: &Vec<(String, String)>) -> (fault: Option<Error>)
        ensures
            fault == first_token_fault(pairs_view(fields@)),
    {
        let ghost all = pairs_view(fields@);
        let mut i: usize = 0;
        assert(all.subrange(0, 0).len() == 0);
        while i < fields.len()
            invariant
                0 <= i <= fields.len(),
                all == pairs_view(fields@),
                first_token_fault(all.subrange(0, i as int)) is None,
            decreases fields.len() - i,
        {
            let ghost longer = all.subrange(0, i + 1);
            proof {
                assert(longer.drop_last() =~= all.subrange(0, i as int));
                assert(longer.last() == (fields@[i as int].0@, fields@[i as int].1@));
            }
            match AccessToken::check_field(fields[i].0.as_str(), fields[i].1.as_str()) {
                Some(e) => {
                    proof {
                        lemma_token_fault_stays(all, i + 1);
                    }
                    return Some(e);
                },
                None => {},
            }
            i += 1;
        }
        assert(all.subrange(0, i as int) =~= all);
        None
    }

    /// Reads a token from its fields, at the instant `now`.
    ///
    /// Fails on the first faulty field: with `UnknownField` on a name that no token
    /// has, with `Json` on scopes or an expiration that cannot be read.
    pub fn from_fields(fields: &Vec<(String, String)>, now: i64) -> (r: Result<AccessToken, Error>)
        ensures
            match r {
                Ok(token) => token_of_fields(pairs_view(fields@), now) == Ok::<
                    AccessTokenView,
                    Error,
                >(token@),
                Err(e) => token_of_fields(pairs_view(fields@), now) == Err::<AccessTokenView, Error>(
                    e,
                ),
            },
    {
        match AccessToken::check_fields(fields) {
            Some(e) => {
                return Err(e);
            },
            None => {},
        }
        let scopes = match find_last(fields, "scopes") {
            Some(text) => match scopes_from_text(text.as_str()) {
                Some(scopes) => scopes,
                None => Vec::new(),
            },
            None => Vec::new(),
        };
        let expiration = match find_last(fields, "expiration") {
            Some(text) => match parse_i64(text.as_str()) {
                Some(t) => t,
                None => now,
            },
            None => now,
        };
        Ok(
            AccessToken {
                app_id: text_field(fields, "app_id"),
                scopes,
                token_type: TokenType::Bearer,
                expiration,
            },
        )
    }

    /// Reads a token from the decrypted bytes of its transport string, at the
    /// instant `now`.
    ///
    /// Fails with `StringUTF8` where the bytes are no text, with `Json` where the
    /// text is not flat or is no JSON object of strings, and as `from_fields` does on
    /// its fields.
    pub fn from_token_at(decrypted: Vec<u8>, now: i64) -> (r: Result<AccessToken, Error>)
        ensures
            match r {
                Ok(token) => token_of_plaintext(decrypted@, now) == Ok::<AccessTokenView, Error>(
                    token@,
                ),
                Err(e) => token_of_plaintext(decrypted@, now) == Err::<AccessTokenView, Error>(e),
            },
    {
        let ghost bytes = decrypted@;
        let flat = check_flat(decrypted.as_slice());
        let text = match text_from_utf8(decrypted) {
            Some(text) => text,
            None => {
                return Err(Error::StringUTF8);
            },
        };
        if !flat {
            return Err(Error::Json);
        }
        proof {
            decode_utf8_encode_utf8(bytes);
        }
        match decode_object(text.as_str()) {
            Some(fields) => AccessToken::from_fields(&fields, now),
            None => Err(Error::Json),
        }
    }

    /// Reads a token from the decrypted bytes of its transport string. Where the
    /// token names no expiration, the clock gives it.
    pub fn from_token(decrypted: Vec<u8>) -> (r: Result<AccessToken, Error>)
        ensures
            exists|now: i64|
                0 <= now <= MAX_CLOCK && match r {
                    Ok(token) => #[trigger] token_of_plaintext(decrypted@, now) == Ok::<
                        AccessTokenView,
                        Error,
                    >(token@),
                    Err(e) => token_of_plaintext(decrypted@, now) == Err::<AccessTokenView, Error>(
                        e,
                    ),
                },
    {
        let t = now();
        AccessToken::from_token_at(decrypted, t)
    }
}

/// A fault found in the first fields of a token is the fault of the token.
pub proof fn lemma_token_fault_stays(fields: Pairs, k: int)
    requires
        0 <= k <= fields.len(),
        first_token_fault(fields.subrange(0, k)) is Some,
    ensures
        first_token_fault(fields) == first_token_fault(fields.subrange(0, k)),
    decreases fields.len() - k,
{
    if k == fields.len() {
        assert(fields.subrange(0, k) =~= fields);
    } else {
        let longer = fields.subrange(0, k + 1);
        assert(longer.drop_last() =~= fields.subrange(0, k));
        lemma_token_fault_stays(fields, k + 1);
    }
}

/// Fields that are all faultless hold no fault.
pub proof fn lemma_no_token_fault(fields: Pairs, k: int)
    requires
        0 <= k <= fields.len(),
        forall|i: int|
            0 <= i < fields.len() ==> token_field_fault(
                (#[trigger] fields[i]).0,
                fields[i].1,
            ) is None,
    ensures
        first_token_fault(fields.subrange(0, k)) is None,
    decreases k,
{
    if k > 0 {
        lemma_no_token_fault(fields, k - 1);
        let prefix = fields.subrange(0, k);
        assert(prefix.drop_last() =~= fields.subrange(0, k - 1));
        assert(prefix.last() == fields[k - 1]);
    }
}

/// The four fields of a token have names that differ from one another.
pub proof fn lemma_token_fields_distinct(token: AccessTokenView)
    ensures
        distinct_keys(token_fields(token)),
        "app_id"@ != "expiration"@,
        "app_id"@ != "scopes"@,
        "app_id"@ != "token_type"@,
        "expiration"@ != "scopes"@,
        "expiration"@ != "token_type"@,
        "scopes"@ != "token_type"@,
{
    reveal_strlit("app_id");
    reveal_strlit("expiration");
    reveal_strlit("scopes");
    reveal_strlit("token_type");
    assert("app_id"@.len() == 6 && "app_id"@[0] == 'a');
    assert("expiration"@.len() == 10 && "expiration"@[0] == 'e');
    assert("scopes"@.len() == 6 && "scopes"@[0] == 's');
    assert("token_type"@.len() == 10 && "token_type"@[0] == 't');
}

/// A token comes back from its fields: reading the fields that were written for a
/// token gives that token, whatever the instant.
pub proof fn lemma_fields_round_trip(token: AccessTokenView, now: i64)
    ensures
        token_of_fields(token_fields(token), now) == Ok::<AccessTokenView, Error>(token),
{
    let fields = token_fields(token);
    lemma_token_fields_distinct(token);
    lemma_scopes_round_trip(token.scopes);
    lemma_parse_signed_decimal(token.expiration as int);
    assert(fields.len() == 4);
    assert(token_field_fault(fields[0].0, fields[0].1) is None);
    assert(token_field_fault(fields[1].0, fields[1].1) is None);
    assert(token_field_fault(fields[2].0, fields[2].1) is None);
    assert(token_field_fault(fields[3].0, fields[3].1) is None);
    assert forall|i: int| 0 <= i < fields.len() implies token_field_fault(
        (#[trigger] fields[i]).0,
        fields[i].1,
    ) is None by {
        if i == 0 {
        } else if i == 1 {
        } else if i == 2 {
        } else {
            assert(i == 3);
        }
    }
    lemma_no_token_fault(fields, 4);
    assert(fields.subrange(0, 4) =~= fields);
    lemma_last_value_of_distinct(fields, 0);
    lemma_last_value_of_distinct(fields, 1);
    lemma_last_value_of_distinct(fields, 2);
    let read = token_of_fields(fields, now)->Ok_0;
    assert(read.app_id == token.app_id);
    assert(read.scopes == token.scopes);
    assert(read.expiration == token.expiration);
    assert(read.token_type == token.token_type);
}

/// Fields that are read back as they were written for a token give that token.
pub proof fn lemma_read_fields(token: AccessTokenView, read: Pairs, now: i64)
    requires
        crate::encoding::written_is_read(token_fields(token), Some(read)),
    ensures
        token_of_fields(read, now) == Ok::<AccessTokenView, Error>(token),
{
    let written = token_fields(token);
    lemma_fields_round_trip(token, now);
    lemma_token_fields_distinct(token);
    assert forall|i: int| 0 <= i < read.len() implies token_field_fault(
        (#[trigger] read[i]).0,
        read[i].1,
    ) is None by {
        lemma_last_value_of_distinct(read, i);
        let k = read[i].0;
        assert(last_value(written, k) == Some(read[i].1));
        lemma_written_pair(written, k);
    }
    lemma_no_token_fault(read, read.len() as int);
    assert(read.subrange(0, read.len() as int) =~= read);
    assert(first_token_fault(written) is None);
    let a = token_of_fields(read, now)->Ok_0;
    let b = token_of_fields(written, now)->Ok_0;
    assert(a.app_id == b.app_id);
    assert(a.scopes == b.scopes);
    assert(a.expiration == b.expiration);
}

/// A name that the fields of a token give a text is one of their four names, with
/// that text, and the field is faultless.
pub proof fn lemma_written_pair(written: Pairs, key: Seq<char>)
    requires
        last_value(written, key) is Some,
        first_token_fault(written) is None,
    ensures
        token_field_fault(key, last_value(written, key)->0) is None,
    decreases written.len(),
{
    if written.last().0 != key {
        lemma_written_pair(written.drop_last(), key);
    }
}

/// A token comes back from its transport. Where the object codec writes a flat text
/// and hands back the fields that it was given, reading the plaintext that was
/// written for a token gives that token.
pub proof fn lemma_token_round_trip(token: AccessTokenView, now: i64)
    requires
        is_flat(plaintext_of(token)),
        json_object_fields(json_object_text(token_fields(token))) == Some(token_fields(token)),
    ensures
        token_of_plaintext(plaintext_of(token), now) == Ok::<AccessTokenView, Error>(token),
{
    let text = json_object_text(token_fields(token));
    encode_utf8_valid_utf8(text);
    encode_utf8_decode_utf8(text);
    lemma_fields_round_trip(token, now);
}

/// A token of a positive validity is good when it is issued, and no longer from the
/// end of its validity on.
pub proof fn lemma_expiration(
    app_id: Seq<char>,
    scopes: Seq<Scope>,
    token_type: TokenType,
    now: i64,
    validity: i64,
    later: i64,
)
    requires
        validity > 0,
        now + validity <= i64::MAX,
    ensures
        !issued(app_id, scopes, token_type, now, validity).expired_at(now),
        later >= now + validity <==> issued(app_id, scopes, token_type, now, validity).expired_at(
            later,
        ),
{
}

/// How many seconds the token of a client lasts: eight hours.
pub const CLIENT_TOKEN_SECONDS: i64 = 28800;

/// The client that was found, if any, by its view.
pub open spec fn found(client: Option<&DeveloperClient>) -> Option<DeveloperClientView> {
    match client {
        Some(c) => Some(c@),
        None => None,
    }
}

/// What a request for a token comes to at `now`: a request without password cannot
/// be read; a client that is unknown, or whose secret in base64 is not the password,
/// is refused; any other client gets a token of its scopes for eight hours.
pub open spec fn token_verdict(
    password: Option<Seq<char>>,
    client: Option<DeveloperClientView>,
    now: i64,
) -> Result<AccessTokenView, Response> {
    match password {
        None => Err(response(Status::BadRequest, Message::Nothing)),
        Some(p) => match client {
            Some(c) if p == base64_text(c.secret, false) => Ok(
                issued(c.id, c.scopes, TokenType::Bearer, now, CLIENT_TOKEN_SECONDS),
            ),
            _ => Err(response(Status::Forbidden, Message::UnauthorizedClient)),
        },
    }
}

/// Decides on a request for a token at `now`. `password` is nothing where the
/// request names no client with a password.
pub fn token_at(password: Option<&str>, client: Option<&DeveloperClient>, now: i64) -> (r: Result<
    AccessToken,
    Response,
>)
    requires
        0 <= now <= MAX_CLOCK,
    ensures
        match r {
            Ok(token) => token_verdict(given(password), found(client), now) == Ok::<
                AccessTokenView,
                Response,
            >(token@),
            Err(answer) => token_verdict(given(password), found(client), now) == Err::<
                AccessTokenView,
                Response,
            >(answer),
        },
{
    let password = match password {
        Some(p) => p,
        None => {
            return Err(Response { status: Status::BadRequest, message: Message::Nothing });
        },
    };
    match client {
        Some(c) => {
            if c.has_secret(password) {
                Ok(
                    AccessToken::issued_at(
                        c.get_id(),
                        c.get_scopes().as_slice(),
                        TokenType::Bearer,
                        now,
                        CLIENT_TOKEN_SECONDS,
                    ),
                )
            } else {
                Err(Response { status: Status::Forbidden, message: Message::UnauthorizedClient })
            }
        },
        None => Err(Response { status: Status::Forbidden, message: Message::UnauthorizedClient }),
    }
}

/// The password of a request, if it names one, by its characters.
pub open spec fn given(password: Option<&str>) -> Option<Seq<char>> {
    match password {
        Some(p) => Some(p@),
        None => None,
    }
}

/// Decides on a request for a token at the reading of the clock.
pub fn token(password: Option<&str>, client: Option<&DeveloperClient>) -> (r: Result<
    AccessToken,
    Response,
>)
    ensures
        exists|now: i64|
            0 <= now <= MAX_CLOCK && match r {
                Ok(token) => #[trigger] token_verdict(given(password), found(client), now) == Ok::<
                    AccessTokenView,
                    Response,
                >(token@),
                Err(answer) => token_verdict(given(password), found(client), now) == Err::<
                    AccessTokenView,
                    Response,
                >(answer),
            },
{
    let t = now();
    token_at(password, client, t)
}

/// Whether the token may create clients: only an administrator's may.
pub fn create_client(token: &AccessToken) -> (r: Result<(), Response>)
    ensures
        match r {
            Ok(_) => token@.is_admin(),
            Err(answer) => !token@.is_admin() && answer == response(
                Status::Forbidden,
                Message::UnauthorizedToken,
            ),
        },
{
    if token.is_admin() {
        Ok(())
    } else {
        Err(Response { status: Status::Forbidden, message: Message::UnauthorizedToken })
    }
}

} // verus!
