//! Developer clients: the stored record, and the commands that create, change and remove it.

use vstd::prelude::*;
use vstd::string::*;
use crate::database::command::{
    commands_view, flag_of, hdel, hexists, hget, hset, hset_nx, pairs_view, push_command,
    push_pair, Command, CommandView, Pairs, Reply, ReplyView,
};
use crate::database::keys::{
    client_barcode_key, client_index_key, client_key, make_client_barcode_key, make_client_key,
    next_client_id_key, numbered,
};
use crate::database::record::{find_last, last_value, text_field, text_of};
use crate::database::{Database, BARCODE_SECONDS, SECRET_LEN};
use crate::encoding::{base64_bytes, base64_text, from_base64, to_base64};
use crate::error::Error;
use crate::secret::{all_alphanumeric, random_bytes, random_text};
use crate::text::{decimal, parse_u32, parse_u32_spec, str_eq, u64_to_string};
use crate::v1::scope::{scopes_from_text, scopes_of_text, scopes_text, scopes_to_text, Scope};

verus! {

/// How many random characters end the id of a client.
pub const CLIENT_SUFFIX_LEN: usize = 10;

/// The limit of a client whose hash names none: zero, which is no limit.
pub const DEFAULT_REQUEST_LIMIT: u32 = 0;

/// The id of a client: the number that was drawn for it, a hyphen, and a random suffix.
pub open spec fn client_id(number: u64, suffix: Seq<char>) -> Seq<char> {
    decimal(number as nat) + seq!['-'] + suffix
}

/// The fields that the hash of a new client holds.
pub open spec fn client_fields(
    name: Seq<char>,
    scopes: Seq<Scope>,
    secret: Seq<u8>,
    request_limit: u64,
) -> Pairs {
    seq![
        ("name"@, name),
        ("scopes"@, scopes_text(scopes)),
        ("secret"@, base64_text(secret, false)),
        ("request_count"@, "0"@),
        ("request_limit"@, decimal(request_limit as nat)),
    ]
}

/// The commands that store a new client: its hash, and the index entry of its name.
pub open spec fn client_commands(id: Seq<char>, name: Seq<char>, fields: Pairs) -> Seq<CommandView> {
    seq![
        CommandView::HSetMultiple { key: client_key(id), items: fields },
        CommandView::HSetNx { key: client_index_key(), field: name, value: id },
    ]
}

/// What the answer to the question before the creation of a client means, for a
/// client that is to get the scopes: `ClientExists` where the name is taken, then
/// `NoScopes` where there are no scopes, else `Ok`.
pub open spec fn new_client_verdict(reply: ReplyView, scopes: Seq<Scope>) -> Result<(), Error> {
    match flag_of(reply) {
        Some(true) => Err(Error::ClientExists),
        Some(false) => if scopes.len() == 0 {
            Err(Error::NoScopes)
        } else {
            Ok(())
        },
        None => Err(Error::Redis),
    }
}

/// The commands that remove a client: the index entry of its name, then its hash.
pub open spec fn delete_client_commands(id: Seq<char>, name: Seq<char>) -> Seq<CommandView> {
    seq![
        CommandView::HDel { key: client_index_key(), field: name },
        CommandView::Del { key: client_key(id) },
    ]
}

/// A client that was admitted to creation: its name was asked for and found free,
/// and it has a scope at least. Only `Database::admit_new_client` makes one, and the
/// commands that store a new client are made from one.
#[derive(Debug)]
pub struct NewClient {
    name: String,
    scopes: Vec<Scope>,
}

impl NewClient {
    /// The name of the admitted client.
    pub closed spec fn name(&self) -> Seq<char> {
        self.name@
    }

    /// The scopes of the admitted client.
    pub closed spec fn scopes(&self) -> Seq<Scope> {
        self.scopes@
    }

    #[verifier::type_invariant]
    spec fn has_scopes(self) -> bool {
        self.scopes@.len() > 0
    }
}

/// All that the store holds of one developer client.
#[derive(Clone, Debug)]
pub struct DeveloperClient {
    id: String,
    secret: Vec<u8>,
    name: String,
    scopes: Vec<Scope>,
    request_count: u32,
    request_limit: u32,
}

/// A client, its strings taken as characters.
pub struct DeveloperClientView {
    pub id: Seq<char>,
    pub secret: Seq<u8>,
    pub name: Seq<char>,
    pub scopes: Seq<Scope>,
    pub request_count: u32,
    pub request_limit: u32,
}

impl View for DeveloperClient {
    type V = DeveloperClientView;

    closed spec fn view(&self) -> DeveloperClientView {
        DeveloperClientView {
            id: self.id@,
            secret: self.secret@,
            name: self.name@,
            scopes: self.scopes@,
            request_count: self.request_count,
            request_limit: self.request_limit,
        }
    }
}

/// Whether a field of a client's hash holds a count of requests.
pub open spec fn is_client_count_field(key: Seq<char>) -> bool {
    key == "request_count"@ || key == "request_limit"@
}

/// What is wrong with one field of a client's hash, if anything: its name is unknown
/// (`UnknownField`), or its text is no count (`Redis`).
pub open spec fn client_field_fault(key: Seq<char>, value: Seq<char>) -> Option<Error> {
    if key == "name"@ || key == "secret"@ || key == "scopes"@ {
        None
    } else if is_client_count_field(key) {
        if parse_u32_spec(value) is Some {
            None
        } else {
            Some(Error::Redis)
        }
    } else {
        Some(Error::UnknownField)
    }
}

/// The fault of the first faulty field of a client's hash.
pub open spec fn first_client_fault(data: Pairs) -> Option<Error>
    decreases data.len(),
{
    if data.len() == 0 {
        None
    } else {
        match first_client_fault(data.drop_last()) {
            Some(e) => Some(e),
            None => client_field_fault(data.last().0, data.last().1),
        }
    }
}

/// The count that a field holds, `otherwise` where the field is absent or holds none.
pub open spec fn count_of(data: Pairs, key: Seq<char>, otherwise: u32) -> u32 {
    match last_value(data, key) {
        Some(text) => match parse_u32_spec(text) {
            Some(n) => n,
            None => otherwise,
        },
        None => otherwise,
    }
}

/// The client that a hash holds. After a faulty field, `Json` tells of scopes that
/// cannot be read, and `Base64` of a secret that is no base64 of `SECRET_LEN` bytes.
pub open spec fn client_of(id: Seq<char>, data: Pairs) -> Result<DeveloperClientView, Error> {
    match first_client_fault(data) {
        Some(e) => Err(e),
        None => match scopes_of_text(text_of(data, "scopes"@)) {
            None => Err(Error::Json),
            Some(scopes) => match base64_bytes(text_of(data, "secret"@)) {
                Some(secret) if secret.len() == SECRET_LEN => Ok(
                    DeveloperClientView {
                        id,
                        secret,
                        name: text_of(data, "name"@),
                        scopes,
                        request_count: count_of(data, "request_count"@, 0),
                        request_limit: count_of(data, "request_limit"@, DEFAULT_REQUEST_LIMIT),
                    },
                ),
                _ => Err(Error::Base64),
            },
        },
    }
}

/// What the count of requests of a client becomes with one more request: the next
/// count, or `RequestLimitReached` where the client has a limit and has reached it, or
/// the count cannot grow. A limit of zero is no limit.
pub open spec fn next_request_count(count: u32, limit: u32) -> Result<u32, Error> {
    if (limit != 0 && count >= limit) || count == u32::MAX {
        Err(Error::RequestLimitReached)
    } else {
        Ok((count + 1) as u32)
    }
}

/// Tells what is wrong with one field of a client's hash.
pub fn check_client_field(key: &str, value: &str) -> (fault: Option<Error>)
    ensures
        fault == client_field_fault(key@, value@),
{
    if str_eq(key, "name") || str_eq(key, "secret") || str_eq(key, "scopes") {
        None
    } else if str_eq(key, "request_count") || str_eq(key, "request_limit") {
        match parse_u32(value) {
            Some(_) => None,
            None => Some(Error::Redis),
        }
    } else {
        Some(Error::UnknownField)
    }
}

/// A fault found in the first fields of a hash is the fault of the hash.
pub proof fn lemma_client_fault_stays(data: Pairs, k: int)
    requires
        0 <= k <= data.len(),
        first_client_fault(data.subrange(0, k)) is Some,
    ensures
        first_client_fault(data) == first_client_fault(data.subrange(0, k)),
    decreases data.len() - k,
{
    if k == data.len() {
        assert(data.subrange(0, k) =~= data);
    } else {
        let longer = data.subrange(0, k + 1);
        assert(longer.drop_last() =~= data.subrange(0, k));
        lemma_client_fault_stays(data, k + 1);
    }
}

/// Tells the fault of the first faulty field of a client's hash.
pub fn check_client_fields(data: &Vec<(String, String)>) -> (fault: Option<Error>)
    ensures
        fault == first_client_fault(pairs_view(data@)),
{
    let ghost all = pairs_view(data@);
    let mut i: usize = 0;
    assert(all.subrange(0, 0).len() == 0);
    while i < data.len()
        invariant
            0 <= i <= data.len(),
            all == pairs_view(data@),
            first_client_fault(all.subrange(0, i as int)) is None,
        decreases data.len() - i,
    {
        let ghost longer = all.subrange(0, i + 1);
        proof {
            assert(longer.drop_last() =~= all.subrange(0, i as int));
            assert(longer.last() == (data@[i as int].0@, data@[i as int].1@));
        }
        match check_client_field(data[i].0.as_str(), data[i].1.as_str()) {
            Some(e) => {
                proof {
                    lemma_client_fault_stays(all, i + 1);
                }
                return Some(e);
            },
            None => {},
        }
        i += 1;
    }
    assert(all.subrange(0, i as int) =~= all);
    None
}

/// The count that a field holds, `otherwise` where the field is absent or holds none.
pub fn count_field(data: &Vec<(String, String)>, key: &str, otherwise: u32) -> (n: u32)
    ensures
        n == count_of(pairs_view(data@), key@, otherwise),
{
    match find_last(data, key) {
        Some(text) => match parse_u32(text.as_str()) {
            Some(n) => n,
            None => otherwise,
        },
        None => otherwise,
    }
}

impl DeveloperClient {
    /// Reads a client from the hash that the store keeps of it.
    pub fn from_db_data(id: &str, data: &Vec<(String, String)>) -> (r: Result<
        DeveloperClient,
        Error,
    >)
        ensures
            match r {
                Ok(client) => client_of(id@, pairs_view(data@)) == Ok::<DeveloperClientView, Error>(
                    client@,
                ),
                Err(e) => client_of(id@, pairs_view(data@)) == Err::<DeveloperClientView, Error>(e),
            },
    {
        match check_client_fields(data) {
            Some(e) => {
                return Err(e);
            },
            None => {},
        }
        let scopes_text = text_field(data, "scopes");
        let scopes = match scopes_from_text(scopes_text.as_str()) {
            Some(scopes) => scopes,
            None => {
                return Err(Error::Json);
            },
        };
        let secret_text = text_field(data, "secret");
        let secret = match from_base64(secret_text.as_str()) {
            Some(secret) => secret,
            None => {
                return Err(Error::Base64);
            },
        };
        if secret.len() != SECRET_LEN {
            return Err(Error::Base64);
        }
        Ok(
            DeveloperClient {
                id: String::from_str(id),
                secret,
                name: text_field(data, "name"),
                scopes,
                request_count: count_field(data, "request_count", 0),
                request_limit: count_field(data, "request_limit", DEFAULT_REQUEST_LIMIT),
            },
        )
    }

    /// The id of the client.
    pub fn get_id(&self) -> (id: &str)
        ensures
            id@ == self@.id,
    {
        self.id.as_str()
    }

    /// What the client may ask tokens for.
    pub fn get_scopes(&self) -> (scopes: &Vec<Scope>)
        ensures
            scopes@ == self@.scopes,
    {
        &self.scopes
    }

    /// The name of the client.
    pub fn get_name(&self) -> (name: &String)
        ensures
            name@ == self@.name,
    {
        &self.name
    }

    /// The secret of the client.
    pub fn get_secret(&self) -> (secret: &Vec<u8>)
        ensures
            secret@ == self@.secret,
    {
        &self.secret
    }

    /// How many requests the client has made.
    pub fn get_request_count(&self) -> (count: u32)
        ensures
            count == self@.request_count,
    {
        self.request_count
    }

    /// How many requests the client may make; zero where it may make any number.
    pub fn get_request_limit(&self) -> (limit: u32)
        ensures
            limit == self@.request_limit,
    {
        self.request_limit
    }

    /// Whether `secret` is the base64 of the secret of the client.
    pub fn has_secret(&self, secret: &str) -> (r: bool)
        ensures
            r == (secret@ == base64_text(self@.secret, false)),
    {
        let own = to_base64(self.secret.as_slice());
        str_eq(secret, own.as_str())
    }

    /// Gives the client another secret, and returns the command that stores it.
    pub fn set_secret(&mut self, secret: &[u8]) -> (c: Command)
        requires
            secret@.len() == SECRET_LEN,
        ensures
            c@ == (CommandView::HSet {
                key: client_key(old(self)@.id),
                field: "secret"@,
                value: base64_text(secret@, false),
            }),
            final(self)@ == (DeveloperClientView { secret: secret@, ..old(self)@ }),
    {
        let command = Database::change_client_secret(self.id.as_str(), secret);
        let mut own: Vec<u8> = Vec::new();
        own.extend_from_slice(secret);
        assert(own@ =~= secret@);
        self.secret = own;
        command
    }

    /// The commands that remove the client from the store. The client is consumed.
    pub fn delete(self) -> (commands: Vec<Command>)
        ensures
            commands_view(commands@) == delete_client_commands(self@.id, self@.name),
    {
        Database::delete_client(&self)
    }

    /// Counts one more request of the client, and returns the new count with the
    /// command that stores it. Fails with `RequestLimitReached`, and changes nothing,
    /// where the client has reached its limit.
    pub fn increment_request_count(&mut self) -> (r: Result<(u32, Command), Error>)
        ensures
            match r {
                Ok((count, c)) => next_request_count(
                    old(self)@.request_count,
                    old(self)@.request_limit,
                ) == Ok::<u32, Error>(count) && c@ == (CommandView::HSet {
                    key: client_key(old(self)@.id),
                    field: "request_count"@,
                    value: decimal(count as nat),
                }) && final(self)@ == (DeveloperClientView { request_count: count, ..old(self)@ }),
                Err(e) => next_request_count(old(self)@.request_count, old(self)@.request_limit)
                    == Err::<u32, Error>(e) && final(self)@ == old(self)@,
            },
    {
        if (self.request_limit != 0 && self.request_count >= self.request_limit)
            || self.request_count == u32::MAX {
            return Err(Error::RequestLimitReached);
        }
        self.request_count = self.request_count + 1;
        let command = Database::set_request_count(self.id.as_str(), self.request_count);
        Ok((self.request_count, command))
    }

    /// Starts the count of requests of the client anew, and returns the command that
    /// stores it.
    pub fn reset_request_count(&mut self) -> (c: Command)
        ensures
            c@ == (CommandView::HSet {
                key: client_key(old(self)@.id),
                field: "request_count"@,
                value: "0"@,
            }),
            final(self)@ == (DeveloperClientView { request_count: 0, ..old(self)@ }),
    {
        self.request_count = 0;
        Database::reset_request_count(self.id.as_str())
    }
}

impl Database {
    /// The command that stores the count of requests of a client.
    pub fn set_request_count(client_id: &str, count: u32) -> (c: Command)
        ensures
            c@ == (CommandView::HSet {
                key: client_key(client_id@),
                field: "request_count"@,
                value: decimal(count as nat),
            }),
    {
        let text = u64_to_string(count as u64);
        hset(make_client_key(client_id), "request_count", text.as_str())
    }

    /// The command that starts the count of requests of a client anew.
    pub fn reset_request_count(client_id: &str) -> (c: Command)
        ensures
            c@ == (CommandView::HSet {
                key: client_key(client_id@),
                field: "request_count"@,
                value: "0"@,
            }),
    {
        hset(make_client_key(client_id), "request_count", "0")
    }

    /// The command that marks a barcode of a client for eight hours.
    pub fn create_client_barcode(id: u64, barcode: &str) -> (c: Command)
        ensures
            c@ == (CommandView::SetEx {
                key: client_barcode_key(id, barcode@),
                value: "0"@,
                seconds: BARCODE_SECONDS,
            }),
    {
        Command::SetEx {
            key: make_client_barcode_key(id, barcode),
            value: String::from_str("0"),
            seconds: BARCODE_SECONDS,
        }
    }

    /// The command that removes the mark of a barcode of a client.
    pub fn client_remove_barcode(id: u64, barcode: &str) -> (c: Command)
        ensures
            c@ == (CommandView::Del { key: client_barcode_key(id, barcode@) }),
    {
        Command::Del { key: make_client_barcode_key(id, barcode) }
    }

    /// The command that asks whether a barcode of a client is marked.
    pub fn client_barcode_exists(id: u64, barcode: &str) -> (c: Command)
        ensures
            c@ == (CommandView::Exists { key: client_barcode_key(id, barcode@) }),
    {
        Command::Exists { key: make_client_barcode_key(id, barcode) }
    }

    /// The command that stores another secret of a client, as base64.
    pub fn change_client_secret(id: &str, secret: &[u8]) -> (c: Command)
        ensures
            c@ == (CommandView::HSet {
                key: client_key(id@),
                field: "secret"@,
                value: base64_text(secret@, false),
            }),
    {
        let text = to_base64(secret);
        hset(make_client_key(id), "secret", text.as_str())
    }

    /// The command that stores another name in the hash of the client whose id is
    /// the number.
    pub fn change_client_name(id: u64, name: &str) -> (c: Command)
        ensures
            c@ == (CommandView::HSet {
                key: client_key(decimal(id as nat)),
                field: "name"@,
                value: name@,
            }),
    {
        hset(numbered("clients:", id), "name", name)
    }

    /// The command that reads the client with the id.
    pub fn get_client(id: &str) -> (c: Command)
        ensures
            c@ == (CommandView::HGetAll { key: client_key(id@) }),
    {
        Command::HGetAll { key: make_client_key(id) }
    }

    /// Reads the client with the id from the answer. Nothing where the store holds
    /// no hash of the client; `Redis` where the answer is no list of fields.
    pub fn read_client(id: &str, reply: &Reply) -> (r: Result<Option<DeveloperClient>, Error>)
        ensures
            match r {
                Ok(Some(client)) => reply@ matches ReplyView::Fields(data) && data.len() > 0
                    && client_of(id@, data) == Ok::<DeveloperClientView, Error>(client@),
                Ok(None) => reply@ matches ReplyView::Fields(data) && data.len() == 0,
                Err(e) => match reply@ {
                    ReplyView::Fields(data) => data.len() > 0 && client_of(id@, data) == Err::<
                        DeveloperClientView,
                        Error,
                    >(e),
                    _ => e == Error::Redis,
                },
            },
    {
        match reply {
            Reply::Fields(data) => {
                if data.len() == 0 {
                    Ok(None)
                } else {
                    match DeveloperClient::from_db_data(id, data) {
                        Ok(client) => Ok(Some(client)),
                        Err(e) => Err(e),
                    }
                }
            },
            _ => Err(Error::Redis),
        }
    }

    /// The commands that remove the client.
    pub fn delete_client(client: &DeveloperClient) -> (commands: Vec<Command>)
        ensures
            commands_view(commands@) == delete_client_commands(client@.id, client@.name),
    {
        let mut commands = Vec::new();
        assert(commands_view(commands@) =~= Seq::empty());
        push_command(&mut commands, hdel("clientkeys", client.name.as_str()));
        push_command(&mut commands, Command::Del { key: make_client_key(client.id.as_str()) });
        commands
    }

    /// The command that asks whether the client whose id is the number exists.
    pub fn check_client_exists_id(id: u64) -> (c: Command)
        ensures
            c@ == (CommandView::HExists { key: client_key(decimal(id as nat)), field: "name"@ }),
    {
        let key = numbered("clients:", id);
        hexists(key.as_str(), "name")
    }

    /// The command that asks whether a client of that name exists.
    pub fn check_client_exists_name(name: &str) -> (c: Command)
        ensures
            c@ == (CommandView::HExists { key: client_index_key(), field: name@ }),
    {
        hexists("clientkeys", name)
    }

    /// The command that looks up the id of the client of that name.
    pub fn get_client_id_by_name(name: &str) -> (c: Command)
        ensures
            c@ == (CommandView::HGet { key: client_index_key(), field: name@ }),
    {
        hget("clientkeys", name)
    }

    /// The command that lists the ids of all clients.
    pub fn get_all_client_ids() -> (c: Command)
        ensures
            c@ == (CommandView::HVals { key: client_index_key() }),
    {
        Command::HVals { key: String::from_str("clientkeys") }
    }

    /// Decides on the creation of the client `name` with `scopes` from the answer to
    /// the question whether its name is taken: the admitted client and the command
    /// that draws the number of its id, or `ClientExists`, or `NoScopes`, or `Redis`
    /// where the answer says neither yes nor no.
    pub fn admit_new_client(name: &str, scopes: &[Scope], reply: &Reply) -> (r: Result<
        (NewClient, Command),
        Error,
    >)
        ensures
            match r {
                Ok((admitted, c)) => new_client_verdict(reply@, scopes@) is Ok && admitted.name()
                    == name@ && admitted.scopes() == scopes@ && c@ == (CommandView::Incr {
                    key: next_client_id_key(),
                }),
                Err(e) => new_client_verdict(reply@, scopes@) == Err::<(), Error>(e),
            },
    {
        match reply.as_flag() {
            Some(true) => Err(Error::ClientExists),
            Some(false) => {
                if scopes.len() == 0 {
                    Err(Error::NoScopes)
                } else {
                    let mut own: Vec<Scope> = Vec::new();
                    own.extend_from_slice(scopes);
                    assert(own@ =~= scopes@);
                    Ok(
                        (
                            NewClient { name: String::from_str(name), scopes: own },
                            Database::increment_client_id(),
                        ),
                    )
                }
            },
            None => Err(Error::Redis),
        }
    }

    /// The commands that store an admitted client, from the values that it stores.
    /// The secret is stored as base64, from which it is read back as it was.
    pub fn create_developer_client_with(
        admitted: NewClient,
        id: &str,
        secret: &[u8],
        request_limit: usize,
    ) -> (commands: Vec<Command>)
        ensures
            admitted.scopes().len() > 0,
            commands_view(commands@) == client_commands(
                id@,
                admitted.name(),
                client_fields(admitted.name(), admitted.scopes(), secret@, request_limit as u64),
            ),
            base64_bytes(base64_text(secret@, false)) == Some(secret@),
    {
        proof {
            use_type_invariant(&admitted);
        }
        let name = admitted.name.as_str();
        let scopes_text = scopes_to_text(&admitted.scopes);
        let secret_text = to_base64(secret);
        let limit_text = u64_to_string(request_limit as u64);
        let mut items: Vec<(String, String)> = Vec::new();
        assert(pairs_view(items@) =~= Seq::empty());
        push_pair(&mut items, "name", name);
        push_pair(&mut items, "scopes", scopes_text.as_str());
        push_pair(&mut items, "secret", secret_text.as_str());
        push_pair(&mut items, "request_count", "0");
        push_pair(&mut items, "request_limit", limit_text.as_str());
        assert(pairs_view(items@) =~= client_fields(
            admitted.name(),
            admitted.scopes(),
            secret@,
            request_limit as u64,
        ));
        let mut commands = Vec::new();
        assert(commands_view(commands@) =~= Seq::empty());
        push_command(&mut commands, Command::HSetMultiple { key: make_client_key(id), items });
        push_command(&mut commands, hset_nx("clientkeys", name, id));
        commands
    }

    /// The id and the secret of an admitted client for which the number `number` was
    /// drawn, with the commands that store it: the id ends in ten random letters and
    /// digits, the secret is `SECRET_LEN` random bytes.
    pub fn create_developer_client(admitted: NewClient, number: u64, request_limit: usize) -> (r: (
        String,
        Vec<u8>,
        Vec<Command>,
    ))
        ensures
            exists|suffix: Seq<char>|
                suffix.len() == CLIENT_SUFFIX_LEN && all_alphanumeric(suffix) && r.0@
                    == #[trigger] client_id(number, suffix),
            r.1@.len() == SECRET_LEN,
            admitted.scopes().len() > 0,
            commands_view(r.2@) == client_commands(
                r.0@,
                admitted.name(),
                client_fields(admitted.name(), admitted.scopes(), r.1@, request_limit as u64),
            ),
            base64_bytes(base64_text(r.1@, false)) == Some(r.1@),
    {
        let suffix = random_text(CLIENT_SUFFIX_LEN);
        let mut id = u64_to_string(number);
        id.append("-");
        id.append(suffix.as_str());
        proof {
            reveal_strlit("-");
            assert(id@ =~= client_id(number, suffix@));
        }
        let secret = random_bytes(SECRET_LEN);
        let commands = Database::create_developer_client_with(
            admitted,
            id.as_str(),
            secret.as_slice(),
            request_limit,
        );
        (id, secret, commands)
    }
}

} // verus!
