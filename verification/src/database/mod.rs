//! The key space of the identity store.
//!
//! The store is a keyed store of texts and hashes behind one guarded connection.
//! `Database` turns each operation on users and clients into the commands that
//! carry it out and reads their answers; running the commands is the caller's part.

pub mod command;
pub mod keys;
pub mod laws;
pub mod oauth;
pub mod record;
pub mod store;
pub mod user;

use vstd::prelude::*;
use crate::database::command::{Command, CommandView, Reply, ReplyView};
use crate::database::keys::{
    next_client_id_key, next_transaction_id_key, next_user_id_key,
};
use crate::error::Error;
use crate::text::{parse_u64, parse_u64_spec};
use vstd::string::*;

verus! {

/// How many bytes a client's secret has.
pub const SECRET_LEN: usize = 20;

/// How many characters the secret of a user's authenticator has.
pub const TOTP_SECRET_LEN: usize = 20;

/// How many seconds the one-time key lasts that comes with a registration.
pub const VERIFY_EMAIL_SECONDS: u64 = 86400;

/// How many seconds the one-time key lasts that is sent again on request.
pub const RESEND_EMAIL_SECONDS: u64 = 604800;

/// How many seconds the one-time key lasts that resets a password.
pub const RESET_PASSWORD_SECONDS: u64 = 86400;

/// How many seconds the mark of a client's barcode lasts.
pub const BARCODE_SECONDS: u64 = 28800;

/// The operations of the identity store.
pub struct Database {}

/// The id that the answer to a counter's increment holds.
pub open spec fn id_of(reply: ReplyView) -> Option<u64> {
    match reply {
        ReplyView::Int(n) if n >= 0 => Some(n as u64),
        _ => None,
    }
}

/// The id that the answer to a lookup holds, where it holds one. The outer `None` is
/// an answer that is neither nothing nor the numeral of an id.
pub open spec fn optional_id_of(reply: ReplyView) -> Option<Option<u64>> {
    match reply {
        ReplyView::Nil => Some(None),
        ReplyView::Text(text) => match parse_u64_spec(text) {
            Some(id) => Some(Some(id)),
            None => None,
        },
        _ => None,
    }
}

impl Database {
    /// The commands that prepare an empty store: each of the three counters is asked for.
    pub fn new() -> (commands: Vec<Command>)
        ensures
            commands@.len() == 3,
            commands@[0]@ == (CommandView::Exists { key: next_user_id_key() }),
            commands@[1]@ == (CommandView::Exists { key: next_client_id_key() }),
            commands@[2]@ == (CommandView::Exists { key: next_transaction_id_key() }),
    {
        let mut commands = Vec::new();
        commands.push(Command::Exists { key: String::from_str("next_user_id") });
        commands.push(Command::Exists { key: String::from_str("next_client_id") });
        commands.push(Command::Exists { key: String::from_str("next_transaction_id") });
        commands
    }

    /// The command that starts a counter at zero, where the answer says that the
    /// counter is not there; nothing where it is there. Fails with `Redis` on an answer
    /// that says neither.
    pub fn start_counter(key: &str, reply: &Reply) -> (r: Result<Option<Command>, Error>)
        ensures
            match r {
                Ok(Some(c)) => reply@ is Int && reply@->Int_0 == 0 && c@ == (CommandView::SetNx {
                    key: key@,
                    value: "0"@,
                }),
                Ok(None) => reply@ is Int && reply@->Int_0 != 0,
                Err(e) => !(reply@ is Int) && e == Error::Redis,
            },
    {
        match reply.as_flag() {
            Some(true) => Ok(None),
            Some(false) => Ok(
                Some(Command::SetNx { key: String::from_str(key), value: String::from_str("0") }),
            ),
            None => Err(Error::Redis),
        }
    }

    /// The command that draws the next user id.
    pub fn increment_user_id() -> (c: Command)
        ensures
            c@ == (CommandView::Incr { key: next_user_id_key() }),
    {
        Command::Incr { key: String::from_str("next_user_id") }
    }

    /// The command that draws the number of the next client id.
    pub fn increment_client_id() -> (c: Command)
        ensures
            c@ == (CommandView::Incr { key: next_client_id_key() }),
    {
        Command::Incr { key: String::from_str("next_client_id") }
    }

    /// Reads the id that a counter's increment answered. Fails with `Redis` on any
    /// answer but a number that is not negative.
    pub fn read_id(reply: &Reply) -> (r: Result<u64, Error>)
        ensures
            match r {
                Ok(id) => id_of(reply@) == Some(id),
                Err(e) => id_of(reply@) is None && e == Error::Redis,
            },
    {
        match reply {
            Reply::Int(n) => {
                if *n >= 0 {
                    Ok(*n as u64)
                } else {
                    Err(Error::Redis)
                }
            },
            _ => Err(Error::Redis),
        }
    }

    /// Reads the id that a lookup answered, where it found one. Fails with `Redis` on an
    /// answer that is neither nothing nor the numeral of an id.
    pub fn read_optional_id(reply: &Reply) -> (r: Result<Option<u64>, Error>)
        ensures
            match r {
                Ok(id) => optional_id_of(reply@) == Some(id),
                Err(e) => optional_id_of(reply@) is None && e == Error::Redis,
            },
    {
        match reply {
            Reply::Nil => Ok(None),
            Reply::Text(text) => match parse_u64(text.as_str()) {
                Some(id) => Ok(Some(id)),
                None => Err(Error::Redis),
            },
            _ => Err(Error::Redis),
        }
    }

    /// Reads the answer to a yes-or-no question. Fails with `Redis` on an answer that
    /// is no number.
    pub fn read_flag(reply: &Reply) -> (r: Result<bool, Error>)
        ensures
            match r {
                Ok(flag) => crate::database::command::flag_of(reply@) == Some(flag),
                Err(e) => crate::database::command::flag_of(reply@) is None && e == Error::Redis,
            },
    {
        match reply.as_flag() {
            Some(flag) => Ok(flag),
            None => Err(Error::Redis),
        }
    }
}

} // verus!
