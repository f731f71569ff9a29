//! The commands that the library sends to the keyed store, and the answers it reads.
//!
//! The library never talks to the store itself. Every operation is a list of
//! commands for the caller to run, in order and without interleaving, on the one
//! guarded connection, and a function that reads the answers.

use vstd::prelude::*;
use vstd::string::*;

verus! {

/// Field names with their texts, as characters.
pub type Pairs = Seq<(Seq<char>, Seq<char>)>;

/// The characters of a list of pairs of strings.
pub open spec fn pairs_view(items: Seq<(String, String)>) -> Pairs {
    items.map_values(|p: (String, String)| (p.0@, p.1@))
}

/// The characters of a list of strings.
pub open spec fn texts_view(items: Seq<String>) -> Seq<Seq<char>> {
    items.map_values(|s: String| s@)
}

/// One command for the keyed store.
#[derive(Debug)]
pub enum Command {
    /// Whether `key` holds a value of any type.
    Exists { key: String },
    /// Sets the text under `key` unless the key holds a value.
    SetNx { key: String, value: String },
    /// Adds one to the number under `key`, which counts from zero where the key is absent.
    Incr { key: String },
    /// The text under `key`.
    Get { key: String },
    /// Sets the text under `key`; the store drops it after `seconds`.
    SetEx { key: String, value: String, seconds: u64 },
    /// Removes `key` with whatever it holds.
    Del { key: String },
    /// Sets one field of the hash under `key`.
    HSet { key: String, field: String, value: String },
    /// Sets one field of the hash under `key` unless the hash has that field.
    HSetNx { key: String, field: String, value: String },
    /// Sets the given fields of the hash under `key`.
    HSetMultiple { key: String, items: Vec<(String, String)> },
    /// One field of the hash under `key`.
    HGet { key: String, field: String },
    /// Removes one field of the hash under `key`.
    HDel { key: String, field: String },
    /// Whether the hash under `key` has the field.
    HExists { key: String, field: String },
    /// Every field of the hash under `key`, with its text.
    HGetAll { key: String },
    /// The text of every field of the hash under `key`.
    HVals { key: String },
}

/// A command, its strings taken as characters.
pub enum CommandView {
    Exists { key: Seq<char> },
    SetNx { key: Seq<char>, value: Seq<char> },
    Incr { key: Seq<char> },
    Get { key: Seq<char> },
    SetEx { key: Seq<char>, value: Seq<char>, seconds: u64 },
    Del { key: Seq<char> },
    HSet { key: Seq<char>, field: Seq<char>, value: Seq<char> },
    HSetNx { key: Seq<char>, field: Seq<char>, value: Seq<char> },
    HSetMultiple { key: Seq<char>, items: Pairs },
    HGet { key: Seq<char>, field: Seq<char> },
    HDel { key: Seq<char>, field: Seq<char> },
    HExists { key: Seq<char>, field: Seq<char> },
    HGetAll { key: Seq<char> },
    HVals { key: Seq<char> },
}

impl View for Command {
    type V = CommandView;

    open spec fn view(&self) -> CommandView {
        match *self {
            Command::Exists { key } => CommandView::Exists { key: key@ },
            Command::SetNx { key, value } => CommandView::SetNx { key: key@, value: value@ },
            Command::Incr { key } => CommandView::Incr { key: key@ },
            Command::Get { key } => CommandView::Get { key: key@ },
            Command::SetEx { key, value, seconds } => CommandView::SetEx {
                key: key@,
                value: value@,
                seconds,
            },
            Command::Del { key } => CommandView::Del { key: key@ },
            Command::HSet { key, field, value } => CommandView::HSet {
                key: key@,
                field: field@,
                value: value@,
            },
            Command::HSetNx { key, field, value } => CommandView::HSetNx {
                key: key@,
                field: field@,
                value: value@,
            },
            Command::HSetMultiple { key, items } => CommandView::HSetMultiple {
                key: key@,
                items: pairs_view(items@),
            },
            Command::HGet { key, field } => CommandView::HGet { key: key@, field: field@ },
            Command::HDel { key, field } => CommandView::HDel { key: key@, field: field@ },
            Command::HExists { key, field } => CommandView::HExists { key: key@, field: field@ },
            Command::HGetAll { key } => CommandView::HGetAll { key: key@ },
            Command::HVals { key } => CommandView::HVals { key: key@ },
        }
    }
}

/// The commands of a list, each taken as characters.
pub open spec fn commands_view(commands: Seq<Command>) -> Seq<CommandView> {
    commands.map_values(|c: Command| c@)
}

/// One answer of the keyed store.
#[derive(Debug)]
pub enum Reply {
    /// Nothing is there.
    Nil,
    /// The command was carried out and has nothing to tell.
    Done,
    /// A number.
    Int(i64),
    /// A text.
    Text(String),
    /// A list of texts.
    Texts(Vec<String>),
    /// Field names with their texts.
    Fields(Vec<(String, String)>),
}

/// An answer, its strings taken as characters.
pub enum ReplyView {
    Nil,
    Done,
    Int(i64),
    Text(Seq<char>),
    Texts(Seq<Seq<char>>),
    Fields(Pairs),
}

impl View for Reply {
    type V = ReplyView;

    open spec fn view(&self) -> ReplyView {
        match *self {
            Reply::Nil => ReplyView::Nil,
            Reply::Done => ReplyView::Done,
            Reply::Int(n) => ReplyView::Int(n),
            Reply::Text(text) => ReplyView::Text(text@),
            Reply::Texts(items) => ReplyView::Texts(texts_view(items@)),
            Reply::Fields(items) => ReplyView::Fields(pairs_view(items@)),
        }
    }
}

/// The answers of a list, each taken as characters.
pub open spec fn replies_view(replies: Seq<Reply>) -> Seq<ReplyView> {
    replies.map_values(|r: Reply| r@)
}

/// What an answer says where a yes or no was asked: the store writes it as a number.
pub open spec fn flag_of(reply: ReplyView) -> Option<bool> {
    match reply {
        ReplyView::Int(n) => Some(n != 0),
        _ => None,
    }
}

impl Reply {
    /// Reads the answer to a yes-or-no question.
    pub fn as_flag(&self) -> (flag: Option<bool>)
        ensures
            flag == flag_of(self@),
    {
        match self {
            Reply::Int(n) => Some(*n != 0),
            _ => None,
        }
    }
}

/// Adds the pair of `key` and `value` at the end of `items`.
pub fn push_pair(items: &mut Vec<(String, String)>, key: &str, value: &str)
    ensures
        pairs_view(final(items)@) == pairs_view(old(items)@).push((key@, value@)),
{
    items.push((String::from_str(key), String::from_str(value)));
    assert(pairs_view(items@) =~= pairs_view(old(items)@).push((key@, value@)));
}

/// Adds `command` at the end of `commands`.
pub fn push_command(commands: &mut Vec<Command>, command: Command)
    ensures
        commands_view(final(commands)@) == commands_view(old(commands)@).push(command@),
{
    commands.push(command);
    assert(commands_view(commands@) =~= commands_view(old(commands)@).push(command@));
}

/// The command that sets one field of a hash.
pub fn hset(key: String, field: &str, value: &str) -> (c: Command)
    ensures
        c@ == (CommandView::HSet { key: key@, field: field@, value: value@ }),
{
    Command::HSet { key, field: String::from_str(field), value: String::from_str(value) }
}

/// The command that sets one field of a hash unless the hash has it.
pub fn hset_nx(key: &str, field: &str, value: &str) -> (c: Command)
    ensures
        c@ == (CommandView::HSetNx { key: key@, field: field@, value: value@ }),
{
    Command::HSetNx {
        key: String::from_str(key),
        field: String::from_str(field),
        value: String::from_str(value),
    }
}

/// The command that removes one field of a hash.
pub fn hdel(key: &str, field: &str) -> (c: Command)
    ensures
        c@ == (CommandView::HDel { key: key@, field: field@ }),
{
    Command::HDel { key: String::from_str(key), field: String::from_str(field) }
}

/// The command that asks whether a hash has a field.
pub fn hexists(key: &str, field: &str) -> (c: Command)
    ensures
        c@ == (CommandView::HExists { key: key@, field: field@ }),
{
    Command::HExists { key: String::from_str(key), field: String::from_str(field) }
}

/// The command that reads one field of a hash.
pub fn hget(key: &str, field: &str) -> (c: Command)
    ensures
        c@ == (CommandView::HGet { key: key@, field: field@ }),
{
    Command::HGet { key: String::from_str(key), field: String::from_str(field) }
}

} // verus!
