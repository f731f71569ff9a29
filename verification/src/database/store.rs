//! What the keyed store does with each command.
//!
//! The store itself lies outside the library. This is the account of it that the
//! commands of the library are written against: texts that may expire and hashes of
//! texts, each under a key, and for every command the state that it leaves and the
//! answer that it gives. What holds of the key space is stated over it.

use vstd::prelude::*;
use crate::database::command::{CommandView, Pairs, ReplyView};
use crate::database::record::{distinct_keys, last_value};
use crate::text::{parse_signed, signed_decimal};

verus! {

/// A text under a key, with the instant from which the store no longer shows it.
pub struct Entry {
    pub text: Seq<char>,
    pub expires: Option<int>,
}

/// The state of the store.
pub struct Store {
    /// The texts, by key.
    pub texts: Map<Seq<char>, Entry>,
    /// The hashes, by key. None of them is empty.
    pub hashes: Map<Seq<char>, Map<Seq<char>, Seq<char>>>,
}

/// What the store answers.
pub enum Answer {
    /// Nothing is there.
    Nil,
    /// The command was carried out.
    Done,
    /// A number.
    Int(int),
    /// A text.
    Text(Seq<char>),
    /// The fields of a hash.
    Fields(Map<Seq<char>, Seq<char>>),
    /// The texts of the fields of a hash, without their names.
    Values(Map<Seq<char>, Seq<char>>),
    /// The command was refused: the key holds a value of another type, or an argument
    /// is out of range.
    Refused,
}

impl Store {
    /// The store that holds nothing.
    pub open spec fn empty() -> Store {
        Store { texts: Map::empty(), hashes: Map::empty() }
    }

    /// No key holds both a text and a hash, and no hash is empty.
    pub open spec fn wf(self) -> bool {
        &&& forall|k: Seq<char>| #[trigger]
            self.hashes.dom().contains(k) ==> !self.texts.dom().contains(k)
        &&& forall|k: Seq<char>| #[trigger]
            self.hashes.dom().contains(k) ==> self.hashes[k].dom().len() > 0 || !self.hashes[k].dom().finite()
    }

    /// The text that the store shows under `key` at `now`.
    pub open spec fn text_at(self, key: Seq<char>, now: int) -> Option<Seq<char>> {
        if self.texts.dom().contains(key) {
            match self.texts[key].expires {
                Some(t) if t <= now => None,
                _ => Some(self.texts[key].text),
            }
        } else {
            None
        }
    }

    /// The hash under `key`, empty where the key holds none.
    pub open spec fn hash_at(self, key: Seq<char>) -> Map<Seq<char>, Seq<char>> {
        if self.hashes.dom().contains(key) {
            self.hashes[key]
        } else {
            Map::empty()
        }
    }

    /// The text of one field of the hash under `key`.
    pub open spec fn field_at(self, key: Seq<char>, field: Seq<char>) -> Option<Seq<char>> {
        if self.hash_at(key).dom().contains(field) {
            Some(self.hash_at(key)[field])
        } else {
            None
        }
    }

    /// Whether the store shows a value under `key` at `now`.
    pub open spec fn holds(self, key: Seq<char>, now: int) -> bool {
        self.text_at(key, now) is Some || self.hashes.dom().contains(key)
    }

    /// The store without whatever `key` holds.
    pub open spec fn without(self, key: Seq<char>) -> Store {
        Store { texts: self.texts.remove(key), hashes: self.hashes.remove(key) }
    }

    /// The store with `entry` as the text under `key`.
    pub open spec fn with_text(self, key: Seq<char>, entry: Entry) -> Store {
        Store { texts: self.texts.insert(key, entry), hashes: self.hashes.remove(key) }
    }

    /// The store with `hash` under `key`; an empty hash leaves no key.
    pub open spec fn with_hash(self, key: Seq<char>, hash: Map<Seq<char>, Seq<char>>) -> Store {
        if hash.dom().finite() && hash.dom().len() == 0 {
            self.without(key)
        } else {
            Store { texts: self.texts.remove(key), hashes: self.hashes.insert(key, hash) }
        }
    }
}

/// A hash with the given fields set one after the other.
pub open spec fn with_fields(hash: Map<Seq<char>, Seq<char>>, items: Pairs) -> Map<
    Seq<char>,
    Seq<char>,
>
    decreases items.len(),
{
    if items.len() == 0 {
        hash
    } else {
        with_fields(hash, items.drop_last()).insert(items.last().0, items.last().1)
    }
}

/// The number that a yes or a no is answered with.
pub open spec fn flag(b: bool) -> Answer {
    Answer::Int(if b {
        1
    } else {
        0
    })
}

/// The state that `command` leaves and the answer that it gives, in the state `s` at
/// the instant `now`.
pub open spec fn step(s: Store, command: CommandView, now: int) -> (Store, Answer) {
    match command {
        CommandView::Exists { key } => (s, flag(s.holds(key, now))),
        CommandView::SetNx { key, value } => if s.holds(key, now) {
            (s, flag(false))
        } else {
            (s.with_text(key, Entry { text: value, expires: None }), flag(true))
        },
        CommandView::Incr { key } => if s.hashes.dom().contains(key) {
            (s, Answer::Refused)
        } else {
            match s.text_at(key, now) {
                None => (
                    s.with_text(key, Entry { text: signed_decimal(1), expires: None }),
                    Answer::Int(1),
                ),
                Some(text) => match parse_signed(text) {
                    Some(n) if text == signed_decimal(n) && i64::MIN <= n < i64::MAX => (
                        s.with_text(
                            key,
                            Entry { text: signed_decimal(n + 1), expires: s.texts[key].expires },
                        ),
                        Answer::Int(n + 1),
                    ),
                    _ => (s, Answer::Refused),
                },
            }
        },
        CommandView::Get { key } => if s.hashes.dom().contains(key) {
            (s, Answer::Refused)
        } else {
            match s.text_at(key, now) {
                Some(text) => (s, Answer::Text(text)),
                None => (s, Answer::Nil),
            }
        },
        CommandView::SetEx { key, value, seconds } => if seconds == 0 {
            (s, Answer::Refused)
        } else {
            (s.with_text(key, Entry { text: value, expires: Some(now + seconds) }), Answer::Done)
        },
        CommandView::Del { key } => (s.without(key), flag(s.holds(key, now))),
        CommandView::HSet { key, field, value } => if s.text_at(key, now) is Some {
            (s, Answer::Refused)
        } else {
            (
                s.with_hash(key, s.hash_at(key).insert(field, value)),
                flag(s.field_at(key, field) is None),
            )
        },
        CommandView::HSetNx { key, field, value } => if s.text_at(key, now) is Some {
            (s, Answer::Refused)
        } else if s.field_at(key, field) is Some {
            (s, flag(false))
        } else {
            (s.with_hash(key, s.hash_at(key).insert(field, value)), flag(true))
        },
        CommandView::HSetMultiple { key, items } => if s.text_at(key, now) is Some || items.len()
            == 0 {
            (s, Answer::Refused)
        } else {
            (s.with_hash(key, with_fields(s.hash_at(key), items)), Answer::Done)
        },
        CommandView::HGet { key, field } => if s.text_at(key, now) is Some {
            (s, Answer::Refused)
        } else {
            match s.field_at(key, field) {
                Some(text) => (s, Answer::Text(text)),
                None => (s, Answer::Nil),
            }
        },
        CommandView::HDel { key, field } => if s.text_at(key, now) is Some {
            (s, Answer::Refused)
        } else if s.field_at(key, field) is Some {
            (s.with_hash(key, s.hash_at(key).remove(field)), flag(true))
        } else {
            (s, flag(false))
        },
        CommandView::HExists { key, field } => if s.text_at(key, now) is Some {
            (s, Answer::Refused)
        } else {
            (s, flag(s.field_at(key, field) is Some))
        },
        CommandView::HGetAll { key } => if s.text_at(key, now) is Some {
            (s, Answer::Refused)
        } else {
            (s, Answer::Fields(s.hash_at(key)))
        },
        CommandView::HVals { key } => if s.text_at(key, now) is Some {
            (s, Answer::Refused)
        } else {
            (s, Answer::Values(s.hash_at(key)))
        },
    }
}

/// The state that the commands leave when they run one after the other at `now`.
pub open spec fn run(s: Store, commands: Seq<CommandView>, now: int) -> Store
    decreases commands.len(),
{
    if commands.len() == 0 {
        s
    } else {
        step(run(s, commands.drop_last(), now), commands.last(), now).0
    }
}

/// The answer to the command at `index` when the commands run one after the other at `now`.
pub open spec fn answer(s: Store, commands: Seq<CommandView>, index: int, now: int) -> Answer
    recommends
        0 <= index < commands.len(),
{
    step(run(s, commands.subrange(0, index), now), commands[index], now).1
}

/// Whether an answer as the caller hands it over says what the store answered. The
/// fields of a hash come in any order, each once.
pub open spec fn agrees(reply: ReplyView, answer: Answer) -> bool {
    match answer {
        Answer::Nil => reply is Nil,
        Answer::Done => reply is Done,
        Answer::Int(n) => reply is Int && reply->Int_0 == n,
        Answer::Text(text) => reply is Text && reply->Text_0 == text,
        Answer::Fields(hash) => match reply {
            ReplyView::Fields(pairs) => distinct_keys(pairs) && forall|k: Seq<char>|
                last_value(pairs, k) == (if hash.dom().contains(k) {
                    Some(hash[k])
                } else {
                    None
                }),
            _ => false,
        },
        Answer::Values(hash) => match reply {
            ReplyView::Texts(texts) => texts.len() == hash.dom().len() && forall|i: int|
                0 <= i < texts.len() ==> exists|k: Seq<char>|
                    hash.dom().contains(k) && hash[k] == #[trigger] texts[i],
            _ => false,
        },
        Answer::Refused => false,
    }
}

/// Running a command keeps the store well-formed.
pub proof fn lemma_step_wf(s: Store, command: CommandView, now: int)
    requires
        s.wf(),
    ensures
        step(s, command, now).0.wf(),
{
    match command {
        CommandView::HSet { key, field, value } => {
            lemma_insert_not_empty(s.hash_at(key), field, value);
        },
        CommandView::HSetNx { key, field, value } => {
            lemma_insert_not_empty(s.hash_at(key), field, value);
        },
        CommandView::HSetMultiple { key, items } => {
            if items.len() > 0 {
                lemma_insert_not_empty(
                    with_fields(s.hash_at(key), items.drop_last()),
                    items.last().0,
                    items.last().1,
                );
            }
        },
        _ => {},
    }
}

/// A hash into which a field was set is not empty.
pub proof fn lemma_insert_not_empty(hash: Map<Seq<char>, Seq<char>>, field: Seq<char>, value: Seq<char>)
    ensures
        !(hash.insert(field, value).dom() =~= Set::empty()),
        hash.insert(field, value).dom().len() > 0 || !hash.insert(field, value).dom().finite(),
{
    let h = hash.insert(field, value);
    assert(h.dom().contains(field));
    if h.dom().finite() {
        if h.dom().len() == 0 {
            h.dom().lemma_len0_is_empty();
            assert(false);
        }
    }
}

/// Running a list of commands keeps the store well-formed.
pub proof fn lemma_run_wf(s: Store, commands: Seq<CommandView>, now: int)
    requires
        s.wf(),
    ensures
        run(s, commands, now).wf(),
    decreases commands.len(),
{
    if commands.len() > 0 {
        lemma_run_wf(s, commands.drop_last(), now);
        lemma_step_wf(run(s, commands.drop_last(), now), commands.last(), now);
    }
}

} // verus!
