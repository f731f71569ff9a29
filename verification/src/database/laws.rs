//! What holds of the key space, whatever the store held before.

use vstd::prelude::*;
use crate::database::command::{flag_of, CommandView, Pairs, ReplyView};
use crate::database::keys::{
    email_index_key, next_user_id_key, user_address_key, user_enc_keys_key, user_index_key,
    user_key, user_sign_keys_key, verify_email_key,
};
use crate::database::store::{agrees, answer, flag, run, step, Answer, Entry, Store};
use crate::database::user::{
    address_fault, delete_user_commands, move_entry, readdress_commands, rename_commands, first_user_fault, get_user_commands, new_user_questions,
    new_user_verdict, redeem_commands, redeemed, simple_user_commands, simple_user_fields,
    user_field_fault, user_of, user_read, UserView,
};
use crate::database::record::{
    distinct_keys, last_value, lemma_last_value_of_distinct, text_of,
};
use crate::database::store::{lemma_insert_not_empty, with_fields};
use crate::database::{id_of, optional_id_of};
use crate::database::keys::{client_index_key, client_key};
use crate::database::oauth::{
    client_commands, client_field_fault, client_fields, client_of, first_client_fault,
    DeveloperClientView,
};
use crate::encoding::{base64_bytes, base64_text, lowercase};
use crate::v1::scope::{lemma_scopes_round_trip, Scope};
use crate::error::Error;
use crate::text::{
    decimal, lemma_decimal_digits, lemma_decimal_value, lemma_parse_decimal, parse_signed,
    parse_u64_spec, signed_decimal,
};

verus! {

/// The state after `count` ids were drawn from the counter under `key`, one at each
/// of the instants `times`.
pub open spec fn after_draws(s: Store, key: Seq<char>, times: Seq<int>) -> Store
    decreases times.len(),
{
    if times.len() == 0 {
        s
    } else {
        step(after_draws(s, key, times.drop_last()), CommandView::Incr { key }, times.last()).0
    }
}

/// The answer to the draw at position `index`.
pub open spec fn draw_answer(s: Store, key: Seq<char>, times: Seq<int>, index: int) -> Answer
    recommends
        0 <= index < times.len(),
{
    step(after_draws(s, key, times.subrange(0, index)), CommandView::Incr { key }, times[index]).1
}

/// Whether the counter under `key` stands at `count`: a text that never expires and
/// is the numeral of `count`.
pub open spec fn counter_at(s: Store, key: Seq<char>, count: int) -> bool {
    &&& !s.hashes.dom().contains(key)
    &&& s.texts.dom().contains(key)
    &&& s.texts[key].expires is None
    &&& s.texts[key].text == signed_decimal(count)
}

/// Ids are drawn without repetition and without gaps: from a counter that stands at
/// `count`, the draws answer `count + 1`, `count + 2` and so on, whenever they are made.
pub proof fn lemma_ids_are_consecutive(s: Store, key: Seq<char>, count: int, times: Seq<int>)
    requires
        counter_at(s, key, count),
        0 <= count,
        count + times.len() <= i64::MAX,
    ensures
        counter_at(after_draws(s, key, times), key, count + times.len()),
        forall|i: int|
            0 <= i < times.len() ==> #[trigger] draw_answer(s, key, times, i) == Answer::Int(
                count + 1 + i,
            ),
        forall|i: int, j: int|
            0 <= i < j < times.len() ==> #[trigger] draw_answer(s, key, times, i)
                != #[trigger] draw_answer(s, key, times, j),
    decreases times.len(),
{
    if times.len() > 0 {
        let shorter = times.drop_last();
        lemma_ids_are_consecutive(s, key, count, shorter);
        let before = after_draws(s, key, shorter);
        crate::text::lemma_parse_signed_decimal(count + shorter.len());
        assert forall|i: int| 0 <= i < times.len() implies #[trigger] draw_answer(s, key, times, i)
            == Answer::Int(count + 1 + i) by {
            if i < shorter.len() {
                assert(times.subrange(0, i) =~= shorter.subrange(0, i));
                assert(draw_answer(s, key, times, i) == draw_answer(s, key, shorter, i));
            } else {
                assert(times.subrange(0, i) =~= shorter);
            }
        }
    }
}

/// The first id drawn from a counter that was started at zero is one.
pub proof fn lemma_first_id(s: Store, key: Seq<char>, now: int, later: int)
    requires
        !s.holds(key, now),
    ensures
        ({
            let started = step(s, CommandView::SetNx { key, value: "0"@ }, now).0;
            step(started, CommandView::Incr { key }, later).1 == Answer::Int(1)
        }),
{
    reveal_strlit("0");
    assert("0"@ =~= signed_decimal(0));
    crate::text::lemma_parse_signed_decimal(0);
}

/// A one-time key is redeemed once. After it was issued for a user, a redemption
/// within its time answers that user; any redemption after that one fails with
/// `IncorrectKey`.
pub proof fn lemma_one_time_redemption(
    s: Store,
    key: Seq<char>,
    user_id: u64,
    seconds: u64,
    issued: int,
    first: int,
    second: int,
    first_replies: Seq<ReplyView>,
    second_replies: Seq<ReplyView>,
)
    requires
        seconds > 0,
        issued <= first < issued + seconds,
        first <= second,
        ({
            let held = step(
                s,
                CommandView::SetEx { key, value: decimal(user_id as nat), seconds },
                issued,
            ).0;
            let spent = run(held, redeem_commands(key), first);
            &&& first_replies.len() == 2
            &&& agrees(first_replies[0], answer(held, redeem_commands(key), 0, first))
            &&& agrees(first_replies[1], answer(held, redeem_commands(key), 1, first))
            &&& second_replies.len() == 2
            &&& agrees(second_replies[0], answer(spent, redeem_commands(key), 0, second))
            &&& agrees(second_replies[1], answer(spent, redeem_commands(key), 1, second))
        }),
    ensures
        redeemed(first_replies) == Ok::<u64, Error>(user_id),
        redeemed(second_replies) == Err::<u64, Error>(Error::IncorrectKey),
{
    let commands = redeem_commands(key);
    let held = step(s, CommandView::SetEx { key, value: decimal(user_id as nat), seconds }, issued).0;
    assert(commands.subrange(0, 0) =~= Seq::empty());
    assert(run(held, commands.subrange(0, 0), first) == held);
    assert(held.text_at(key, first) == Some(decimal(user_id as nat)));
    lemma_parse_decimal(user_id as nat);
    let one = commands.subrange(0, 1);
    assert(one.drop_last() =~= Seq::empty());
    assert(run(held, one, first) == held);
    assert(commands.drop_last() =~= one);
    let spent = run(held, commands, first);
    assert(spent == held.without(key));
    assert(run(spent, commands.subrange(0, 0), second) == spent);
    assert(spent.text_at(key, second) is None);
}

/// A one-time key that is redeemed only after its time fails with `IncorrectKey`.
pub proof fn lemma_one_time_key_expires(
    s: Store,
    key: Seq<char>,
    user_id: u64,
    seconds: u64,
    issued: int,
    late: int,
    replies: Seq<ReplyView>,
)
    requires
        seconds > 0,
        issued + seconds <= late,
        ({
            let held = step(
                s,
                CommandView::SetEx { key, value: decimal(user_id as nat), seconds },
                issued,
            ).0;
            &&& replies.len() == 2
            &&& agrees(replies[0], answer(held, redeem_commands(key), 0, late))
            &&& agrees(replies[1], answer(held, redeem_commands(key), 1, late))
        }),
    ensures
        redeemed(replies) == Err::<u64, Error>(Error::IncorrectKey),
{
    let commands = redeem_commands(key);
    let held = step(s, CommandView::SetEx { key, value: decimal(user_id as nat), seconds }, issued).0;
    assert(commands.subrange(0, 0) =~= Seq::empty());
    assert(run(held, commands.subrange(0, 0), late) == held);
    assert(held.text_at(key, late) is None);
}

/// The fields that a registration writes have names that differ from one another.
pub proof fn lemma_simple_user_fields_distinct(
    name: Seq<char>,
    hash: Seq<char>,
    display_name: Seq<char>,
    email: Seq<char>,
    secret: Seq<char>,
    instant: i64,
)
    ensures
        distinct_keys(simple_user_fields(name, hash, display_name, email, secret, instant)),
{
    reveal_strlit("username");
    reveal_strlit("password");
    reveal_strlit("display_name");
    reveal_strlit("first_name");
    reveal_strlit("first_name_confirmed");
    reveal_strlit("last_name");
    reveal_strlit("last_name_confirmed");
    reveal_strlit("email");
    reveal_strlit("email_confirmed");
    reveal_strlit("birthday_confirmed");
    reveal_strlit("authenticator_secret");
    reveal_strlit("address_confirmed");
    reveal_strlit("phone_confirmed");
    reveal_strlit("image_url");
    reveal_strlit("enabled");
    reveal_strlit("registration_time");
    reveal_strlit("last_activity");
    reveal_strlit("banned");
    assert("username"@.len() == 8 && "username"@[0] == 'u');
    assert("password"@.len() == 8 && "password"@[0] == 'p');
    assert("display_name"@.len() == 12 && "display_name"@[0] == 'd');
    assert("first_name"@.len() == 10 && "first_name"@[0] == 'f');
    assert("first_name_confirmed"@.len() == 20 && "first_name_confirmed"@[0] == 'f');
    assert("last_name"@.len() == 9 && "last_name"@[0] == 'l');
    assert("last_name_confirmed"@.len() == 19 && "last_name_confirmed"@[0] == 'l');
    assert("email"@.len() == 5 && "email"@[0] == 'e');
    assert("email_confirmed"@.len() == 15 && "email_confirmed"@[0] == 'e');
    assert("birthday_confirmed"@.len() == 18 && "birthday_confirmed"@[0] == 'b');
    assert("authenticator_secret"@.len() == 20 && "authenticator_secret"@[0] == 'a');
    assert("address_confirmed"@.len() == 17 && "address_confirmed"@[0] == 'a');
    assert("phone_confirmed"@.len() == 15 && "phone_confirmed"@[0] == 'p');
    assert("image_url"@.len() == 9 && "image_url"@[0] == 'i');
    assert("enabled"@.len() == 7 && "enabled"@[0] == 'e');
    assert("registration_time"@.len() == 17 && "registration_time"@[0] == 'r');
    assert("last_activity"@.len() == 13 && "last_activity"@[0] == 'l');
    assert("banned"@.len() == 6 && "banned"@[0] == 'b');
}

/// A hash into which fields of distinct names were set holds each of them with its
/// text, and beyond them only what it held before.
pub proof fn lemma_with_fields(hash: Map<Seq<char>, Seq<char>>, items: Pairs)
    requires
        distinct_keys(items),
    ensures
        forall|i: int|
            0 <= i < items.len() ==> with_fields(hash, items).dom().contains(
                (#[trigger] items[i]).0,
            ) && with_fields(hash, items)[items[i].0] == items[i].1,
        forall|k: Seq<char>| #[trigger]
            with_fields(hash, items).dom().contains(k) ==> hash.dom().contains(k) || exists|
                i: int,
            |
                0 <= i < items.len() && (#[trigger] items[i]).0 == k,
    decreases items.len(),
{
    if items.len() > 0 {
        let shorter = items.drop_last();
        assert(distinct_keys(shorter)) by {
            assert forall|a: int, b: int| 0 <= a < b < shorter.len() implies (#[trigger] shorter[a]).0
                != (#[trigger] shorter[b]).0 by {
                assert(shorter[a] == items[a]);
                assert(shorter[b] == items[b]);
            }
        }
        lemma_with_fields(hash, shorter);
        let last = items.len() - 1;
        assert forall|i: int| 0 <= i < items.len() implies with_fields(hash, items).dom().contains(
            (#[trigger] items[i]).0,
        ) && with_fields(hash, items)[items[i].0] == items[i].1 by {
            if i < last {
                assert(shorter[i] == items[i]);
                assert(items[i].0 != items[last].0);
            }
        }
        assert forall|k: Seq<char>| #[trigger]
            with_fields(hash, items).dom().contains(k) implies hash.dom().contains(k) || exists|
            i: int,
        |
            0 <= i < items.len() && (#[trigger] items[i]).0 == k by {
            if k == items[last].0 {
            } else {
                assert(with_fields(hash, shorter).dom().contains(k));
                if !hash.dom().contains(k) {
                    let i = choose|i: int| 0 <= i < shorter.len() && (#[trigger] shorter[i]).0 == k;
                    assert(items[i] == shorter[i]);
                }
            }
        }
    }
}

/// The pairs that answer for an empty hash are none.
pub proof fn lemma_no_fields(pairs: Pairs)
    requires
        forall|k: Seq<char>| last_value(pairs, k) is None,
    ensures
        pairs.len() == 0,
{
    if pairs.len() > 0 {
        assert(last_value(pairs, pairs.last().0) is Some);
    }
}

/// Where every field of a hash is faultless, so are the pairs that answer for it.
pub proof fn lemma_faultless(pairs: Pairs, hash: Map<Seq<char>, Seq<char>>, k: int)
    requires
        agrees(ReplyView::Fields(pairs), Answer::Fields(hash)),
        forall|f: Seq<char>| #[trigger] hash.dom().contains(f) ==> user_field_fault(f, hash[f]) is None,
        0 <= k <= pairs.len(),
    ensures
        first_user_fault(pairs.subrange(0, k)) is None,
    decreases k,
{
    if k > 0 {
        lemma_faultless(pairs, hash, k - 1);
        let prefix = pairs.subrange(0, k);
        assert(prefix.drop_last() =~= pairs.subrange(0, k - 1));
        assert(prefix.last() == pairs[k - 1]);
        lemma_last_value_of_distinct(pairs, k - 1);
        assert(hash.dom().contains(pairs[k - 1].0));
    }
}

/// The names under which the store keeps its values do not collide: an index is no
/// user's hash, a user's hash is not its address, and a one-time key is neither.
pub proof fn lemma_keys_apart(id: u64, email_key: Seq<char>)
    ensures
        user_index_key() != email_index_key(),
        user_key(id) != user_index_key(),
        user_key(id) != email_index_key(),
        user_address_key(id) != user_index_key(),
        user_address_key(id) != email_index_key(),
        user_sign_keys_key(id) != user_index_key(),
        user_sign_keys_key(id) != email_index_key(),
        user_enc_keys_key(id) != user_index_key(),
        user_enc_keys_key(id) != email_index_key(),
        user_address_key(id) != user_key(id),
        user_sign_keys_key(id) != user_key(id),
        user_enc_keys_key(id) != user_key(id),
        user_sign_keys_key(id) != user_address_key(id),
        user_enc_keys_key(id) != user_address_key(id),
        verify_email_key(email_key) != user_index_key(),
        verify_email_key(email_key) != email_index_key(),
        verify_email_key(email_key) != user_key(id),
        verify_email_key(email_key) != user_address_key(id),
{
    reveal_strlit("userkeys");
    reveal_strlit("emailkeys");
    reveal_strlit("users:");
    reveal_strlit("verify_emails:");
    reveal_strlit(":addr");
    reveal_strlit(":sign_keys");
    reveal_strlit(":enc_keys");
    lemma_decimal_digits(id as nat);
    let u = user_key(id);
    assert(u.len() >= 7);
    assert(u[4] == 's');
    assert(u[0] == 'u');
    assert("userkeys"@[4] == 'k');
    assert("emailkeys"@[0] == 'e');
    assert(user_address_key(id)[4] == u[4]);
    assert(user_sign_keys_key(id)[4] == u[4]);
    assert(user_enc_keys_key(id)[4] == u[4]);
    assert(user_address_key(id)[0] == u[0]);
    assert(user_sign_keys_key(id)[0] == u[0]);
    assert(user_enc_keys_key(id)[0] == u[0]);
    assert(user_address_key(id).len() == u.len() + 5);
    assert(user_sign_keys_key(id).len() == u.len() + 10);
    assert(user_enc_keys_key(id).len() == u.len() + 9);
    assert(verify_email_key(email_key)[0] == 'v');
}

/// Running commands one more runs the last on the state that the others left.
pub proof fn lemma_run_push(s: Store, commands: Seq<CommandView>, command: CommandView, now: int)
    ensures
        run(s, commands.push(command), now) == step(run(s, commands, now), command, now).0,
{
    assert(commands.push(command).drop_last() =~= commands);
}

/// Whether the store keeps no text where the indices, the user with the id and the
/// address of that user have their hashes.
pub open spec fn hashes_in_place(s: Store, id: u64) -> bool {
    &&& !s.texts.dom().contains(user_index_key())
    &&& !s.texts.dom().contains(email_index_key())
    &&& !s.texts.dom().contains(user_key(id))
    &&& !s.texts.dom().contains(user_address_key(id))
}

/// Whether the name and the email address are in no index and the id is that of no user.
pub open spec fn is_free(s: Store, id: u64, name: Seq<char>, email: Seq<char>) -> bool {
    &&& s.field_at(user_index_key(), name) is None
    &&& s.field_at(email_index_key(), email) is None
    &&& !s.hashes.dom().contains(user_key(id))
    &&& !s.hashes.dom().contains(user_address_key(id))
}

/// What a registration leaves in the store: both index entries lead to the id, the
/// hash of the user holds the fields that were written and no others, the user has no
/// address, and the one-time key stands for the user for a day.
pub proof fn lemma_registration(
    s: Store,
    id: u64,
    name: Seq<char>,
    hash: Seq<char>,
    display_name: Seq<char>,
    email: Seq<char>,
    email_key: Seq<char>,
    secret: Seq<char>,
    instant: i64,
    now: int,
)
    requires
        hashes_in_place(s, id),
        is_free(s, id, name, email),
    ensures
        ({
            let created = run(
                s,
                simple_user_commands(
                    id,
                    name,
                    hash,
                    display_name,
                    email,
                    email_key,
                    secret,
                    instant,
                ),
                now,
            );
            &&& hashes_in_place(created, id)
            &&& created.field_at(user_index_key(), name) == Some(decimal(id as nat))
            &&& created.field_at(email_index_key(), email) == Some(decimal(id as nat))
            &&& created.hash_at(user_key(id)) == with_fields(
                Map::empty(),
                simple_user_fields(name, hash, display_name, email, secret, instant),
            )
            &&& !created.hashes.dom().contains(user_address_key(id))
            &&& forall|t: int|
                now <= t < now + crate::database::VERIFY_EMAIL_SECONDS ==> created.text_at(
                    verify_email_key(email_key),
                    t,
                ) == Some(decimal(id as nat))
        }),
{
    lemma_keys_apart(id, email_key);
    let items = simple_user_fields(name, hash, display_name, email, secret, instant);
    let c0 = CommandView::HSetNx { key: user_index_key(), field: name, value: decimal(id as nat) };
    let c1 = CommandView::HSetNx { key: email_index_key(), field: email, value: decimal(id as nat) };
    let c2 = CommandView::SetEx {
        key: verify_email_key(email_key),
        value: decimal(id as nat),
        seconds: crate::database::VERIFY_EMAIL_SECONDS,
    };
    let c3 = CommandView::HSetMultiple { key: user_key(id), items };
    let commands = simple_user_commands(
        id,
        name,
        hash,
        display_name,
        email,
        email_key,
        secret,
        instant,
    );
    assert(commands =~= Seq::empty().push(c0).push(c1).push(c2).push(c3));
    let e: Seq<CommandView> = Seq::empty();
    lemma_run_push(s, e, c0, now);
    lemma_run_push(s, e.push(c0), c1, now);
    lemma_run_push(s, e.push(c0).push(c1), c2, now);
    lemma_run_push(s, e.push(c0).push(c1).push(c2), c3, now);
    let s1 = step(s, c0, now).0;
    let s2 = step(s1, c1, now).0;
    let s3 = step(s2, c2, now).0;
    let s4 = step(s3, c3, now).0;
    assert(run(s, commands, now) == s4);
    lemma_insert_not_empty(s.hash_at(user_index_key()), name, decimal(id as nat));
    assert(s1.hash_at(user_index_key()) == s.hash_at(user_index_key()).insert(name, decimal(id as nat)));
    assert(s1.hash_at(email_index_key()) == s.hash_at(email_index_key()));
    lemma_insert_not_empty(s1.hash_at(email_index_key()), email, decimal(id as nat));
    assert(s2.hash_at(email_index_key()) == s1.hash_at(email_index_key()).insert(
        email,
        decimal(id as nat),
    ));
    assert(s2.hash_at(user_index_key()) == s1.hash_at(user_index_key()));
    assert(s3.hash_at(user_index_key()) == s2.hash_at(user_index_key()));
    assert(s3.hash_at(email_index_key()) == s2.hash_at(email_index_key()));
    assert(!s3.hashes.dom().contains(user_key(id)));
    assert(s3.text_at(user_key(id), now) is None);
    assert(items.len() == 18);
    assert(items.last() == ("banned"@, ""@));
    lemma_insert_not_empty(with_fields(Map::empty(), items.drop_last()), "banned"@, ""@);
    assert(s3.hash_at(user_key(id)) =~= Map::empty());
    assert(s4.hash_at(user_key(id)) == with_fields(Map::empty(), items));
    assert(s4.hash_at(user_index_key()) == s3.hash_at(user_index_key()));
    assert(s4.hash_at(email_index_key()) == s3.hash_at(email_index_key()));
}

/// The user that a registration stores.
pub open spec fn registered_user(
    id: u64,
    name: Seq<char>,
    hash: Seq<char>,
    display_name: Seq<char>,
    email: Seq<char>,
    secret: Seq<char>,
    instant: i64,
) -> UserView {
    UserView {
        user_id: id,
        username: name,
        password: hash,
        display_name,
        email: (email, false),
        first_name: None,
        last_name: None,
        authenticator_secret: secret,
        birthday: None,
        phone: None,
        image_url: None,
        address: None,
        enabled: true,
        registration_time: instant,
        last_activity: instant,
        banned: None,
    }
}

/// The texts "0" and "1" are the numerals of zero and one.
pub proof fn lemma_marks()
    ensures
        crate::text::parse_u8_spec("0"@) == Some(0u8),
        crate::text::parse_u8_spec("1"@) == Some(1u8),
        ""@.len() == 0,
{
    reveal_strlit("0");
    reveal_strlit("1");
    reveal_strlit("");
    assert("0"@ =~= decimal(0));
    assert("1"@ =~= decimal(1));
    lemma_parse_decimal(0);
    lemma_parse_decimal(1);
}

/// The fields that a registration writes are read back as the user that was registered.
#[verifier::rlimit(60)]
pub proof fn lemma_registered_fields_read(
    pairs: Pairs,
    id: u64,
    name: Seq<char>,
    hash: Seq<char>,
    display_name: Seq<char>,
    email: Seq<char>,
    secret: Seq<char>,
    instant: i64,
    now: i64,
)
    requires
        agrees(
            ReplyView::Fields(pairs),
            Answer::Fields(
                with_fields(
                    Map::empty(),
                    simple_user_fields(name, hash, display_name, email, secret, instant),
                ),
            ),
        ),
    ensures
        pairs.len() > 0,
        first_user_fault(pairs) is None,
        user_of(id, pairs, Seq::empty(), now) == registered_user(
            id,
            name,
            hash,
            display_name,
            email,
            secret,
            instant,
        ),
{
    let items = simple_user_fields(name, hash, display_name, email, secret, instant);
    let stored = with_fields(Map::empty(), items);
    lemma_simple_user_fields_distinct(name, hash, display_name, email, secret, instant);
    lemma_with_fields(Map::empty(), items);
    lemma_marks();
    crate::text::lemma_parse_signed_decimal(instant as int);
    reveal_strlit("username");
    reveal_strlit("password");
    reveal_strlit("display_name");
    reveal_strlit("first_name");
    reveal_strlit("first_name_confirmed");
    reveal_strlit("last_name");
    reveal_strlit("last_name_confirmed");
    reveal_strlit("email");
    reveal_strlit("email_confirmed");
    reveal_strlit("birthday_confirmed");
    reveal_strlit("authenticator_secret");
    reveal_strlit("address_confirmed");
    reveal_strlit("phone_confirmed");
    reveal_strlit("image_url");
    reveal_strlit("enabled");
    reveal_strlit("registration_time");
    reveal_strlit("last_activity");
    reveal_strlit("banned");
    reveal_strlit("birthday");
    reveal_strlit("phone");
    assert("username"@.len() == 8 && "username"@[0] == 'u');
    assert("password"@.len() == 8 && "password"@[0] == 'p');
    assert("display_name"@.len() == 12 && "display_name"@[0] == 'd');
    assert("first_name"@.len() == 10 && "first_name"@[0] == 'f');
    assert("first_name_confirmed"@.len() == 20 && "first_name_confirmed"@[0] == 'f');
    assert("last_name"@.len() == 9 && "last_name"@[0] == 'l');
    assert("last_name_confirmed"@.len() == 19 && "last_name_confirmed"@[0] == 'l');
    assert("email"@.len() == 5 && "email"@[0] == 'e');
    assert("email_confirmed"@.len() == 15 && "email_confirmed"@[0] == 'e');
    assert("birthday_confirmed"@.len() == 18 && "birthday_confirmed"@[0] == 'b');
    assert("authenticator_secret"@.len() == 20 && "authenticator_secret"@[0] == 'a');
    assert("address_confirmed"@.len() == 17 && "address_confirmed"@[0] == 'a');
    assert("phone_confirmed"@.len() == 15 && "phone_confirmed"@[0] == 'p');
    assert("image_url"@.len() == 9 && "image_url"@[0] == 'i');
    assert("enabled"@.len() == 7 && "enabled"@[0] == 'e');
    assert("registration_time"@.len() == 17 && "registration_time"@[0] == 'r');
    assert("last_activity"@.len() == 13 && "last_activity"@[0] == 'l');
    assert("banned"@.len() == 6 && "banned"@[0] == 'b');
    assert("birthday"@.len() == 8 && "birthday"@[0] == 'b');
    assert("phone"@.len() == 5 && "phone"@[0] == 'p');
    assert(items.len() == 18);
    assert forall|f: Seq<char>| #[trigger] stored.dom().contains(f) implies user_field_fault(
        f,
        stored[f],
    ) is None by {
        let i = choose|i: int| 0 <= i < items.len() && (#[trigger] items[i]).0 == f;
        assert(stored[items[i].0] == items[i].1);
    }
    lemma_faultless(pairs, stored, pairs.len() as int);
    assert(pairs.subrange(0, pairs.len() as int) =~= pairs);
    assert(stored.dom().contains(items[0].0));
    assert(last_value(pairs, items[0].0) is Some);
    assert(stored[items[0].0] == items[0].1);
    assert(stored[items[1].0] == items[1].1);
    assert(stored[items[2].0] == items[2].1);
    assert(stored[items[3].0] == items[3].1);
    assert(stored[items[5].0] == items[5].1);
    assert(stored[items[7].0] == items[7].1);
    assert(stored[items[8].0] == items[8].1);
    assert(stored[items[10].0] == items[10].1);
    assert(stored[items[13].0] == items[13].1);
    assert(stored[items[14].0] == items[14].1);
    assert(stored[items[15].0] == items[15].1);
    assert(stored[items[16].0] == items[16].1);
    assert(stored[items[17].0] == items[17].1);
    assert(!stored.dom().contains("birthday"@));
    assert(!stored.dom().contains("phone"@));
    let user = user_of(id, pairs, Seq::empty(), now);
    let expected = registered_user(id, name, hash, display_name, email, secret, instant);
    assert(user.username == expected.username);
    assert(user.password == expected.password);
    assert(user.display_name == expected.display_name);
    assert(user.email == expected.email);
    assert(user.first_name == expected.first_name);
    assert(user.last_name == expected.last_name);
    assert(user.authenticator_secret == expected.authenticator_secret);
    assert(user.birthday == expected.birthday);
    assert(user.phone == expected.phone);
    assert(user.image_url == expected.image_url);
    assert(user.address == expected.address);
    assert(user.enabled == expected.enabled);
    assert(user.registration_time == expected.registration_time);
    assert(user.last_activity == expected.last_activity);
    assert(user.banned == expected.banned);
}

/// The index and the record agree. After a registration, the lookup by name and the
/// lookup by email address both answer the id of the new user, and reading the user
/// with that id gives the user that was registered.
pub proof fn lemma_created_user_is_found(
    s: Store,
    id: u64,
    name: Seq<char>,
    hash: Seq<char>,
    display_name: Seq<char>,
    email: Seq<char>,
    email_key: Seq<char>,
    secret: Seq<char>,
    instant: i64,
    now: int,
    later: int,
    by_name: ReplyView,
    by_email: ReplyView,
    by_id: Seq<ReplyView>,
    read_at: i64,
)
    requires
        hashes_in_place(s, id),
        is_free(s, id, name, email),
        ({
            let created = run(
                s,
                simple_user_commands(
                    id,
                    name,
                    hash,
                    display_name,
                    email,
                    email_key,
                    secret,
                    instant,
                ),
                now,
            );
            &&& agrees(
                by_name,
                step(created, CommandView::HGet { key: user_index_key(), field: name }, later).1,
            )
            &&& agrees(
                by_email,
                step(created, CommandView::HGet { key: email_index_key(), field: email }, later).1,
            )
            &&& by_id.len() == 2
            &&& agrees(by_id[0], answer(created, get_user_commands(id), 0, later))
            &&& agrees(by_id[1], answer(created, get_user_commands(id), 1, later))
        }),
    ensures
        optional_id_of(by_name) == Some(Some(id)),
        optional_id_of(by_email) == Some(Some(id)),
        user_read(id, by_id, read_at) == Ok::<Option<UserView>, Error>(
            Some(registered_user(id, name, hash, display_name, email, secret, instant)),
        ),
{
    lemma_registration(s, id, name, hash, display_name, email, email_key, secret, instant, now);
    lemma_parse_decimal(id as nat);
    let created = run(
        s,
        simple_user_commands(id, name, hash, display_name, email, email_key, secret, instant),
        now,
    );
    let reads = get_user_commands(id);
    assert(reads.subrange(0, 0) =~= Seq::empty());
    assert(run(created, reads.subrange(0, 0), later) == created);
    let one = reads.subrange(0, 1);
    assert(one.drop_last() =~= Seq::empty());
    assert(one.last() == reads[0]);
    assert(run(created, one, later) == created);
    assert(created.text_at(user_key(id), later) is None);
    assert(created.text_at(user_address_key(id), later) is None);
    assert(created.hash_at(user_address_key(id)) =~= Map::empty());
    assert(reads[0] == CommandView::HGetAll { key: user_key(id) });
    assert(reads[1] == CommandView::HGetAll { key: user_address_key(id) });
    assert(answer(created, reads, 0, later) == Answer::Fields(created.hash_at(user_key(id))));
    assert(answer(created, reads, 1, later) == Answer::Fields(
        created.hash_at(user_address_key(id)),
    ));
    let data = by_id[0]->Fields_0;
    let address = by_id[1]->Fields_0;
    assert(by_id[0] is Fields);
    assert(by_id[1] is Fields);
    assert(by_id[0] == ReplyView::Fields(data));
    lemma_registered_fields_read(
        data,
        id,
        name,
        hash,
        display_name,
        email,
        secret,
        instant,
        read_at,
    );
    lemma_no_fields(address);
    assert(address =~= Seq::empty());
    assert(!address_fault(address));
}

/// A name is taken once. After a registration, the questions that come before another
/// registration under the same name in lower case are answered so that it is refused
/// with `UserExists`, whatever the email address.
pub proof fn lemma_name_is_taken(
    s: Store,
    id: u64,
    name: Seq<char>,
    hash: Seq<char>,
    display_name: Seq<char>,
    email: Seq<char>,
    email_key: Seq<char>,
    secret: Seq<char>,
    instant: i64,
    now: int,
    later: int,
    other_email: Seq<char>,
    replies: Seq<ReplyView>,
)
    requires
        hashes_in_place(s, id),
        is_free(s, id, name, email),
        ({
            let created = run(
                s,
                simple_user_commands(
                    id,
                    name,
                    hash,
                    display_name,
                    email,
                    email_key,
                    secret,
                    instant,
                ),
                now,
            );
            &&& replies.len() == 2
            &&& agrees(replies[0], answer(created, new_user_questions(name, other_email), 0, later))
            &&& agrees(replies[1], answer(created, new_user_questions(name, other_email), 1, later))
        }),
    ensures
        new_user_verdict(replies) == Err::<(), Error>(Error::UserExists),
{
    lemma_registration(s, id, name, hash, display_name, email, email_key, secret, instant, now);
    let created = run(
        s,
        simple_user_commands(id, name, hash, display_name, email, email_key, secret, instant),
        now,
    );
    let questions = new_user_questions(name, other_email);
    assert(questions.subrange(0, 0) =~= Seq::empty());
    assert(run(created, questions.subrange(0, 0), later) == created);
    let one = questions.subrange(0, 1);
    assert(one.drop_last() =~= Seq::empty());
    assert(one.last() == questions[0]);
    assert(run(created, one, later) == created);
    assert(created.text_at(user_index_key(), later) is None);
    assert(created.text_at(email_index_key(), later) is None);
    assert(flag_of(replies[0]) == Some(true));
    assert(flag_of(replies[1]) is Some);
}

/// Removing a key leaves nothing under it and touches no other key.
pub proof fn lemma_del(s: Store, key: Seq<char>, now: int)
    ensures
        ({
            let t = step(s, CommandView::Del { key }, now).0;
            &&& !t.hashes.dom().contains(key)
            &&& !t.texts.dom().contains(key)
            &&& forall|k: Seq<char>|
                k != key ==> (#[trigger] t.hashes.dom().contains(k)) == s.hashes.dom().contains(k)
            &&& forall|k: Seq<char>|
                k != key ==> (#[trigger] t.texts.dom().contains(k)) == s.texts.dom().contains(k)
            &&& forall|k: Seq<char>| k != key ==> #[trigger] t.hash_at(k) == s.hash_at(k)
            &&& forall|k: Seq<char>| !s.texts.dom().contains(k) ==> !(#[trigger] t.texts.dom().contains(k))
            &&& forall|k: Seq<char>| !s.hashes.dom().contains(k) ==> !(#[trigger] t.hashes.dom().contains(k))
        }),
{
}

/// Removing a field of a hash leaves the hash without it and touches no other key.
pub proof fn lemma_hdel(s: Store, key: Seq<char>, field: Seq<char>, now: int)
    requires
        !s.texts.dom().contains(key),
    ensures
        ({
            let t = step(s, CommandView::HDel { key, field }, now).0;
            &&& t.field_at(key, field) is None
            &&& forall|k: Seq<char>|
                k != key ==> (#[trigger] t.hashes.dom().contains(k)) == s.hashes.dom().contains(k)
            &&& forall|k: Seq<char>| k != key ==> #[trigger] t.hash_at(k) == s.hash_at(k)
            &&& forall|k: Seq<char>| !s.texts.dom().contains(k) ==> !(#[trigger] t.texts.dom().contains(k))
        }),
{
    let t = step(s, CommandView::HDel { key, field }, now).0;
    assert(s.text_at(key, now) is None);
    if s.field_at(key, field) is Some {
        let h = s.hash_at(key).remove(field);
        assert(!h.dom().contains(field));
        if h.dom().finite() && h.dom().len() == 0 {
            assert(t == s.without(key));
            assert(!t.hashes.dom().contains(key));
        } else {
            assert(t.hashes[key] == h);
        }
    }
}

/// What the removal of a user leaves in the store: no hash of the user, none of its
/// address, and no entry of its name or email address in the indices.
pub proof fn lemma_removal(s: Store, id: u64, name: Seq<char>, email: Seq<char>, now: int)
    requires
        hashes_in_place(s, id),
    ensures
        ({
            let removed = run(s, delete_user_commands(id, name, email), now);
            &&& hashes_in_place(removed, id)
            &&& !removed.hashes.dom().contains(user_key(id))
            &&& !removed.hashes.dom().contains(user_address_key(id))
            &&& removed.field_at(user_index_key(), name) is None
            &&& removed.field_at(email_index_key(), email) is None
        }),
{
    lemma_keys_apart(id, Seq::empty());
    let c0 = CommandView::Del { key: user_key(id) };
    let c1 = CommandView::Del { key: user_sign_keys_key(id) };
    let c2 = CommandView::Del { key: user_enc_keys_key(id) };
    let c3 = CommandView::Del { key: user_address_key(id) };
    let c4 = CommandView::HDel { key: user_index_key(), field: name };
    let c5 = CommandView::HDel { key: email_index_key(), field: email };
    let commands = delete_user_commands(id, name, email);
    let e: Seq<CommandView> = Seq::empty();
    assert(commands =~= e.push(c0).push(c1).push(c2).push(c3).push(c4).push(c5));
    lemma_run_push(s, e, c0, now);
    lemma_run_push(s, e.push(c0), c1, now);
    lemma_run_push(s, e.push(c0).push(c1), c2, now);
    lemma_run_push(s, e.push(c0).push(c1).push(c2), c3, now);
    lemma_run_push(s, e.push(c0).push(c1).push(c2).push(c3), c4, now);
    lemma_run_push(s, e.push(c0).push(c1).push(c2).push(c3).push(c4), c5, now);
    let s1 = step(s, c0, now).0;
    let s2 = step(s1, c1, now).0;
    let s3 = step(s2, c2, now).0;
    let s4 = step(s3, c3, now).0;
    let s5 = step(s4, c4, now).0;
    let s6 = step(s5, c5, now).0;
    assert(run(s, commands, now) == s6);
    lemma_del(s, user_key(id), now);
    lemma_del(s1, user_sign_keys_key(id), now);
    lemma_del(s2, user_enc_keys_key(id), now);
    lemma_del(s3, user_address_key(id), now);
    assert(!s4.hashes.dom().contains(user_key(id)));
    assert(!s4.hashes.dom().contains(user_address_key(id)));
    assert(hashes_in_place(s4, id));
    lemma_hdel(s4, user_index_key(), name, now);
    assert(hashes_in_place(s5, id));
    lemma_hdel(s5, email_index_key(), email, now);
    assert(s6.hash_at(user_index_key()) == s5.hash_at(user_index_key()));
    assert(s6.field_at(user_index_key(), name) is None);
}

/// A removed user is gone from the index and from the records. After the commands
/// that remove a user, the lookups by the user's name and email address answer
/// nothing, and reading the user with its id gives nothing.
pub proof fn lemma_deleted_user_is_gone(
    s: Store,
    id: u64,
    name: Seq<char>,
    email: Seq<char>,
    now: int,
    later: int,
    by_name: ReplyView,
    by_email: ReplyView,
    by_id: Seq<ReplyView>,
    read_at: i64,
)
    requires
        hashes_in_place(s, id),
        ({
            let removed = run(s, delete_user_commands(id, name, email), now);
            &&& agrees(
                by_name,
                step(removed, CommandView::HGet { key: user_index_key(), field: name }, later).1,
            )
            &&& agrees(
                by_email,
                step(removed, CommandView::HGet { key: email_index_key(), field: email }, later).1,
            )
            &&& by_id.len() == 2
            &&& agrees(by_id[0], answer(removed, get_user_commands(id), 0, later))
            &&& agrees(by_id[1], answer(removed, get_user_commands(id), 1, later))
        }),
    ensures
        optional_id_of(by_name) == Some(None::<u64>),
        optional_id_of(by_email) == Some(None::<u64>),
        user_read(id, by_id, read_at) == Ok::<Option<UserView>, Error>(None),
{
    lemma_removal(s, id, name, email, now);
    let removed = run(s, delete_user_commands(id, name, email), now);
    let reads = get_user_commands(id);
    assert(reads.subrange(0, 0) =~= Seq::empty());
    assert(run(removed, reads.subrange(0, 0), later) == removed);
    let one = reads.subrange(0, 1);
    assert(one.drop_last() =~= Seq::empty());
    assert(one.last() == reads[0]);
    assert(run(removed, one, later) == removed);
    assert(removed.text_at(user_key(id), later) is None);
    assert(removed.text_at(user_address_key(id), later) is None);
    assert(removed.text_at(user_index_key(), later) is None);
    assert(removed.text_at(email_index_key(), later) is None);
    assert(removed.hash_at(user_key(id)) =~= Map::empty());
    assert(removed.hash_at(user_address_key(id)) =~= Map::empty());
    assert(reads[0] == CommandView::HGetAll { key: user_key(id) });
    assert(reads[1] == CommandView::HGetAll { key: user_address_key(id) });
    assert(answer(removed, reads, 0, later) == Answer::Fields(removed.hash_at(user_key(id))));
    assert(answer(removed, reads, 1, later) == Answer::Fields(
        removed.hash_at(user_address_key(id)),
    ));
    assert(by_id[0] is Fields);
    assert(by_id[1] is Fields);
    lemma_no_fields(by_id[0]->Fields_0);
}

/// Running two lists of commands one after the other runs their concatenation.
pub proof fn lemma_run_concat(
    s: Store,
    first: Seq<CommandView>,
    second: Seq<CommandView>,
    now: int,
)
    ensures
        run(s, first + second, now) == run(run(s, first, now), second, now),
    decreases second.len(),
{
    if second.len() == 0 {
        assert(first + second =~= first);
    } else {
        lemma_run_concat(s, first, second.drop_last(), now);
        assert((first + second).drop_last() =~= first + second.drop_last());
        assert((first + second).last() == second.last());
    }
}

/// Moving the entry of an index leaves the new entry set and the old one gone.
pub proof fn lemma_move_entry(
    s: Store,
    index: Seq<char>,
    id: u64,
    old_field: Seq<char>,
    new_field: Seq<char>,
    now: int,
)
    requires
        !s.texts.dom().contains(index),
    ensures
        ({
            let moved = run(s, move_entry(index, id, old_field, new_field), now);
            &&& !moved.texts.dom().contains(index)
            &&& moved.field_at(index, new_field) == Some(decimal(id as nat))
            &&& old_field != new_field ==> moved.field_at(index, old_field) is None
            &&& forall|f: Seq<char>|
                f != old_field && f != new_field ==> moved.field_at(index, f) == s.field_at(index, f)
        }),
{
    let set = CommandView::HSet { key: index, field: new_field, value: decimal(id as nat) };
    let e: Seq<CommandView> = Seq::empty();
    lemma_run_push(s, e, set, now);
    let s1 = step(s, set, now).0;
    lemma_insert_not_empty(s.hash_at(index), new_field, decimal(id as nat));
    assert(s1.hash_at(index) == s.hash_at(index).insert(new_field, decimal(id as nat)));
    if old_field == new_field {
        assert(move_entry(index, id, old_field, new_field) =~= e.push(set));
    } else {
        let del = CommandView::HDel { key: index, field: old_field };
        assert(move_entry(index, id, old_field, new_field) =~= e.push(set).push(del));
        lemma_run_push(s, e.push(set), del, now);
        lemma_hdel(s1, index, old_field, now);
        let s2 = step(s1, del, now).0;
        assert(s1.text_at(index, now) is None);
        if s1.field_at(index, old_field) is Some {
            let h = s1.hash_at(index).remove(old_field);
            assert(h.dom().contains(new_field));
            if h.dom().finite() && h.dom().len() == 0 {
                h.dom().lemma_len0_is_empty();
                assert(false);
            }
            assert(s2.hash_at(index) == h);
        }
    }
}

/// The index follows a change of name. After the commands that give a user another
/// name, the lookup by the new name answers the user, and the lookup by the old
/// name, as the user held it, answers nothing unless it is the new name in lower case.
pub proof fn lemma_renamed_user_is_found(
    s: Store,
    id: u64,
    old_name: Seq<char>,
    new_name: Seq<char>,
    now: int,
    later: int,
    by_new: ReplyView,
    by_old: ReplyView,
)
    requires
        hashes_in_place(s, id),
        ({
            let renamed = run(s, rename_commands(id, old_name, new_name), now);
            &&& agrees(
                by_new,
                step(
                    renamed,
                    CommandView::HGet { key: user_index_key(), field: lowercase(new_name) },
                    later,
                ).1,
            )
            &&& agrees(
                by_old,
                step(
                    renamed,
                    CommandView::HGet { key: user_index_key(), field: old_name },
                    later,
                ).1,
            )
        }),
    ensures
        optional_id_of(by_new) == Some(Some(id)),
        old_name != lowercase(new_name) ==> optional_id_of(by_old) == Some(None::<u64>),
{
    lemma_keys_apart(id, Seq::empty());
    lemma_parse_decimal(id as nat);
    let write = CommandView::HSetMultiple {
        key: user_key(id),
        items: seq![("username"@, lowercase(new_name)), ("display_name"@, new_name)],
    };
    let e: Seq<CommandView> = Seq::empty();
    let entry = move_entry(user_index_key(), id, old_name, lowercase(new_name));
    assert(rename_commands(id, old_name, new_name) =~= e.push(write) + entry);
    lemma_run_concat(s, e.push(write), entry, now);
    lemma_run_push(s, e, write, now);
    let s1 = step(s, write, now).0;
    assert(!s1.texts.dom().contains(user_index_key()));
    lemma_move_entry(s1, user_index_key(), id, old_name, lowercase(new_name), now);
    let renamed = run(s1, entry, now);
    assert(renamed.text_at(user_index_key(), later) is None);
}

/// The index follows a change of email address. After the commands that give a user
/// another email address, the lookup by the new address answers the user, and the
/// lookup by the old address, as the user held it, answers nothing unless it is the
/// new address in lower case.
pub proof fn lemma_readdressed_user_is_found(
    s: Store,
    id: u64,
    old_email: Seq<char>,
    new_email: Seq<char>,
    now: int,
    later: int,
    by_new: ReplyView,
    by_old: ReplyView,
)
    requires
        hashes_in_place(s, id),
        ({
            let changed = run(s, readdress_commands(id, old_email, new_email), now);
            &&& agrees(
                by_new,
                step(
                    changed,
                    CommandView::HGet { key: email_index_key(), field: lowercase(new_email) },
                    later,
                ).1,
            )
            &&& agrees(
                by_old,
                step(
                    changed,
                    CommandView::HGet { key: email_index_key(), field: old_email },
                    later,
                ).1,
            )
        }),
    ensures
        optional_id_of(by_new) == Some(Some(id)),
        old_email != lowercase(new_email) ==> optional_id_of(by_old) == Some(
            None::<u64>,
        ),
{
    lemma_keys_apart(id, Seq::empty());
    lemma_parse_decimal(id as nat);
    let write = CommandView::HSetMultiple {
        key: user_key(id),
        items: crate::database::user::unconfirmed(
            "email"@,
            lowercase(new_email),
            "email_confirmed"@,
        ),
    };
    let e: Seq<CommandView> = Seq::empty();
    let entry = move_entry(email_index_key(), id, old_email, lowercase(new_email));
    assert(readdress_commands(id, old_email, new_email) =~= e.push(write) + entry);
    lemma_run_concat(s, e.push(write), entry, now);
    lemma_run_push(s, e, write, now);
    let s1 = step(s, write, now).0;
    assert(!s1.texts.dom().contains(email_index_key()));
    lemma_move_entry(s1, email_index_key(), id, old_email, lowercase(new_email), now);
    let changed = run(s1, entry, now);
    assert(changed.text_at(email_index_key(), later) is None);
}

/// Where every field of a hash is faultless for a client, so are the pairs that
/// answer for it.
pub proof fn lemma_client_faultless(pairs: Pairs, hash: Map<Seq<char>, Seq<char>>, k: int)
    requires
        agrees(ReplyView::Fields(pairs), Answer::Fields(hash)),
        forall|f: Seq<char>| #[trigger]
            hash.dom().contains(f) ==> client_field_fault(f, hash[f]) is None,
        0 <= k <= pairs.len(),
    ensures
        first_client_fault(pairs.subrange(0, k)) is None,
    decreases k,
{
    if k > 0 {
        lemma_client_faultless(pairs, hash, k - 1);
        let prefix = pairs.subrange(0, k);
        assert(prefix.drop_last() =~= pairs.subrange(0, k - 1));
        assert(prefix.last() == pairs[k - 1]);
        lemma_last_value_of_distinct(pairs, k - 1);
        assert(hash.dom().contains(pairs[k - 1].0));
    }
}

/// The client that the commands of a creation store.
pub open spec fn created_client(
    id: Seq<char>,
    name: Seq<char>,
    scopes: Seq<Scope>,
    secret: Seq<u8>,
    request_limit: u64,
) -> DeveloperClientView {
    DeveloperClientView {
        id,
        secret,
        name,
        scopes,
        request_count: 0,
        request_limit: request_limit as u32,
    }
}

/// The index and the record of a client agree. After the commands that store a new
/// client, the lookup by its name answers its id, and reading the client with that
/// id gives the client that was created, where base64 hands back the secret that it
/// was given.
#[verifier::rlimit(60)]
pub proof fn lemma_created_client_is_found(
    s: Store,
    id: Seq<char>,
    name: Seq<char>,
    scopes: Seq<Scope>,
    secret: Seq<u8>,
    request_limit: u64,
    now: int,
    later: int,
    by_name: ReplyView,
    by_id: ReplyView,
)
    requires
        !s.texts.dom().contains(client_index_key()),
        !s.texts.dom().contains(client_key(id)),
        !s.hashes.dom().contains(client_key(id)),
        s.field_at(client_index_key(), name) is None,
        secret.len() == crate::database::SECRET_LEN,
        request_limit <= u32::MAX,
        base64_bytes(base64_text(secret, false)) == Some(secret),
        ({
            let created = run(
                s,
                client_commands(id, name, client_fields(name, scopes, secret, request_limit)),
                now,
            );
            &&& agrees(
                by_name,
                step(created, CommandView::HGet { key: client_index_key(), field: name }, later).1,
            )
            &&& agrees(by_id, step(created, CommandView::HGetAll { key: client_key(id) }, later).1)
        }),
    ensures
        by_name == ReplyView::Text(id),
        by_id matches ReplyView::Fields(data) && data.len() > 0 && client_of(id, data) == Ok::<
            DeveloperClientView,
            Error,
        >(created_client(id, name, scopes, secret, request_limit)),
{
    reveal_strlit("clientkeys");
    reveal_strlit("clients:");
    reveal_strlit("name");
    reveal_strlit("scopes");
    reveal_strlit("secret");
    reveal_strlit("request_count");
    reveal_strlit("request_limit");
    assert("name"@.len() == 4);
    assert("scopes"@.len() == 6 && "scopes"@[1] == 'c');
    assert("secret"@.len() == 6 && "secret"@[1] == 'e');
    assert("request_count"@.len() == 13 && "request_count"@[8] == 'c');
    assert("request_limit"@.len() == 13 && "request_limit"@[8] == 'l');
    assert(client_key(id)[6] == 's');
    assert(client_index_key()[6] == 'k');
    let items = client_fields(name, scopes, secret, request_limit);
    let write = CommandView::HSetMultiple { key: client_key(id), items };
    let entry = CommandView::HSetNx { key: client_index_key(), field: name, value: id };
    let e: Seq<CommandView> = Seq::empty();
    assert(client_commands(id, name, items) =~= e.push(write).push(entry));
    lemma_run_push(s, e, write, now);
    lemma_run_push(s, e.push(write), entry, now);
    let s1 = step(s, write, now).0;
    let s2 = step(s1, entry, now).0;
    assert(items.len() == 5);
    lemma_insert_not_empty(
        with_fields(Map::empty(), items.drop_last()),
        items.last().0,
        items.last().1,
    );
    assert(s.hash_at(client_key(id)) =~= Map::empty());
    let stored = with_fields(Map::empty(), items);
    assert(s1.hash_at(client_key(id)) == stored);
    assert(s1.hash_at(client_index_key()) == s.hash_at(client_index_key()));
    lemma_insert_not_empty(s1.hash_at(client_index_key()), name, id);
    assert(s2.hash_at(client_index_key()) == s1.hash_at(client_index_key()).insert(name, id));
    assert(s2.hash_at(client_key(id)) == stored);
    assert(s2.text_at(client_index_key(), later) is None);
    assert(s2.text_at(client_key(id), later) is None);
    assert(distinct_keys(items));
    lemma_with_fields(Map::empty(), items);
    lemma_marks();
    lemma_parse_decimal(request_limit as nat);
    lemma_scopes_round_trip(scopes);
    let data = by_id->Fields_0;
    assert forall|f: Seq<char>| #[trigger] stored.dom().contains(f) implies client_field_fault(
        f,
        stored[f],
    ) is None by {
        let i = choose|i: int| 0 <= i < items.len() && (#[trigger] items[i]).0 == f;
        assert(stored[items[i].0] == items[i].1);
    }
    lemma_client_faultless(data, stored, data.len() as int);
    assert(data.subrange(0, data.len() as int) =~= data);
    assert(stored[items[0].0] == items[0].1);
    assert(stored[items[1].0] == items[1].1);
    assert(stored[items[2].0] == items[2].1);
    assert(stored[items[3].0] == items[3].1);
    assert(stored[items[4].0] == items[4].1);
    assert(last_value(data, items[0].0) is Some);
    assert(text_of(data, "scopes"@) == crate::v1::scope::scopes_text(scopes));
    assert(text_of(data, "secret"@) == base64_text(secret, false));
    assert(text_of(data, "name"@) == name);
}

/// A user that was just registered passes the check of the password it registered
/// with: where the hash that the registration stored is a hash of that password, the
/// check of the password against the password of the user that is read back says yes.
pub proof fn lemma_registered_password_is_accepted(
    s: Store,
    id: u64,
    name: Seq<char>,
    hash: Seq<char>,
    display_name: Seq<char>,
    email: Seq<char>,
    email_key: Seq<char>,
    secret: Seq<char>,
    instant: i64,
    now: int,
    later: int,
    by_id: Seq<ReplyView>,
    read_at: i64,
    password: Seq<char>,
)
    requires
        hashes_in_place(s, id),
        is_free(s, id, name, email),
        crate::secret::is_hash_of(hash, password),
        ({
            let created = run(
                s,
                simple_user_commands(
                    id,
                    name,
                    hash,
                    display_name,
                    email,
                    email_key,
                    secret,
                    instant,
                ),
                now,
            );
            &&& by_id.len() == 2
            &&& agrees(by_id[0], answer(created, get_user_commands(id), 0, later))
            &&& agrees(by_id[1], answer(created, get_user_commands(id), 1, later))
        }),
    ensures
        user_read(id, by_id, read_at) matches Ok(Some(user)) && crate::database::user::password_checked(
            password,
            user.password,
        ) == Ok::<bool, Error>(true),
{
    let created = run(
        s,
        simple_user_commands(id, name, hash, display_name, email, email_key, secret, instant),
        now,
    );
    let by_name = ReplyView::Text(decimal(id as nat));
    crate::secret::lemma_counts(hash, crate::secret::PASSWORD_ITERATIONS);
    lemma_registration(s, id, name, hash, display_name, email, email_key, secret, instant, now);
    assert(created.text_at(user_index_key(), later) is None);
    assert(created.text_at(email_index_key(), later) is None);
    lemma_created_user_is_found(
        s,
        id,
        name,
        hash,
        display_name,
        email,
        email_key,
        secret,
        instant,
        now,
        later,
        by_name,
        by_name,
        by_id,
        read_at,
    );
}

/// A user that was registered and then removed is gone: after the commands of a
/// registration and the commands that remove the user that was registered, the
/// lookups by the name and by the email address that were registered answer
/// nothing, and reading the user with its id gives nothing.
pub proof fn lemma_registered_user_is_removed(
    s: Store,
    id: u64,
    name: Seq<char>,
    hash: Seq<char>,
    display_name: Seq<char>,
    email: Seq<char>,
    email_key: Seq<char>,
    secret: Seq<char>,
    instant: i64,
    now: int,
    then: int,
    later: int,
    by_name: ReplyView,
    by_email: ReplyView,
    by_id: Seq<ReplyView>,
    read_at: i64,
)
    requires
        hashes_in_place(s, id),
        is_free(s, id, name, email),
        ({
            let user = registered_user(id, name, hash, display_name, email, secret, instant);
            let created = run(
                s,
                simple_user_commands(
                    id,
                    name,
                    hash,
                    display_name,
                    email,
                    email_key,
                    secret,
                    instant,
                ),
                now,
            );
            let removed = run(
                created,
                delete_user_commands(user.user_id, user.username, user.email.0),
                then,
            );
            &&& agrees(
                by_name,
                step(removed, CommandView::HGet { key: user_index_key(), field: name }, later).1,
            )
            &&& agrees(
                by_email,
                step(removed, CommandView::HGet { key: email_index_key(), field: email }, later).1,
            )
            &&& by_id.len() == 2
            &&& agrees(by_id[0], answer(removed, get_user_commands(id), 0, later))
            &&& agrees(by_id[1], answer(removed, get_user_commands(id), 1, later))
        }),
    ensures
        optional_id_of(by_name) == Some(None::<u64>),
        optional_id_of(by_email) == Some(None::<u64>),
        user_read(id, by_id, read_at) == Ok::<Option<UserView>, Error>(None),
{
    lemma_registration(s, id, name, hash, display_name, email, email_key, secret, instant, now);
    let created = run(
        s,
        simple_user_commands(id, name, hash, display_name, email, email_key, secret, instant),
        now,
    );
    lemma_deleted_user_is_gone(
        created,
        id,
        name,
        email,
        then,
        later,
        by_name,
        by_email,
        by_id,
        read_at,
    );
}

} // verus!
