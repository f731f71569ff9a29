//! Scopes, and the text in which a list of scopes travels inside a token.
//!
//! The text is a JSON array. `Admin` and `Public` are written as strings, and the
//! scope of a user as `{"variant":"User","fields":[7]}`. Nothing but the exact text
//! that the writer gives is read back.

use vstd::prelude::*;
use vstd::string::*;
use vstd::utf8::is_ascii_chars;
use crate::text::{
    all_digits, decimal, digit_value, digits_value, has_prefix, is_digit, lemma_decimal_digits,
    lemma_decimal_value, parse_bounded, parse_unsigned, push_decimal,
};

verus! {

/// What a token allows.
#[derive(Clone, Copy, Debug, PartialEq, Eq, Structural)]
pub enum Scope {
    /// Everything.
    Admin,
    /// What needs no user: registration, login, password reset.
    Public,
    /// What belongs to the user with the id.
    User(u64),
}

/// How a token is presented.
#[derive(Clone, Copy, Debug, PartialEq, Eq, Structural)]
pub enum TokenType {
    /// As a bearer credential.
    Bearer,
}

impl TokenType {
    /// The name of the token type.
    pub open spec fn name(self) -> Seq<char> {
        "Bearer"@
    }

    /// The name of the token type.
    pub fn as_str(&self) -> (text: &'static str)
        ensures
            text@ == self.name(),
    {
        "Bearer"
    }
}

/// The text of `Admin`.
pub open spec fn admin_text() -> Seq<char> {
    "\"Admin\""@
}

/// The text of `Public`.
pub open spec fn public_text() -> Seq<char> {
    "\"Public\""@
}

/// What comes before the id in the text of a user's scope.
pub open spec fn user_open() -> Seq<char> {
    "{\"variant\":\"User\",\"fields\":["@
}

/// What comes after the id in the text of a user's scope.
pub open spec fn user_close() -> Seq<char> {
    "]}"@
}

/// The text of one scope.
pub open spec fn scope_text(scope: Scope) -> Seq<char> {
    match scope {
        Scope::Admin => admin_text(),
        Scope::Public => public_text(),
        Scope::User(id) => user_open() + decimal(id as nat) + user_close(),
    }
}

/// The texts of the scopes, with a comma between each two.
pub open spec fn scopes_body(scopes: Seq<Scope>) -> Seq<char>
    decreases scopes.len(),
{
    if scopes.len() == 0 {
        Seq::empty()
    } else if scopes.len() == 1 {
        scope_text(scopes[0])
    } else {
        scope_text(scopes[0]) + seq![','] + scopes_body(scopes.drop_first())
    }
}

/// The text of a list of scopes.
pub open spec fn scopes_text(scopes: Seq<Scope>) -> Seq<char> {
    seq!['['] + scopes_body(scopes) + seq![']']
}

/// How many digits `text` begins with.
pub open spec fn digit_run(text: Seq<char>) -> nat
    decreases text.len(),
{
    if text.len() > 0 && is_digit(text[0]) {
        1 + digit_run(text.skip(1))
    } else {
        0
    }
}

/// Whether digits are the numeral of a number: there is one at least, and no zero
/// leads the others.
pub open spec fn is_numeral(digits: Seq<char>) -> bool {
    digits.len() == 1 || (digits.len() > 1 && digits[0] != '0')
}

/// The scope that `text` begins with, and how many characters its text takes.
pub open spec fn parse_scope(text: Seq<char>) -> Option<(Scope, nat)> {
    if has_prefix(text, admin_text()) {
        Some((Scope::Admin, admin_text().len()))
    } else if has_prefix(text, public_text()) {
        Some((Scope::Public, public_text().len()))
    } else if has_prefix(text, user_open()) {
        let after = text.skip(user_open().len() as int);
        let count = digit_run(after);
        let digits = after.take(count as int);
        if is_numeral(digits) && digits_value(digits) <= u64::MAX && has_prefix(
            after.skip(count as int),
            user_close(),
        ) {
            Some(
                (
                    Scope::User(digits_value(digits) as u64),
                    user_open().len() + count + user_close().len(),
                ),
            )
        } else {
            None
        }
    } else {
        None
    }
}

/// The scopes that `text` lists up to the bracket that closes the list, which ends `text`.
pub open spec fn parse_items(text: Seq<char>) -> Option<Seq<Scope>>
    decreases text.len(),
{
    match parse_scope(text) {
        Some((scope, used)) => {
            let rest = text.skip(used as int);
            if used == 0 || used > text.len() {
                None
            } else if rest == seq![']'] {
                Some(seq![scope])
            } else if rest.len() > 0 && rest[0] == ',' {
                match parse_items(rest.skip(1)) {
                    Some(more) => Some(seq![scope] + more),
                    None => None,
                }
            } else {
                None
            }
        },
        None => None,
    }
}

/// The scopes that `text` lists, or nothing where `text` is not the text of a list of scopes.
pub open spec fn parse_scopes(text: Seq<char>) -> Option<Seq<Scope>> {
    if text == seq!['[', ']'] {
        Some(Seq::empty())
    } else if text.len() > 0 && text[0] == '[' {
        parse_items(text.skip(1))
    } else {
        None
    }
}

/// Writes the text of one scope at the end of `text`.
pub fn push_scope(text: &mut String, scope: &Scope)
    ensures
        final(text)@ == old(text)@ + scope_text(*scope),
{
    match scope {
        Scope::Admin => {
            text.append("\"Admin\"");
        },
        Scope::Public => {
            text.append("\"Public\"");
        },
        Scope::User(id) => {
            text.append("{\"variant\":\"User\",\"fields\":[");
            push_decimal(text, *id);
            text.append("]}");
            assert(text@ =~= old(text)@ + scope_text(*scope));
        },
    }
}

/// The text of a list of scopes.
pub fn scopes_to_text(scopes: &Vec<Scope>) -> (text: String)
    ensures
        text@ == scopes_text(scopes@),
{
    let mut text = String::from_str("[");
    proof {
        reveal_strlit("[");
        reveal_strlit("]");
        reveal_strlit(",");
    }
    let n = scopes.len();
    let mut i: usize = n;
    let mut body = String::new();
    // The text is built from the last scope to the first, as the body is defined.
    while i > 0
        invariant
            0 <= i <= n,
            n == scopes@.len(),
            body@ == scopes_body(scopes@.skip(i as int)),
        decreases i,
    {
        i -= 1;
        let mut item = String::new();
        push_scope(&mut item, &scopes[i]);
        let ghost tail = scopes@.skip(i as int);
        proof {
            assert(tail[0] == scopes@[i as int]);
            assert(tail.drop_first() =~= scopes@.skip(i + 1));
            reveal_strlit(",");
        }
        if i + 1 < n {
            item.append(",");
            item.append(body.as_str());
            assert(item@ =~= scope_text(tail[0]) + seq![','] + scopes_body(tail.drop_first()));
        } else {
            assert(tail.len() == 1);
            assert(item@ =~= scope_text(tail[0]));
        }
        body = item;
    }
    assert(scopes@.skip(0) =~= scopes@);
    text.append(body.as_str());
    text.append("]");
    assert(text@ =~= scopes_text(scopes@));
    text
}

/// Whether `literal` stands in `text` from the position `pos` on.
pub fn literal_at(text: &str, pos: usize, literal: &str) -> (r: bool)
    requires
        text.is_ascii(),
        literal.is_ascii(),
        pos <= text@.len(),
    ensures
        r == has_prefix(text@.skip(pos as int), literal@),
{
    proof {
        is_ascii_spec_bytes(text);
        is_ascii_spec_bytes(literal);
    }
    let n = text.as_bytes().len();
    let m = literal.as_bytes().len();
    let ghost rest = text@.skip(pos as int);
    if n - pos < m {
        return false;
    }
    let mut i: usize = 0;
    while i < m
        invariant
            0 <= i <= m,
            text.is_ascii(),
            literal.is_ascii(),
            n == text@.len(),
            m == literal@.len(),
            pos + m <= n,
            rest == text@.skip(pos as int),
            forall|j: int| 0 <= j < i ==> rest[j] == literal@[j],
        decreases m - i,
    {
        let a = text.get_ascii(pos + i);
        let b = literal.get_ascii(i);
        assert(rest[i as int] == text@[pos + i]);
        if a != b {
            assert(rest.subrange(0, m as int)[i as int] != literal@[i as int]);
            return false;
        }
        i += 1;
    }
    assert(rest.subrange(0, m as int) =~= literal@);
    true
}

/// Reads the scope that stands in `text` at the position `pos`, and tells how many
/// characters its text takes.
pub fn scope_at(text: &str, pos: usize) -> (r: Option<(Scope, usize)>)
    requires
        text.is_ascii(),
        pos <= text@.len(),
    ensures
        match r {
            Some((scope, used)) => parse_scope(text@.skip(pos as int)) == Some((scope, used as nat))
                && pos + used <= text@.len() && used > 0,
            None => parse_scope(text@.skip(pos as int)) is None,
        },
{
    proof {
        is_ascii_spec_bytes(text);
        reveal_strlit("\"Admin\"");
        reveal_strlit("\"Public\"");
        reveal_strlit("{\"variant\":\"User\",\"fields\":[");
        reveal_strlit("]}");
    }
    let n = text.as_bytes().len();
    let ghost rest = text@.skip(pos as int);
    if literal_at(text, pos, "\"Admin\"") {
        return Some((Scope::Admin, 7));
    }
    if literal_at(text, pos, "\"Public\"") {
        return Some((Scope::Public, 8));
    }
    if !literal_at(text, pos, "{\"variant\":\"User\",\"fields\":[") {
        return None;
    }
    let start: usize = pos + 28;
    let ghost after = rest.skip(28);
    assert(after =~= text@.skip(start as int));
    let mut j: usize = start;
    assert(after.skip(0) =~= after);
    assert(after.take(0) =~= Seq::<char>::empty());
    while j < n && is_digit_byte(text.get_ascii(j))
        invariant
            start <= j <= n,
            n == text@.len(),
            text.is_ascii(),
            after == text@.skip(start as int),
            digit_run(after) == (j - start) + digit_run(after.skip(j - start)),
            all_digits(after.take(j - start)),
        decreases n - j,
    {
        proof {
            let tail = after.skip(j - start);
            assert(tail[0] == text@[j as int]);
            assert(tail.skip(1) =~= after.skip(j - start + 1));
            let longer = after.take(j - start + 1);
            assert forall|k: int| 0 <= k < longer.len() implies is_digit(#[trigger] longer[k]) by {
                if k < j - start {
                    assert(longer[k] == after.take(j - start)[k]);
                } else {
                    assert(longer[k] == text@[j as int]);
                }
            }
        }
        j += 1;
    }
    let count: usize = j - start;
    let ghost digits = after.take(count as int);
    proof {
        let tail = after.skip(count as int);
        if j < n {
            assert(tail[0] == text@[j as int]);
        } else {
            assert(tail.len() == 0);
        }
        assert(digit_run(tail) == 0);
        assert(digit_run(after) == count);
    }
    if count == 0 {
        return None;
    }
    assert(digits[0] == text@[start as int]);
    if count > 1 && text.get_ascii(start) == 48u8 {
        return None;
    }
    let numeral = text.substring_ascii(start, j);
    assert(numeral@ =~= digits);
    assert(is_digit(digits[0]));
    let id = match parse_bounded(numeral, u64::MAX) {
        Some(id) => id,
        None => {
            return None;
        },
    };
    assert(after.skip(count as int) =~= text@.skip(j as int));
    if !literal_at(text, j, "]}") {
        return None;
    }
    Some((Scope::User(id), 28 + count + 2))
}

/// Whether the byte writes a decimal digit.
pub fn is_digit_byte(b: u8) -> (r: bool)
    ensures
        r == (48 <= b <= 57),
{
    48 <= b && b <= 57
}

/// The scopes that an ASCII `text` lists, or nothing where `text` is not the text of
/// a list of scopes.
pub open spec fn scopes_of_text(text: Seq<char>) -> Option<Seq<Scope>> {
    if is_ascii_chars(text) {
        parse_scopes(text)
    } else {
        None
    }
}

/// The scopes `first` followed by those that `rest` found, if it found any.
pub open spec fn followed_by(first: Seq<Scope>, rest: Option<Seq<Scope>>) -> Option<Seq<Scope>> {
    match rest {
        Some(more) => Some(first + more),
        None => None,
    }
}

/// Reads the text of a list of scopes.
pub fn scopes_from_text(text: &str) -> (r: Option<Vec<Scope>>)
    ensures
        match r {
            Some(scopes) => scopes_of_text(text@) == Some(scopes@),
            None => scopes_of_text(text@) is None,
        },
{
    if !text.is_ascii() {
        return None;
    }
    proof {
        is_ascii_spec_bytes(text);
    }
    let n = text.as_bytes().len();
    let mut scopes: Vec<Scope> = Vec::new();
    if n == 0 || text.get_ascii(0) != 91u8 {
        return None;
    }
    if n == 2 && text.get_ascii(1) == 93u8 {
        assert(text@ =~= seq!['[', ']']);
        return Some(scopes);
    }
    assert(text@ != seq!['[', ']']) by {
        if text@ == seq!['[', ']'] {
            assert(text@[1] == ']');
        }
    }
    let ghost body = text@.skip(1);
    let mut pos: usize = 1;
    assert(followed_by(scopes@, parse_items(body)) == parse_items(body)) by {
        match parse_items(body) {
            Some(more) => {
                assert(scopes@ + more =~= more);
            },
            None => {},
        }
    }
    loop
        invariant
            1 <= pos <= n,
            n == text@.len(),
            text.is_ascii(),
            body == text@.skip(1),
            text@[0] == '[',
            text@ != seq!['[', ']'],
            parse_items(body) == followed_by(scopes@, parse_items(text@.skip(pos as int))),
        decreases n - pos,
    {
        let ghost rest = text@.skip(pos as int);
        let ghost before = scopes@;
        match scope_at(text, pos) {
            None => {
                return None;
            },
            Some((scope, used)) => {
                let next = pos + used;
                let ghost tail = rest.skip(used as int);
                assert(tail =~= text@.skip(next as int));
                scopes.push(scope);
                if next < n && n - next == 1 && text.get_ascii(next) == 93u8 {
                    assert(tail =~= seq![']']);
                    assert(before + seq![scope] =~= scopes@);
                    return Some(scopes);
                }
                assert(tail != seq![']']) by {
                    if tail == seq![']'] {
                        assert(tail.len() == 1);
                        assert(tail[0] == text@[next as int]);
                    }
                }
                if next >= n || text.get_ascii(next) != 44u8 {
                    proof {
                        if next < n {
                            assert(tail[0] == text@[next as int]);
                        }
                    }
                    return None;
                }
                assert(tail[0] == text@[next as int]);
                assert(tail.skip(1) =~= text@.skip(next + 1));
                proof {
                    match parse_items(tail.skip(1)) {
                        Some(more) => {
                            assert(before + (seq![scope] + more) =~= scopes@ + more);
                        },
                        None => {},
                    }
                }
                pos = next + 1;
            },
        }
    }
}

/// The numeral of a number has no zero that leads other digits.
pub proof fn lemma_decimal_numeral(n: nat)
    ensures
        is_numeral(decimal(n)),
        n >= 10 ==> decimal(n).len() > 1,
    decreases n,
{
    if n >= 10 {
        lemma_decimal_numeral(n / 10);
        lemma_decimal_digits(n / 10);
        let shorter = decimal(n / 10);
        assert(decimal(n)[0] == shorter[0]);
        if shorter.len() == 1 {
            assert(n / 10 >= 1);
            assert(shorter[0] != '0');
        }
    }
}

/// Digits followed by something that begins with no digit are a run of just these digits.
pub proof fn lemma_digit_run(digits: Seq<char>, rest: Seq<char>)
    requires
        all_digits(digits),
        rest.len() == 0 || !is_digit(rest[0]),
    ensures
        digit_run(digits + rest) == digits.len(),
    decreases digits.len(),
{
    let text = digits + rest;
    if digits.len() == 0 {
        assert(text =~= rest);
    } else {
        assert(text[0] == digits[0]);
        assert(is_digit(digits[0]));
        let shorter = digits.skip(1);
        assert forall|i: int| 0 <= i < shorter.len() implies is_digit(#[trigger] shorter[i]) by {
            assert(shorter[i] == digits[i + 1]);
        }
        assert(text.skip(1) =~= shorter + rest);
        lemma_digit_run(shorter, rest);
    }
}

/// The text of a scope is ASCII.
pub proof fn lemma_scope_text_ascii(scope: Scope)
    ensures
        is_ascii_chars(scope_text(scope)),
        scope_text(scope).len() >= 7,
{
    reveal_strlit("\"Admin\"");
    reveal_strlit("\"Public\"");
    reveal_strlit("{\"variant\":\"User\",\"fields\":[");
    reveal_strlit("]}");
    match scope {
        Scope::User(id) => {
            lemma_decimal_digits(id as nat);
            let text = scope_text(scope);
            let numeral = decimal(id as nat);
            assert forall|i: int| 0 <= i < text.len() implies '\0' <= #[trigger] text[i]
                <= '\u{7f}' by {
                if i < 28 {
                    assert(text[i] == user_open()[i]);
                } else if i < 28 + numeral.len() {
                    assert(text[i] == numeral[i - 28]);
                    assert(is_digit(numeral[i - 28]));
                } else {
                    assert(text[i] == user_close()[i - 28 - numeral.len()]);
                }
            }
        },
        _ => {},
    }
}

/// The text of a scope, whatever follows it, is read as that scope.
pub proof fn lemma_parse_scope(scope: Scope, tail: Seq<char>)
    ensures
        parse_scope(scope_text(scope) + tail) == Some((scope, scope_text(scope).len())),
{
    reveal_strlit("\"Admin\"");
    reveal_strlit("\"Public\"");
    reveal_strlit("{\"variant\":\"User\",\"fields\":[");
    reveal_strlit("]}");
    let text = scope_text(scope) + tail;
    match scope {
        Scope::Admin => {
            assert(text.subrange(0, 7) =~= admin_text());
        },
        Scope::Public => {
            assert(text.subrange(0, 8) =~= public_text());
            assert(text[1] == 'P');
            assert(text.subrange(0, 7)[1] == 'P');
            assert(admin_text()[1] == 'A');
        },
        Scope::User(id) => {
            let numeral = decimal(id as nat);
            lemma_decimal_digits(id as nat);
            lemma_decimal_value(id as nat);
            lemma_decimal_numeral(id as nat);
            assert(text[0] == '{');
            assert(text.subrange(0, 7)[0] == '{');
            assert(text.subrange(0, 8)[0] == '{');
            assert(admin_text()[0] == '"');
            assert(public_text()[0] == '"');
            assert(text.subrange(0, 28) =~= user_open());
            let after = text.skip(28);
            let rest = user_close() + tail;
            assert(after =~= numeral + rest);
            assert(rest[0] == ']');
            lemma_digit_run(numeral, rest);
            assert(after.take(numeral.len() as int) =~= numeral);
            assert(after.skip(numeral.len() as int) =~= rest);
            assert(rest.subrange(0, 2) =~= user_close());
        },
    }
}

/// The body of a list of scopes, closed by its bracket, is read as the list.
pub proof fn lemma_parse_items(scopes: Seq<Scope>)
    requires
        scopes.len() > 0,
    ensures
        parse_items(scopes_body(scopes) + seq![']']) == Some(scopes),
    decreases scopes.len(),
{
    let first = scopes[0];
    lemma_scope_text_ascii(first);
    let used = scope_text(first).len();
    if scopes.len() == 1 {
        let text = scope_text(first) + seq![']'];
        lemma_parse_scope(first, seq![']']);
        assert(text.skip(used as int) =~= seq![']']);
        assert(seq![first] =~= scopes);
    } else {
        let others = scopes.drop_first();
        let tail = seq![','] + scopes_body(others) + seq![']'];
        let text = scopes_body(scopes) + seq![']'];
        assert(text =~= scope_text(first) + tail);
        lemma_parse_scope(first, tail);
        let rest = text.skip(used as int);
        assert(rest =~= tail);
        assert(rest[0] == ',');
        assert(rest != seq![']']) by {
            if rest == seq![']'] {
                assert(rest[0] == ']');
            }
        }
        assert(rest.skip(1) =~= scopes_body(others) + seq![']']);
        lemma_parse_items(others);
        assert(seq![first] + others =~= scopes);
    }
}

/// The body of a list of scopes is ASCII.
pub proof fn lemma_scopes_body_ascii(scopes: Seq<Scope>)
    ensures
        is_ascii_chars(scopes_body(scopes)),
        scopes.len() > 0 ==> scopes_body(scopes).len() >= 7,
    decreases scopes.len(),
{
    if scopes.len() == 1 {
        lemma_scope_text_ascii(scopes[0]);
    } else if scopes.len() > 1 {
        lemma_scope_text_ascii(scopes[0]);
        lemma_scopes_body_ascii(scopes.drop_first());
        let a = scope_text(scopes[0]);
        let b = scopes_body(scopes.drop_first());
        let text = scopes_body(scopes);
        assert forall|i: int| 0 <= i < text.len() implies '\0' <= #[trigger] text[i]
            <= '\u{7f}' by {
            if i < a.len() {
                assert(text[i] == a[i]);
            } else if i == a.len() {
                assert(text[i] == ',');
            } else {
                assert(text[i] == b[i - a.len() - 1]);
            }
        }
    }
}

/// Reading the text of a list of scopes gives the list back.
pub proof fn lemma_scopes_round_trip(scopes: Seq<Scope>)
    ensures
        scopes_of_text(scopes_text(scopes)) == Some(scopes),
{
    let text = scopes_text(scopes);
    let body = scopes_body(scopes);
    lemma_scopes_body_ascii(scopes);
    assert(is_ascii_chars(text)) by {
        assert forall|i: int| 0 <= i < text.len() implies '\0' <= #[trigger] text[i]
            <= '\u{7f}' by {
            if i == 0 {
                assert(text[i] == '[');
            } else if i <= body.len() {
                assert(text[i] == body[i - 1]);
            } else {
                assert(text[i] == ']');
            }
        }
    }
    if scopes.len() == 0 {
        assert(text =~= seq!['[', ']']);
        assert(scopes =~= Seq::empty());
    } else {
        assert(text.len() >= 9);
        assert(text[0] == '[');
        assert(text.skip(1) =~= body + seq![']']);
        lemma_parse_items(scopes);
    }
}

/// Digits that are the numeral of a number are the decimal numeral of their value.
pub proof fn lemma_numeral_is_decimal(digits: Seq<char>)
    requires
        all_digits(digits),
        is_numeral(digits),
    ensures
        decimal(digits_value(digits)) == digits,
        digits.len() > 1 ==> digits_value(digits) >= 10,
    decreases digits.len(),
{
    let last = digits.last();
    let shorter = digits.drop_last();
    assert(is_digit(digits[digits.len() - 1]));
    if digits.len() == 1 {
        assert(shorter.len() == 0);
        assert(digits_value(shorter) == 0);
        assert(digits_value(digits) == digit_value(last));
        assert(decimal(digits_value(digits)) =~= digits);
    } else {
        assert forall|i: int| 0 <= i < shorter.len() implies is_digit(#[trigger] shorter[i]) by {
            assert(shorter[i] == digits[i]);
        }
        assert(shorter[0] == digits[0]);
        lemma_numeral_is_decimal(shorter);
        let v = digits_value(shorter);
        if shorter.len() == 1 {
            assert(shorter.drop_last().len() == 0);
            assert(digits_value(shorter.drop_last()) == 0);
            assert(v == digit_value(shorter[0]));
            assert(is_digit(shorter[0]));
            assert(v >= 1);
        }
        let n = digits_value(digits);
        assert(n == v * 10 + digit_value(last));
        assert(n / 10 == v && n % 10 == digit_value(last));
        assert(decimal(n) =~= decimal(v).push(last));
        assert(shorter.push(last) =~= digits);
    }
}

/// The digits that a text begins with are digits.
pub proof fn lemma_digit_run_digits(text: Seq<char>)
    ensures
        digit_run(text) <= text.len(),
        all_digits(text.take(digit_run(text) as int)),
    decreases text.len(),
{
    if text.len() > 0 && is_digit(text[0]) {
        lemma_digit_run_digits(text.skip(1));
        let run = text.take(digit_run(text) as int);
        let rest = text.skip(1).take(digit_run(text.skip(1)) as int);
        assert forall|i: int| 0 <= i < run.len() implies is_digit(#[trigger] run[i]) by {
            if i > 0 {
                assert(run[i] == rest[i - 1]);
            }
        }
    }
}

/// What is read as a scope is the text of that scope.
pub proof fn lemma_parsed_scope(text: Seq<char>)
    requires
        parse_scope(text) is Some,
    ensures
        ({
            let (scope, used) = parse_scope(text)->0;
            used <= text.len() && used > 0 && text.take(used as int) == scope_text(scope)
        }),
{
    reveal_strlit("\"Admin\"");
    reveal_strlit("\"Public\"");
    reveal_strlit("{\"variant\":\"User\",\"fields\":[");
    reveal_strlit("]}");
    if has_prefix(text, admin_text()) {
        assert(text.take(7) =~= text.subrange(0, 7));
    } else if has_prefix(text, public_text()) {
        assert(text.take(8) =~= text.subrange(0, 8));
    } else {
        let after = text.skip(28);
        let count = digit_run(after);
        lemma_digit_run_digits(after);
        let digits = after.take(count as int);
        lemma_numeral_is_decimal(digits);
        let rest = after.skip(count as int);
        let used = 28 + count + 2;
        assert(text.take(used as int) =~= text.subrange(0, 28) + digits + rest.subrange(0, 2));
    }
}

/// What is read as the items of a list is the body of the list with its bracket.
pub proof fn lemma_parsed_items(text: Seq<char>)
    requires
        parse_items(text) is Some,
    ensures
        parse_items(text)->0.len() > 0,
        text == scopes_body(parse_items(text)->0) + seq![']'],
    decreases text.len(),
{
    lemma_parsed_scope(text);
    let (scope, used) = parse_scope(text)->0;
    let rest = text.skip(used as int);
    assert(text =~= text.take(used as int) + rest);
    if rest == seq![']'] {
        assert(scopes_body(seq![scope]) == scope_text(scope));
    } else {
        lemma_parsed_items(rest.skip(1));
        let more = parse_items(rest.skip(1))->0;
        let all = seq![scope] + more;
        assert(all.drop_first() =~= more);
        assert(all[0] == scope);
        assert(rest =~= seq![','] + rest.skip(1));
        assert(text =~= scope_text(scope) + seq![','] + scopes_body(more) + seq![']']);
    }
}

/// Only the text of a list of scopes is read as that list: what is read from a text
/// is the one list that is written as that text.
pub proof fn lemma_scopes_exact(text: Seq<char>, scopes: Seq<Scope>)
    ensures
        scopes_of_text(text) == Some(scopes) <==> text == scopes_text(scopes),
{
    if text == scopes_text(scopes) {
        lemma_scopes_round_trip(scopes);
    }
    if scopes_of_text(text) == Some(scopes) {
        if text == seq!['[', ']'] {
            assert(scopes_body(scopes) =~= Seq::empty());
            assert(text =~= scopes_text(scopes));
        } else {
            lemma_parsed_items(text.skip(1));
            assert(text =~= seq!['['] + text.skip(1));
            assert(text =~= scopes_text(scopes));
        }
    }
}

} // verus!
