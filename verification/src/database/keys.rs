//! The names under which the store keeps its values.

use vstd::prelude::*;
use vstd::string::*;
use crate::text::{decimal, push_decimal};

verus! {

/// The counter from which user ids are drawn.
pub open spec fn next_user_id_key() -> Seq<char> {
    "next_user_id"@
}

/// The counter from which client ids are drawn.
pub open spec fn next_client_id_key() -> Seq<char> {
    "next_client_id"@
}

/// The counter from which transaction ids are drawn.
pub open spec fn next_transaction_id_key() -> Seq<char> {
    "next_transaction_id"@
}

/// The index from lower-case user names to user ids.
pub open spec fn user_index_key() -> Seq<char> {
    "userkeys"@
}

/// The index from lower-case email addresses to user ids.
pub open spec fn email_index_key() -> Seq<char> {
    "emailkeys"@
}

/// The index from client names to the numbers of their ids.
pub open spec fn client_index_key() -> Seq<char> {
    "clientkeys"@
}

/// The hash of the user with the id.
pub open spec fn user_key(id: u64) -> Seq<char> {
    "users:"@ + decimal(id as nat)
}

/// The hash of the address of the user with the id.
pub open spec fn user_address_key(id: u64) -> Seq<char> {
    user_key(id) + ":addr"@
}

/// The signing keys of the user with the id.
pub open spec fn user_sign_keys_key(id: u64) -> Seq<char> {
    user_key(id) + ":sign_keys"@
}

/// The encryption keys of the user with the id.
pub open spec fn user_enc_keys_key(id: u64) -> Seq<char> {
    user_key(id) + ":enc_keys"@
}

/// The hash of the client with the id.
pub open spec fn client_key(id: Seq<char>) -> Seq<char> {
    "clients:"@ + id
}

/// The mark of a barcode of the client whose id has the number.
pub open spec fn client_barcode_key(id: u64, barcode: Seq<char>) -> Seq<char> {
    "clients:"@ + decimal(id as nat) + ":barcodes:"@ + barcode
}

/// The one-time key that confirms an email address.
pub open spec fn verify_email_key(key: Seq<char>) -> Seq<char> {
    "verify_emails:"@ + key
}

/// The one-time key that resets a password.
pub open spec fn reset_password_key(key: Seq<char>) -> Seq<char> {
    "reset_passwords:"@ + key
}

/// `prefix` followed by `rest`.
pub fn joined(prefix: &str, rest: &str) -> (text: String)
    ensures
        text@ == prefix@ + rest@,
{
    let mut text = String::from_str(prefix);
    text.append(rest);
    text
}

/// `prefix` followed by the decimal numeral of `id`.
pub fn numbered(prefix: &str, id: u64) -> (text: String)
    ensures
        text@ == prefix@ + decimal(id as nat),
{
    let mut text = String::from_str(prefix);
    push_decimal(&mut text, id);
    text
}

/// The name of the hash of the user with the id.
pub fn make_user_key(id: u64) -> (key: String)
    ensures
        key@ == user_key(id),
{
    numbered("users:", id)
}

/// The name of the hash of the address of the user with the id.
pub fn make_user_address_key(id: u64) -> (key: String)
    ensures
        key@ == user_address_key(id),
{
    let mut key = numbered("users:", id);
    key.append(":addr");
    key
}

/// The name of the signing keys of the user with the id.
pub fn make_user_sign_keys_key(id: u64) -> (key: String)
    ensures
        key@ == user_sign_keys_key(id),
{
    let mut key = numbered("users:", id);
    key.append(":sign_keys");
    key
}

/// The name of the encryption keys of the user with the id.
pub fn make_user_enc_keys_key(id: u64) -> (key: String)
    ensures
        key@ == user_enc_keys_key(id),
{
    let mut key = numbered("users:", id);
    key.append(":enc_keys");
    key
}

/// The name of the hash of the client with the id.
pub fn make_client_key(id: &str) -> (key: String)
    ensures
        key@ == client_key(id@),
{
    joined("clients:", id)
}

/// The name of the mark of a barcode of the client whose id has the number.
pub fn make_client_barcode_key(id: u64, barcode: &str) -> (key: String)
    ensures
        key@ == client_barcode_key(id, barcode@),
{
    let mut key = numbered("clients:", id);
    key.append(":barcodes:");
    key.append(barcode);
    key
}

/// The name of the one-time key that confirms an email address.
pub fn make_verify_email_key(key: &str) -> (name: String)
    ensures
        name@ == verify_email_key(key@),
{
    joined("verify_emails:", key)
}

/// The name of the one-time key that resets a password.
pub fn make_reset_password_key(key: &str) -> (name: String)
    ensures
        name@ == reset_password_key(key@),
{
    joined("reset_passwords:", key)
}

} // verus!
