//! Account ids and public keys, checked and converted by `near_sdk`.

use vstd::prelude::*;
use vstd::string::*;

verus! {

/// A separator between the parts of an account id.
pub open spec fn is_account_id_separator(c: char) -> bool {
    c == '-' || c == '_' || c == '.'
}

/// A character that may form a part of an account id.
pub open spec fn is_account_id_part_char(c: char) -> bool {
    ('a' <= c <= 'z') || ('0' <= c <= '9')
}

/// Whether `s` is a valid NEAR account id: 2 to 64 characters, each a lower-case
/// letter, a digit or a separator (`-`, `_`, `.`), where a separator neither starts
/// nor ends the id and never follows another separator.
pub open spec fn valid_account_id(s: Seq<char>) -> bool {
    &&& 2 <= s.len() <= 64
    &&& forall|i: int|
        0 <= i < s.len() ==> is_account_id_part_char(#[trigger] s[i]) || is_account_id_separator(
            s[i],
        )
    &&& forall|i: int|
        0 <= i < s.len() && is_account_id_separator(#[trigger] s[i]) ==> 0 < i < s.len() - 1
            && !is_account_id_separator(s[i - 1])
}

/// Whether `account_id` is accepted by `near_sdk::AccountId::try_from`.
///
/// Trusted: `AccountId::try_from` runs `env::is_valid_account_id` on the UTF-8
/// bytes of the id, which accepts exactly the ids that [`valid_account_id`]
/// describes (a character outside ASCII gives bytes that it refuses).
#[verifier::external_body]
pub fn is_valid_account_id(account_id: &String) -> (r: bool)
    ensures
        r == valid_account_id(account_id@),
{
    near_sdk::AccountId::try_from(account_id.clone()).is_ok()
}

/// The sub-account of `parent` named `name`: `"{name}.{parent}"`.
pub open spec fn sub_account_text(name: Seq<char>, parent: Seq<char>) -> Seq<char> {
    name + seq!['.'] + parent
}

/// Forms the sub-account id `"{name}.{parent}"`.
pub fn sub_account_id(name: &String, parent: &String) -> (r: String)
    ensures
        r@ == sub_account_text(name@, parent@),
{
    proof {
        reveal_strlit(".");
    }
    let with_dot = name.clone().concat(".");
    with_dot.concat(parent.as_str())
}

/// The bytes of a public key as `near_sdk::PublicKey` holds them: a curve byte
/// (0 for ed25519, 1 for secp256k1) followed by the 32 or 64 bytes of the key.
pub open spec fn is_public_key_bytes(b: Seq<u8>) -> bool {
    ||| b.len() == 33 && b[0] == 0
    ||| b.len() == 65 && b[0] == 1
}

/// Whether the bytes have the shape of a public key.
pub fn has_public_key_shape(b: &Vec<u8>) -> (r: bool)
    ensures
        r == is_public_key_bytes(b@),
{
    (b.len() == 33 && b[0] == 0) || (b.len() == 65 && b[0] == 1)
}

/// The key that `near_sdk::PublicKey::from_str` reads from a text, by its bytes.
pub uninterp spec fn parsed_public_key(text: Seq<char>) -> Option<Seq<u8>>;

/// The text that `String::from(&near_sdk::PublicKey)` writes for a key.
pub uninterp spec fn public_key_text(key: Seq<u8>) -> Seq<char>;

/// The bytes of an optional key.
pub open spec fn opt_key_view(k: Option<Vec<u8>>) -> Option<Seq<u8>> {
    match k {
        Some(b) => Some(b@),
        None => None,
    }
}

/// Reads a public key from its text (`"ed25519:<base58>"`, `"secp256k1:<base58>"`,
/// or bare base58 for ed25519).
///
/// Trusted: calls `near_sdk::PublicKey::from_str`. What it returns is named by
/// [`parsed_public_key`]; the source shows that a key it returns has the shape
/// [`is_public_key_bytes`] (`from_parts` checks the length against the curve).
/// The base58 decoding itself is left unstated.
#[verifier::external_body]
pub fn parse_public_key(text: &String) -> (r: Option<Vec<u8>>)
    ensures
        opt_key_view(r) == parsed_public_key(text@),
        r matches Some(b) ==> is_public_key_bytes(b@),
{
    match text.as_str().parse::<near_sdk::PublicKey>() {
        Ok(key) => Some(key.into_bytes()),
        Err(_) => None,
    }
}

/// Writes the text of a public key.
///
/// Trusted: calls `String::from(&near_sdk::PublicKey)` on the key that
/// `PublicKey::try_from` builds from the bytes; for bytes of the shape
/// [`is_public_key_bytes`] that conversion succeeds. The text (curve name, `:`,
/// base58) is named by [`public_key_text`] and left unstated.
#[verifier::external_body]
pub fn public_key_to_string(key: &Vec<u8>) -> (r: String)
    requires
        is_public_key_bytes(key@),
    ensures
        r@ == public_key_text(key@),
{
    match near_sdk::PublicKey::try_from(key.clone()) {
        Ok(public_key) => String::from(&public_key),
        Err(_) => String::new(),
    }
}

} // verus!
