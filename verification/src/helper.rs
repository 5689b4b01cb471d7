use vstd::prelude::*;

use magic_crypt::MagicCryptTrait;

verus! {

#[verifier::external_type_specification]
#[verifier::external_body]
pub struct ExSystemTime(std::time::SystemTime);

/// `std::time::SystemTime::now`. Nothing is promised of the reading.
#[verifier::external_body]
fn system_time_now() -> std::time::SystemTime {
    std::time::SystemTime::now()
}

/// `SystemTime::duration_since(UNIX_EPOCH)`, its error mapped to `None`. Nothing is
/// promised of the value; it is `None` where the clock reads before 1970.
#[verifier::external_body]
fn duration_since_epoch(t: std::time::SystemTime) -> Option<std::time::Duration> {
    t.duration_since(std::time::UNIX_EPOCH).ok()
}

/// `Duration::as_millis`. Nothing is promised of the value.
#[verifier::external_body]
fn duration_as_millis(d: std::time::Duration) -> u128 {
    d.as_millis()
}

/// Milliseconds since the Unix epoch, read from the system clock. Nothing is
/// promised of the reading; a clock that reads before 1970 gives 0.
pub fn get_current_time() -> u128 {
    match duration_since_epoch(system_time_now()) {
        Some(d) => duration_as_millis(d),
        None => 0,
    }
}

/// Whether `address` is an email address that `email_address::EmailAddress::is_valid`
/// accepts.
pub uninterp spec fn is_email_address(address: Seq<char>) -> bool;

/// `email_address::EmailAddress::is_valid`. Claimed: the answer is
/// `is_email_address(address@)`, and an accepted address holds an `@` (the crate
/// splits the address at its last `@` and refuses one that has none).
#[verifier::external_body]
fn email_address_is_valid(address: &str) -> (r: bool)
    ensures
        r == is_email_address(address@),
        r ==> address@.contains('@'),
{
    email_address::EmailAddress::is_valid(address)
}

/// Whether `data` is a well-formed email address.
pub fn validate_email(data: String) -> (r: bool)
    ensures
        r == is_email_address(data@),
        r ==> data@.contains('@'),
{
    email_address_is_valid(data.as_str())
}

/// The base64 text that `magic_crypt` (AES-256-CBC, the key hashed with SHA-256, a
/// zero IV, PKCS#7 padding) makes of `data` under `key`.
pub uninterp spec fn sealed(key: Seq<char>, data: Seq<char>) -> Seq<char>;

/// The length of the sealed text of `data`: the UTF-8 bytes of `data` padded up to
/// the next whole 16-byte block (a full block where they already fill whole blocks),
/// written as padded standard base64, four characters for every three bytes begun.
pub open spec fn sealed_length(data: Seq<char>) -> nat {
    4 * ((16 * (vstd::utf8::encode_utf8(data).len() / 16 + 1) + 2) / 3)
}

/// The text that `magic_crypt` recovers from the base64 text `data` under `key`, if
/// it recovers one.
pub uninterp spec fn unsealed(key: Seq<char>, data: Seq<char>) -> Option<Seq<char>>;

#[verifier::external_type_specification]
#[verifier::external_body]
pub struct ExMagicCryptError(magic_crypt::MagicCryptError);

/// `MagicCrypt256::new(key, None)` then `encrypt_str_to_base64(data)`. Claimed: the
/// result is `sealed(key@, data@)`; it unseals under `key` to `data` (the crate
/// decrypts with the same key, IV and padding that it encrypts with); and it is
/// `sealed_length(data@)` characters long (the crate pads the bytes to
/// `(len + 16) & !0xF` and encodes them with padded standard base64).
#[verifier::external_body]
fn encrypt_str_to_base64(key: &str, data: &str) -> (r: String)
    ensures
        r@ == sealed(key@, data@),
        unsealed(key@, r@) == Some(data@),
        r@.len() == sealed_length(data@),
{
    magic_crypt::MagicCrypt256::new(key, None::<String>).encrypt_str_to_base64(data)
}

/// `MagicCrypt256::new(key, None)` then `decrypt_base64_to_string(data)`. Claimed: the
/// result is `Ok` exactly when `unsealed(key@, data@)` is some text, and then it is
/// that text; and text sealed under `key` is recovered under `key` (the crate decrypts
/// with the same key, IV and padding that it encrypts with, and sealed text was
/// valid UTF-8 before).
#[verifier::external_body]
fn decrypt_base64_to_string(key: &str, data: &str) -> (r: Result<String, magic_crypt::MagicCryptError>)
    ensures
        r matches Ok(s) ==> unsealed(key@, data@) == Some(s@),
        r is Err ==> unsealed(key@, data@) is None,
        r is Err ==> forall|p: Seq<char>| #[trigger] sealed(key@, p) != data@,
        r matches Ok(s) ==> forall|p: Seq<char>| #[trigger] sealed(key@, p) == data@ ==> s@ == p,
{
    magic_crypt::MagicCrypt256::new(key, None::<String>).decrypt_base64_to_string(data)
}

/// `data` sealed under `key`, as base64 text.
pub fn encryption(key: &str, data: String) -> (r: String)
    ensures
        r@ == sealed(key@, data@),
        unsealed(key@, r@) == Some(data@),
        r@.len() == sealed_length(data@),
{
    encrypt_str_to_base64(key, data.as_str())
}

/// The text sealed in `data` under `key`. The input must be recoverable.
pub fn decryption(key: &str, data: String) -> (r: String)
    requires
        unsealed(key@, data@) is Some,
    ensures
        unsealed(key@, data@) == Some(r@),
        forall|p: Seq<char>| #[trigger] sealed(key@, p) == data@ ==> r@ == p,
{
    match decrypt_base64_to_string(key, data.as_str()) {
        Ok(s) => s,
        Err(_) => {
            assert(false);
            String::new()
        },
    }
}

/// Whether some text can be recovered from `data` under `key`; text sealed under
/// `key` always can.
pub fn can_decrypt(key: &str, data: &str) -> (r: bool)
    ensures
        r == (unsealed(key@, data@) is Some),
        forall|p: Seq<char>| #[trigger] sealed(key@, p) == data@ ==> (r && unsealed(key@, data@)
            == Some(p)),
{
    match decrypt_base64_to_string(key, data) {
        Ok(_) => true,
        Err(_) => false,
    }
}

/// The text sealed in `data` under `key`, or `None` where nothing can be recovered.
pub fn try_decryption(key: &str, data: String) -> (r: Option<String>)
    ensures
        r is Some <==> unsealed(key@, data@) is Some,
        r matches Some(s) ==> unsealed(key@, data@) == Some(s@),
        forall|p: Seq<char>| #[trigger] sealed(key@, p) == data@ ==> (r matches Some(s) && s@ == p),
{
    if can_decrypt(key, data.as_str()) {
        Some(decryption(key, data))
    } else {
        None
    }
}

#[verifier::external_type_specification]
#[verifier::external_body]
pub struct ExJsonValue(serde_json::Value);

#[verifier::external_type_specification]
#[verifier::external_body]
pub struct ExJsonError(serde_json::Error);

/// Whether `serde_json` parses `text` as a JSON value.
pub uninterp spec fn is_json_text(text: Seq<char>) -> bool;

/// The JSON value that `serde_json` builds from `text`, where it parses.
pub uninterp spec fn json_value_of(text: Seq<char>) -> serde_json::Value;

/// `serde_json::from_str::<serde_json::Value>`. Claimed: it succeeds exactly when
/// `is_json_text(data@)`, and the value it builds is `json_value_of(data@)` (the parse
/// depends on the text alone).
#[verifier::external_body]
fn json_from_str(data: &str) -> (r: Result<serde_json::Value, serde_json::Error>)
    ensures
        r is Ok <==> is_json_text(data@),
        r matches Ok(v) ==> v == json_value_of(data@),
{
    serde_json::from_str::<serde_json::Value>(data)
}

/// `data` parsed as a JSON value.
pub fn decode_json(data: &str) -> (r: Result<serde_json::Value, serde_json::Error>)
    ensures
        r is Ok <==> is_json_text(data@),
        r matches Ok(v) ==> v == json_value_of(data@),
{
    json_from_str(data)
}

} // verus!
