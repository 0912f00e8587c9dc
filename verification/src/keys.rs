//! Key material as the custodian sees it, and the calls into `nostr_types`
//! that create, seal, open and render it.
//!
//! A private key stays inside `nostr_types::PrivateKey` from the moment it
//! exists; this module never holds its bytes. Contracts speak of a key
//! through [`key_secret`] and [`key_security`], and of a sealed key through
//! [`decrypted`] and [`blob_version`].

use vstd::prelude::*;

verus! {

/// `nostr_types::PrivateKey`, carried as an opaque value.
#[verifier::external_type_specification]
#[verifier::external_body]
pub struct ExPrivateKey(nostr_types::PrivateKey);

/// `nostr_types::Error`, carried as an opaque value.
#[verifier::external_type_specification]
#[verifier::external_body]
pub struct ExNostrError(nostr_types::Error);

/// The scrypt cost, as a power of two, at which keys are sealed unless a
/// custodian is made with another.
pub const DEFAULT_LOG_N: u8 = 18;

/// The lowest version of a sealed key whose key derivation is strong enough
/// to keep.
pub const CURRENT_VERSION: i8 = 2;

/// The number of characters below which a text that starts as a versioned
/// sealed key cannot hold one: ten of prefix, 52 that carry the 32 bytes of
/// the oldest versioned layout's salt and initial vector, six of checksum.
pub const MIN_VERSIONED_LEN: usize = 68;

/// How carefully a private key has been handled so far.
#[derive(Clone, Copy, Debug, PartialEq, Eq, Hash, Structural)]
pub enum KeySecurity {
    /// The key has been shown or imported in the clear.
    Weak,
    /// The key has only ever existed sealed or in guarded memory.
    Medium,
}

/// A public key: the 32 bytes of its x-only encoding.
#[derive(Clone, Copy, Debug, PartialEq, Eq, Hash)]
pub struct PublicKey(pub [u8; 32]);

impl View for PublicKey {
    type V = Seq<u8>;

    open spec fn view(&self) -> Seq<u8> {
        self.0@
    }
}

/// A private key sealed under a password, in its text form.
#[derive(Clone, Debug, PartialEq, Eq, Hash)]
pub struct EncryptedPrivateKey(pub String);

impl View for EncryptedPrivateKey {
    type V = Seq<char>;

    open spec fn view(&self) -> Seq<char> {
        self.0@
    }
}

impl EncryptedPrivateKey {
    /// A copy with the same text.
    pub fn duplicate(&self) -> (copy: EncryptedPrivateKey)
        ensures
            copy == *self,
    {
        EncryptedPrivateKey(self.0.clone())
    }

    /// Whether the text can be handed to the decoder: one that starts as a
    /// versioned sealed key is long enough to hold one.
    pub fn is_well_framed(&self) -> (ok: bool)
        ensures
            ok == well_framed(self@),
    {
        let text = self.0.as_str();
        let len: usize = text.unicode_len();
        if len < 10 {
            return true;
        }
        let starts = text.get_char(0) == 'n' && text.get_char(1) == 'c' && text.get_char(2) == 'r'
            && text.get_char(3) == 'y' && text.get_char(4) == 'p' && text.get_char(5) == 't'
            && text.get_char(6) == 's' && text.get_char(7) == 'e' && text.get_char(8) == 'c'
            && text.get_char(9) == '1';
        proof {
            if starts {
                assert(self@.take(10) =~= versioned_prefix());
            } else {
                assert(self@.take(10)[0] == self@[0]);
                assert(self@.take(10)[1] == self@[1]);
                assert(self@.take(10)[2] == self@[2]);
                assert(self@.take(10)[3] == self@[3]);
                assert(self@.take(10)[4] == self@[4]);
                assert(self@.take(10)[5] == self@[5]);
                assert(self@.take(10)[6] == self@[6]);
                assert(self@.take(10)[7] == self@[7]);
                assert(self@.take(10)[8] == self@[8]);
                assert(self@.take(10)[9] == self@[9]);
            }
        }
        !starts || len >= MIN_VERSIONED_LEN
    }
}

/// What a private key is, to contracts.
pub struct KeyView {
    pub secret: Seq<u8>,
    pub security: KeySecurity,
}

/// The text that every versioned sealed key starts with.
pub open spec fn versioned_prefix() -> Seq<char> {
    seq!['n', 'c', 'r', 'y', 'p', 't', 's', 'e', 'c', '1']
}

/// Whether a text starts as a versioned sealed key.
pub open spec fn is_versioned(text: Seq<char>) -> bool {
    text.len() >= 10 && text.take(10) == versioned_prefix()
}

/// A text that starts as a versioned sealed key has room for one.
pub open spec fn well_framed(text: Seq<char>) -> bool {
    is_versioned(text) ==> text.len() >= MIN_VERSIONED_LEN
}

/// The digit that stands for a value below 16 in lower-case hexadecimal.
pub open spec fn hex_digit(value: int) -> char {
    seq!['0', '1', '2', '3', '4', '5', '6', '7', '8', '9', 'a', 'b', 'c', 'd', 'e', 'f'][value]
}

/// Bytes in lower-case hexadecimal, two digits each, high digit first.
pub open spec fn lower_hex(bytes: Seq<u8>) -> Seq<char> {
    Seq::new(
        2 * bytes.len(),
        |i: int|
            if i % 2 == 0 {
                hex_digit(bytes[i / 2] as int / 16)
            } else {
                hex_digit(bytes[i / 2] as int % 16)
            },
    )
}

/// The secret scalar that a private key holds, as big-endian bytes.
pub uninterp spec fn key_secret(key: nostr_types::PrivateKey) -> Seq<u8>;

/// The security level that a private key carries.
pub uninterp spec fn key_security(key: nostr_types::PrivateKey) -> KeySecurity;

/// The public key that belongs to a secret.
pub uninterp spec fn derived_public(secret: Seq<u8>) -> Seq<u8>;

/// The key that a sealed key opens to under a password, if it opens.
pub uninterp spec fn decrypted(blob: Seq<char>, password: Seq<char>) -> Option<KeyView>;

/// The version that a sealed key's text declares, if it can be read.
pub uninterp spec fn blob_version(blob: Seq<char>) -> Option<i8>;

/// The scrypt cost, as a power of two, that a sealed key's text carries,
/// if it carries one.
pub uninterp spec fn blob_cost(blob: Seq<char>) -> Option<u8>;

/// The `nsec` text of a secret.
pub uninterp spec fn nsec_text(secret: Seq<u8>) -> Seq<char>;

/// A private key as contracts see it.
pub open spec fn key_view(key: nostr_types::PrivateKey) -> KeyView {
    KeyView { secret: key_secret(key), security: key_security(key) }
}

/// A key as it is after it has been shown in the clear.
pub open spec fn exposed(key: KeyView) -> KeyView {
    KeyView { secret: key.secret, security: KeySecurity::Weak }
}

/// What holds of every text that sealing `key` under `password` gives: it
/// is well framed, declares version 2, and opens to `key` again under the
/// same password.
pub open spec fn seals(blob: Seq<char>, key: KeyView, password: Seq<char>) -> bool {
    &&& well_framed(blob)
    &&& blob_version(blob) == Some(2i8)
    &&& decrypted(blob, password) == Some(key)
}

/// `PrivateKey::generate`: a fresh random key, which starts at medium
/// security.
#[verifier::external_body]
pub(crate) fn generate_key() -> (key: nostr_types::PrivateKey)
    ensures
        key_security(key) == KeySecurity::Medium,
{
    nostr_types::PrivateKey::generate()
}

/// `PrivateKey::public_key`, read as its 32 bytes: the public key depends
/// on the secret alone.
#[verifier::external_body]
pub(crate) fn public_key_of(key: &nostr_types::PrivateKey) -> (public: PublicKey)
    ensures
        public@ == derived_public(key_secret(*key)),
{
    PublicKey(key.public_key().0.to_bytes().into())
}

/// `PrivateKey::key_security`: reads the level that the key carries.
#[verifier::external_body]
pub(crate) fn security_of(key: &nostr_types::PrivateKey) -> (level: KeySecurity)
    ensures
        level == key_security(*key),
{
    match key.key_security() {
        nostr_types::KeySecurity::Weak => KeySecurity::Weak,
        nostr_types::KeySecurity::Medium => KeySecurity::Medium,
    }
}

/// `PrivateKey::export_encrypted`: seals the key under the password with a
/// random salt and nonce, so two calls differ. Every text it returns is in
/// the layout of version 2, 162 characters long, with the cost as its
/// second byte, and carries the secret and the security level so that the
/// same password opens it to the same key.
#[verifier::external_body]
pub(crate) fn encrypt_key(key: &nostr_types::PrivateKey, password: &str, log_n: u8) -> (r: Result<
    EncryptedPrivateKey,
    nostr_types::Error,
>)
    ensures
        r matches Ok(blob) ==> seals(blob@, key_view(*key), password@),
        r matches Ok(blob) ==> blob_cost(blob@) == Some(log_n),
{
    match key.export_encrypted(password, log_n) {
        Ok(blob) => Ok(EncryptedPrivateKey(blob.0)),
        Err(e) => Err(e),
    }
}

/// `EncryptedPrivateKey::decrypt`: opens a sealed key of any version. The
/// outcome depends on the text and the password alone. The decoder indexes
/// into what a versioned text carries without looking at its length, so
/// the text must be well framed. A text that opens has passed the checks
/// under which its version is read, so it declares one. Opening takes the
/// memory that the text's own cost parameter asks for.
#[verifier::external_body]
pub(crate) fn decrypt_blob(blob: &EncryptedPrivateKey, password: &str) -> (r: Result<
    nostr_types::PrivateKey,
    nostr_types::Error,
>)
    requires
        well_framed(blob@),
    ensures
        match r {
            Ok(key) => decrypted(blob@, password@) == Some(key_view(key)),
            Err(_) => decrypted(blob@, password@) is None,
        },
        r is Ok ==> blob_version(blob@) is Some,
{
    nostr_types::EncryptedPrivateKey(blob.0.clone()).decrypt(password)
}

/// `EncryptedPrivateKey::version`: reads the version that the text
/// declares. It indexes like the decoder, so the text must be well framed.
#[verifier::external_body]
pub(crate) fn version_of(blob: &EncryptedPrivateKey) -> (r: Result<i8, nostr_types::Error>)
    requires
        well_framed(blob@),
    ensures
        match r {
            Ok(version) => blob_version(blob@) == Some(version),
            Err(_) => blob_version(blob@) is None,
        },
{
    nostr_types::EncryptedPrivateKey(blob.0.clone()).version()
}

/// `PrivateKey::as_hex_string`: the secret in lower-case hexadecimal. The
/// call marks the key as weak, since its secret is now in the clear.
#[verifier::external_body]
pub(crate) fn key_hex(key: &mut nostr_types::PrivateKey) -> (text: String)
    ensures
        text@ == lower_hex(key_secret(*old(key))),
        key_view(*final(key)) == exposed(key_view(*old(key))),
{
    key.as_hex_string()
}

/// `PrivateKey::try_as_bech32_string`: the secret as `nsec` text. The call
/// marks the key as weak whether or not the encoding succeeds.
#[verifier::external_body]
pub(crate) fn key_bech32(key: &mut nostr_types::PrivateKey) -> (r: Result<
    String,
    nostr_types::Error,
>)
    ensures
        r matches Ok(text) ==> text@ == nsec_text(key_secret(*old(key))),
        key_view(*final(key)) == exposed(key_view(*old(key))),
{
    key.try_as_bech32_string()
}

} // verus!
