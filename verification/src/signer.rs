//! The identity custodian: one public key, one sealed private key and one
//! private key in memory, and the operations that move between them.
//!
//! The custodian does no I/O and schedules nothing. Where an operation
//! calls for work after it returns (a save, a migration), its result or
//! its documentation says so, and the caller sees to it.

use vstd::prelude::*;
use crate::error::SignerError;
use crate::events::{
    event_id, event_preimage, is_signed_by, leading_zero_bits, preevent_preimage, sign_event,
    sign_event_with_pow, signed, with_fresh_nonce,
};
use crate::keys::{
    blob_cost, blob_version, decrypt_blob, decrypted, derived_public, encrypt_key, exposed,
    generate_key, key_bech32, key_hex, key_view, lower_hex, nsec_text, public_key_of, seals,
    security_of, version_of, well_framed, EncryptedPrivateKey, KeySecurity, KeyView, PublicKey,
    CURRENT_VERSION, DEFAULT_LOG_N,
};

verus! {

/// The part of the persisted settings that the custodian mirrors.
#[derive(Clone, Debug, PartialEq, Eq)]
pub struct Settings {
    pub public_key: Option<PublicKey>,
    pub encrypted_private_key: Option<EncryptedPrivateKey>,
}

/// What the caller owes after a successful unlock.
#[derive(Clone, Copy, Debug, PartialEq, Eq, Structural)]
pub enum FollowUp {
    /// Nothing.
    Nothing,
    /// The sealed key is of an old version: call [`Signer::migrate`] with
    /// the same password and save, off the caller's path.
    Migrate,
}

/// The custodian as contracts see it.
pub struct SignerView {
    pub public: Option<Seq<u8>>,
    pub encrypted: Option<Seq<char>>,
    pub private: Option<KeyView>,
    pub log_n: u8,
}

/// The three forms of one identity, and the cost at which it seals keys.
pub struct Signer {
    public: Option<PublicKey>,
    encrypted: Option<EncryptedPrivateKey>,
    private: Option<nostr_types::PrivateKey>,
    log_n: u8,
}

/// A public key, if any, as contracts see it.
pub open spec fn public_view(public: Option<PublicKey>) -> Option<Seq<u8>> {
    match public {
        Some(key) => Some(key@),
        None => None,
    }
}

/// A sealed key, if any, as contracts see it.
pub open spec fn encrypted_view(encrypted: Option<EncryptedPrivateKey>) -> Option<Seq<char>> {
    match encrypted {
        Some(blob) => Some(blob@),
        None => None,
    }
}

/// A private key, if any, as contracts see it.
pub open spec fn private_view(private: Option<nostr_types::PrivateKey>) -> Option<KeyView> {
    match private {
        Some(key) => Some(key_view(key)),
        None => None,
    }
}

/// The text that a refused `set_public_key` leaves in the status channel.
pub open spec fn ignored_set_message() -> Seq<char> {
    "Ignored setting of public key (private key supercedes)"@
}

/// The text that a refused `clear_public_key` leaves in the status channel.
pub open spec fn ignored_clear_message() -> Seq<char> {
    "Ignored clearing of public key (private key supercedes)"@
}

impl SignerView {
    /// No identity.
    pub open spec fn empty(log_n: u8) -> SignerView {
        SignerView { public: None, encrypted: None, private: None, log_n }
    }

    /// An identity exists, locked or not.
    pub open spec fn is_loaded(self) -> bool {
        self.encrypted is Some || self.private is Some
    }

    /// The identity can sign now.
    pub open spec fn is_ready(self) -> bool {
        self.private is Some
    }

    /// The custodian after it has mirrored the settings: nothing stays in
    /// memory of a private key.
    pub open spec fn loaded(self, public: Option<Seq<u8>>, encrypted: Option<Seq<char>>)
        -> SignerView {
        SignerView { public, encrypted, private: None, log_n: self.log_n }
    }

    /// A private key in memory decides the public key: no one else may.
    pub open spec fn with_public_key(self, public: Seq<u8>) -> SignerView {
        if self.private is Some {
            self
        } else {
            SignerView { public: Some(public), ..self }
        }
    }

    /// Likewise for clearing it.
    pub open spec fn without_public_key(self) -> SignerView {
        if self.private is Some {
            self
        } else {
            SignerView { public: None, ..self }
        }
    }

    /// An unlocked identity is not replaced by a bare sealed key.
    pub open spec fn with_encrypted_private_key(self, blob: Seq<char>) -> SignerView {
        if self.private is Some && self.encrypted is Some {
            self
        } else {
            SignerView { encrypted: Some(blob), ..self }
        }
    }

    /// The custodian after it has taken in `key`, sealed as `blob`.
    pub open spec fn adopting(self, key: KeyView, blob: Seq<char>) -> SignerView {
        SignerView {
            public: Some(derived_public(key.secret)),
            encrypted: Some(blob),
            private: Some(key),
            log_n: self.log_n,
        }
    }

    /// The custodian after `key` has been sealed anew as `blob`.
    pub open spec fn resealed(self, key: KeyView, blob: Seq<char>) -> SignerView {
        SignerView { encrypted: Some(blob), private: Some(key), ..self }
    }

    /// The custodian after its sealed key has been replaced by `blob`.
    pub open spec fn migrated(self, blob: Seq<char>) -> SignerView {
        SignerView { encrypted: Some(blob), ..self }
    }

    /// No identity, at the same cost.
    pub open spec fn deleted(self) -> SignerView {
        SignerView::empty(self.log_n)
    }

    /// What proving `password` against the sealed key comes to: the key it
    /// opens to, or why it does not.
    pub open spec fn password_proof(self, password: Seq<char>) -> Result<KeyView, SignerError> {
        match self.encrypted {
            None => Err(SignerError::NoPrivateKey),
            Some(blob) => if well_framed(blob) && decrypted(blob, password) is Some {
                Ok(decrypted(blob, password)->0)
            } else {
                Err(SignerError::Decryption)
            },
        }
    }

    /// The custodian after `opened`, the outcome of opening its sealed key,
    /// has been applied.
    pub open spec fn unlocked_with(self, opened: Option<KeyView>) -> SignerView {
        match opened {
            Some(key) => SignerView {
                public: if self.public is Some {
                    self.public
                } else {
                    Some(derived_public(key.secret))
                },
                private: Some(key),
                ..self
            },
            None => self,
        }
    }

    /// What is owed after an unlock of a sealed key that declares
    /// `version`: a version that is old, or that cannot be read, asks for a
    /// migration.
    pub open spec fn follow_up(version: Option<i8>) -> FollowUp {
        if version matches Some(v) && v >= CURRENT_VERSION {
            FollowUp::Nothing
        } else {
            FollowUp::Migrate
        }
    }

    /// What applying `opened` and `version` returns.
    pub open spec fn unlock_with_result(opened: Option<KeyView>, version: Option<i8>) -> Result<
        FollowUp,
        SignerError,
    > {
        match opened {
            Some(_) => Ok(Self::follow_up(version)),
            None => Err(SignerError::Decryption),
        }
    }

    /// What `unlock_encrypted_private_key` returns.
    pub open spec fn unlock_result(self, password: Seq<char>) -> Result<FollowUp, SignerError> {
        if self.private is Some {
            Ok(FollowUp::Nothing)
        } else {
            match self.encrypted {
                None => Err(SignerError::NoPrivateKey),
                Some(blob) => if well_framed(blob) {
                    Self::unlock_with_result(decrypted(blob, password), blob_version(blob))
                } else {
                    Err(SignerError::Decryption)
                },
            }
        }
    }

    /// The custodian after `unlock_encrypted_private_key`.
    pub open spec fn unlocked(self, password: Seq<char>) -> SignerView {
        if self.private is None && self.encrypted is Some && well_framed(self.encrypted->0) {
            self.unlocked_with(decrypted(self.encrypted->0, password))
        } else {
            self
        }
    }

    /// Whether `post` is this custodian after it has taken in `key`, sealed
    /// under `password`.
    pub open spec fn adopts_to(self, key: KeyView, password: Seq<char>, post: SignerView) -> bool {
        &&& post.encrypted matches Some(blob)
        &&& seals(blob, key, password)
        &&& blob_cost(blob) == Some(self.log_n)
        &&& post == self.adopting(key, blob)
    }

    /// Whether `post` is this custodian with `key` sealed anew under
    /// `password` and held in memory.
    pub open spec fn reseals_to(self, key: KeyView, password: Seq<char>, post: SignerView) -> bool {
        &&& post.encrypted matches Some(blob)
        &&& seals(blob, key, password)
        &&& blob_cost(blob) == Some(self.log_n)
        &&& post == self.resealed(key, blob)
    }

    /// Whether `post` is this custodian with its sealed key replaced by one
    /// that seals `key` under `password`.
    pub open spec fn migrates_to(self, key: KeyView, password: Seq<char>, post: SignerView) -> bool {
        &&& post.encrypted matches Some(blob)
        &&& seals(blob, key, password)
        &&& blob_cost(blob) == Some(self.log_n)
        &&& post == self.migrated(blob)
    }

    /// Whether the sealed key is well framed and declares the current
    /// version or a later one.
    pub open spec fn is_current(self) -> bool {
        &&& self.encrypted matches Some(blob)
        &&& well_framed(blob)
        &&& blob_version(blob) matches Some(v)
        &&& v >= CURRENT_VERSION
    }
}

impl View for Signer {
    type V = SignerView;

    closed spec fn view(&self) -> SignerView {
        SignerView {
            public: public_view(self.public),
            encrypted: encrypted_view(self.encrypted),
            private: private_view(self.private),
            log_n: self.log_n,
        }
    }
}

impl Default for Signer {
    /// A custodian with no identity, which seals at the default cost.
    fn default() -> (signer: Signer)
        ensures
            signer@ == SignerView::empty(DEFAULT_LOG_N),
    {
        Signer::new()
    }
}

impl Signer {
    /// A custodian with no identity, which seals at the default cost.
    pub fn new() -> (signer: Signer)
        ensures
            signer@ == SignerView::empty(DEFAULT_LOG_N),
    {
        Signer { public: None, encrypted: None, private: None, log_n: DEFAULT_LOG_N }
    }

    /// A custodian with no identity, which seals at scrypt cost
    /// `2^log_n`. At a cost that scrypt refuses, 64 and above, every
    /// sealing fails as `Crypto`.
    pub fn with_rounds(log_n: u8) -> (signer: Signer)
        ensures
            signer@ == SignerView::empty(log_n),
    {
        Signer { public: None, encrypted: None, private: None, log_n }
    }

    /// Mirrors the settings: the public key and the sealed key are taken
    /// from them, and the private key in memory is dropped.
    pub fn load_from_settings(&mut self, settings: &Settings)
        ensures
            final(self)@ == old(self)@.loaded(
                public_view(settings.public_key),
                encrypted_view(settings.encrypted_private_key),
            ),
    {
        self.public = settings.public_key;
        self.encrypted = match &settings.encrypted_private_key {
            Some(blob) => Some(blob.duplicate()),
            None => None,
        };
        self.private = None;
    }

    /// Writes the public key and the sealed key into the settings, for the
    /// caller to persist. The private key is never written.
    pub fn save_through_settings(&self, settings: &mut Settings)
        ensures
            public_view(final(settings).public_key) == self@.public,
            encrypted_view(final(settings).encrypted_private_key) == self@.encrypted,
    {
        settings.public_key = self.public;
        settings.encrypted_private_key = self.encrypted_private_key();
    }

    /// Sets the public key, unless a private key is in memory: then
    /// nothing changes and `status_message` says so.
    pub fn set_public_key(&mut self, pk: PublicKey, status_message: &mut String)
        ensures
            final(self)@ == old(self)@.with_public_key(pk@),
            final(status_message)@ == if old(self)@.private is Some {
                ignored_set_message()
            } else {
                old(status_message)@
            },
    {
        if self.private.is_some() {
            *status_message = "Ignored setting of public key (private key supercedes)".to_string();
        } else {
            self.public = Some(pk);
        }
    }

    /// Clears the public key, unless a private key is in memory: then
    /// nothing changes and `status_message` says so.
    pub fn clear_public_key(&mut self, status_message: &mut String)
        ensures
            final(self)@ == old(self)@.without_public_key(),
            final(status_message)@ == if old(self)@.private is Some {
                ignored_clear_message()
            } else {
                old(status_message)@
            },
    {
        if self.private.is_some() {
            *status_message = "Ignored clearing of public key (private key supercedes)".to_string();
        } else {
            self.public = None;
        }
    }

    /// Sets the sealed key, unless the identity is unlocked and has one.
    pub fn set_encrypted_private_key(&mut self, epk: EncryptedPrivateKey)
        ensures
            final(self)@ == old(self)@.with_encrypted_private_key(epk@),
    {
        if !(self.private.is_some() && self.encrypted.is_some()) {
            self.encrypted = Some(epk);
        }
    }

    /// Takes in `key` with `sealed`, the outcome of sealing it: all three
    /// forms are set together, or none.
    pub fn install(
        &mut self,
        key: nostr_types::PrivateKey,
        sealed: Result<EncryptedPrivateKey, nostr_types::Error>,
    ) -> (r: Result<(), SignerError>)
        ensures
            match sealed {
                Ok(blob) => r == Ok::<(), SignerError>(()) && final(self)@ == old(self)@.adopting(
                    key_view(key),
                    blob@,
                ),
                Err(_) => r == Err::<(), SignerError>(SignerError::Crypto) && final(self)@ == old(
                    self,
                )@,
            },
    {
        match sealed {
            Ok(blob) => {
                self.encrypted = Some(blob);
                self.public = Some(public_key_of(&key));
                self.private = Some(key);
                Ok(())
            },
            Err(_) => Err(SignerError::Crypto),
        }
    }

    /// Seals `pk` under `pass` and takes it in as the identity.
    pub fn set_private_key(&mut self, pk: nostr_types::PrivateKey, pass: &str) -> (r: Result<
        (),
        SignerError,
    >)
        ensures
            match r {
                Ok(_) => old(self)@.adopts_to(key_view(pk), pass@, final(self)@),
                Err(e) => e == SignerError::Crypto && final(self)@ == old(self)@,
            },
    {
        let sealed = encrypt_key(&pk, pass, self.log_n);
        self.install(pk, sealed)
    }

    /// Makes a new random key, seals it under `pass` and takes it in.
    pub fn generate_private_key(&mut self, pass: &str) -> (r: Result<(), SignerError>)
        ensures
            match r {
                Ok(_) => {
                    &&& final(self)@.private matches Some(key)
                    &&& key.security == KeySecurity::Medium
                    &&& old(self)@.adopts_to(key, pass@, final(self)@)
                },
                Err(e) => e == SignerError::Crypto && final(self)@ == old(self)@,
            },
    {
        let pk = generate_key();
        let sealed = encrypt_key(&pk, pass, self.log_n);
        self.install(pk, sealed)
    }

    /// Applies `opened`, the outcome of opening the sealed key, and
    /// `version`, the version read from it: an opened key is held in
    /// memory, and the public key is derived from it if none was set. A
    /// version that is old or cannot be read asks for a migration.
    pub fn unlock_with(
        &mut self,
        opened: Result<nostr_types::PrivateKey, nostr_types::Error>,
        version: Result<i8, nostr_types::Error>,
    ) -> (r: Result<FollowUp, SignerError>)
        ensures
            r == SignerView::unlock_with_result(opened_view(opened), version_view(version)),
            final(self)@ == old(self)@.unlocked_with(opened_view(opened)),
    {
        match opened {
            Ok(key) => {
                if self.public.is_none() {
                    self.public = Some(public_key_of(&key));
                }
                self.private = Some(key);
                match version {
                    Ok(v) => if v >= CURRENT_VERSION {
                        Ok(FollowUp::Nothing)
                    } else {
                        Ok(FollowUp::Migrate)
                    },
                    Err(_) => Ok(FollowUp::Migrate),
                }
            },
            Err(_) => Err(SignerError::Decryption),
        }
    }

    /// Opens the sealed key with `pass` and holds the private key in
    /// memory. Already unlocked, nothing happens. The result says whether
    /// the sealed key is due for migration, by the version that it
    /// declares: one that opened declares one.
    pub fn unlock_encrypted_private_key(&mut self, pass: &str) -> (r: Result<
        FollowUp,
        SignerError,
    >)
        ensures
            r == old(self)@.unlock_result(pass@),
            final(self)@ == old(self)@.unlocked(pass@),
            old(self)@.private is None && r is Ok ==> blob_version(old(self)@.encrypted->0)
                is Some,
    {
        if self.private.is_some() {
            return Ok(FollowUp::Nothing);
        }
        let (opened, version) = match &self.encrypted {
            None => {
                return Err(SignerError::NoPrivateKey);
            },
            Some(blob) => {
                if !blob.is_well_framed() {
                    return Err(SignerError::Decryption);
                }
                (decrypt_blob(blob, pass), version_of(blob))
            },
        };
        self.unlock_with(opened, version)
    }

    /// Whether an identity exists, locked or not.
    pub fn is_loaded(&self) -> (r: bool)
        ensures
            r == self@.is_loaded(),
    {
        self.encrypted.is_some() || self.private.is_some()
    }

    /// Whether the identity can sign now.
    pub fn is_ready(&self) -> (r: bool)
        ensures
            r == self@.is_ready(),
    {
        self.private.is_some()
    }

    /// The public key, if one is known.
    pub fn public_key(&self) -> (r: Option<PublicKey>)
        ensures
            public_view(r) == self@.public,
    {
        self.public
    }

    /// A copy of the sealed key, if there is one.
    pub fn encrypted_private_key(&self) -> (r: Option<EncryptedPrivateKey>)
        ensures
            encrypted_view(r) == self@.encrypted,
    {
        match &self.encrypted {
            Some(blob) => Some(blob.duplicate()),
            None => None,
        }
    }

    /// The security level of the private key in memory; `None` if locked.
    pub fn key_security(&self) -> (r: Option<KeySecurity>)
        ensures
            r == match self@.private {
                Some(key) => Some(key.security),
                None => None,
            },
    {
        match &self.private {
            Some(key) => Some(security_of(key)),
            None => None,
        }
    }

    /// Proves `password` against the sealed key and hands out the key it
    /// opens to. The key leaves the custodian only through this function,
    /// which is private to it.
    fn prove_password(&self, password: &str) -> (r: Result<nostr_types::PrivateKey, SignerError>)
        ensures
            match self@.password_proof(password@) {
                Ok(key) => r matches Ok(k) && key_view(k) == key,
                Err(e) => r matches Err(x) && x == e,
            },
    {
        match &self.encrypted {
            None => Err(SignerError::NoPrivateKey),
            Some(blob) => {
                if !blob.is_well_framed() {
                    return Err(SignerError::Decryption);
                }
                match decrypt_blob(blob, password) {
                    Ok(key) => Ok(key),
                    Err(_) => Err(SignerError::Decryption),
                }
            },
        }
    }

    /// Stores `key` with `sealed`, the outcome of sealing it anew: the
    /// sealed key and the key in memory change together, or neither.
    pub fn reseal(
        &mut self,
        key: nostr_types::PrivateKey,
        sealed: Result<EncryptedPrivateKey, nostr_types::Error>,
    ) -> (r: Result<(), SignerError>)
        ensures
            match sealed {
                Ok(blob) => r == Ok::<(), SignerError>(()) && final(self)@ == old(self)@.resealed(
                    key_view(key),
                    blob@,
                ),
                Err(_) => r == Err::<(), SignerError>(SignerError::Crypto) && final(self)@ == old(
                    self,
                )@,
            },
    {
        match sealed {
            Ok(blob) => {
                self.encrypted = Some(blob);
                self.private = Some(key);
                Ok(())
            },
            Err(_) => Err(SignerError::Crypto),
        }
    }

    /// Hands out the private key as `nsec` text, against proof of the
    /// password. The key, now shown in the clear, is marked weak, sealed
    /// anew at the current cost and held in memory; on `Ok` the caller
    /// owes a save.
    pub fn export_private_key_bech32(&mut self, pass: &str) -> (r: Result<String, SignerError>)
        ensures
            match old(self)@.password_proof(pass@) {
                Err(e) => r matches Err(x) && x == e && final(self)@ == old(self)@,
                Ok(key) => match r {
                    Ok(text) => text@ == nsec_text(key.secret) && old(self)@.reseals_to(
                        exposed(key),
                        pass@,
                        final(self)@,
                    ),
                    Err(e) => e == SignerError::Crypto && final(self)@ == old(self)@,
                },
            },
    {
        let mut key = match self.prove_password(pass) {
            Ok(key) => key,
            Err(e) => {
                return Err(e);
            },
        };
        let output = match key_bech32(&mut key) {
            Ok(text) => text,
            Err(_) => {
                return Err(SignerError::Crypto);
            },
        };
        let sealed = encrypt_key(&key, pass, self.log_n);
        match self.reseal(key, sealed) {
            Ok(_) => Ok(output),
            Err(e) => Err(e),
        }
    }

    /// Hands out the private key in lower-case hexadecimal, against proof
    /// of the password. The key, now shown in the clear, is marked weak,
    /// sealed anew at the current cost and held in memory; on `Ok` the
    /// caller owes a save.
    pub fn export_private_key_hex(&mut self, pass: &str) -> (r: Result<String, SignerError>)
        ensures
            match old(self)@.password_proof(pass@) {
                Err(e) => r matches Err(x) && x == e && final(self)@ == old(self)@,
                Ok(key) => match r {
                    Ok(text) => text@ == lower_hex(key.secret) && old(self)@.reseals_to(
                        exposed(key),
                        pass@,
                        final(self)@,
                    ),
                    Err(e) => e == SignerError::Crypto && final(self)@ == old(self)@,
                },
            },
    {
        let mut key = match self.prove_password(pass) {
            Ok(key) => key,
            Err(e) => {
                return Err(e);
            },
        };
        let output = key_hex(&mut key);
        let sealed = encrypt_key(&key, pass, self.log_n);
        match self.reseal(key, sealed) {
            Ok(_) => Ok(output),
            Err(e) => Err(e),
        }
    }

    /// Replaces a sealed key of an old version by one sealed at the current
    /// cost, against proof of the password. A sealed key of the current
    /// version is left as it is, whatever the password. On `Ok` the caller
    /// owes a save.
    pub fn migrate(&mut self, pass: &str) -> (r: Result<(), SignerError>)
        ensures
            if old(self)@.is_current() {
                r == Ok::<(), SignerError>(()) && final(self)@ == old(self)@
            } else {
                match old(self)@.password_proof(pass@) {
                    Err(e) => r == Err::<(), SignerError>(e) && final(self)@ == old(self)@,
                    Ok(key) => match r {
                        Ok(_) => old(self)@.migrates_to(key, pass@, final(self)@),
                        Err(e) => e == SignerError::Crypto && final(self)@ == old(self)@,
                    },
                }
            },
    {
        match &self.encrypted {
            None => {
                return Err(SignerError::NoPrivateKey);
            },
            Some(blob) => {
                if !blob.is_well_framed() {
                    return Err(SignerError::Decryption);
                }
                match version_of(blob) {
                    Ok(v) => {
                        if v >= CURRENT_VERSION {
                            return Ok(());
                        }
                    },
                    Err(_) => {},
                }
            },
        }
        let key = match self.prove_password(pass) {
            Ok(key) => key,
            Err(e) => {
                return Err(e);
            },
        };
        let sealed = encrypt_key(&key, pass, self.log_n);
        self.migrate_with(sealed)
    }

    /// Applies `sealed`, the outcome of sealing the proven key anew: the
    /// sealed key is replaced, and nothing else changes.
    pub fn migrate_with(&mut self, sealed: Result<EncryptedPrivateKey, nostr_types::Error>) -> (r:
        Result<(), SignerError>)
        ensures
            match sealed {
                Ok(blob) => r == Ok::<(), SignerError>(()) && final(self)@ == old(self)@.migrated(
                    blob@,
                ),
                Err(_) => r == Err::<(), SignerError>(SignerError::Crypto) && final(self)@ == old(
                    self,
                )@,
            },
    {
        match sealed {
            Ok(blob) => {
                self.encrypted = Some(blob);
                Ok(())
            },
            Err(_) => Err(SignerError::Crypto),
        }
    }

    /// Applies `opened`, the outcome of opening the sealed key with the
    /// password offered as proof: an opened key clears all three forms.
    pub fn delete_with(
        &mut self,
        opened: Result<nostr_types::PrivateKey, nostr_types::Error>,
    ) -> (r: Result<(), SignerError>)
        ensures
            match opened {
                Ok(_) => r == Ok::<(), SignerError>(()) && final(self)@ == old(self)@.deleted(),
                Err(_) => r == Err::<(), SignerError>(SignerError::Decryption) && final(self)@
                    == old(self)@,
            },
    {
        match opened {
            Ok(_) => {
                self.private = None;
                self.encrypted = None;
                self.public = None;
                Ok(())
            },
            Err(_) => Err(SignerError::Decryption),
        }
    }

    /// Clears the identity, against proof of the password. On `Ok` the
    /// caller owes a save.
    pub fn delete_identity(&mut self, pass: &str) -> (r: Result<(), SignerError>)
        ensures
            match old(self)@.password_proof(pass@) {
                Err(e) => r == Err::<(), SignerError>(e) && final(self)@ == old(self)@,
                Ok(_) => r == Ok::<(), SignerError>(()) && final(self)@ == old(self)@.deleted(),
            },
    {
        let opened = match &self.encrypted {
            None => {
                return Err(SignerError::NoPrivateKey);
            },
            Some(blob) => {
                if !blob.is_well_framed() {
                    return Err(SignerError::Decryption);
                }
                decrypt_blob(blob, pass)
            },
        };
        self.delete_with(opened)
    }

    /// Signs `preevent` with the private key in memory. Without `pow` the
    /// event holds the pre-event's fields as they are, and the outcome
    /// depends on them and the key alone. With `pow` the pre-event's nonce
    /// tags give way to one at the end, under which the identifier starts
    /// with at least that many zero bits; the search for it takes as long
    /// as it takes. Either way the identifier is the hash of the event's
    /// own fields, signed with the key in memory.
    pub fn sign_preevent(&self, preevent: nostr_types::PreEvent, pow: Option<u8>) -> (r: Result<
        nostr_types::Event,
        SignerError,
    >)
        ensures
            match (self@.private, pow) {
                (None, _) => r matches Err(e) && e == SignerError::NoPrivateKey,
                (Some(key), None) => match signed(preevent_preimage(preevent), key.secret) {
                    Some(_) => r matches Ok(event) && event_preimage(event) == preevent_preimage(
                        preevent,
                    ) && is_signed_by(event, key.secret),
                    None => r matches Err(e) && e == SignerError::Crypto,
                },
                (Some(key), Some(bits)) => match r {
                    Ok(event) => {
                        &&& with_fresh_nonce(preevent_preimage(preevent), event_preimage(event))
                        &&& is_signed_by(event, key.secret)
                        &&& leading_zero_bits(event_id(event)) >= bits
                    },
                    Err(e) => e == SignerError::Crypto,
                },
            },
    {
        match &self.private {
            Some(key) => {
                let outcome = match pow {
                    Some(bits) => sign_event_with_pow(preevent, key, bits),
                    None => sign_event(preevent, key),
                };
                match outcome {
                    Ok(event) => Ok(event),
                    Err(_) => Err(SignerError::Crypto),
                }
            },
            None => Err(SignerError::NoPrivateKey),
        }
    }
}

/// An opening's outcome as contracts see it.
pub open spec fn opened_view(opened: Result<nostr_types::PrivateKey, nostr_types::Error>)
    -> Option<KeyView> {
    match opened {
        Ok(key) => Some(key_view(key)),
        Err(_) => None,
    }
}

/// A version reading's outcome as contracts see it.
pub open spec fn version_view(version: Result<i8, nostr_types::Error>) -> Option<i8> {
    match version {
        Ok(v) => Some(v),
        Err(_) => None,
    }
}

} // verus!
