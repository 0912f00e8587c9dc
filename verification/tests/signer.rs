use gossip_core::error::SignerError;
use gossip_core::keys::{EncryptedPrivateKey, KeySecurity, PublicKey, DEFAULT_LOG_N};
use gossip_core::signer::{FollowUp, Settings, Signer};

const V1_BLOB: &str = "ncryptsec1q9hnc06cs5tuk7znrxmetj4q9q2mjtccg995kp86jf3dsp3jykv4fhak730wds4s0mja6c9v2fvdr5dhzrstds8yks5j9ukvh25ydg6xtve6qvp90j0c8a2s5tv4xn7kvulg88";
const V1_PASSWORD: &str = "nostr";
const V1_SECRET_HEX: &str = "3501454135014541350145413501453fefb02227e449e57cf4d3a3ce05378683";
const V1_SECRET_NSEC: &str = "nsec1x5q52sf4q9z5zdgpg4qn2q298lhmqg38u3y72l856w3uupfhs6ps7q0j4y";
const BASE64_BLOB: &str = "AZ/2MU2igqP0keoW08Z/rxm+/3QYcZn3oNbVhY6DSUxSDkibNp+bFN/WsRQxP7yBKwyEJVu/YSBtm2PI9DawbYOfXDqfmpA3NTPavgXwUrw=";
const LOW_ROUNDS: u8 = 4;

fn public_of(key: &nostr_types::PrivateKey) -> PublicKey {
    let bytes: [u8; 32] = key.public_key().as_bytes().try_into().unwrap();
    PublicKey(bytes)
}

fn public_of_hex(hex: &str) -> PublicKey {
    public_of(&nostr_types::PrivateKey::try_from_hex_string(hex).unwrap())
}

fn other_public_key() -> PublicKey {
    public_of(&nostr_types::PrivateKey::generate())
}

fn locked_with(blob: &str) -> Signer {
    let mut signer = Signer::with_rounds(LOW_ROUNDS);
    signer.set_encrypted_private_key(EncryptedPrivateKey(blob.to_owned()));
    signer
}

fn unlocked_with_fresh_key(pass: &str) -> (Signer, PublicKey) {
    let key = nostr_types::PrivateKey::generate();
    let public = public_of(&key);
    let mut signer = Signer::with_rounds(LOW_ROUNDS);
    signer.set_private_key(key, pass).unwrap();
    (signer, public)
}

fn preevent(author: &PublicKey) -> nostr_types::PreEvent {
    nostr_types::PreEvent {
        pubkey: nostr_types::PublicKey::from_bytes(&author.0).unwrap(),
        created_at: nostr_types::Unixtime(1668572286),
        kind: nostr_types::EventKind::TextNote,
        tags: vec![],
        content: "This is a test".to_owned(),
        ots: None,
    }
}

#[test]
fn new_signer_holds_nothing() {
    let signer = Signer::new();
    assert!(!signer.is_loaded());
    assert!(!signer.is_ready());
    assert_eq!(signer.public_key(), None);
    assert_eq!(signer.encrypted_private_key(), None);
    assert_eq!(signer.key_security(), None);
    assert_eq!(DEFAULT_LOG_N, 18);
}

#[test]
fn set_public_key_on_empty_signer() {
    let mut signer = Signer::new();
    let mut status = String::from("untouched");
    let pk = other_public_key();
    signer.set_public_key(pk, &mut status);
    assert_eq!(signer.public_key(), Some(pk));
    assert_eq!(status, "untouched");
    assert!(!signer.is_loaded());
}

#[test]
fn set_public_key_is_ignored_when_unlocked() {
    let (mut signer, public) = unlocked_with_fresh_key("pw");
    let mut status = String::new();
    signer.set_public_key(other_public_key(), &mut status);
    assert_eq!(signer.public_key(), Some(public));
    assert_eq!(status, "Ignored setting of public key (private key supercedes)");
}

#[test]
fn clear_public_key_on_locked_signer() {
    let mut signer = locked_with(V1_BLOB);
    let mut status = String::from("untouched");
    signer.set_public_key(other_public_key(), &mut status);
    signer.clear_public_key(&mut status);
    assert_eq!(signer.public_key(), None);
    assert_eq!(status, "untouched");
    assert!(signer.is_loaded());
}

#[test]
fn clear_public_key_is_ignored_when_unlocked() {
    let (mut signer, public) = unlocked_with_fresh_key("pw");
    let mut status = String::new();
    signer.clear_public_key(&mut status);
    assert_eq!(signer.public_key(), Some(public));
    assert_eq!(status, "Ignored clearing of public key (private key supercedes)");
}

#[test]
fn set_encrypted_private_key_on_empty_signer() {
    let signer = locked_with("anything");
    assert_eq!(signer.encrypted_private_key(), Some(EncryptedPrivateKey("anything".to_owned())));
    assert!(signer.is_loaded());
    assert!(!signer.is_ready());
}

#[test]
fn set_encrypted_private_key_is_ignored_when_unlocked() {
    let (mut signer, _) = unlocked_with_fresh_key("pw");
    let before = signer.encrypted_private_key();
    signer.set_encrypted_private_key(EncryptedPrivateKey("other".to_owned()));
    assert_eq!(signer.encrypted_private_key(), before);
}

#[test]
fn set_encrypted_private_key_replaces_while_locked() {
    let mut signer = locked_with("first");
    signer.set_encrypted_private_key(EncryptedPrivateKey("second".to_owned()));
    assert_eq!(signer.encrypted_private_key(), Some(EncryptedPrivateKey("second".to_owned())));
}

#[test]
fn set_private_key_sets_all_three() {
    let key = nostr_types::PrivateKey::generate();
    let public = public_of(&key);
    let mut signer = Signer::with_rounds(LOW_ROUNDS);
    assert_eq!(signer.set_private_key(key, "pw"), Ok(()));
    assert!(signer.is_loaded());
    assert!(signer.is_ready());
    assert_eq!(signer.public_key(), Some(public));
    assert_eq!(signer.key_security(), Some(KeySecurity::Medium));
    let blob = signer.encrypted_private_key().unwrap();
    assert!(blob.0.starts_with("ncryptsec1"));
    assert_eq!(blob.0.chars().count(), 162);
    let sealed = nostr_types::EncryptedPrivateKey(blob.0);
    assert_eq!(sealed.version().unwrap(), 2);
    let opened = sealed.decrypt("pw").unwrap();
    assert_eq!(public_of(&opened), public);
    assert!(sealed.decrypt("other").is_err());
}

#[test]
fn set_private_key_keeps_a_weak_key_weak() {
    let key = nostr_types::PrivateKey::try_from_hex_string(V1_SECRET_HEX).unwrap();
    let mut signer = Signer::with_rounds(LOW_ROUNDS);
    signer.set_private_key(key, "pw").unwrap();
    assert_eq!(signer.key_security(), Some(KeySecurity::Weak));
    assert_eq!(signer.public_key(), Some(public_of_hex(V1_SECRET_HEX)));
}

#[test]
fn unlock_after_set_private_key_needs_no_password() {
    let (mut signer, public) = unlocked_with_fresh_key("pw");
    let blob = signer.encrypted_private_key();
    assert!(signer.is_ready());
    assert_eq!(signer.unlock_encrypted_private_key("not the password"), Ok(FollowUp::Nothing));
    assert!(signer.is_ready());
    assert_eq!(signer.public_key(), Some(public));
    assert_eq!(signer.encrypted_private_key(), blob);
}

#[test]
fn generate_private_key_makes_an_identity() {
    let mut signer = Signer::with_rounds(LOW_ROUNDS);
    assert_eq!(signer.generate_private_key("pw"), Ok(()));
    assert!(signer.is_ready());
    assert_eq!(signer.key_security(), Some(KeySecurity::Medium));
    let sealed = nostr_types::EncryptedPrivateKey(signer.encrypted_private_key().unwrap().0);
    let opened = sealed.decrypt("pw").unwrap();
    assert_eq!(Some(public_of(&opened)), signer.public_key());
    let mut other = Signer::with_rounds(LOW_ROUNDS);
    other.generate_private_key("pw").unwrap();
    assert_ne!(other.public_key(), signer.public_key());
}

#[test]
fn unlock_without_identity_fails() {
    let mut signer = Signer::new();
    assert_eq!(signer.unlock_encrypted_private_key("pw"), Err(SignerError::NoPrivateKey));
    let mut status = String::new();
    signer.set_public_key(other_public_key(), &mut status);
    assert_eq!(signer.unlock_encrypted_private_key("pw"), Err(SignerError::NoPrivateKey));
    assert!(!signer.is_ready());
}

#[test]
fn unlock_with_the_password() {
    let (first, public) = unlocked_with_fresh_key("pw");
    let mut settings = Settings { public_key: None, encrypted_private_key: None };
    first.save_through_settings(&mut settings);
    let mut signer = Signer::with_rounds(LOW_ROUNDS);
    signer.load_from_settings(&Settings {
        public_key: None,
        encrypted_private_key: settings.encrypted_private_key.clone(),
    });
    assert!(signer.is_loaded());
    assert!(!signer.is_ready());
    assert_eq!(signer.public_key(), None);
    assert_eq!(signer.unlock_encrypted_private_key("pw"), Ok(FollowUp::Nothing));
    assert!(signer.is_ready());
    assert_eq!(signer.public_key(), Some(public));
    assert_eq!(signer.key_security(), Some(KeySecurity::Medium));
    assert_eq!(signer.encrypted_private_key(), settings.encrypted_private_key);
}

#[test]
fn unlock_with_a_wrong_password() {
    let (first, _) = unlocked_with_fresh_key("pw");
    let blob = first.encrypted_private_key().unwrap();
    let mut signer = locked_with(&blob.0);
    assert_eq!(signer.unlock_encrypted_private_key("wrong"), Err(SignerError::Decryption));
    assert!(!signer.is_ready());
    assert_eq!(signer.public_key(), None);
    assert_eq!(signer.encrypted_private_key(), Some(blob));
}

#[test]
fn unlock_keeps_a_public_key_that_was_set() {
    let (first, _) = unlocked_with_fresh_key("pw");
    let mut signer = locked_with(&first.encrypted_private_key().unwrap().0);
    let claimed = other_public_key();
    let mut status = String::new();
    signer.set_public_key(claimed, &mut status);
    assert_eq!(signer.unlock_encrypted_private_key("pw"), Ok(FollowUp::Nothing));
    assert_eq!(signer.public_key(), Some(claimed));
}

#[test]
fn unlock_twice_is_unlock_once() {
    let mut signer = locked_with(V1_BLOB);
    assert_eq!(signer.unlock_encrypted_private_key(V1_PASSWORD), Ok(FollowUp::Migrate));
    let public = signer.public_key();
    let blob = signer.encrypted_private_key();
    let security = signer.key_security();
    assert_eq!(signer.unlock_encrypted_private_key(V1_PASSWORD), Ok(FollowUp::Nothing));
    assert_eq!(signer.public_key(), public);
    assert_eq!(signer.encrypted_private_key(), blob);
    assert_eq!(signer.key_security(), security);
    assert!(signer.is_ready());
}

#[test]
fn unlock_of_an_old_version_asks_for_migration() {
    let mut signer = locked_with(V1_BLOB);
    assert_eq!(signer.unlock_encrypted_private_key(V1_PASSWORD), Ok(FollowUp::Migrate));
    assert!(signer.is_ready());
    assert_eq!(signer.public_key(), Some(public_of_hex(V1_SECRET_HEX)));
    assert_eq!(signer.encrypted_private_key(), Some(EncryptedPrivateKey(V1_BLOB.to_owned())));
    assert_eq!(signer.migrate(V1_PASSWORD), Ok(()));
    let fresh = signer.encrypted_private_key().unwrap();
    assert_ne!(fresh.0, V1_BLOB);
    let sealed = nostr_types::EncryptedPrivateKey(fresh.0.clone());
    assert_eq!(sealed.version().unwrap(), 2);
    assert_eq!(public_of(&sealed.decrypt(V1_PASSWORD).unwrap()), public_of_hex(V1_SECRET_HEX));
    let mut settings = Settings { public_key: None, encrypted_private_key: None };
    signer.save_through_settings(&mut settings);
    assert_eq!(settings.encrypted_private_key, Some(fresh));
    assert_eq!(settings.public_key, Some(public_of_hex(V1_SECRET_HEX)));
    assert!(signer.is_ready());
}

#[test]
fn unlock_of_an_unversioned_blob_asks_for_migration() {
    let mut signer = locked_with(BASE64_BLOB);
    assert_eq!(signer.unlock_encrypted_private_key(V1_PASSWORD), Ok(FollowUp::Migrate));
    assert_eq!(signer.public_key(), Some(public_of_hex(V1_SECRET_HEX)));
}

#[test]
fn migrate_leaves_a_current_blob_alone() {
    let (mut signer, _) = unlocked_with_fresh_key("pw");
    let blob = signer.encrypted_private_key();
    assert_eq!(signer.migrate("pw"), Ok(()));
    assert_eq!(signer.encrypted_private_key(), blob);
    assert_eq!(signer.migrate("wrong"), Ok(()));
    assert_eq!(signer.encrypted_private_key(), blob);
}

#[test]
fn migrate_needs_the_password() {
    let mut signer = locked_with(V1_BLOB);
    assert_eq!(signer.migrate("wrong"), Err(SignerError::Decryption));
    assert_eq!(signer.encrypted_private_key(), Some(EncryptedPrivateKey(V1_BLOB.to_owned())));
    assert!(!signer.is_ready());
    let mut empty = Signer::new();
    assert_eq!(empty.migrate("pw"), Err(SignerError::NoPrivateKey));
}

#[test]
fn migrate_does_not_unlock() {
    let mut signer = locked_with(V1_BLOB);
    assert_eq!(signer.migrate(V1_PASSWORD), Ok(()));
    assert!(!signer.is_ready());
    assert_eq!(signer.public_key(), None);
    let sealed = nostr_types::EncryptedPrivateKey(signer.encrypted_private_key().unwrap().0);
    assert_eq!(sealed.version().unwrap(), 2);
}

#[test]
fn load_from_settings_drops_the_private_key() {
    let (mut signer, _) = unlocked_with_fresh_key("pw");
    let pk = other_public_key();
    let settings = Settings {
        public_key: Some(pk),
        encrypted_private_key: Some(EncryptedPrivateKey(V1_BLOB.to_owned())),
    };
    signer.load_from_settings(&settings);
    assert!(!signer.is_ready());
    assert!(signer.is_loaded());
    assert_eq!(signer.public_key(), Some(pk));
    assert_eq!(signer.encrypted_private_key(), Some(EncryptedPrivateKey(V1_BLOB.to_owned())));
    assert_eq!(signer.key_security(), None);
    signer.load_from_settings(&Settings { public_key: None, encrypted_private_key: None });
    assert!(!signer.is_loaded());
    assert_eq!(signer.public_key(), None);
}

#[test]
fn save_through_settings_writes_both_fields() {
    let (signer, public) = unlocked_with_fresh_key("pw");
    let mut settings = Settings {
        public_key: Some(other_public_key()),
        encrypted_private_key: Some(EncryptedPrivateKey("stale".to_owned())),
    };
    signer.save_through_settings(&mut settings);
    assert_eq!(settings.public_key, Some(public));
    assert_eq!(settings.encrypted_private_key, signer.encrypted_private_key());
    let empty = Signer::new();
    empty.save_through_settings(&mut settings);
    assert_eq!(settings, Settings { public_key: None, encrypted_private_key: None });
}

#[test]
fn export_with_a_wrong_password_changes_nothing() {
    let (first, public) = unlocked_with_fresh_key("pw");
    let blob = first.encrypted_private_key().unwrap();
    let mut signer = locked_with(&blob.0);
    let mut status = String::new();
    signer.set_public_key(public, &mut status);
    assert_eq!(signer.export_private_key_hex("wrong"), Err(SignerError::Decryption));
    assert_eq!(signer.export_private_key_bech32("wrong"), Err(SignerError::Decryption));
    assert_eq!(signer.public_key(), Some(public));
    assert_eq!(signer.encrypted_private_key(), Some(blob));
    assert!(!signer.is_ready());
}

#[test]
fn export_with_a_wrong_password_keeps_the_key_in_memory() {
    let (mut signer, public) = unlocked_with_fresh_key("pw");
    let blob = signer.encrypted_private_key();
    assert_eq!(signer.export_private_key_hex("wrong"), Err(SignerError::Decryption));
    assert_eq!(signer.public_key(), Some(public));
    assert_eq!(signer.encrypted_private_key(), blob);
    assert!(signer.is_ready());
    assert_eq!(signer.key_security(), Some(KeySecurity::Medium));
}

#[test]
fn export_without_identity_fails() {
    let mut signer = Signer::new();
    assert_eq!(signer.export_private_key_hex("pw"), Err(SignerError::NoPrivateKey));
    assert_eq!(signer.export_private_key_bech32("pw"), Err(SignerError::NoPrivateKey));
    assert_eq!(signer.delete_identity("pw"), Err(SignerError::NoPrivateKey));
}

#[test]
fn export_hex_of_a_known_key() {
    let mut signer = locked_with(V1_BLOB);
    assert_eq!(signer.export_private_key_hex(V1_PASSWORD), Ok(V1_SECRET_HEX.to_owned()));
    assert!(signer.is_ready());
    assert_eq!(signer.key_security(), Some(KeySecurity::Weak));
    assert_eq!(signer.public_key(), None);
    let fresh = signer.encrypted_private_key().unwrap();
    assert_ne!(fresh.0, V1_BLOB);
    let sealed = nostr_types::EncryptedPrivateKey(fresh.0);
    assert_eq!(sealed.version().unwrap(), 2);
    let opened = sealed.decrypt(V1_PASSWORD).unwrap();
    assert_eq!(opened.key_security(), nostr_types::KeySecurity::Weak);
    assert_eq!(public_of(&opened), public_of_hex(V1_SECRET_HEX));
}

#[test]
fn export_bech32_of_a_known_key() {
    let mut signer = locked_with(V1_BLOB);
    assert_eq!(signer.export_private_key_bech32(V1_PASSWORD), Ok(V1_SECRET_NSEC.to_owned()));
    assert!(signer.is_ready());
    assert_eq!(signer.key_security(), Some(KeySecurity::Weak));
}

#[test]
fn export_hex_round_trip() {
    let (mut signer, public) = unlocked_with_fresh_key("pw");
    assert_eq!(signer.public_key(), Some(public));
    let hex = signer.export_private_key_hex("pw").unwrap();
    assert_eq!(hex.len(), 64);
    assert_eq!(public_of_hex(&hex), public);
    assert_eq!(signer.public_key(), Some(public));
    assert_eq!(signer.key_security(), Some(KeySecurity::Weak));
}

#[test]
fn export_bech32_round_trip() {
    let (mut signer, public) = unlocked_with_fresh_key("pw");
    let nsec = signer.export_private_key_bech32("pw").unwrap();
    assert!(nsec.starts_with("nsec1"));
    let key = nostr_types::PrivateKey::try_from_bech32_string(&nsec).unwrap();
    assert_eq!(public_of(&key), public);
}

#[test]
fn delete_with_a_wrong_password_changes_nothing() {
    let (mut signer, public) = unlocked_with_fresh_key("pw");
    let blob = signer.encrypted_private_key();
    assert_eq!(signer.delete_identity("wrong"), Err(SignerError::Decryption));
    assert_eq!(signer.public_key(), Some(public));
    assert_eq!(signer.encrypted_private_key(), blob);
    assert!(signer.is_ready());
}

#[test]
fn delete_clears_everything() {
    let (mut signer, _) = unlocked_with_fresh_key("pw");
    assert_eq!(signer.delete_identity("pw"), Ok(()));
    assert!(!signer.is_loaded());
    assert!(!signer.is_ready());
    assert_eq!(signer.public_key(), None);
    assert_eq!(signer.encrypted_private_key(), None);
    assert_eq!(signer.key_security(), None);
}

#[test]
fn delete_of_a_locked_identity() {
    let mut signer = locked_with(V1_BLOB);
    let mut status = String::new();
    signer.set_public_key(other_public_key(), &mut status);
    assert_eq!(signer.delete_identity(V1_PASSWORD), Ok(()));
    assert!(!signer.is_loaded());
    assert_eq!(signer.public_key(), None);
}

#[test]
fn malformed_blobs_are_decryption_errors() {
    for blob in [
        "",
        "ncryptsec1",
        "ncryptsec106gcj8",
        "ncryptsec1qypqxpq93c8c3z",
        "ncryptsec1qyqszqgpqyqszqgpqyqszqgpqyqszqgpfnc884",
        "ncryptsec1qyysjzgfpyysjzgfpyysjzgfpyysjzgfpyysjzgfpyysjzgfpyyshczme0",
        "ncryptsec1qgqqqqqqqqqqqqqqqqqqqqqqqqqqqqqqqqqqqqqqqqqqqqqqqqqqqqqqqqqqqqqqqqv8mfkc",
        "ncryptsec1qvrswpc8qurswpc8qurswpc8qurswpc8qurswpc8qurswpc8qurswpc8qurswpc8qurswpc8qurswpc8qurswpc8qurswpc8qufwl3yj",
        "not a key at all",
        "ncryptsec1\u{e9}\u{e9}\u{e9}\u{e9}\u{e9}\u{e9}\u{e9}\u{e9}\u{e9}\u{e9}\u{e9}\u{e9}\u{e9}\u{e9}\u{e9}\u{e9}\u{e9}\u{e9}\u{e9}\u{e9}\u{e9}\u{e9}\u{e9}\u{e9}\u{e9}\u{e9}\u{e9}\u{e9}\u{e9}\u{e9}\u{e9}\u{e9}\u{e9}\u{e9}\u{e9}\u{e9}\u{e9}\u{e9}\u{e9}\u{e9}\u{e9}\u{e9}\u{e9}\u{e9}\u{e9}\u{e9}\u{e9}\u{e9}\u{e9}\u{e9}\u{e9}\u{e9}\u{e9}\u{e9}\u{e9}\u{e9}\u{e9}\u{e9}\u{e9}\u{e9}",
    ] {
        let mut signer = locked_with(blob);
        assert_eq!(signer.unlock_encrypted_private_key("pw"), Err(SignerError::Decryption));
        assert_eq!(signer.export_private_key_hex("pw"), Err(SignerError::Decryption));
        assert_eq!(signer.delete_identity("pw"), Err(SignerError::Decryption));
        assert!(!signer.is_ready());
        assert_eq!(signer.encrypted_private_key(), Some(EncryptedPrivateKey(blob.to_owned())));
    }
}

#[test]
fn well_framed_blobs() {
    assert!(EncryptedPrivateKey("".to_owned()).is_well_framed());
    assert!(EncryptedPrivateKey(BASE64_BLOB.to_owned()).is_well_framed());
    assert!(EncryptedPrivateKey(V1_BLOB.to_owned()).is_well_framed());
    assert!(EncryptedPrivateKey("ncryptsec".to_owned()).is_well_framed());
    assert!(EncryptedPrivateKey("ncryptsec2abc".to_owned()).is_well_framed());
    assert!(!EncryptedPrivateKey("ncryptsec1".to_owned()).is_well_framed());
    assert!(!EncryptedPrivateKey("ncryptsec106gcj8".to_owned()).is_well_framed());
    let mut text = String::from("ncryptsec1");
    while text.len() < 67 {
        text.push('q');
    }
    assert!(!EncryptedPrivateKey(text.clone()).is_well_framed());
    text.push('q');
    assert!(EncryptedPrivateKey(text).is_well_framed());
}

#[test]
fn install_takes_the_sealing_outcome() {
    let key = nostr_types::PrivateKey::generate();
    let public = public_of(&key);
    let mut signer = Signer::new();
    assert_eq!(signer.install(key, Ok(EncryptedPrivateKey("sealed".to_owned()))), Ok(()));
    assert!(signer.is_ready());
    assert_eq!(signer.public_key(), Some(public));
    assert_eq!(signer.encrypted_private_key(), Some(EncryptedPrivateKey("sealed".to_owned())));

    let mut failed = Signer::new();
    let key = nostr_types::PrivateKey::generate();
    assert_eq!(failed.install(key, Err(nostr_types::Error::Encryption)), Err(SignerError::Crypto));
    assert!(!failed.is_loaded());
    assert_eq!(failed.public_key(), None);
}

#[test]
fn unlock_with_takes_the_opening_outcome() {
    let key = nostr_types::PrivateKey::generate();
    let public = public_of(&key);
    let mut signer = locked_with("sealed");
    assert_eq!(signer.unlock_with(Ok(key), Ok(1)), Ok(FollowUp::Migrate));
    assert!(signer.is_ready());
    assert_eq!(signer.public_key(), Some(public));
    assert_eq!(signer.encrypted_private_key(), Some(EncryptedPrivateKey("sealed".to_owned())));

    for (version, follow_up) in [
        (-1, FollowUp::Migrate),
        (0, FollowUp::Migrate),
        (1, FollowUp::Migrate),
        (2, FollowUp::Nothing),
        (3, FollowUp::Nothing),
    ] {
        let mut signer = locked_with("sealed");
        let key = nostr_types::PrivateKey::generate();
        assert_eq!(signer.unlock_with(Ok(key), Ok(version)), Ok(follow_up));
    }

    let mut signer = locked_with("sealed");
    assert_eq!(
        signer.unlock_with(Err(nostr_types::Error::WrongDecryptionPassword), Ok(2)),
        Err(SignerError::Decryption)
    );
    assert!(!signer.is_ready());
    assert_eq!(signer.public_key(), None);
    let key = nostr_types::PrivateKey::generate();
    let public = public_of(&key);
    assert_eq!(
        signer.unlock_with(Ok(key), Err(nostr_types::Error::InvalidEncryptedPrivateKey)),
        Ok(FollowUp::Migrate)
    );
    assert!(signer.is_ready());
    assert_eq!(signer.public_key(), Some(public));
}

#[test]
fn reseal_takes_the_sealing_outcome() {
    let (mut signer, public) = unlocked_with_fresh_key("pw");
    let before = signer.encrypted_private_key();
    let key = nostr_types::PrivateKey::try_from_hex_string(V1_SECRET_HEX).unwrap();
    assert_eq!(signer.reseal(key, Err(nostr_types::Error::Scrypt)), Err(SignerError::Crypto));
    assert_eq!(signer.encrypted_private_key(), before);
    assert_eq!(signer.key_security(), Some(KeySecurity::Medium));
    let key = nostr_types::PrivateKey::try_from_hex_string(V1_SECRET_HEX).unwrap();
    assert_eq!(signer.reseal(key, Ok(EncryptedPrivateKey("fresh".to_owned()))), Ok(()));
    assert_eq!(signer.encrypted_private_key(), Some(EncryptedPrivateKey("fresh".to_owned())));
    assert_eq!(signer.key_security(), Some(KeySecurity::Weak));
    assert_eq!(signer.public_key(), Some(public));
}

#[test]
fn delete_with_takes_the_opening_outcome() {
    let (mut signer, public) = unlocked_with_fresh_key("pw");
    assert_eq!(
        signer.delete_with(Err(nostr_types::Error::WrongDecryptionPassword)),
        Err(SignerError::Decryption)
    );
    assert_eq!(signer.public_key(), Some(public));
    assert!(signer.is_ready());
    assert_eq!(signer.delete_with(Ok(nostr_types::PrivateKey::generate())), Ok(()));
    assert!(!signer.is_loaded());
    assert_eq!(signer.public_key(), None);
}

#[test]
fn sign_needs_a_private_key() {
    let signer = locked_with(V1_BLOB);
    let author = other_public_key();
    assert_eq!(signer.sign_preevent(preevent(&author), None).err(), Some(SignerError::NoPrivateKey));
    assert_eq!(
        signer.sign_preevent(preevent(&author), Some(4)).err(),
        Some(SignerError::NoPrivateKey)
    );
}

#[test]
fn sign_without_proof_of_work() {
    let (signer, public) = unlocked_with_fresh_key("pw");
    let event = signer.sign_preevent(preevent(&public), None).unwrap();
    assert!(event.verify(None).is_ok());
    assert_eq!(event.content, "This is a test");
    assert!(event.tags.is_empty());
    assert_eq!(event.pubkey.as_bytes(), public.0.to_vec());
}

#[test]
fn sign_with_proof_of_work() {
    let (signer, public) = unlocked_with_fresh_key("pw");
    for bits in [0u8, 1, 5, 10] {
        let event = signer.sign_preevent(preevent(&public), Some(bits)).unwrap();
        assert!(event.verify(None).is_ok());
        assert!(gossip_core::events::id_zero_bits(&event) >= bits as u32);
        assert_eq!(
            gossip_core::events::id_zero_bits(&event),
            gossip_core::events::count_leading_zero_bits(&event.id.0)
        );
        assert_eq!(event.pow(), bits);
    }
}

#[test]
fn leading_zero_bits_of_identifiers() {
    let mut id = [0u8; 32];
    assert_eq!(gossip_core::events::count_leading_zero_bits(&id), 256);
    id[31] = 1;
    assert_eq!(gossip_core::events::count_leading_zero_bits(&id), 255);
    id[0] = 0x80;
    assert_eq!(gossip_core::events::count_leading_zero_bits(&id), 0);
    id[0] = 0x01;
    assert_eq!(gossip_core::events::count_leading_zero_bits(&id), 7);
    id[0] = 0;
    id[1] = 0x52;
    assert_eq!(gossip_core::events::count_leading_zero_bits(&id), 9);
    id[1] = 0;
    id[2] = 0x1f;
    assert_eq!(gossip_core::events::count_leading_zero_bits(&id), 19);
}

#[test]
fn error_messages() {
    assert_eq!(SignerError::NoPrivateKey.message(), "No private key available.");
    assert_eq!(
        SignerError::Decryption.message(),
        "Wrong password, or the encrypted private key is corrupt."
    );
    assert_eq!(SignerError::Crypto.message(), "A cryptographic operation failed.");
    assert_eq!(SignerError::Persistence.message(), "The settings could not be saved.");
}

#[test]
fn default_signer_holds_nothing() {
    let mut signer = Signer::default();
    assert!(!signer.is_loaded());
    assert!(!signer.is_ready());
    assert_eq!(signer.public_key(), None);
    assert_eq!(signer.delete_identity("pw"), Err(SignerError::NoPrivateKey));
}

#[test]
fn sign_with_proof_of_work_keeps_the_preimage() {
    let (signer, public) = unlocked_with_fresh_key("pw");
    let event = signer.sign_preevent(preevent(&public), Some(6)).unwrap();
    assert_eq!(event.content, "This is a test");
    assert_eq!(event.created_at, nostr_types::Unixtime(1668572286));
    assert_eq!(event.kind, nostr_types::EventKind::TextNote);
    assert_eq!(event.pubkey.as_bytes(), public.0.to_vec());
    assert_eq!(event.tags.len(), 1);
}

fn payload_start(blob: &EncryptedPrivateKey) -> (u8, u8) {
    let charset = "qpzry9x8gf2tvdw0s3jn54khce6mua7l";
    let data = blob.0.strip_prefix("ncryptsec1").unwrap();
    let mut bits: u32 = 0;
    for c in data.chars().take(4) {
        bits = (bits << 5) | charset.find(c).unwrap() as u32;
    }
    ((bits >> 12) as u8, (bits >> 4) as u8)
}

#[test]
fn sealing_is_at_the_custodians_cost() {
    let (signer, _) = unlocked_with_fresh_key("pw");
    assert_eq!(payload_start(&signer.encrypted_private_key().unwrap()), (2, LOW_ROUNDS));

    let mut other = Signer::with_rounds(7);
    other.generate_private_key("pw").unwrap();
    assert_eq!(payload_start(&other.encrypted_private_key().unwrap()), (2, 7));
    other.export_private_key_hex("pw").unwrap();
    assert_eq!(payload_start(&other.encrypted_private_key().unwrap()), (2, 7));

    let mut old = Signer::with_rounds(5);
    old.set_encrypted_private_key(EncryptedPrivateKey(V1_BLOB.to_owned()));
    old.migrate(V1_PASSWORD).unwrap();
    assert_eq!(payload_start(&old.encrypted_private_key().unwrap()), (2, 5));
}

#[test]
fn sealing_at_a_refused_cost_fails() {
    let mut signer = Signer::with_rounds(64);
    let key = nostr_types::PrivateKey::generate();
    assert_eq!(signer.set_private_key(key, "pw"), Err(SignerError::Crypto));
    assert!(!signer.is_loaded());
    assert_eq!(signer.public_key(), None);
    assert_eq!(signer.generate_private_key("pw"), Err(SignerError::Crypto));
    assert!(!signer.is_loaded());
}

#[test]
fn migrate_with_takes_the_sealing_outcome() {
    let (mut signer, public) = unlocked_with_fresh_key("pw");
    let before = signer.encrypted_private_key();
    assert_eq!(signer.migrate_with(Err(nostr_types::Error::Scrypt)), Err(SignerError::Crypto));
    assert_eq!(signer.encrypted_private_key(), before);
    assert_eq!(signer.migrate_with(Ok(EncryptedPrivateKey("fresh".to_owned()))), Ok(()));
    assert_eq!(signer.encrypted_private_key(), Some(EncryptedPrivateKey("fresh".to_owned())));
    assert_eq!(signer.public_key(), Some(public));
    assert!(signer.is_ready());
    assert_eq!(signer.key_security(), Some(KeySecurity::Medium));

    let mut locked = locked_with("old");
    assert_eq!(locked.migrate_with(Ok(EncryptedPrivateKey("fresh".to_owned()))), Ok(()));
    assert!(!locked.is_ready());
    assert_eq!(locked.public_key(), None);
}

#[test]
fn sign_without_proof_of_work_is_repeatable() {
    let (signer, public) = unlocked_with_fresh_key("pw");
    let mut pre = preevent(&public);
    pre.tags = vec![
        nostr_types::Tag::Hashtag("verus".to_owned()),
        nostr_types::Tag::Nonce { nonce: "12".to_owned(), target: Some("3".to_owned()) },
    ];
    let first = signer.sign_preevent(pre.clone(), None).unwrap();
    let second = signer.sign_preevent(pre.clone(), None).unwrap();
    assert_eq!(first, second);
    assert_eq!(first.tags, pre.tags);
    assert_eq!(first.created_at, pre.created_at);
    assert_eq!(first.kind, pre.kind);
    assert_eq!(first.content, pre.content);
    assert_eq!(first.pubkey, pre.pubkey);
    assert!(first.verify(None).is_ok());

    let (other, _) = unlocked_with_fresh_key("pw");
    let third = other.sign_preevent(pre, None).unwrap();
    assert_eq!(third.id, first.id);
    assert_ne!(third.sig, first.sig);
}

#[test]
fn sign_with_proof_of_work_replaces_nonce_tags() {
    let (signer, public) = unlocked_with_fresh_key("pw");
    let mut pre = preevent(&public);
    pre.tags = vec![
        nostr_types::Tag::Nonce { nonce: "1".to_owned(), target: None },
        nostr_types::Tag::Hashtag("verus".to_owned()),
        nostr_types::Tag::Nonce { nonce: "12".to_owned(), target: Some("3".to_owned()) },
        nostr_types::Tag::Subject("tags".to_owned()),
    ];
    let event = signer.sign_preevent(pre.clone(), Some(7)).unwrap();
    assert_eq!(event.tags.len(), 3);
    assert_eq!(event.tags[0], nostr_types::Tag::Hashtag("verus".to_owned()));
    assert_eq!(event.tags[1], nostr_types::Tag::Subject("tags".to_owned()));
    match &event.tags[2] {
        nostr_types::Tag::Nonce { target, .. } => assert_eq!(target, &Some("7".to_owned())),
        other => panic!("no nonce tag at the end: {:?}", other),
    }
    assert_eq!(event.created_at, pre.created_at);
    assert_eq!(event.kind, pre.kind);
    assert_eq!(event.content, pre.content);
    assert_eq!(event.pubkey, pre.pubkey);
    assert!(gossip_core::events::id_zero_bits(&event) >= 7);
    assert!(event.verify(None).is_ok());

    let again = nostr_types::PreEvent {
        pubkey: event.pubkey,
        created_at: event.created_at,
        kind: event.kind,
        tags: event.tags.clone(),
        content: event.content.clone(),
        ots: None,
    };
    assert_eq!(signer.sign_preevent(again, None).unwrap(), event);
}
