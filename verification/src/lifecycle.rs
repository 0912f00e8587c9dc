//! What holds of the custodian across operations, stated over its view
//! and proved from the definitions that the operations' contracts use.

use vstd::prelude::*;
use crate::error::SignerError;
use crate::keys::{
    blob_cost, blob_version, decrypted, derived_public, hex_digit, lower_hex, well_framed, KeyView,
    CURRENT_VERSION,
};
use crate::signer::{FollowUp, SignerView};

verus! {

/// A sealed key and a password go together when the text is well framed
/// and opens under the password.
pub open spec fn opens_under(blob: Seq<char>, password: Seq<char>) -> bool {
    &&& well_framed(blob)
    &&& decrypted(blob, password) is Some
}

/// Once a key has been taken in, the custodian is ready: unlocking
/// succeeds under any password and changes nothing.
pub proof fn taken_in_key_is_unlocked(
    before: SignerView,
    key: KeyView,
    blob: Seq<char>,
    password: Seq<char>,
)
    ensures
        before.adopting(key, blob).is_ready(),
        before.adopting(key, blob).unlock_result(password) == Ok::<FollowUp, SignerError>(
            FollowUp::Nothing,
        ),
        before.adopting(key, blob).unlocked(password) == before.adopting(key, blob),
{
}

/// The password under which a key was taken in proves itself afterwards:
/// it opens the sealed key to that key, so an export or a deletion under
/// it goes through.
pub proof fn taken_in_key_answers_its_password(
    before: SignerView,
    key: KeyView,
    password: Seq<char>,
    after: SignerView,
)
    requires
        before.adopts_to(key, password, after),
    ensures
        after.password_proof(password) == Ok::<KeyView, SignerError>(key),
        after.is_current(),
{
}

/// A locked custodian is ready after an unlock with a password that goes
/// with its sealed key. With one under which the sealed key does not
/// open, the unlock fails as a decryption, changes nothing, and the
/// custodian is not ready.
pub proof fn unlock_follows_the_password(
    locked: SignerView,
    blob: Seq<char>,
    password: Seq<char>,
    wrong: Seq<char>,
)
    requires
        locked.private is None,
        locked.encrypted == Some(blob),
        opens_under(blob, password),
        decrypted(blob, wrong) is None,
    ensures
        locked.unlock_result(password) is Ok,
        locked.unlocked(password).is_ready(),
        locked.unlocked(password).private == decrypted(blob, password),
        locked.unlock_result(wrong) == Err::<FollowUp, SignerError>(SignerError::Decryption),
        locked.unlocked(wrong) == locked,
        !locked.unlocked(wrong).is_ready(),
{
}

/// Unlocking twice is unlocking once: the second call changes nothing,
/// and after a first success it succeeds and asks for no migration.
pub proof fn unlock_is_idempotent(signer: SignerView, password: Seq<char>)
    ensures
        signer.unlocked(password).unlocked(password) == signer.unlocked(password),
        signer.unlock_result(password) is Ok ==> signer.unlocked(password).unlock_result(password)
            == Ok::<FollowUp, SignerError>(FollowUp::Nothing),
        signer.unlock_result(password) is Err ==> signer.unlocked(password).unlock_result(password)
            == signer.unlock_result(password),
{
}

/// With a private key in memory, neither setting nor clearing the public
/// key changes anything.
pub proof fn private_key_decides_public_key(signer: SignerView, other: Seq<u8>)
    requires
        signer.private is Some,
    ensures
        signer.with_public_key(other) == signer,
        signer.without_public_key() == signer,
{
}

/// An unlock of a sealed key of an old version asks for a migration; the
/// migration that follows, once it has sealed the key anew, leaves a
/// sealed key of the current version, at the custodian's cost, that opens
/// to the same key under the same password, and the custodian stays ready.
pub proof fn old_version_is_migrated(
    locked: SignerView,
    blob: Seq<char>,
    password: Seq<char>,
    after: SignerView,
)
    requires
        locked.private is None,
        locked.encrypted == Some(blob),
        opens_under(blob, password),
        blob_version(blob) matches Some(v) ==> v < CURRENT_VERSION,
        locked.unlocked(password).migrates_to(decrypted(blob, password)->0, password, after),
    ensures
        locked.unlock_result(password) == Ok::<FollowUp, SignerError>(FollowUp::Migrate),
        !locked.unlocked(password).is_current(),
        locked.unlocked(password).password_proof(password) == Ok::<KeyView, SignerError>(
            decrypted(blob, password)->0,
        ),
        after.is_ready(),
        after.is_current(),
        after.encrypted matches Some(fresh) && blob_version(fresh)->0 >= CURRENT_VERSION
            && blob_cost(fresh) == Some(locked.log_n) && decrypted(fresh, password) == decrypted(
            blob,
            password,
        ),
        after.unlock_result(password) == Ok::<FollowUp, SignerError>(FollowUp::Nothing),
{
}

/// A password under which the sealed key does not open proves nothing:
/// the proof fails as a decryption.
pub proof fn wrong_password_proves_nothing(signer: SignerView, blob: Seq<char>, wrong: Seq<char>)
    requires
        signer.encrypted == Some(blob),
        decrypted(blob, wrong) is None,
    ensures
        signer.password_proof(wrong) == Err::<KeyView, SignerError>(SignerError::Decryption),
{
}

/// After a deletion no identity is loaded and no public key is known.
pub proof fn deletion_is_complete(signer: SignerView)
    ensures
        !signer.deleted().is_loaded(),
        !signer.deleted().is_ready(),
        signer.deleted().public is None,
{
}

/// The sixteen hexadecimal digits differ from one another.
pub proof fn hex_digits_differ(a: int, b: int)
    requires
        0 <= a < 16,
        0 <= b < 16,
        hex_digit(a) == hex_digit(b),
    ensures
        a == b,
{
}

/// Two byte sequences with the same hexadecimal text are the same.
pub proof fn lower_hex_is_injective(a: Seq<u8>, b: Seq<u8>)
    requires
        lower_hex(a) == lower_hex(b),
    ensures
        a == b,
{
    assert(lower_hex(a).len() == 2 * a.len());
    assert(lower_hex(b).len() == 2 * b.len());
    assert(a.len() == b.len());
    assert forall|i: int| 0 <= i < a.len() implies a[i] == b[i] by {
        let x = a[i] as int;
        let y = b[i] as int;
        assert((2 * i) % 2 == 0 && (2 * i) / 2 == i);
        assert((2 * i + 1) % 2 == 1 && (2 * i + 1) / 2 == i);
        assert(lower_hex(a)[2 * i] == hex_digit(x / 16));
        assert(lower_hex(b)[2 * i] == hex_digit(y / 16));
        assert(lower_hex(a)[2 * i + 1] == hex_digit(x % 16));
        assert(lower_hex(b)[2 * i + 1] == hex_digit(y % 16));
        hex_digits_differ(x / 16, y / 16);
        hex_digits_differ(x % 16, y % 16);
    }
    assert(a =~= b);
}

/// The hexadecimal text that an export hands out names the identity: any
/// key whose secret renders to that text has the public key that the
/// custodian knew before the export, where that public key was the one of
/// the sealed key.
pub proof fn exported_hex_names_the_identity(
    signer: SignerView,
    password: Seq<char>,
    key: KeyView,
    text: Seq<char>,
    reimported: KeyView,
)
    requires
        signer.password_proof(password) == Ok::<KeyView, SignerError>(key),
        signer.public == Some(derived_public(key.secret)),
        text == lower_hex(key.secret),
        lower_hex(reimported.secret) == text,
    ensures
        Some(derived_public(reimported.secret)) == signer.public,
{
    lower_hex_is_injective(reimported.secret, key.secret);
}

} // verus!
