//! Signing: the calls into `nostr_types` that turn a pre-event into a
//! signed event, and the measure of an identifier's proof of work.

use vstd::prelude::*;
use vstd::std_specs::bits::{axiom_u8_leading_zeros, u8_leading_zeros};
use crate::keys::key_secret;

verus! {

/// `nostr_types::PreEvent`, carried as an opaque value.
#[verifier::external_type_specification]
#[verifier::external_body]
pub struct ExPreEvent(nostr_types::PreEvent);

/// `nostr_types::Event`, carried as an opaque value.
#[verifier::external_type_specification]
#[verifier::external_body]
pub struct ExEvent(nostr_types::Event);

/// One tag of an event: whether it is a nonce tag, and the JSON text that
/// it is written as.
pub struct TagView {
    pub nonce: bool,
    pub written: Seq<char>,
}

/// What an event says: who wrote it, when, of what kind, its tags and its
/// content. The identifier is a hash over these.
pub struct Preimage {
    pub pubkey: Seq<u8>,
    pub created_at: i64,
    pub kind: u64,
    pub tags: Seq<TagView>,
    pub content: Seq<char>,
}

/// The fields that a pre-event holds.
pub uninterp spec fn preevent_preimage(preevent: nostr_types::PreEvent) -> Preimage;

/// The fields that an event holds beside its identifier and signature.
pub uninterp spec fn event_preimage(event: nostr_types::Event) -> Preimage;

/// The identifier that an event holds: 32 bytes.
pub uninterp spec fn event_id(event: nostr_types::Event) -> Seq<u8>;

/// The signature that an event holds: 64 bytes.
pub uninterp spec fn event_signature(event: nostr_types::Event) -> Seq<u8>;

/// The identifier of an event with these fields: the hash of their
/// serialisation.
pub uninterp spec fn identifier(preimage: Preimage) -> Seq<u8>;

/// The identifier and the signature that signing these fields with a
/// secret gives, if it succeeds.
pub uninterp spec fn signed(preimage: Preimage, secret: Seq<u8>) -> Option<(Seq<u8>, Seq<u8>)>;

/// Whether `after` is `before` with its nonce tags taken out and one nonce
/// tag put at the end.
pub open spec fn with_fresh_nonce(before: Preimage, after: Preimage) -> bool {
    &&& after.pubkey == before.pubkey
    &&& after.created_at == before.created_at
    &&& after.kind == before.kind
    &&& after.content == before.content
    &&& after.tags.len() > 0
    &&& after.tags.last().nonce
    &&& after.tags.drop_last() == before.tags.filter(|tag: TagView| !tag.nonce)
}

/// Whether `event` is what signing its own fields with `secret` gives.
pub open spec fn is_signed_by(event: nostr_types::Event, secret: Seq<u8>) -> bool {
    &&& event_id(event) == identifier(event_preimage(event))
    &&& signed(event_preimage(event), secret) == Some((event_id(event), event_signature(event)))
}

/// The number of zero bits before the first one bit of `bytes`, read from
/// the first byte's high end; eight for each byte if all are zero.
pub open spec fn leading_zero_bits(bytes: Seq<u8>) -> nat
    decreases bytes.len(),
{
    if bytes.len() == 0 {
        0
    } else if bytes[0] == 0 {
        8 + leading_zero_bits(bytes.drop_first())
    } else {
        u8_leading_zeros(bytes[0]) as nat
    }
}

/// The zero bits of a sequence that starts with `n` zero bytes and then
/// holds a byte that is not zero.
pub proof fn leading_zero_bits_after_zero_bytes(bytes: Seq<u8>, n: int)
    requires
        0 <= n < bytes.len(),
        forall|j: int| 0 <= j < n ==> bytes[j] == 0,
        bytes[n] != 0,
    ensures
        leading_zero_bits(bytes) == 8 * n + u8_leading_zeros(bytes[n]),
    decreases n,
{
    if n > 0 {
        let rest = bytes.drop_first();
        assert forall|j: int| 0 <= j < n - 1 implies rest[j] == 0 by {
            assert(rest[j] == bytes[j + 1]);
        }
        assert(rest[n - 1] == bytes[n]);
        leading_zero_bits_after_zero_bytes(rest, n - 1);
    }
}

/// The zero bits of a sequence of zero bytes.
pub proof fn leading_zero_bits_of_zero_bytes(bytes: Seq<u8>)
    requires
        forall|j: int| 0 <= j < bytes.len() ==> bytes[j] == 0,
    ensures
        leading_zero_bits(bytes) == 8 * bytes.len(),
    decreases bytes.len(),
{
    if bytes.len() > 0 {
        let rest = bytes.drop_first();
        assert forall|j: int| 0 <= j < rest.len() implies rest[j] == 0 by {
            assert(rest[j] == bytes[j + 1]);
        }
        leading_zero_bits_of_zero_bytes(rest);
    }
}

/// Counts the leading zero bits of an identifier.
pub fn count_leading_zero_bits(id: &[u8; 32]) -> (n: u32)
    ensures
        n == leading_zero_bits(id@),
        n <= 256,
{
    let mut i: usize = 0;
    while i < 32 && id[i] == 0
        invariant
            i <= 32,
            forall|j: int| 0 <= j < i ==> id@[j] == 0,
        decreases 32 - i,
    {
        i += 1;
    }
    if i == 32 {
        proof {
            leading_zero_bits_of_zero_bytes(id@);
        }
        256
    } else {
        proof {
            leading_zero_bits_after_zero_bytes(id@, i as int);
            axiom_u8_leading_zeros(id@[i as int]);
        }
        8 * (i as u32) + id[i].leading_zeros()
    }
}

/// `Event::new`: hashes the pre-event's fields into an identifier and
/// signs it with fixed auxiliary bytes, so the outcome depends on the
/// fields and the secret alone. The event takes over the pre-event's
/// fields as they are.
#[verifier::external_body]
pub(crate) fn sign_event(preevent: nostr_types::PreEvent, key: &nostr_types::PrivateKey) -> (r:
    Result<nostr_types::Event, nostr_types::Error>)
    ensures
        match signed(preevent_preimage(preevent), key_secret(*key)) {
            Some((id, signature)) => {
                &&& r matches Ok(event)
                &&& event_preimage(event) == preevent_preimage(preevent)
                &&& event_id(event) == id
                &&& event_signature(event) == signature
                &&& id == identifier(preevent_preimage(preevent))
            },
            None => r is Err,
        },
{
    nostr_types::Event::new(preevent, key)
}

/// `Event::new_with_pow`: takes the nonce tags out of the pre-event, puts
/// one at the end, searches for a nonce under which the identifier starts
/// with at least `zero_bits` zero bits, and hashes and signs those fields
/// as `Event::new` does. Which nonce is found depends on the threads that
/// search. The search has no bound of its own: it ends when a nonce is
/// found.
#[verifier::external_body]
pub(crate) fn sign_event_with_pow(
    preevent: nostr_types::PreEvent,
    key: &nostr_types::PrivateKey,
    zero_bits: u8,
) -> (r: Result<nostr_types::Event, nostr_types::Error>)
    ensures
        r matches Ok(event) ==> {
            &&& with_fresh_nonce(preevent_preimage(preevent), event_preimage(event))
            &&& event_id(event) == identifier(event_preimage(event))
            &&& signed(event_preimage(event), key_secret(*key)) == Some(
                (event_id(event), event_signature(event)),
            )
            &&& leading_zero_bits(event_id(event)) >= zero_bits
        },
{
    nostr_types::Event::new_with_pow(preevent, key, zero_bits)
}

/// Reads the field `id` of an event.
#[verifier::external_body]
pub(crate) fn event_id_of(event: &nostr_types::Event) -> (id: [u8; 32])
    ensures
        id@ == event_id(*event),
{
    event.id.0
}

/// The number of leading zero bits of an event's identifier: the proof of
/// work that the event carries, whatever it claims.
pub fn id_zero_bits(event: &nostr_types::Event) -> (n: u32)
    ensures
        n == leading_zero_bits(event_id(*event)),
{
    let id = event_id_of(event);
    count_leading_zero_bits(&id)
}

} // verus!
