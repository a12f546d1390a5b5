//! The issuer's public keys, by key id.
//!
//! Keys come with a registration or are fetched when they are first needed. They are
//! kept for good: ids only grow, and there are few.
use crate::protocol::{ActorResult, ActrError};
use crate::text::join;
use ed25519_dalek::Verifier;
use std::collections::HashMap;
use vstd::prelude::*;

verus! {

broadcast use vstd::std_specs::hash::group_hash_axioms;

/// The octets of an Ed25519 public key.
pub const KEY_SIZE: usize = 32;

/// The octets of an Ed25519 signature.
pub const SIGNATURE_SIZE: usize = 64;

/// Why `ed25519_dalek::VerifyingKey::from_bytes` refuses these octets, in words, if it
/// does.
pub uninterp spec fn key_refusal(key: Seq<u8>) -> Option<Seq<char>>;

/// Whether `ed25519_dalek::VerifyingKey::verify` accepts the signature of the message
/// under the key.
pub uninterp spec fn signature_accepted(
    key: Seq<u8>,
    message: Seq<u8>,
    signature: Seq<u8>,
) -> bool;

/// `ed25519_dalek::VerifyingKey::from_bytes`: whether the octets are a public key, or
/// in words why they are not.
#[verifier::external_body]
fn check_key(key: &[u8]) -> (r: Result<(), String>)
    requires
        key@.len() == KEY_SIZE,
    ensures
        match r {
            Ok(_) => key_refusal(key@) is None,
            Err(e) => key_refusal(key@) == Some(e@),
        },
{
    let mut octets = [0u8; 32];
    octets.copy_from_slice(key);
    match ed25519_dalek::VerifyingKey::from_bytes(&octets) {
        Ok(_) => Ok(()),
        Err(e) => Err(e.to_string()),
    }
}

/// `ed25519_dalek::VerifyingKey::verify`: whether the signature of the message is
/// accepted under the key.
#[verifier::external_body]
fn verify_signature(key: &[u8], message: &[u8], signature: &[u8]) -> (r: bool)
    requires
        key@.len() == KEY_SIZE,
        key_refusal(key@) is None,
        signature@.len() == SIGNATURE_SIZE,
    ensures
        r == signature_accepted(key@, message@, signature@),
{
    let mut octets = [0u8; 32];
    octets.copy_from_slice(key);
    let mut signed = [0u8; 64];
    signed.copy_from_slice(signature);
    match ed25519_dalek::VerifyingKey::from_bytes(&octets) {
        Ok(key) => key.verify(message, &ed25519_dalek::Signature::from_bytes(&signed)).is_ok(),
        Err(_) => false,
    }
}

/// The octets are a public key.
pub open spec fn is_key(key: Seq<u8>) -> bool {
    key.len() == KEY_SIZE && key_refusal(key) is None
}

/// A public key that signatures can be checked with.
#[derive(Debug)]
pub struct VerifyingKey {
    octets: Vec<u8>,
}

impl View for VerifyingKey {
    type V = Seq<u8>;

    closed spec fn view(&self) -> Seq<u8> {
        self.octets@
    }
}

impl VerifyingKey {
    #[verifier::type_invariant]
    spec fn is_valid(self) -> bool {
        is_key(self.octets@)
    }

    /// The key's octets.
    pub fn as_bytes(&self) -> (s: &[u8])
        ensures
            s@ == self@,
    {
        self.octets.as_slice()
    }

    /// Another copy of the key.
    pub fn duplicate(&self) -> (k: Self)
        ensures
            k@ == self@,
    {
        proof {
            use_type_invariant(self);
        }
        let octets = self.octets.clone();
        assert(octets@ =~= self.octets@);
        VerifyingKey { octets }
    }

    /// Whether the signature of the message is accepted. A signature that is not of 64
    /// octets never is.
    pub fn verify(&self, message: &[u8], signature: &[u8]) -> (r: bool)
        ensures
            r == accepts(self@, message@, signature@),
    {
        proof {
            use_type_invariant(self);
        }
        signature.len() == SIGNATURE_SIZE && verify_signature(
            self.octets.as_slice(),
            message,
            signature,
        )
    }
}

/// The signature has the right size and is accepted.
pub open spec fn accepts(key: Seq<u8>, message: Seq<u8>, signature: Seq<u8>) -> bool {
    signature.len() == SIGNATURE_SIZE && signature_accepted(key, message, signature)
}

/// The error for octets that are no public key, if they are none.
pub open spec fn key_error(
    key: Seq<u8>,
    wrong_size: Seq<char>,
    invalid: Seq<char>,
) -> Option<Seq<char>> {
    if key.len() != KEY_SIZE {
        Some(wrong_size)
    } else {
        match key_refusal(key) {
            Some(words) => Some(invalid + words),
            None => None,
        }
    }
}

fn make_key(octets: Vec<u8>, wrong_size: &str, invalid: &str) -> (r: Result<VerifyingKey, String>)
    ensures
        match key_error(octets@, wrong_size@, invalid@) {
            Some(words) => r matches Err(m) && m@ == words,
            None => r matches Ok(k) && k@ == octets@,
        },
{
    if octets.len() != KEY_SIZE {
        return Err(wrong_size.to_owned());
    }
    match check_key(octets.as_slice()) {
        Ok(_) => Ok(VerifyingKey { octets }),
        Err(e) => Err(join(invalid, e.as_str())),
    }
}

/// How a key is come by.
#[derive(Debug)]
pub enum KeyLookup {
    /// The key is there.
    Hit(VerifyingKey),
    /// The key is fetched from the signaling server and reported with
    /// [`AisKeyCache::fetched`].
    Fetch { key_id: u32 },
}

/// Public keys by key id.
pub struct AisKeyCache {
    cache: HashMap<u32, VerifyingKey>,
}

impl View for AisKeyCache {
    type V = Map<u32, Seq<u8>>;

    closed spec fn view(&self) -> Map<u32, Seq<u8>> {
        self.cache@.map_values(|k: VerifyingKey| k@)
    }
}

/// The key under an id, if it is cached.
pub open spec fn found(cache: Map<u32, Seq<u8>>, key_id: u32) -> Option<Seq<u8>> {
    if cache.contains_key(key_id) {
        Some(cache[key_id])
    } else {
        None
    }
}

/// The cache once a key has been put into it.
pub open spec fn with_key(cache: Map<u32, Seq<u8>>, key_id: u32, key: Seq<u8>) -> Map<u32, Seq<u8>> {
    cache.insert(key_id, key)
}

impl AisKeyCache {
    /// A cache without keys.
    pub fn new() -> (c: Self)
        ensures
            c@ == Map::<u32, Seq<u8>>::empty(),
    {
        let c = AisKeyCache { cache: HashMap::new() };
        assert(c@ =~= Map::<u32, Seq<u8>>::empty());
        c
    }

    fn keep(&mut self, key_id: u32, key: VerifyingKey)
        ensures
            final(self)@ == with_key(old(self)@, key_id, key@),
    {
        self.cache.insert(key_id, key);
        assert(self@ =~= with_key(old(self)@, key_id, key@));
    }

    /// Caches the key that came with a registration. Octets that are no public key are
    /// refused.
    pub fn seed(&mut self, key_id: u32, pubkey_bytes: &[u8]) -> (r: ActorResult<()>)
        ensures
            match key_error(
                pubkey_bytes@,
                "signing pubkey 必须为 32 字节"@,
                "signing pubkey 无效: "@,
            ) {
                Some(words) => final(self)@ == old(self)@ && (r matches Err(ActrError::Internal(m))
                    && m@ == words),
                None => r is Ok && final(self)@ == with_key(old(self)@, key_id, pubkey_bytes@),
            },
    {
        let octets = vstd::slice::slice_to_vec(pubkey_bytes);
        match make_key(octets, "signing pubkey 必须为 32 字节", "signing pubkey 无效: ") {
            Ok(key) => {
                self.keep(key_id, key);
                Ok(())
            },
            Err(m) => Err(ActrError::Internal(m)),
        }
    }

    /// Looks a key up; one that is not cached is to be fetched.
    pub fn get_or_fetch(&self, key_id: u32) -> (r: KeyLookup)
        ensures
            match found(self@, key_id) {
                Some(octets) => r matches KeyLookup::Hit(key) && key@ == octets,
                None => r == (KeyLookup::Fetch { key_id }),
            },
    {
        match self.cache.get(&key_id) {
            Some(key) => {
                assert(self@.contains_key(key_id));
                assert(self@[key_id] == key@);
                KeyLookup::Hit(key.duplicate())
            },
            None => KeyLookup::Fetch { key_id },
        }
    }

    /// Takes what the signaling server gave: the id and octets of a key, which is cached
    /// under that id and returned, or a failure in words.
    pub fn fetched(&mut self, reply: Result<(u32, Vec<u8>), String>) -> (r: ActorResult<
        VerifyingKey,
    >)
        ensures
            match reply {
                Err(words) => final(self)@ == old(self)@ && (r matches Err(ActrError::Internal(m))
                    && m@ == "拉取 signing 公钥失败: "@ + words@),
                Ok((id, octets)) => match key_error(
                    octets@,
                    "拉取到的 signing pubkey 必须为 32 字节"@,
                    "拉取到的 signing pubkey 无效: "@,
                ) {
                    Some(words) => final(self)@ == old(self)@ && (r matches Err(
                        ActrError::Internal(m),
                    ) && m@ == words),
                    None => {
                        &&& final(self)@ == with_key(old(self)@, id, octets@)
                        &&& r matches Ok(key)
                        &&& key@ == octets@
                    },
                },
            },
    {
        match reply {
            Err(words) => Err(
                ActrError::Internal(join("拉取 signing 公钥失败: ", words.as_str())),
            ),
            Ok((id, octets)) => match make_key(
                octets,
                "拉取到的 signing pubkey 必须为 32 字节",
                "拉取到的 signing pubkey 无效: ",
            ) {
                Ok(key) => {
                    let copy = key.duplicate();
                    self.keep(id, copy);
                    Ok(key)
                },
                Err(m) => Err(ActrError::Internal(m)),
            },
        }
    }
}

// ── Laws ──────────────────────────────────────────────────────────────────────

/// A key that was cached is found under its id as it was put in, and what is found
/// under other ids does not change.
pub proof fn a_cached_key_is_found(
    cache: Map<u32, Seq<u8>>,
    key_id: u32,
    key: Seq<u8>,
    wanted: u32,
)
    ensures
        found(with_key(cache, key_id, key), wanted) == if wanted == key_id {
            Some(key)
        } else {
            found(cache, wanted)
        },
{
}

/// Seeding the same key again changes nothing.
pub proof fn seeding_is_idempotent(cache: Map<u32, Seq<u8>>, key_id: u32, key: Seq<u8>)
    ensures
        with_key(with_key(cache, key_id, key), key_id, key) == with_key(cache, key_id, key),
{
    assert(with_key(with_key(cache, key_id, key), key_id, key) =~= with_key(cache, key_id, key));
}

/// A key that came with a registration is found under its id from then on, as it came. Octets
/// that are no key are refused, and change nothing. Other keys stay.
pub proof fn a_seeded_key_is_found(
    c: &mut AisKeyCache,
    key_id: u32,
    octets: &[u8],
    r: ActorResult<()>,
    wanted: u32,
    before: KeyLookup,
    after: KeyLookup,
)
    requires
        call_ensures(AisKeyCache::get_or_fetch, (&*old(c), wanted), before),
        call_ensures(AisKeyCache::seed, (c, key_id, octets), r),
        call_ensures(AisKeyCache::get_or_fetch, (&*final(c), wanted), after),
    ensures
        r is Ok <==> octets@.len() == 32 && key_refusal(octets@) is None,
        r matches Err(e) ==> (e matches ActrError::Internal(m) && m@ == if octets@.len() != 32 {
            "signing pubkey 必须为 32 字节"@
        } else {
            "signing pubkey 无效: "@ + key_refusal(octets@)->0
        }),
        r is Ok && wanted == key_id ==> (after matches KeyLookup::Hit(key) && key@ == octets@),
        r is Err || wanted != key_id ==> match before {
            KeyLookup::Hit(key) => after matches KeyLookup::Hit(k) && k@ == key@,
            KeyLookup::Fetch { .. } => after == (KeyLookup::Fetch { key_id: wanted }),
        },
{
}

/// A key that was fetched is handed out and kept under the id that it came with. A failure, or
/// octets that are no key, change nothing. A new cache fetches every key.
pub proof fn a_fetched_key_is_kept(
    c: &mut AisKeyCache,
    reply: Result<(u32, Vec<u8>), String>,
    r: ActorResult<VerifyingKey>,
    wanted: u32,
    before: KeyLookup,
    after: KeyLookup,
    fresh: AisKeyCache,
    missing: KeyLookup,
)
    requires
        call_ensures(AisKeyCache::get_or_fetch, (&*old(c), wanted), before),
        call_ensures(AisKeyCache::fetched, (c, reply), r),
        call_ensures(AisKeyCache::get_or_fetch, (&*final(c), wanted), after),
        call_ensures(AisKeyCache::new, (), fresh),
        call_ensures(AisKeyCache::get_or_fetch, (&fresh, wanted), missing),
    ensures
        r is Ok <==> (reply matches Ok((_, octets)) && octets@.len() == 32 && key_refusal(octets@)
            is None),
        r matches Err(e) ==> (e matches ActrError::Internal(m) && m@ == match reply {
            Err(words) => "拉取 signing 公钥失败: "@ + words@,
            Ok((_, octets)) => if octets@.len() != 32 {
                "拉取到的 signing pubkey 必须为 32 字节"@
            } else {
                "拉取到的 signing pubkey 无效: "@ + key_refusal(octets@)->0
            },
        }),
        r matches Ok(key) ==> key@ == reply->Ok_0.1@,
        r is Ok && wanted == reply->Ok_0.0 ==> (after matches KeyLookup::Hit(key) && key@
            == reply->Ok_0.1@),
        r is Err || wanted != reply->Ok_0.0 ==> match before {
            KeyLookup::Hit(key) => after matches KeyLookup::Hit(k) && k@ == key@,
            KeyLookup::Fetch { .. } => after == (KeyLookup::Fetch { key_id: wanted }),
        },
        missing == (KeyLookup::Fetch { key_id: wanted }),
{
}

/// A signature is accepted only if it is of 64 octets and accepted under the key; a copy of a
/// key accepts what the key does.
pub proof fn a_copy_accepts_what_the_key_does(
    key: VerifyingKey,
    copy: VerifyingKey,
    message: &[u8],
    signature: &[u8],
    r: bool,
    s: bool,
    octets: &[u8],
)
    requires
        call_ensures(VerifyingKey::duplicate, (&key,), copy),
        call_ensures(VerifyingKey::verify, (&key, message, signature), r),
        call_ensures(VerifyingKey::verify, (&copy, message, signature), s),
        call_ensures(VerifyingKey::as_bytes, (&key,), octets),
    ensures
        r == s,
        r <==> signature@.len() == 64 && signature_accepted(octets@, message@, signature@),
{
}

}
