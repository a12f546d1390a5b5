use actr::ais_key_cache::{AisKeyCache, KeyLookup, VerifyingKey};
use actr::protocol::{ActorResult, ActrError};
use ed25519_dalek::{Signer, SigningKey};

fn test_signing_key(seed: u8) -> SigningKey {
    SigningKey::from_bytes(&[seed; 32])
}

fn verifying_key_bytes(seed: u8) -> [u8; 32] {
    *test_signing_key(seed).verifying_key().as_bytes()
}

/// A signaling server that answers, or not, and counts how often it is asked.
struct MockSignaling {
    response: Option<(u32, Vec<u8>)>,
    calls: usize,
}

impl MockSignaling {
    fn ok(key_id: u32, bytes: Vec<u8>) -> Self {
        MockSignaling { response: Some((key_id, bytes)), calls: 0 }
    }

    fn err() -> Self {
        MockSignaling { response: None, calls: 0 }
    }

    fn get_signing_key(&mut self, _key_id: u32) -> Result<(u32, Vec<u8>), String> {
        self.calls += 1;
        match &self.response {
            Some(r) => Ok(r.clone()),
            None => Err("mock error".to_string()),
        }
    }
}

fn get_or_fetch(
    cache: &mut AisKeyCache,
    key_id: u32,
    signaling: &mut MockSignaling,
) -> ActorResult<VerifyingKey> {
    match cache.get_or_fetch(key_id) {
        KeyLookup::Hit(key) => Ok(key),
        KeyLookup::Fetch { key_id } => {
            let reply = signaling.get_signing_key(key_id);
            cache.fetched(reply)
        }
    }
}

#[test]
fn seed_valid_32_bytes_succeeds() {
    let mut cache = AisKeyCache::new();
    assert!(cache.seed(1, &verifying_key_bytes(1)).is_ok());
}

#[test]
fn seed_31_bytes_returns_error() {
    let mut cache = AisKeyCache::new();
    assert!(cache.seed(1, &[0u8; 31]).is_err());
}

#[test]
fn seed_33_bytes_returns_error() {
    let mut cache = AisKeyCache::new();
    assert!(cache.seed(1, &[0u8; 33]).is_err());
}

#[test]
fn seed_empty_returns_error() {
    let mut cache = AisKeyCache::new();
    assert!(cache.seed(1, &[]).is_err());
}

#[test]
fn seed_twice_same_key_id_is_idempotent() {
    let mut cache = AisKeyCache::new();
    let bytes = verifying_key_bytes(2);
    cache.seed(1, &bytes).unwrap();
    cache.seed(1, &bytes).unwrap();
    let mut mock = MockSignaling::err();
    let result = get_or_fetch(&mut cache, 1, &mut mock);
    assert!(result.is_ok());
    assert_eq!(mock.calls, 0, "seeded key must be hit from cache");
}

#[test]
fn cache_hit_does_not_call_signaling() {
    let mut cache = AisKeyCache::new();
    let bytes = verifying_key_bytes(3);
    cache.seed(1, &bytes).unwrap();

    let mut mock = MockSignaling::err();
    let result = get_or_fetch(&mut cache, 1, &mut mock);
    assert!(result.is_ok());
    assert_eq!(mock.calls, 0);
}

#[test]
fn cache_hit_returns_correct_key() {
    let mut cache = AisKeyCache::new();
    let bytes = verifying_key_bytes(4);
    cache.seed(7, &bytes).unwrap();

    let mut mock = MockSignaling::err();
    let key = get_or_fetch(&mut cache, 7, &mut mock).unwrap();
    assert_eq!(key.as_bytes(), &bytes);
}

#[test]
fn cache_miss_calls_signaling_and_caches_result() {
    let mut cache = AisKeyCache::new();
    let bytes = verifying_key_bytes(5);
    let mut mock = MockSignaling::ok(5, bytes.to_vec());

    let result = get_or_fetch(&mut cache, 5, &mut mock);
    assert!(result.is_ok());
    assert_eq!(mock.calls, 1);

    let mut mock2 = MockSignaling::err();
    let result2 = get_or_fetch(&mut cache, 5, &mut mock2);
    assert!(result2.is_ok());
    assert_eq!(mock2.calls, 0, "second call should be cache hit");
}

#[test]
fn cache_miss_signaling_failure_returns_error() {
    let mut cache = AisKeyCache::new();
    let mut mock = MockSignaling::err();
    let result = get_or_fetch(&mut cache, 9, &mut mock);
    assert!(result.is_err());
    assert_eq!(mock.calls, 1);
}

#[test]
fn cache_miss_signaling_returns_31_byte_pubkey_returns_error() {
    let mut cache = AisKeyCache::new();
    let mut mock = MockSignaling::ok(3, vec![0u8; 31]);
    let result = get_or_fetch(&mut cache, 3, &mut mock);
    assert!(result.is_err(), "invalid pubkey length should return error");
}

#[test]
fn different_key_ids_cached_independently() {
    let mut cache = AisKeyCache::new();
    cache.seed(1, &verifying_key_bytes(10)).unwrap();
    cache.seed(2, &verifying_key_bytes(20)).unwrap();

    let mut mock = MockSignaling::err();
    let k1 = get_or_fetch(&mut cache, 1, &mut mock).unwrap();
    let k2 = get_or_fetch(&mut cache, 2, &mut mock).unwrap();
    assert_ne!(k1.as_bytes(), k2.as_bytes());
    assert_eq!(mock.calls, 0);
}

#[test]
fn a_key_is_kept_under_the_id_that_the_server_gave() {
    let mut cache = AisKeyCache::new();
    let bytes = verifying_key_bytes(6);
    let mut mock = MockSignaling::ok(12, bytes.to_vec());
    get_or_fetch(&mut cache, 11, &mut mock).unwrap();
    assert!(matches!(cache.get_or_fetch(12), KeyLookup::Hit(_)));
    assert!(matches!(cache.get_or_fetch(11), KeyLookup::Fetch { key_id: 11 }));
}

#[test]
fn octets_that_are_no_key_are_refused() {
    let mut off_curve = [0u8; 32];
    off_curve[0] = 2;
    let mut cache = AisKeyCache::new();
    match cache.seed(1, &off_curve) {
        Err(ActrError::Internal(_)) => {}
        other => panic!("unexpected {other:?}"),
    }
    assert!(matches!(cache.get_or_fetch(1), KeyLookup::Fetch { key_id: 1 }));
}

#[test]
fn only_the_signature_of_the_message_is_accepted() {
    let signing = test_signing_key(30);
    let mut cache = AisKeyCache::new();
    cache.seed(1, signing.verifying_key().as_bytes()).unwrap();
    let key = match cache.get_or_fetch(1) {
        KeyLookup::Hit(key) => key,
        other => panic!("unexpected {other:?}"),
    };
    let signature = signing.sign(b"message").to_bytes();
    assert!(key.verify(b"message", &signature));
    assert!(!key.verify(b"massage", &signature));
    assert!(!key.verify(b"message", &signature[..63]));
    let foreign = test_signing_key(31).sign(b"message").to_bytes();
    assert!(!key.verify(b"message", &foreign));
}
