use tmkms::{sign_bytes, ChainId, InitError, SignedMsgType, VoteMessage, MAX_ROUND};

fn proposal(height: i64, round: i64) -> VoteMessage {
    VoteMessage { height, round, message_type: SignedMsgType::Proposal }
}

fn chain(name: &str) -> ChainId {
    ChainId::parse(name).expect("valid chain id")
}

fn chain_field(name: &str) -> Vec<u8> {
    let mut v = vec![58u8, name.len() as u8];
    v.extend_from_slice(name.as_bytes());
    v
}

#[test]
fn chain_id_accepts_well_formed_names() {
    assert!(ChainId::parse("test-chain").is_some());
    assert!(ChainId::parse("cosmoshub-4").is_some());
    assert!(ChainId::parse("a.b_c-D9").is_some());
    assert_eq!(ChainId::parse("gaia-9000").unwrap().as_str(), "gaia-9000");
    let longest = "x".repeat(50);
    assert!(ChainId::parse(&longest).is_some());
}

#[test]
fn chain_id_rejects_malformed_names() {
    assert!(ChainId::parse("").is_none());
    assert!(ChainId::parse(&"x".repeat(51)).is_none());
    assert!(ChainId::parse("has space").is_none());
    assert!(ChainId::parse("colon:chain").is_none());
    assert!(ChainId::parse("caf\u{e9}").is_none());
}

#[test]
fn chain_id_comparison_and_clone() {
    let a = chain("alpha");
    let b = chain("alpha");
    let c = chain("beta");
    assert!(a.same_chain(&b));
    assert!(!a.same_chain(&c));
    assert_eq!(a.clone().as_str(), "alpha");
}

#[test]
fn sign_bytes_at_height_zero_round_zero() {
    let bytes = sign_bytes(&proposal(0, 0), &chain("test-chain")).unwrap();
    let mut want = vec![25u8, 8, 32, 32, 255, 255, 255, 255, 255, 255, 255, 255, 255, 1];
    want.extend(chain_field("test-chain"));
    assert_eq!(bytes, want);
}

#[test]
fn sign_bytes_at_height_five_round_two() {
    let bytes = sign_bytes(&proposal(5, 2), &chain("test-chain")).unwrap();
    let mut want = vec![43u8, 8, 32];
    want.extend([17u8, 5, 0, 0, 0, 0, 0, 0, 0]);
    want.extend([25u8, 2, 0, 0, 0, 0, 0, 0, 0]);
    want.extend([32u8, 255, 255, 255, 255, 255, 255, 255, 255, 255, 1]);
    want.extend(chain_field("test-chain"));
    assert_eq!(bytes, want);
}

#[test]
fn sign_bytes_is_deterministic() {
    let m = proposal(12345, 7);
    let first = sign_bytes(&m, &chain("gaia-9000")).unwrap();
    let second = sign_bytes(&m, &chain("gaia-9000")).unwrap();
    assert_eq!(first, second);
    let m0 = proposal(0, 0);
    assert_eq!(
        sign_bytes(&m0, &chain("x")).unwrap(),
        sign_bytes(&m0, &chain("x")).unwrap()
    );
}

#[test]
fn sign_bytes_is_bound_to_the_chain() {
    for m in [proposal(0, 0), proposal(5, 2), proposal(i64::MAX, MAX_ROUND)] {
        let a = sign_bytes(&m, &chain("chain-a")).unwrap();
        let b = sign_bytes(&m, &chain("chain-b")).unwrap();
        let c = sign_bytes(&m, &chain("a")).unwrap();
        assert_ne!(a, b);
        assert_ne!(a, c);
        assert!(a.ends_with(&chain_field("chain-a")));
        assert!(c.ends_with(&chain_field("a")));
    }
}

#[test]
fn sign_bytes_differ_with_height_and_round() {
    let c = chain("test-chain");
    let base = sign_bytes(&proposal(5, 2), &c).unwrap();
    assert_ne!(base, sign_bytes(&proposal(6, 2), &c).unwrap());
    assert_ne!(base, sign_bytes(&proposal(5, 3), &c).unwrap());
}

#[test]
fn sign_bytes_rejects_unencodable_messages() {
    let c = chain("test-chain");
    assert_eq!(sign_bytes(&proposal(-1, 0), &c), Err(InitError::EncodingError));
    assert_eq!(sign_bytes(&proposal(0, -1), &c), Err(InitError::EncodingError));
    assert_eq!(sign_bytes(&proposal(0, MAX_ROUND + 1), &c), Err(InitError::EncodingError));
    assert_eq!(sign_bytes(&proposal(0, i64::MAX), &c), Err(InitError::EncodingError));
    assert!(sign_bytes(&proposal(i64::MAX, MAX_ROUND), &c).is_ok());
}

#[test]
fn sign_bytes_with_large_height_and_round() {
    let bytes = sign_bytes(&proposal(0x0102030405060708, MAX_ROUND), &chain("c")).unwrap();
    let mut want = vec![34u8, 8, 32];
    want.extend([17u8, 8, 7, 6, 5, 4, 3, 2, 1]);
    want.extend([25u8, 255, 255, 255, 127, 0, 0, 0, 0]);
    want.extend([32u8, 255, 255, 255, 255, 255, 255, 255, 255, 255, 1]);
    want.extend(chain_field("c"));
    assert_eq!(bytes, want);
}

#[test]
fn sign_bytes_with_zero_height_and_nonzero_round() {
    let bytes = sign_bytes(&proposal(0, 3), &chain("ab")).unwrap();
    let mut want = vec![26u8, 8, 32];
    want.extend([25u8, 3, 0, 0, 0, 0, 0, 0, 0]);
    want.extend([32u8, 255, 255, 255, 255, 255, 255, 255, 255, 255, 1]);
    want.extend(chain_field("ab"));
    assert_eq!(bytes, want);
    let other = sign_bytes(&proposal(3, 0), &chain("ab")).unwrap();
    assert_ne!(bytes, other);
}
