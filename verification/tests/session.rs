use chain_session::envelope::decode_envelope;
use chain_session::error::Error;
use chain_session::session::WebClient;
use chain_session::store::{verifier_outcome, VerifiedStore};

fn envelope_bytes(height: u32, root: [u8; 32], proof: &[u8]) -> Vec<u8> {
    let mut v = Vec::new();
    v.extend_from_slice(&height.to_be_bytes());
    v.extend_from_slice(&root);
    v.extend_from_slice(proof);
    v
}

#[test]
fn short_envelope_fails_with_decode() {
    for n in 0..36 {
        let bytes = vec![0xCCu8; n];
        assert!(matches!(decode_envelope(&bytes), Err(Error::Decode)));
    }
}

#[test]
fn minimal_envelope_parses_exactly() {
    let bytes = envelope_bytes(0x01020304, [7u8; 32], &[]);
    let env = decode_envelope(&bytes).unwrap();
    assert_eq!(env.height, 0x01020304);
    assert_eq!(env.root_hash, vec![7u8; 32]);
    assert_eq!(env.proof_bytes, Vec::<u8>::new());
}

#[test]
fn envelope_splits_root_and_proof() {
    let bytes = envelope_bytes(9, [0xABu8; 32], &[1, 2, 3, 4, 5]);
    let env = decode_envelope(&bytes).unwrap();
    assert_eq!(env.height, 9);
    assert_eq!(env.root_hash.len(), 32);
    assert_eq!(env.proof_bytes, vec![1, 2, 3, 4, 5]);
}

#[test]
fn query_url_without_pin() {
    let client = WebClient::new();
    let url = client.query_url("https://rest.example", &vec![0x01]);
    assert_eq!(url, "https://rest.example/query/01");
}

#[test]
fn query_url_hex_is_lowercase_two_digits_per_byte() {
    let client = WebClient::new();
    let url = client.query_url("http://e", &vec![0xDE, 0xAD, 0x0F]);
    assert_eq!(url, "http://e/query/dead0f");
}

#[test]
fn query_url_with_pinned_height() {
    let client = WebClient { height: Some(100) };
    let url = client.query_url("https://rest.example", &vec![0x01]);
    assert_eq!(url, "https://rest.example/query/01?height=100");
}

#[test]
fn same_height_twice_succeeds() {
    let mut client = WebClient::new();
    assert!(client.observe_height(42).is_ok());
    assert!(client.observe_height(42).is_ok());
    assert_eq!(client.height, Some(42));
}

#[test]
fn height_change_fails_with_both_heights() {
    let mut client = WebClient::new();
    assert!(client.observe_height(100).is_ok());
    let r = client.observe_height(101);
    assert_eq!(r, Err(Error::Consistency { expected: 100, observed: 101 }));
    assert_eq!(client.height, Some(100));
}

#[test]
fn ingest_rejects_invalid_base64() {
    let mut client = WebClient::new();
    let r = client.ingest_response("!!!not-base64!!!");
    assert!(matches!(r, Err(Error::Decode)));
    assert_eq!(client.height, None);
}

#[test]
fn ingest_rejects_short_envelope() {
    let mut client = WebClient::new();
    let body = base64::encode(vec![0u8; 35]);
    let r = client.ingest_response(&body);
    assert!(matches!(r, Err(Error::Decode)));
    assert_eq!(client.height, None);
}

#[test]
fn pinned_session_scenario() {
    // endpoint https://rest.example, query bytes 0x01, server answers with
    // height 100, a zero root hash, and the one proof byte 0xAA.
    let mut client = WebClient::new();
    let url = client.query_url("https://rest.example", &vec![0x01]);
    assert_eq!(url, "https://rest.example/query/01");

    let body = base64::encode(envelope_bytes(100, [0u8; 32], &[0xAA]));
    let env = client.ingest_response(&body).unwrap();
    assert_eq!(env.height, 100);
    assert_eq!(env.root_hash, vec![0u8; 32]);
    assert_eq!(env.proof_bytes, vec![0xAA]);
    assert_eq!(client.height, Some(100));

    // the verifier accepted (0xAA, zero root) with the empty mapping
    let store = VerifiedStore::from_entries(Vec::new());
    assert_eq!(store.len(), 0);

    // a second response at height 101 must fail the pinned session
    let body2 = base64::encode(envelope_bytes(101, [0u8; 32], &[0xAA]));
    let r = client.ingest_response(&body2);
    assert!(matches!(r, Err(Error::Consistency { expected: 100, observed: 101 })));
    assert_eq!(client.height, Some(100));
}

#[test]
fn verifier_outcome_keeps_entries_or_surfaces_proof_error() {
    let entries = vec![(vec![1u8, 2], vec![3u8])];
    let store = verifier_outcome(Ok(entries.clone())).unwrap();
    assert_eq!(store.entries, entries);

    let r = verifier_outcome(Err("bad proof".to_string()));
    assert!(matches!(r, Err(Error::Proof(d)) if d == "bad proof"));
}

#[test]
fn store_keeps_entries_exactly() {
    let entries = vec![
        (vec![1u8], vec![10u8]),
        (vec![2u8], vec![20u8]),
        (vec![1u8], vec![30u8]),
    ];
    let store = VerifiedStore::from_entries(entries.clone());
    assert_eq!(store.entries, entries);
    assert_eq!(store.len(), 3);
    // lookup returns the first binding of a key
    assert_eq!(store.get(&vec![1u8]), Some(&vec![10u8]));
    assert_eq!(store.get(&vec![2u8]), Some(&vec![20u8]));
    assert_eq!(store.get(&vec![3u8]), None);
}

#[test]
fn query_url_of_empty_query_bytes() {
    let client = WebClient::new();
    let url = client.query_url("http://e", &Vec::new());
    assert_eq!(url, "http://e/query/");
}
