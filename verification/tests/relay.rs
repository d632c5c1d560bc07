use chain_session::error::Error;
use chain_session::relay::{announce_url, Announcement};

#[test]
fn announce_url_is_exact() {
    let url = announce_url("https://r1.example", "+w==", 5, "tb1qaddr");
    assert_eq!(
        url,
        "https://r1.example?dest_bytes=%2Bw%3D%3D&sigset_index=5&deposit_addr=tb1qaddr"
    );
}

#[test]
fn announcement_encodes_commitment_to_base64() {
    // 0xFB encodes to "+w==", whose percent-encoding exercises both the
    // reserved '+' and the '=' padding.
    let a = Announcement::new(&vec![0xFB], 5, "tb1qaddr".to_string(), vec![
        "https://r1.example".to_string(),
    ]);
    assert_eq!(a.commitment_b64, base64::encode(vec![0xFBu8]));
    assert_eq!(a.commitment_b64, "+w==");
    let url = a.next_request().unwrap();
    assert_eq!(
        url,
        "https://r1.example?dest_bytes=%2Bw%3D%3D&sigset_index=5&deposit_addr=tb1qaddr"
    );
}

#[test]
fn announcement_walks_relayers_in_order() {
    let mut a = Announcement::new(&vec![1, 2], 0, "addr".to_string(), vec![
        "https://r1".to_string(),
        "https://r2".to_string(),
    ]);
    let u1 = a.next_request().unwrap();
    assert!(u1.starts_with("https://r1?dest_bytes="));
    assert_eq!(a.on_status(200), Ok(()));
    let u2 = a.next_request().unwrap();
    assert!(u2.starts_with("https://r2?dest_bytes="));
    assert_eq!(a.on_status(200), Ok(()));
    assert_eq!(a.next_request(), None);
    assert!(a.done());
}

#[test]
fn relayer_failure_aborts_the_rest() {
    // over [r1, r2, r3], r2 answers 500: the operation fails with a Relayer
    // error naming 500, and no request is issued for r3.
    let mut a = Announcement::new(&vec![1], 0, "addr".to_string(), vec![
        "https://r1".to_string(),
        "https://r2".to_string(),
        "https://r3".to_string(),
    ]);
    assert!(a.next_request().is_some());
    assert_eq!(a.on_status(200), Ok(()));
    assert!(a.next_request().is_some());
    assert_eq!(a.on_status(500), Err(Error::Relayer { status: 500 }));
    assert_eq!(a.next_request(), None);
    assert!(!a.done());
}

#[test]
fn empty_relayer_list_is_immediately_done() {
    let a = Announcement::new(&vec![1], 0, "addr".to_string(), Vec::new());
    assert_eq!(a.next_request(), None);
    assert!(a.done());
}
