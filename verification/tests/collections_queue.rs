use nft_indexer::collections_queue::{bytes_less, CollectionsQueue, NftCollection, COLLECTIONS_CACHE_SIZE};

fn collection(address: &str) -> NftCollection {
    NftCollection {
        address: address.to_string(),
        owner: "0:owner".to_string(),
        name: None,
        description: None,
        created: 0,
        updated: 0,
        logo: None,
        wallpaper: None,
    }
}

#[test]
fn new_collections_are_given_back_once() {
    let mut q = CollectionsQueue::new_at(vec!["0:a".to_string(), "0:b".to_string(), "0:a".to_string()], 10);
    assert_eq!(q.len(), 2);
    let saved = q.add_collections_at(vec![collection("0:b"), collection("0:c"), collection("0:c"), collection("0:d")], 20);
    let addresses: Vec<&str> = saved.iter().map(|c| c.address.as_str()).collect();
    assert_eq!(addresses, vec!["0:c", "0:d"]);
    assert_eq!(q.len(), 4);
    assert_eq!(q.last_seen(&"0:a".to_string()), Some(10));
    assert_eq!(q.last_seen(&"0:b".to_string()), Some(20));
    assert_eq!(q.last_seen(&"0:c".to_string()), Some(20));
}

#[test]
fn a_full_cache_drops_the_smallest_address() {
    let existing: Vec<String> = (0..COLLECTIONS_CACHE_SIZE).map(|i| format!("0:{:04}", i + 1)).collect();
    let mut q = CollectionsQueue::new_at(existing, 1);
    assert_eq!(q.len(), COLLECTIONS_CACHE_SIZE);
    let saved = q.add_collections_at(vec![collection("0:0000")], 2);
    assert_eq!(saved.len(), 1);
    assert_eq!(q.len(), COLLECTIONS_CACHE_SIZE);
    assert!(!q.contains(&"0:0001".to_string()));
    assert!(q.contains(&"0:0000".to_string()));
    let saved = q.add_collections_at(vec![collection("0:9999")], 3);
    assert_eq!(saved.len(), 1);
    assert!(!q.contains(&"0:0000".to_string()));
    assert!(q.contains(&"0:9999".to_string()));
    assert_eq!(q.len(), COLLECTIONS_CACHE_SIZE);
}

#[test]
fn strings_are_ordered_by_their_bytes() {
    assert!(bytes_less(b"0:a", b"0:b"));
    assert!(bytes_less(b"0:a", b"0:aa"));
    assert!(!bytes_less(b"0:b", b"0:aa"));
    assert!(!bytes_less(b"0:a", b"0:a"));
    assert!(bytes_less(b"", b"0"));
}

#[test]
fn collections_are_stamped_with_the_time_of_the_round() {
    let mut q = CollectionsQueue::new(vec!["0:a".to_string()]);
    let first = q.last_seen(&"0:a".to_string()).unwrap();
    assert!(first > 1_600_000_000);
    let saved = q.add_collections(vec![collection("0:a"), collection("0:b")]);
    let addresses: Vec<&str> = saved.iter().map(|c| c.address.as_str()).collect();
    assert_eq!(addresses, vec!["0:b"]);
    let seen_a = q.last_seen(&"0:a".to_string()).unwrap();
    let seen_b = q.last_seen(&"0:b".to_string()).unwrap();
    assert!(seen_a >= first);
    assert_eq!(seen_a, seen_b);
}
