use state_reconstruct::account::AccountState;
use state_reconstruct::word::zero_word;
use state_reconstruct::word_map::{bytes_equal, WordMap};

fn key(n: u8) -> [u8; 32] {
    let mut out = [0u8; 32];
    out[31] = n;
    out
}

#[test]
fn insert_then_get() {
    let mut map: WordMap<u32> = WordMap::new();
    assert_eq!(map.len(), 0);
    assert_eq!(map.get(&key(1)), None);
    assert!(!map.contains_key(&key(1)));
    assert_eq!(map.insert(key(1), 10), None);
    assert_eq!(map.insert(key(2), 20), None);
    assert_eq!(map.len(), 2);
    assert_eq!(map.get(&key(1)), Some(&10));
    assert_eq!(map.get(&key(2)), Some(&20));
    assert_eq!(map.get(&key(3)), None);
    assert!(map.contains_key(&key(2)));
}

#[test]
fn insert_replaces_and_returns_the_previous_value() {
    let mut map: WordMap<u32> = WordMap::new();
    map.insert(key(1), 10);
    map.insert(key(2), 20);
    map.insert(key(3), 30);
    assert_eq!(map.insert(key(2), 21), Some(20));
    assert_eq!(map.len(), 3);
    assert_eq!(map.get(&key(1)), Some(&10));
    assert_eq!(map.get(&key(2)), Some(&21));
    assert_eq!(map.get(&key(3)), Some(&30));
    assert_eq!(map.insert(key(3), 31), Some(30));
    assert_eq!(map.get(&key(3)), Some(&31));
}

#[test]
fn entries_keep_insertion_order() {
    let mut map: WordMap<u32> = WordMap::new();
    map.insert(key(9), 1);
    map.insert(key(4), 2);
    map.insert(key(7), 3);
    map.insert(key(4), 5);
    let keys: Vec<[u8; 32]> = (0..map.len()).map(|i| *map.key_at(i)).collect();
    let values: Vec<u32> = (0..map.len()).map(|i| *map.value_at(i)).collect();
    assert_eq!(keys, vec![key(9), key(4), key(7)]);
    assert_eq!(values, vec![1, 5, 3]);
}

#[test]
fn clone_copies_every_entry() {
    let mut map: WordMap<Vec<u8>> = WordMap::new();
    map.insert(key(1), vec![1]);
    map.insert(key(2), vec![2, 2]);
    let copy = map.clone();
    map.insert(key(1), vec![]);
    assert_eq!(copy.len(), 2);
    assert_eq!(copy.get(&key(1)), Some(&vec![1]));
    assert_eq!(copy.get(&key(2)), Some(&vec![2, 2]));
}

#[test]
fn keys_are_compared_by_content() {
    assert!(bytes_equal(&key(3), &key(3)));
    assert!(!bytes_equal(&key(3), &key(4)));
    let mut high = key(3);
    high[0] = 1;
    assert!(!bytes_equal(&key(3), &high));
    assert!(bytes_equal::<0>(&[], &[]));
}

#[test]
fn empty_account_is_all_zero() {
    let account = AccountState::empty();
    assert_eq!(account.nonce, [0u8; 32]);
    assert_eq!(account.balance, [0u8; 32]);
    assert!(account.code.is_empty());
    assert_eq!(account.storage.len(), 0);
    assert_eq!(zero_word(), [0u8; 32]);
}
